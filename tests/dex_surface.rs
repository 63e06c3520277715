use std::cell::{Cell, RefCell};

use evm_precompile::abi::{Address, DecodeError};
use evm_precompile::dex::{
    self, quote_output, swap_output, token_address_output, Action, DexCall, DexPrecompile,
};
use evm_precompile::support::{
    account_id_at, asset_id_at, CallFailure, ExchangeManager, IdentifierTranslator, SwapLimit,
};
use tiny_keccak::{Hasher, Keccak};
use vstd::seq::Seq;

fn keccak_selector(sig: &str) -> u32 {
    let mut k = Keccak::v256();
    k.update(sig.as_bytes());
    let mut out = [0u8; 32];
    k.finalize(&mut out);
    u32::from_be_bytes([out[0], out[1], out[2], out[3]])
}

fn uint_word(v: u128) -> [u8; 32] {
    let mut w = [0u8; 32];
    w[16..].copy_from_slice(&v.to_be_bytes());
    w
}

fn addr(id: u8) -> Address {
    let mut a = [0u8; 20];
    a[19] = id;
    a
}

fn addr_word(id: u8) -> [u8; 32] {
    let mut w = [0u8; 32];
    w[31] = id;
    w
}

fn payload(a: Action, words: &[[u8; 32]]) -> Vec<u8> {
    let mut v = a.selector().to_be_bytes().to_vec();
    for w in words {
        v.extend_from_slice(w);
    }
    v
}

/// An exchange whose answers are fixed in advance and which counts the calls made to it.
struct StubDex {
    pool: (u128, u128),
    token: Option<Address>,
    quote: Option<(u128, u128)>,
    swap: Result<(u128, u128), String>,
    change: Result<(), String>,
    calls: Cell<u32>,
    last_limit: Cell<Option<SwapLimit>>,
    last_path: RefCell<Vec<u32>>,
    last_amounts: RefCell<Vec<u128>>,
}

impl StubDex {
    fn new() -> StubDex {
        StubDex {
            pool: (100, 200),
            token: Some(addr(9)),
            quote: Some((10, 20)),
            swap: Ok((1000, 1950)),
            change: Ok(()),
            calls: Cell::new(0),
            last_limit: Cell::new(None),
            last_path: RefCell::new(vec![]),
            last_amounts: RefCell::new(vec![]),
        }
    }
}

impl IdentifierTranslator for StubDex {
    type AccountId = Address;
    type CurrencyId = u32;

    fn spec_account_id(&self, _address: Seq<u8>) -> Option<Address> {
        unreachable!("model only")
    }

    fn spec_currency_id(&self, _address: Seq<u8>) -> Option<u32> {
        unreachable!("model only")
    }

    fn spec_evm_address(&self, _account: Address) -> Address {
        unreachable!("model only")
    }

    fn account_id(&self, address: &Address) -> Option<Address> {
        if address[0] == 0xff { None } else { Some(*address) }
    }

    fn currency_id(&self, address: &Address) -> Option<u32> {
        if address[0] == 0xff { None } else { Some(address[19] as u32) }
    }

    fn evm_address(&self, account: &Address) -> Address {
        *account
    }
}

impl ExchangeManager for StubDex {
    fn spec_pool(&self, _a: u32, _b: u32) -> (u128, u128) {
        unreachable!("model only")
    }

    fn spec_token_address(&self, _a: u32, _b: u32) -> Option<Address> {
        unreachable!("model only")
    }

    fn spec_swap_amount(&self, _path: Seq<u32>, _limit: SwapLimit) -> Option<(u128, u128)> {
        unreachable!("model only")
    }

    fn spec_swap(&self, _who: Address, _path: Seq<u32>, _limit: SwapLimit) -> Result<(u128, u128), String> {
        unreachable!("model only")
    }

    fn spec_add_liquidity(
        &self,
        _who: Address,
        _a: u32,
        _b: u32,
        _max_amount_a: u128,
        _max_amount_b: u128,
        _min_share_increment: u128,
        _stake_increment_share: bool,
    ) -> Result<(), String> {
        unreachable!("model only")
    }

    fn spec_remove_liquidity(
        &self,
        _who: Address,
        _a: u32,
        _b: u32,
        _remove_share: u128,
        _min_withdrawn_a: u128,
        _min_withdrawn_b: u128,
        _by_unstake: bool,
    ) -> Result<(), String> {
        unreachable!("model only")
    }

    fn get_liquidity_pool(&self, a: &u32, b: &u32) -> (u128, u128) {
        self.calls.set(self.calls.get() + 1);
        *self.last_path.borrow_mut() = vec![*a, *b];
        self.pool
    }

    fn get_liquidity_token_address(&self, a: &u32, b: &u32) -> Option<Address> {
        self.calls.set(self.calls.get() + 1);
        *self.last_path.borrow_mut() = vec![*a, *b];
        self.token
    }

    fn get_swap_amount(&self, path: &Vec<u32>, limit: SwapLimit) -> Option<(u128, u128)> {
        self.calls.set(self.calls.get() + 1);
        *self.last_path.borrow_mut() = path.clone();
        self.last_limit.set(Some(limit));
        self.quote
    }

    fn swap_with_specific_path(
        &mut self,
        _who: &Address,
        path: &Vec<u32>,
        limit: SwapLimit,
    ) -> Result<(u128, u128), String> {
        self.calls.set(self.calls.get() + 1);
        *self.last_path.borrow_mut() = path.clone();
        self.last_limit.set(Some(limit));
        self.swap.clone()
    }

    fn add_liquidity(
        &mut self,
        _who: &Address,
        a: &u32,
        b: &u32,
        max_amount_a: u128,
        max_amount_b: u128,
        min_share_increment: u128,
        stake_increment_share: bool,
    ) -> Result<(), String> {
        self.calls.set(self.calls.get() + 1);
        assert!(!stake_increment_share);
        *self.last_path.borrow_mut() = vec![*a, *b];
        *self.last_amounts.borrow_mut() = vec![max_amount_a, max_amount_b, min_share_increment];
        self.change.clone()
    }

    fn remove_liquidity(
        &mut self,
        _who: &Address,
        a: &u32,
        b: &u32,
        remove_share: u128,
        min_withdrawn_a: u128,
        min_withdrawn_b: u128,
        by_unstake: bool,
    ) -> Result<(), String> {
        self.calls.set(self.calls.get() + 1);
        assert!(!by_unstake);
        *self.last_path.borrow_mut() = vec![*a, *b];
        *self.last_amounts.borrow_mut() = vec![remove_share, min_withdrawn_a, min_withdrawn_b];
        self.change.clone()
    }
}

const ALL: [Action; 8] = [
    Action::GetLiquidityPool,
    Action::GetLiquidityTokenAddress,
    Action::GetSwapTargetAmount,
    Action::GetSwapSupplyAmount,
    Action::SwapWithExactSupply,
    Action::SwapWithExactTarget,
    Action::AddLiquidity,
    Action::RemoveLiquidity,
];

fn precompile() -> DexPrecompile {
    DexPrecompile { max_path_len: 4 }
}

fn swap_supply_payload(path_len: u128, path: &[u8]) -> Vec<u8> {
    let mut words = vec![addr_word(7), uint_word(0xa0), uint_word(1000), uint_word(1), uint_word(path_len)];
    for id in path {
        words.push(addr_word(*id));
    }
    payload(Action::SwapWithExactSupply, &words)
}

#[test]
fn selectors_are_keccak_of_signatures() {
    for a in ALL {
        assert_eq!(a.selector(), keccak_selector(a.signature()), "{}", a.signature());
        assert_eq!(Action::from_selector(a.selector()), Some(a));
    }
    assert_eq!(Action::from_selector(0xdeadbeef), None);
}

#[test]
fn short_payload_has_no_action() {
    for p in [vec![], vec![0xf4], vec![0xf4, 0xf3, 0x1e]] {
        assert_eq!(dex::action(&p), Err(DecodeError::OutOfBounds));
        let mut m = StubDex::new();
        assert_eq!(
            precompile().execute(&mut m, &p),
            Err(CallFailure::Decode(DecodeError::OutOfBounds))
        );
        assert_eq!(m.calls.get(), 0);
    }
}

#[test]
fn unknown_selector_is_refused() {
    let p = vec![0xde, 0xad, 0xbe, 0xef, 0, 0];
    assert_eq!(dex::action(&p), Err(DecodeError::UnknownSelector));
    let mut m = StubDex::new();
    assert_eq!(
        precompile().execute(&mut m, &p),
        Err(CallFailure::Decode(DecodeError::UnknownSelector))
    );
    assert_eq!(m.calls.get(), 0);
}

#[test]
fn get_liquidity_pool_scenario() {
    let p = payload(Action::GetLiquidityPool, &[addr_word(1), addr_word(2)]);
    assert_eq!(p.len(), 68);
    let mut m = StubDex::new();
    let out = precompile().execute(&mut m, &p).unwrap();
    let mut expected = uint_word(100).to_vec();
    expected.extend_from_slice(&uint_word(200));
    assert_eq!(out.len(), 64);
    assert_eq!(out, expected);
    assert_eq!(*m.last_path.borrow(), vec![1, 2]);
}

#[test]
fn get_liquidity_pool_twice_gives_same_bytes() {
    let p = payload(Action::GetLiquidityPool, &[addr_word(1), addr_word(2)]);
    let mut m = StubDex::new();
    let first = precompile().execute(&mut m, &p);
    let second = precompile().execute(&mut m, &p);
    assert!(first.is_ok());
    assert_eq!(first, second);
}

#[test]
fn missing_argument_is_out_of_bounds_and_calls_nothing() {
    let full = payload(Action::GetLiquidityPool, &[addr_word(1), addr_word(2)]);
    for cut in [4usize, 36, 67] {
        let mut m = StubDex::new();
        assert_eq!(
            precompile().execute(&mut m, &full[..cut]),
            Err(CallFailure::Decode(DecodeError::OutOfBounds))
        );
        assert_eq!(m.calls.get(), 0);
    }
    let add = payload(
        Action::AddLiquidity,
        &[addr_word(7), addr_word(1), addr_word(2), uint_word(5), uint_word(6)],
    );
    let mut m = StubDex::new();
    assert_eq!(
        precompile().execute(&mut m, &add),
        Err(CallFailure::Decode(DecodeError::OutOfBounds))
    );
    assert_eq!(m.calls.get(), 0);
}

#[test]
fn swap_with_exact_supply_scenario() {
    let p = swap_supply_payload(2, &[1, 2]);
    let mut m = StubDex::new();
    let out = precompile().execute(&mut m, &p).unwrap();
    assert_eq!(out, uint_word(1950).to_vec());
    assert_eq!(m.last_limit.get(), Some(SwapLimit::ExactSupply(1000, 1)));
    assert_eq!(*m.last_path.borrow(), vec![1, 2]);
}

#[test]
fn swap_with_exact_supply_manager_refusal() {
    let p = swap_supply_payload(2, &[1, 2]);
    let mut m = StubDex::new();
    m.swap = Err("liquidity too low".to_string());
    assert_eq!(
        precompile().execute(&mut m, &p),
        Err(CallFailure::Manager("liquidity too low".to_string()))
    );
    assert_eq!(m.calls.get(), 1);
}

#[test]
fn swap_with_exact_target_reports_supply() {
    let p = payload(
        Action::SwapWithExactTarget,
        &[addr_word(7), uint_word(0xa0), uint_word(500), uint_word(900), uint_word(3), addr_word(1), addr_word(2), addr_word(3)],
    );
    let mut m = StubDex::new();
    m.swap = Ok((880, 500));
    assert_eq!(precompile().execute(&mut m, &p), Ok(uint_word(880).to_vec()));
    assert_eq!(m.last_limit.get(), Some(SwapLimit::ExactTarget(900, 500)));
    assert_eq!(*m.last_path.borrow(), vec![1, 2, 3]);
}

#[test]
fn path_length_rules() {
    let pre = precompile();
    for (len, path, err) in [
        (0u128, vec![], DecodeError::InvalidPath),
        (1, vec![1], DecodeError::InvalidPath),
        (5, vec![1, 2, 3, 4, 5], DecodeError::ArrayTooLong),
        (u32::MAX as u128, vec![], DecodeError::ArrayTooLong),
        (3, vec![1, 2], DecodeError::OutOfBounds),
        (1u128 << 40, vec![1, 2], DecodeError::ArrayTooLong),
    ] {
        let p = swap_supply_payload(len, &path);
        let mut m = StubDex::new();
        assert_eq!(pre.execute(&mut m, &p), Err(CallFailure::Decode(err)));
        assert_eq!(m.calls.get(), 0);
    }
    let mut m = StubDex::new();
    let cut = swap_supply_payload(9, &[]);
    assert_eq!(cut.len(), 4 + 32 * 5);
    assert_eq!(pre.execute(&mut m, &cut), Err(CallFailure::Decode(DecodeError::ArrayTooLong)));
    assert_eq!(m.calls.get(), 0);
    let p = swap_supply_payload(4, &[1, 2, 3, 4]);
    match dex::decode(&p, 4) {
        Ok(DexCall::SwapWithExactSupply { who, path, supply_amount, min_target_amount }) => {
            assert_eq!(who, addr(7));
            assert_eq!(path, vec![addr(1), addr(2), addr(3), addr(4)]);
            assert_eq!(supply_amount, 1000);
            assert_eq!(min_target_amount, 1);
        }
        other => panic!("unexpected {:?}", other),
    }
}

#[test]
fn swap_quotes() {
    let p = payload(
        Action::GetSwapTargetAmount,
        &[uint_word(0x40), uint_word(300), uint_word(2), addr_word(1), addr_word(2)],
    );
    let mut m = StubDex::new();
    assert_eq!(precompile().execute(&mut m, &p), Ok(uint_word(20).to_vec()));
    assert_eq!(m.last_limit.get(), Some(SwapLimit::ExactSupply(300, 0)));

    let p = payload(
        Action::GetSwapSupplyAmount,
        &[uint_word(0x40), uint_word(300), uint_word(2), addr_word(1), addr_word(2)],
    );
    assert_eq!(precompile().execute(&mut m, &p), Ok(uint_word(10).to_vec()));
    assert_eq!(m.last_limit.get(), Some(SwapLimit::ExactTarget(u128::MAX, 300)));

    m.quote = None;
    assert_eq!(precompile().execute(&mut m, &p), Err(CallFailure::NoRoute));
}

#[test]
fn liquidity_token_address() {
    let p = payload(Action::GetLiquidityTokenAddress, &[addr_word(1), addr_word(2)]);
    let mut m = StubDex::new();
    assert_eq!(precompile().execute(&mut m, &p), Ok(addr_word(9).to_vec()));
    m.token = None;
    assert_eq!(precompile().execute(&mut m, &p), Err(CallFailure::NotFound));
}

#[test]
fn add_and_remove_liquidity() {
    let words = [addr_word(7), addr_word(1), addr_word(2), uint_word(5), uint_word(6), uint_word(7)];
    let mut m = StubDex::new();
    assert_eq!(precompile().execute(&mut m, &payload(Action::AddLiquidity, &words)), Ok(vec![]));
    assert_eq!(*m.last_amounts.borrow(), vec![5, 6, 7]);
    assert_eq!(*m.last_path.borrow(), vec![1, 2]);
    m.change = Err("pair disabled".to_string());
    assert_eq!(
        precompile().execute(&mut m, &payload(Action::RemoveLiquidity, &words)),
        Err(CallFailure::Manager("pair disabled".to_string()))
    );
    assert_eq!(*m.last_amounts.borrow(), vec![5, 6, 7]);
}

#[test]
fn unmapped_currency_stops_before_the_manager() {
    let mut bad = addr_word(2);
    bad[12] = 0xff;
    let p = payload(Action::GetLiquidityPool, &[addr_word(1), bad]);
    let mut m = StubDex::new();
    assert_eq!(
        precompile().execute(&mut m, &p),
        Err(CallFailure::Decode(DecodeError::UnmappedIdentifier))
    );
    assert_eq!(m.calls.get(), 0);
}

#[test]
fn response_builders() {
    assert_eq!(token_address_output(None), Err(CallFailure::NotFound));
    assert_eq!(token_address_output(Some(addr(3))), Ok(addr_word(3).to_vec()));
    assert_eq!(quote_output(SwapLimit::ExactSupply(1, 0), None), Err(CallFailure::NoRoute));
    assert_eq!(quote_output(SwapLimit::ExactSupply(1, 0), Some((4, 5))), Ok(uint_word(5).to_vec()));
    assert_eq!(quote_output(SwapLimit::ExactTarget(1, 0), Some((4, 5))), Ok(uint_word(4).to_vec()));
    assert_eq!(
        swap_output(SwapLimit::ExactSupply(1, 0), Err("slippage".to_string())),
        Err(CallFailure::Manager("slippage".to_string()))
    );
    assert_eq!(swap_output(SwapLimit::ExactTarget(1, 0), Ok((4, 5))), Ok(uint_word(4).to_vec()));
}

#[test]
fn translating_accessors() {
    let m = StubDex::new();
    let mut bad = addr_word(3);
    bad[12] = 0xff;
    let p = payload(Action::GetLiquidityPool, &[addr_word(5), bad]);
    assert_eq!(asset_id_at(&m, &p, 1), Ok(5));
    assert_eq!(account_id_at(&m, &p, 1), Ok(addr(5)));
    assert_eq!(asset_id_at(&m, &p, 2), Err(DecodeError::UnmappedIdentifier));
    assert_eq!(account_id_at(&m, &p, 2), Err(DecodeError::UnmappedIdentifier));
    assert_eq!(asset_id_at(&m, &p, 3), Err(DecodeError::OutOfBounds));
    assert_eq!(account_id_at(&m, &p, 3), Err(DecodeError::OutOfBounds));
}
