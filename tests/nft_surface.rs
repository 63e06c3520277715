use std::cell::Cell;

use evm_precompile::abi::{Address, DecodeError};
use evm_precompile::nft::{self, owner_output, Action, NFTPrecompile, NftCall};
use evm_precompile::support::{unit_output, AssetRegistry, CallFailure, IdentifierTranslator};
use tiny_keccak::{Hasher, Keccak};
use vstd::seq::Seq;

fn keccak_selector(sig: &str) -> u32 {
    let mut k = Keccak::v256();
    k.update(sig.as_bytes());
    let mut out = [0u8; 32];
    k.finalize(&mut out);
    u32::from_be_bytes([out[0], out[1], out[2], out[3]])
}

fn uint_word(v: u128) -> [u8; 32] {
    let mut w = [0u8; 32];
    w[16..].copy_from_slice(&v.to_be_bytes());
    w
}

fn addr(id: u8) -> Address {
    let mut a = [0u8; 20];
    a[19] = id;
    a
}

fn addr_word(id: u8) -> [u8; 32] {
    let mut w = [0u8; 32];
    w[31] = id;
    w
}

fn payload(a: Action, words: &[[u8; 32]]) -> Vec<u8> {
    let mut v = a.selector().to_be_bytes().to_vec();
    for w in words {
        v.extend_from_slice(w);
    }
    v
}

struct StubRegistry {
    balance: u128,
    owner: Option<u32>,
    transfer: Result<(), String>,
    calls: Cell<u32>,
    last_token: Cell<Option<(u32, u64, u32)>>,
}

impl StubRegistry {
    fn new() -> StubRegistry {
        StubRegistry { balance: 3, owner: None, transfer: Ok(()), calls: Cell::new(0), last_token: Cell::new(None) }
    }
}

impl IdentifierTranslator for StubRegistry {
    type AccountId = u32;
    type CurrencyId = u32;

    fn spec_account_id(&self, _address: Seq<u8>) -> Option<u32> {
        unreachable!("model only")
    }

    fn spec_currency_id(&self, _address: Seq<u8>) -> Option<u32> {
        unreachable!("model only")
    }

    fn spec_evm_address(&self, _account: u32) -> Address {
        unreachable!("model only")
    }

    fn account_id(&self, address: &Address) -> Option<u32> {
        if address[0] == 0xff { None } else { Some(address[19] as u32) }
    }

    fn currency_id(&self, _address: &Address) -> Option<u32> {
        None
    }

    fn evm_address(&self, account: &u32) -> Address {
        addr(*account as u8)
    }
}

impl AssetRegistry for StubRegistry {
    fn spec_balance(&self, _who: u32) -> u128 {
        unreachable!("model only")
    }

    fn spec_owner(&self, _class_id: u32, _token_id: u64) -> Option<u32> {
        unreachable!("model only")
    }

    fn spec_transfer(&self, _class_id: u32, _token_id: u64, _to: u32) -> Result<(), String> {
        unreachable!("model only")
    }

    fn balance(&self, who: &u32) -> u128 {
        self.calls.set(self.calls.get() + 1);
        self.balance + *who as u128
    }

    fn owner(&self, class_id: u32, token_id: u64) -> Option<u32> {
        self.calls.set(self.calls.get() + 1);
        self.last_token.set(Some((class_id, token_id, 0)));
        self.owner
    }

    fn transfer(&mut self, class_id: u32, token_id: u64, to: &u32) -> Result<(), String> {
        self.calls.set(self.calls.get() + 1);
        self.last_token.set(Some((class_id, token_id, *to)));
        self.transfer.clone()
    }
}

#[test]
fn nft_selectors_are_keccak_of_signatures() {
    for a in [Action::QueryBalance, Action::QueryOwner, Action::Transfer] {
        assert_eq!(a.selector(), keccak_selector(a.signature()), "{}", a.signature());
        assert_eq!(Action::from_selector(a.selector()), Some(a));
    }
    assert_eq!(Action::from_selector(0), None);
}

#[test]
fn nft_short_payload_has_no_action() {
    assert_eq!(nft::action(&[0x70, 0xa0]), Err(DecodeError::OutOfBounds));
    let mut r = StubRegistry::new();
    assert_eq!(NFTPrecompile.execute(&mut r, &[]), Err(CallFailure::Decode(DecodeError::OutOfBounds)));
    assert_eq!(r.calls.get(), 0);
}

#[test]
fn query_owner_of_unowned_token_is_zero_address() {
    let p = payload(Action::QueryOwner, &[uint_word(1), uint_word(2)]);
    let mut r = StubRegistry::new();
    assert_eq!(NFTPrecompile.execute(&mut r, &p), Ok(vec![0u8; 32]));
    assert_eq!(r.last_token.get(), Some((1, 2, 0)));
    assert_eq!(owner_output(None), vec![0u8; 32]);
}

#[test]
fn query_owner_of_owned_token() {
    let p = payload(Action::QueryOwner, &[uint_word(1), uint_word(2)]);
    let mut r = StubRegistry::new();
    r.owner = Some(42);
    assert_eq!(NFTPrecompile.execute(&mut r, &p), Ok(addr_word(42).to_vec()));
    assert_eq!(owner_output(Some(addr(5))), addr_word(5).to_vec());
}

#[test]
fn query_owner_rejects_wide_class_id() {
    let p = payload(Action::QueryOwner, &[uint_word(1u128 << 32), uint_word(2)]);
    let mut r = StubRegistry::new();
    assert_eq!(NFTPrecompile.execute(&mut r, &p), Err(CallFailure::Decode(DecodeError::InvalidEncoding)));
    assert_eq!(r.calls.get(), 0);
}

#[test]
fn query_balance() {
    let p = payload(Action::QueryBalance, &[addr_word(4)]);
    let mut r = StubRegistry::new();
    assert_eq!(NFTPrecompile.execute(&mut r, &p), Ok(uint_word(7).to_vec()));
    let mut bad = addr_word(4);
    bad[12] = 0xff;
    let p = payload(Action::QueryBalance, &[bad]);
    let mut r = StubRegistry::new();
    assert_eq!(
        NFTPrecompile.execute(&mut r, &p),
        Err(CallFailure::Decode(DecodeError::UnmappedIdentifier))
    );
    assert_eq!(r.calls.get(), 0);
    let p = payload(Action::Transfer, &[addr_word(1), bad, uint_word(3), uint_word(4)]);
    assert_eq!(
        NFTPrecompile.execute(&mut r, &p),
        Err(CallFailure::Decode(DecodeError::UnmappedIdentifier))
    );
    assert_eq!(r.calls.get(), 0);
}

#[test]
fn transfer_token() {
    let words = [addr_word(1), addr_word(2), uint_word(3), uint_word(4)];
    let p = payload(Action::Transfer, &words);
    assert_eq!(
        nft::decode(&p),
        Ok(NftCall::Transfer { from: addr(1), to: addr(2), class_id: 3, token_id: 4 })
    );
    let mut r = StubRegistry::new();
    assert_eq!(NFTPrecompile.execute(&mut r, &p), Ok(vec![]));
    assert_eq!(r.last_token.get(), Some((3, 4, 2)));
    r.transfer = Err("no permission".to_string());
    assert_eq!(NFTPrecompile.execute(&mut r, &p), Err(CallFailure::Manager("no permission".to_string())));
    let mut r = StubRegistry::new();
    assert_eq!(
        NFTPrecompile.execute(&mut r, &p[..p.len() - 1]),
        Err(CallFailure::Decode(DecodeError::OutOfBounds))
    );
    assert_eq!(r.calls.get(), 0);
    assert_eq!(unit_output(Ok(())), Ok(vec![]));
}
