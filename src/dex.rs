use vstd::prelude::*;
use crate::abi::{
    Address, DecodeError, address_at, address_word, address_word_of, balance_at, encode_address,
    encode_u128, encode_u128_tuple, has_words, lemma_u128_round_trip, lemma_word_count, selector,
    spec_balance_at, spec_selector, spec_u32_at, u128_word, u32_at, word, words_present,
    SELECTOR_BYTES, WORD_BYTES,
};
use crate::support::{
    CallFailure, ExchangeManager, IdentifierTranslator, SwapLimit, account_id_of, asset_id_of,
    response_view, unit_output, unit_response,
};

verus! {

/// The operations of the exchange surface.
#[derive(Debug, Clone, Copy, PartialEq, Eq, Structural)]
pub enum Action {
    GetLiquidityPool,
    GetLiquidityTokenAddress,
    GetSwapTargetAmount,
    GetSwapSupplyAmount,
    SwapWithExactSupply,
    SwapWithExactTarget,
    AddLiquidity,
    RemoveLiquidity,
}

/// The action whose selector is `sel`, if any.
#[verifier::opaque]
pub open spec fn action_of(sel: u32) -> Option<Action> {
    if exists|a: Action| a.spec_selector() == sel {
        Some(choose|a: Action| a.spec_selector() == sel)
    } else {
        None
    }
}

impl Action {
    /// The first four bytes of the keccak-256 digest of the action's signature.
    pub open spec fn spec_selector(self) -> u32 {
        match self {
            Action::GetLiquidityPool => 0xf4f31ede,
            Action::GetLiquidityTokenAddress => 0xffd73c4a,
            Action::GetSwapTargetAmount => 0x4d60beb1,
            Action::GetSwapSupplyAmount => 0xdbcd19a2,
            Action::SwapWithExactSupply => 0x579baa18,
            Action::SwapWithExactTarget => 0x9782ac81,
            Action::AddLiquidity => 0x67088d59,
            Action::RemoveLiquidity => 0x35315332,
        }
    }

    pub fn selector(&self) -> (r: u32)
        ensures
            r == self.spec_selector(),
    {
        match self {
            Action::GetLiquidityPool => 0xf4f31ede,
            Action::GetLiquidityTokenAddress => 0xffd73c4a,
            Action::GetSwapTargetAmount => 0x4d60beb1,
            Action::GetSwapSupplyAmount => 0xdbcd19a2,
            Action::SwapWithExactSupply => 0x579baa18,
            Action::SwapWithExactTarget => 0x9782ac81,
            Action::AddLiquidity => 0x67088d59,
            Action::RemoveLiquidity => 0x35315332,
        }
    }

    /// The call signature that the selector is the digest of.
    pub open spec fn spec_signature(self) -> Seq<char> {
        match self {
            Action::GetLiquidityPool => "getLiquidityPool(address,address)"@,
            Action::GetLiquidityTokenAddress => "getLiquidityTokenAddress(address,address)"@,
            Action::GetSwapTargetAmount => "getSwapTargetAmount(address[],uint256)"@,
            Action::GetSwapSupplyAmount => "getSwapSupplyAmount(address[],uint256)"@,
            Action::SwapWithExactSupply => "swapWithExactSupply(address,address[],uint256,uint256)"@,
            Action::SwapWithExactTarget => "swapWithExactTarget(address,address[],uint256,uint256)"@,
            Action::AddLiquidity => "addLiquidity(address,address,address,uint256,uint256,uint256)"@,
            Action::RemoveLiquidity => "removeLiquidity(address,address,address,uint256,uint256,uint256)"@,
        }
    }

    pub fn signature(&self) -> (r: &'static str)
        ensures
            r@ == self.spec_signature(),
    {
        match self {
            Action::GetLiquidityPool => "getLiquidityPool(address,address)",
            Action::GetLiquidityTokenAddress => "getLiquidityTokenAddress(address,address)",
            Action::GetSwapTargetAmount => "getSwapTargetAmount(address[],uint256)",
            Action::GetSwapSupplyAmount => "getSwapSupplyAmount(address[],uint256)",
            Action::SwapWithExactSupply => "swapWithExactSupply(address,address[],uint256,uint256)",
            Action::SwapWithExactTarget => "swapWithExactTarget(address,address[],uint256,uint256)",
            Action::AddLiquidity => "addLiquidity(address,address,address,uint256,uint256,uint256)",
            Action::RemoveLiquidity => "removeLiquidity(address,address,address,uint256,uint256,uint256)",
        }
    }

    /// Looks a selector up in the table.
    pub fn from_selector(sel: u32) -> (r: Option<Action>)
        ensures
            r == action_of(sel),
    {
        let r = if sel == 0xf4f31ede {
            Some(Action::GetLiquidityPool)
        } else if sel == 0xffd73c4a {
            Some(Action::GetLiquidityTokenAddress)
        } else if sel == 0x4d60beb1 {
            Some(Action::GetSwapTargetAmount)
        } else if sel == 0xdbcd19a2 {
            Some(Action::GetSwapSupplyAmount)
        } else if sel == 0x579baa18 {
            Some(Action::SwapWithExactSupply)
        } else if sel == 0x9782ac81 {
            Some(Action::SwapWithExactTarget)
        } else if sel == 0x67088d59 {
            Some(Action::AddLiquidity)
        } else if sel == 0x35315332 {
            Some(Action::RemoveLiquidity)
        } else {
            None
        };
        proof {
            reveal(action_of);
            match r {
                Some(a) => {
                    assert(a.spec_selector() == sel);
                    assert forall|b: Action| b.spec_selector() == sel implies b == a by {
                        match b {
                            Action::GetLiquidityPool => {},
                            Action::GetLiquidityTokenAddress => {},
                            Action::GetSwapTargetAmount => {},
                            Action::GetSwapSupplyAmount => {},
                            Action::SwapWithExactSupply => {},
                            Action::SwapWithExactTarget => {},
                            Action::AddLiquidity => {},
                            Action::RemoveLiquidity => {},
                        }
                    }
                    let c = choose|c: Action| c.spec_selector() == sel;
                    assert(c.spec_selector() == sel);
                    assert(c == a);
                },
                None => {
                    assert forall|b: Action| #[trigger] b.spec_selector() != sel by {
                        match b {
                            Action::GetLiquidityPool => {},
                            Action::GetLiquidityTokenAddress => {},
                            Action::GetSwapTargetAmount => {},
                            Action::GetSwapSupplyAmount => {},
                            Action::SwapWithExactSupply => {},
                            Action::SwapWithExactTarget => {},
                            Action::AddLiquidity => {},
                            Action::RemoveLiquidity => {},
                        }
                    }
                    assert(!(exists|b: Action| b.spec_selector() == sel));
                },
            }
        }
        r
    }

    /// Number of argument words that the action reads before its swap path elements.
    pub open spec fn spec_fixed_words(self) -> nat {
        match self {
            Action::GetLiquidityPool => 2,
            Action::GetLiquidityTokenAddress => 2,
            Action::GetSwapTargetAmount => 3,
            Action::GetSwapSupplyAmount => 3,
            Action::SwapWithExactSupply => 5,
            Action::SwapWithExactTarget => 5,
            Action::AddLiquidity => 6,
            Action::RemoveLiquidity => 6,
        }
    }

    pub fn fixed_words(&self) -> (r: usize)
        ensures
            r == self.spec_fixed_words(),
    {
        match self {
            Action::GetLiquidityPool => 2,
            Action::GetLiquidityTokenAddress => 2,
            Action::GetSwapTargetAmount => 3,
            Action::GetSwapSupplyAmount => 3,
            Action::SwapWithExactSupply => 5,
            Action::SwapWithExactTarget => 5,
            Action::AddLiquidity => 6,
            Action::RemoveLiquidity => 6,
        }
    }
}

/// The selectors of distinct actions differ, and each names its own action.
pub proof fn lemma_selector_table(a: Action)
    ensures
        action_of(a.spec_selector()) == Some(a),
        forall|sel: u32| #[trigger] action_of(sel) == Some(a) ==> sel == a.spec_selector(),
{
    reveal(action_of);
    let c = choose|c: Action| c.spec_selector() == a.spec_selector();
    assert(c == a) by {
        match c {
            Action::GetLiquidityPool => {},
            Action::GetLiquidityTokenAddress => {},
            Action::GetSwapTargetAmount => {},
            Action::GetSwapSupplyAmount => {},
            Action::SwapWithExactSupply => {},
            Action::SwapWithExactTarget => {},
            Action::AddLiquidity => {},
            Action::RemoveLiquidity => {},
        }
        match a {
            Action::GetLiquidityPool => {},
            Action::GetLiquidityTokenAddress => {},
            Action::GetSwapTargetAmount => {},
            Action::GetSwapSupplyAmount => {},
            Action::SwapWithExactSupply => {},
            Action::SwapWithExactTarget => {},
            Action::AddLiquidity => {},
            Action::RemoveLiquidity => {},
        }
    }
}

/// The action that a payload's selector names.
pub open spec fn spec_action(s: Seq<u8>) -> Result<Action, DecodeError> {
    match spec_selector(s) {
        Err(e) => Err(e),
        Ok(sel) => match action_of(sel) {
            Some(a) => Ok(a),
            None => Err(DecodeError::UnknownSelector),
        },
    }
}

/// Reads the selector of a payload and looks it up.
pub fn action(input: &[u8]) -> (r: Result<Action, DecodeError>)
    ensures
        r == spec_action(input@),
{
    match selector(input) {
        Err(e) => Err(e),
        Ok(sel) => match Action::from_selector(sel) {
            Some(a) => Ok(a),
            None => Err(DecodeError::UnknownSelector),
        },
    }
}

/// The arguments of an exchange call, as decoded from a payload; addresses are raw.
#[derive(Debug, Clone, PartialEq, Eq)]
pub enum DexCall {
    GetLiquidityPool { currency_a: Address, currency_b: Address },
    GetLiquidityTokenAddress { currency_a: Address, currency_b: Address },
    GetSwapTargetAmount { path: Vec<Address>, supply_amount: u128 },
    GetSwapSupplyAmount { path: Vec<Address>, target_amount: u128 },
    SwapWithExactSupply {
        who: Address,
        path: Vec<Address>,
        supply_amount: u128,
        min_target_amount: u128,
    },
    SwapWithExactTarget {
        who: Address,
        path: Vec<Address>,
        target_amount: u128,
        max_supply_amount: u128,
    },
    AddLiquidity {
        who: Address,
        currency_a: Address,
        currency_b: Address,
        max_amount_a: u128,
        max_amount_b: u128,
        min_share_increment: u128,
    },
    RemoveLiquidity {
        who: Address,
        currency_a: Address,
        currency_b: Address,
        remove_share: u128,
        min_withdrawn_a: u128,
        min_withdrawn_b: u128,
    },
}

/// The mathematical value of a [`DexCall`]: addresses as byte sequences.
pub enum DexArgs {
    GetLiquidityPool { currency_a: Seq<u8>, currency_b: Seq<u8> },
    GetLiquidityTokenAddress { currency_a: Seq<u8>, currency_b: Seq<u8> },
    GetSwapTargetAmount { path: Seq<Seq<u8>>, supply_amount: u128 },
    GetSwapSupplyAmount { path: Seq<Seq<u8>>, target_amount: u128 },
    SwapWithExactSupply {
        who: Seq<u8>,
        path: Seq<Seq<u8>>,
        supply_amount: u128,
        min_target_amount: u128,
    },
    SwapWithExactTarget {
        who: Seq<u8>,
        path: Seq<Seq<u8>>,
        target_amount: u128,
        max_supply_amount: u128,
    },
    AddLiquidity {
        who: Seq<u8>,
        currency_a: Seq<u8>,
        currency_b: Seq<u8>,
        max_amount_a: u128,
        max_amount_b: u128,
        min_share_increment: u128,
    },
    RemoveLiquidity {
        who: Seq<u8>,
        currency_a: Seq<u8>,
        currency_b: Seq<u8>,
        remove_share: u128,
        min_withdrawn_a: u128,
        min_withdrawn_b: u128,
    },
}

pub open spec fn path_view(path: Seq<Address>) -> Seq<Seq<u8>> {
    path.map_values(|a: Address| a@)
}

impl View for DexCall {
    type V = DexArgs;

    open spec fn view(&self) -> DexArgs {
        match self {
            DexCall::GetLiquidityPool { currency_a, currency_b } => DexArgs::GetLiquidityPool {
                currency_a: currency_a@,
                currency_b: currency_b@,
            },
            DexCall::GetLiquidityTokenAddress { currency_a, currency_b } => {
                DexArgs::GetLiquidityTokenAddress { currency_a: currency_a@, currency_b: currency_b@ }
            },
            DexCall::GetSwapTargetAmount { path, supply_amount } => DexArgs::GetSwapTargetAmount {
                path: path_view(path@),
                supply_amount: *supply_amount,
            },
            DexCall::GetSwapSupplyAmount { path, target_amount } => DexArgs::GetSwapSupplyAmount {
                path: path_view(path@),
                target_amount: *target_amount,
            },
            DexCall::SwapWithExactSupply { who, path, supply_amount, min_target_amount } => {
                DexArgs::SwapWithExactSupply {
                    who: who@,
                    path: path_view(path@),
                    supply_amount: *supply_amount,
                    min_target_amount: *min_target_amount,
                }
            },
            DexCall::SwapWithExactTarget { who, path, target_amount, max_supply_amount } => {
                DexArgs::SwapWithExactTarget {
                    who: who@,
                    path: path_view(path@),
                    target_amount: *target_amount,
                    max_supply_amount: *max_supply_amount,
                }
            },
            DexCall::AddLiquidity {
                who,
                currency_a,
                currency_b,
                max_amount_a,
                max_amount_b,
                min_share_increment,
            } => DexArgs::AddLiquidity {
                who: who@,
                currency_a: currency_a@,
                currency_b: currency_b@,
                max_amount_a: *max_amount_a,
                max_amount_b: *max_amount_b,
                min_share_increment: *min_share_increment,
            },
            DexCall::RemoveLiquidity {
                who,
                currency_a,
                currency_b,
                remove_share,
                min_withdrawn_a,
                min_withdrawn_b,
            } => DexArgs::RemoveLiquidity {
                who: who@,
                currency_a: currency_a@,
                currency_b: currency_b@,
                remove_share: *remove_share,
                min_withdrawn_a: *min_withdrawn_a,
                min_withdrawn_b: *min_withdrawn_b,
            },
        }
    }
}

/// A swap path whose length word is argument `pos`: the length must not exceed
/// `max` (a length too wide for 32 bits exceeds any cap), must be at least two,
/// and that many address words must follow.
pub open spec fn spec_path_at(s: Seq<u8>, pos: nat, max: u32) -> Result<Seq<Seq<u8>>, DecodeError> {
    match spec_u32_at(s, pos) {
        Err(DecodeError::InvalidEncoding) => Err(DecodeError::ArrayTooLong),
        Err(e) => Err(e),
        Ok(n) => if n > max {
            Err(DecodeError::ArrayTooLong)
        } else if n < 2 {
            Err(DecodeError::InvalidPath)
        } else if !words_present(s, (pos + n) as nat) {
            Err(DecodeError::OutOfBounds)
        } else {
            Ok(Seq::new(n as nat, |k: int| address_word(s, (pos + 1 + k) as nat)))
        },
    }
}

/// The arguments of action `a`, once its fixed words are known to be present.
pub open spec fn spec_dex_args(s: Seq<u8>, a: Action, max: u32) -> Result<DexArgs, DecodeError> {
    match a {
        Action::GetLiquidityPool => Ok(
            DexArgs::GetLiquidityPool { currency_a: address_word(s, 1), currency_b: address_word(s, 2) },
        ),
        Action::GetLiquidityTokenAddress => Ok(
            DexArgs::GetLiquidityTokenAddress {
                currency_a: address_word(s, 1),
                currency_b: address_word(s, 2),
            },
        ),
        Action::GetSwapTargetAmount => match spec_balance_at(s, 2) {
            Err(e) => Err(e),
            Ok(amount) => match spec_path_at(s, 3, max) {
                Err(e) => Err(e),
                Ok(path) => Ok(DexArgs::GetSwapTargetAmount { path, supply_amount: amount }),
            },
        },
        Action::GetSwapSupplyAmount => match spec_balance_at(s, 2) {
            Err(e) => Err(e),
            Ok(amount) => match spec_path_at(s, 3, max) {
                Err(e) => Err(e),
                Ok(path) => Ok(DexArgs::GetSwapSupplyAmount { path, target_amount: amount }),
            },
        },
        Action::SwapWithExactSupply => match spec_balance_at(s, 3) {
            Err(e) => Err(e),
            Ok(amount) => match spec_balance_at(s, 4) {
                Err(e) => Err(e),
                Ok(bound) => match spec_path_at(s, 5, max) {
                    Err(e) => Err(e),
                    Ok(path) => Ok(
                        DexArgs::SwapWithExactSupply {
                            who: address_word(s, 1),
                            path,
                            supply_amount: amount,
                            min_target_amount: bound,
                        },
                    ),
                },
            },
        },
        Action::SwapWithExactTarget => match spec_balance_at(s, 3) {
            Err(e) => Err(e),
            Ok(amount) => match spec_balance_at(s, 4) {
                Err(e) => Err(e),
                Ok(bound) => match spec_path_at(s, 5, max) {
                    Err(e) => Err(e),
                    Ok(path) => Ok(
                        DexArgs::SwapWithExactTarget {
                            who: address_word(s, 1),
                            path,
                            target_amount: amount,
                            max_supply_amount: bound,
                        },
                    ),
                },
            },
        },
        Action::AddLiquidity => match spec_balance_at(s, 4) {
            Err(e) => Err(e),
            Ok(x) => match spec_balance_at(s, 5) {
                Err(e) => Err(e),
                Ok(y) => match spec_balance_at(s, 6) {
                    Err(e) => Err(e),
                    Ok(z) => Ok(
                        DexArgs::AddLiquidity {
                            who: address_word(s, 1),
                            currency_a: address_word(s, 2),
                            currency_b: address_word(s, 3),
                            max_amount_a: x,
                            max_amount_b: y,
                            min_share_increment: z,
                        },
                    ),
                },
            },
        },
        Action::RemoveLiquidity => match spec_balance_at(s, 4) {
            Err(e) => Err(e),
            Ok(x) => match spec_balance_at(s, 5) {
                Err(e) => Err(e),
                Ok(y) => match spec_balance_at(s, 6) {
                    Err(e) => Err(e),
                    Ok(z) => Ok(
                        DexArgs::RemoveLiquidity {
                            who: address_word(s, 1),
                            currency_a: address_word(s, 2),
                            currency_b: address_word(s, 3),
                            remove_share: x,
                            min_withdrawn_a: y,
                            min_withdrawn_b: z,
                        },
                    ),
                },
            },
        },
    }
}

/// What a payload decodes to: the selector names an action, every fixed argument
/// word of that action is present, then the arguments are read in order.
pub open spec fn spec_decode_dex(s: Seq<u8>, max: u32) -> Result<DexArgs, DecodeError> {
    match spec_action(s) {
        Err(e) => Err(e),
        Ok(a) => if !words_present(s, a.spec_fixed_words()) {
            Err(DecodeError::OutOfBounds)
        } else {
            spec_dex_args(s, a, max)
        },
    }
}

/// Reads the swap path whose length word is argument `pos`.
pub fn path_at(input: &[u8], pos: usize, max: u32) -> (r: Result<Vec<Address>, DecodeError>)
    ensures
        match r {
            Ok(path) => spec_path_at(input@, pos as nat, max) == Ok::<Seq<Seq<u8>>, DecodeError>(
                path_view(path@),
            ),
            Err(e) => spec_path_at(input@, pos as nat, max) == Err::<Seq<Seq<u8>>, DecodeError>(e),
        },
{
    let n = match u32_at(input, pos) {
        Ok(n) => n,
        Err(DecodeError::InvalidEncoding) => return Err(DecodeError::ArrayTooLong),
        Err(e) => return Err(e),
    };
    if n > max {
        return Err(DecodeError::ArrayTooLong);
    }
    if n < 2 {
        return Err(DecodeError::InvalidPath);
    }
    let available = (input.len() - SELECTOR_BYTES) / WORD_BYTES;
    proof {
        let l = (input@.len() - 4) as int;
        lemma_word_count(l, pos as int);
        lemma_word_count(l, pos + n);
    }
    if (n as usize) > available - pos {
        return Err(DecodeError::OutOfBounds);
    }
    let mut path: Vec<Address> = Vec::new();
    let mut k: usize = 0;
    while k < n as usize
        invariant
            1 <= pos,
            words_present(input@, (pos + n) as nat),
            pos + n <= available,
            k <= n,
            path@.len() == k,
            forall|j: int| 0 <= j < k ==> #[trigger] path@[j]@ == address_word(input@, (pos + 1 + j) as nat),
        decreases n - k,
    {
        let a = match address_at(input, pos + 1 + k) {
            Ok(a) => a,
            Err(e) => return Err(e),
        };
        path.push(a);
        k = k + 1;
    }
    proof {
        assert(path_view(path@) =~= Seq::new(n as nat, |j: int| address_word(input@, (pos + 1 + j) as nat)));
    }
    Ok(path)
}

/// A payload shorter than a selector names no action, and its decoding fails
/// with `OutOfBounds`.
pub proof fn lemma_short_payload_fails(s: Seq<u8>, max: u32)
    requires
        s.len() < 4,
    ensures
        spec_action(s) == Err::<Action, DecodeError>(DecodeError::OutOfBounds),
        spec_decode_dex(s, max) == Err::<DexArgs, DecodeError>(DecodeError::OutOfBounds),
{
}

/// When the selector names an action and one of that action's fixed argument
/// words lies past the end of the payload, decoding fails with `OutOfBounds`,
/// whatever the other words hold.
pub proof fn lemma_missing_argument_fails(s: Seq<u8>, max: u32, a: Action, i: nat)
    requires
        spec_action(s) == Ok::<Action, DecodeError>(a),
        1 <= i <= a.spec_fixed_words(),
        !words_present(s, i),
    ensures
        spec_decode_dex(s, max) == Err::<DexArgs, DecodeError>(DecodeError::OutOfBounds),
{
}

/// A swap path whose length word declares `n`: above the cap it fails with
/// `ArrayTooLong` and below two with `InvalidPath`, whatever follows the length
/// word; otherwise it decodes exactly when `n` address words follow, and then
/// holds the low 20 bytes of each of those words, in order.
pub proof fn lemma_path_decoding(s: Seq<u8>, pos: nat, max: u32, n: u32)
    requires
        spec_u32_at(s, pos) == Ok::<u32, DecodeError>(n),
    ensures
        n > max ==> spec_path_at(s, pos, max) == Err::<Seq<Seq<u8>>, DecodeError>(
            DecodeError::ArrayTooLong,
        ),
        n <= max && n < 2 ==> spec_path_at(s, pos, max) == Err::<Seq<Seq<u8>>, DecodeError>(
            DecodeError::InvalidPath,
        ),
        2 <= n <= max ==> (spec_path_at(s, pos, max) is Ok <==> words_present(s, (pos + n) as nat)),
        spec_path_at(s, pos, max) is Ok ==> {
            let p = spec_path_at(s, pos, max)->Ok_0;
            &&& 2 <= n <= max
            &&& p.len() == n
            &&& forall|k: int| 0 <= k < n ==> #[trigger] p[k] == address_word(s, (pos + 1 + k) as nat)
        },
{
}

/// A length word too wide for 32 bits is refused as `ArrayTooLong`.
pub proof fn lemma_wide_path_length(s: Seq<u8>, pos: nat, max: u32)
    requires
        spec_u32_at(s, pos) == Err::<u32, DecodeError>(DecodeError::InvalidEncoding),
    ensures
        spec_path_at(s, pos, max) == Err::<Seq<Seq<u8>>, DecodeError>(DecodeError::ArrayTooLong),
{
}

/// A path refused as `ArrayTooLong` is refused on the length word alone: any
/// payload that agrees up to the end of that word, and may end right after it,
/// is refused the same way, so no element word is read.
pub proof fn lemma_path_cap_reads_no_element(s: Seq<u8>, t: Seq<u8>, pos: nat, max: u32)
    requires
        1 <= pos,
        words_present(s, pos),
        words_present(t, pos),
        s.subrange(0, (4 + 32 * pos) as int) == t.subrange(0, (4 + 32 * pos) as int),
        spec_path_at(s, pos, max) == Err::<Seq<Seq<u8>>, DecodeError>(DecodeError::ArrayTooLong),
    ensures
        spec_path_at(t, pos, max) == Err::<Seq<Seq<u8>>, DecodeError>(DecodeError::ArrayTooLong),
{
    let end = (4 + 32 * pos) as int;
    assert(word(s, pos) =~= s.subrange(0, end).subrange(end - 32, end));
    assert(word(t, pos) =~= t.subrange(0, end).subrange(end - 32, end));
    assert(spec_u32_at(s, pos) == spec_u32_at(t, pos));
}

/// On a pool query whose currencies both translate, the response is the two
/// reserves that the manager's state gives, as two words; it depends on that
/// state and the payload alone, so a repeated query on an unchanged manager
/// gives the same bytes.
pub proof fn lemma_pool_query_response<M: ExchangeManager>(m: M, s: Seq<u8>, max: u32)
    requires
        spec_decode_dex(s, max) is Ok,
        spec_decode_dex(s, max)->Ok_0 is GetLiquidityPool,
    ensures
        ({
            let c = spec_decode_dex(s, max)->Ok_0;
            let ca = c->GetLiquidityPool_currency_a;
            let cb = c->GetLiquidityPool_currency_b;
            &&& is_query(c)
            &&& m.spec_currency_id(ca) is Some && m.spec_currency_id(cb) is Some ==> dex_result(m, c)
                == Ok::<Seq<u8>, CallFailure>(
                u128_word(m.spec_pool(m.spec_currency_id(ca)->Some_0, m.spec_currency_id(cb)->Some_0).0)
                    + u128_word(
                    m.spec_pool(m.spec_currency_id(ca)->Some_0, m.spec_currency_id(cb)->Some_0).1,
                ),
            )
        }),
{
}

/// Two answers of the pool query give the same response bytes exactly when
/// they are the same answer: the response is a function of the manager's answer
/// and loses nothing of it.
pub proof fn lemma_pool_response_determined(x1: u128, y1: u128, x2: u128, y2: u128)
    ensures
        (u128_word(x1) + u128_word(y1) == u128_word(x2) + u128_word(y2)) <==> (x1 == x2 && y1 == y2),
{
    let s1 = u128_word(x1) + u128_word(y1);
    let s2 = u128_word(x2) + u128_word(y2);
    if s1 == s2 {
        lemma_u128_round_trip(x1);
        lemma_u128_round_trip(y1);
        lemma_u128_round_trip(x2);
        lemma_u128_round_trip(y2);
        assert(s1.subrange(16, 32) =~= u128_word(x1).subrange(16, 32));
        assert(s2.subrange(16, 32) =~= u128_word(x2).subrange(16, 32));
        assert(s1.subrange(48, 64) =~= u128_word(y1).subrange(16, 32));
        assert(s2.subrange(48, 64) =~= u128_word(y2).subrange(16, 32));
    }
}

/// Decodes an exchange payload into its action's arguments.
///
/// Every fixed argument word of the action is checked to be present before any
/// value is read; then the arguments are read in the order of the signature.
#[verifier::rlimit(50)]
pub fn decode(input: &[u8], max_path_len: u32) -> (r: Result<DexCall, DecodeError>)
    ensures
        match r {
            Ok(c) => spec_decode_dex(input@, max_path_len) == Ok::<DexArgs, DecodeError>(c@),
            Err(e) => spec_decode_dex(input@, max_path_len) == Err::<DexArgs, DecodeError>(e),
        },
{
    let a = match action(input) {
        Ok(a) => a,
        Err(e) => return Err(e),
    };
    if !has_words(input, a.fixed_words()) {
        return Err(DecodeError::OutOfBounds);
    }
    match a {
        Action::GetLiquidityPool | Action::GetLiquidityTokenAddress => {
            let currency_a = match address_at(input, 1) {
                Ok(v) => v,
                Err(e) => return Err(e),
            };
            let currency_b = match address_at(input, 2) {
                Ok(v) => v,
                Err(e) => return Err(e),
            };
            if a == Action::GetLiquidityPool {
                Ok(DexCall::GetLiquidityPool { currency_a, currency_b })
            } else {
                Ok(DexCall::GetLiquidityTokenAddress { currency_a, currency_b })
            }
        },
        Action::GetSwapTargetAmount | Action::GetSwapSupplyAmount => {
            let amount = match balance_at(input, 2) {
                Ok(v) => v,
                Err(e) => return Err(e),
            };
            let path = match path_at(input, 3, max_path_len) {
                Ok(v) => v,
                Err(e) => return Err(e),
            };
            if a == Action::GetSwapTargetAmount {
                Ok(DexCall::GetSwapTargetAmount { path, supply_amount: amount })
            } else {
                Ok(DexCall::GetSwapSupplyAmount { path, target_amount: amount })
            }
        },
        Action::SwapWithExactSupply | Action::SwapWithExactTarget => {
            let who = match address_at(input, 1) {
                Ok(v) => v,
                Err(e) => return Err(e),
            };
            let amount = match balance_at(input, 3) {
                Ok(v) => v,
                Err(e) => return Err(e),
            };
            let bound = match balance_at(input, 4) {
                Ok(v) => v,
                Err(e) => return Err(e),
            };
            let path = match path_at(input, 5, max_path_len) {
                Ok(v) => v,
                Err(e) => return Err(e),
            };
            if a == Action::SwapWithExactSupply {
                Ok(
                    DexCall::SwapWithExactSupply {
                        who,
                        path,
                        supply_amount: amount,
                        min_target_amount: bound,
                    },
                )
            } else {
                Ok(
                    DexCall::SwapWithExactTarget {
                        who,
                        path,
                        target_amount: amount,
                        max_supply_amount: bound,
                    },
                )
            }
        },
        Action::AddLiquidity | Action::RemoveLiquidity => {
            let who = match address_at(input, 1) {
                Ok(v) => v,
                Err(e) => return Err(e),
            };
            let currency_a = match address_at(input, 2) {
                Ok(v) => v,
                Err(e) => return Err(e),
            };
            let currency_b = match address_at(input, 3) {
                Ok(v) => v,
                Err(e) => return Err(e),
            };
            let x = match balance_at(input, 4) {
                Ok(v) => v,
                Err(e) => return Err(e),
            };
            let y = match balance_at(input, 5) {
                Ok(v) => v,
                Err(e) => return Err(e),
            };
            let z = match balance_at(input, 6) {
                Ok(v) => v,
                Err(e) => return Err(e),
            };
            if a == Action::AddLiquidity {
                Ok(
                    DexCall::AddLiquidity {
                        who,
                        currency_a,
                        currency_b,
                        max_amount_a: x,
                        max_amount_b: y,
                        min_share_increment: z,
                    },
                )
            } else {
                Ok(
                    DexCall::RemoveLiquidity {
                        who,
                        currency_a,
                        currency_b,
                        remove_share: x,
                        min_withdrawn_a: y,
                        min_withdrawn_b: z,
                    },
                )
            }
        },
    }
}

/// The amount that a swap reports: the target of an exact supply, the supply of
/// an exact target.
pub open spec fn reported_amount(limit: SwapLimit, amounts: (u128, u128)) -> u128 {
    match limit {
        SwapLimit::ExactSupply(_, _) => amounts.1,
        SwapLimit::ExactTarget(_, _) => amounts.0,
    }
}

pub fn swap_amount(limit: SwapLimit, amounts: (u128, u128)) -> (r: u128)
    ensures
        r == reported_amount(limit, amounts),
{
    match limit {
        SwapLimit::ExactSupply(_, _) => amounts.1,
        SwapLimit::ExactTarget(_, _) => amounts.0,
    }
}

/// The response to a liquidity-token query: the address, or `NotFound`.
pub open spec fn token_address_response(o: Option<Address>) -> Result<Seq<u8>, CallFailure> {
    match o {
        Some(a) => Ok(address_word_of(a@)),
        None => Err(CallFailure::NotFound),
    }
}

/// The response to a swap quote: the reported amount, or `NoRoute`.
pub open spec fn quote_response(limit: SwapLimit, o: Option<(u128, u128)>) -> Result<Seq<u8>, CallFailure> {
    match o {
        Some(x) => Ok(u128_word(reported_amount(limit, x))),
        None => Err(CallFailure::NoRoute),
    }
}

/// The response to a swap: the reported amount, or the manager's reason.
pub open spec fn swap_response(limit: SwapLimit, o: Result<(u128, u128), String>) -> Result<Seq<u8>, CallFailure> {
    match o {
        Ok(x) => Ok(u128_word(reported_amount(limit, x))),
        Err(reason) => Err(CallFailure::Manager(reason)),
    }
}

pub fn token_address_output(o: Option<Address>) -> (r: Result<Vec<u8>, CallFailure>)
    ensures
        response_view(r) == token_address_response(o),
{
    match o {
        Some(a) => Ok(encode_address(&a)),
        None => Err(CallFailure::NotFound),
    }
}

pub fn quote_output(limit: SwapLimit, o: Option<(u128, u128)>) -> (r: Result<Vec<u8>, CallFailure>)
    ensures
        response_view(r) == quote_response(limit, o),
{
    match o {
        Some(x) => Ok(encode_u128(swap_amount(limit, x))),
        None => Err(CallFailure::NoRoute),
    }
}

pub fn swap_output(limit: SwapLimit, o: Result<(u128, u128), String>) -> (r: Result<Vec<u8>, CallFailure>)
    ensures
        response_view(r) == swap_response(limit, o),
{
    match o {
        Ok(x) => Ok(encode_u128(swap_amount(limit, x))),
        Err(reason) => Err(CallFailure::Manager(reason)),
    }
}

/// The call only reads ledger state.
pub open spec fn is_query(c: DexArgs) -> bool {
    match c {
        DexArgs::GetLiquidityPool { .. } => true,
        DexArgs::GetLiquidityTokenAddress { .. } => true,
        DexArgs::GetSwapTargetAmount { .. } => true,
        DexArgs::GetSwapSupplyAmount { .. } => true,
        _ => false,
    }
}

/// Every address of the path stands for a currency of `m`.
pub open spec fn path_translates<M: IdentifierTranslator>(m: M, path: Seq<Seq<u8>>) -> bool {
    forall|k: int| 0 <= k < path.len() ==> (m.spec_currency_id(#[trigger] path[k]) is Some)
}

/// The currencies of the path, in order.
pub open spec fn translated_path<M: IdentifierTranslator>(m: M, path: Seq<Seq<u8>>) -> Seq<M::CurrencyId> {
    path.map_values(|a: Seq<u8>| m.spec_currency_id(a)->Some_0)
}

pub open spec fn unmapped() -> Result<Seq<u8>, CallFailure> {
    Err(CallFailure::Decode(DecodeError::UnmappedIdentifier))
}

/// The response to a decoded exchange call on manager state `m`: the addresses
/// are translated in the order of the arguments (`UnmappedIdentifier` at the
/// first that maps to nothing), then the manager operation of the action is
/// asked with the call's arguments, and its answer encoded.
pub open spec fn dex_result<M: ExchangeManager>(m: M, c: DexArgs) -> Result<Seq<u8>, CallFailure> {
    match c {
        DexArgs::GetLiquidityPool { currency_a, currency_b } => match (
            m.spec_currency_id(currency_a),
            m.spec_currency_id(currency_b),
        ) {
            (Some(a), Some(b)) => Ok(u128_word(m.spec_pool(a, b).0) + u128_word(m.spec_pool(a, b).1)),
            _ => unmapped(),
        },
        DexArgs::GetLiquidityTokenAddress { currency_a, currency_b } => match (
            m.spec_currency_id(currency_a),
            m.spec_currency_id(currency_b),
        ) {
            (Some(a), Some(b)) => token_address_response(m.spec_token_address(a, b)),
            _ => unmapped(),
        },
        DexArgs::GetSwapTargetAmount { path, supply_amount } => if path_translates(m, path) {
            let limit = SwapLimit::ExactSupply(supply_amount, 0);
            quote_response(limit, m.spec_swap_amount(translated_path(m, path), limit))
        } else {
            unmapped()
        },
        DexArgs::GetSwapSupplyAmount { path, target_amount } => if path_translates(m, path) {
            let limit = SwapLimit::ExactTarget(u128::MAX, target_amount);
            quote_response(limit, m.spec_swap_amount(translated_path(m, path), limit))
        } else {
            unmapped()
        },
        DexArgs::SwapWithExactSupply { who, path, supply_amount, min_target_amount } => match m.spec_account_id(who) {
            Some(w) => if path_translates(m, path) {
                let limit = SwapLimit::ExactSupply(supply_amount, min_target_amount);
                swap_response(limit, m.spec_swap(w, translated_path(m, path), limit))
            } else {
                unmapped()
            },
            None => unmapped(),
        },
        DexArgs::SwapWithExactTarget { who, path, target_amount, max_supply_amount } => match m.spec_account_id(who) {
            Some(w) => if path_translates(m, path) {
                let limit = SwapLimit::ExactTarget(max_supply_amount, target_amount);
                swap_response(limit, m.spec_swap(w, translated_path(m, path), limit))
            } else {
                unmapped()
            },
            None => unmapped(),
        },
        DexArgs::AddLiquidity {
            who,
            currency_a,
            currency_b,
            max_amount_a,
            max_amount_b,
            min_share_increment,
        } => match (m.spec_account_id(who), m.spec_currency_id(currency_a), m.spec_currency_id(currency_b)) {
            (Some(w), Some(a), Some(b)) => unit_response(
                m.spec_add_liquidity(w, a, b, max_amount_a, max_amount_b, min_share_increment, false),
            ),
            _ => unmapped(),
        },
        DexArgs::RemoveLiquidity {
            who,
            currency_a,
            currency_b,
            remove_share,
            min_withdrawn_a,
            min_withdrawn_b,
        } => match (m.spec_account_id(who), m.spec_currency_id(currency_a), m.spec_currency_id(currency_b)) {
            (Some(w), Some(a), Some(b)) => unit_response(
                m.spec_remove_liquidity(w, a, b, remove_share, min_withdrawn_a, min_withdrawn_b, false),
            ),
            _ => unmapped(),
        },
    }
}

/// Translates an address into a currency of the manager.
fn currency_of<M: ExchangeManager>(manager: &M, a: &Address) -> (r: Result<M::CurrencyId, CallFailure>)
    ensures
        match manager.spec_currency_id(a@) {
            Some(id) => r == Ok::<M::CurrencyId, CallFailure>(id),
            None => r == Err::<M::CurrencyId, CallFailure>(CallFailure::Decode(DecodeError::UnmappedIdentifier)),
        },
{
    match asset_id_of(manager, a) {
        Ok(c) => Ok(c),
        Err(e) => Err(CallFailure::Decode(e)),
    }
}

/// Translates an address into an account of the manager.
fn account_of<M: ExchangeManager>(manager: &M, a: &Address) -> (r: Result<M::AccountId, CallFailure>)
    ensures
        match manager.spec_account_id(a@) {
            Some(id) => r == Ok::<M::AccountId, CallFailure>(id),
            None => r == Err::<M::AccountId, CallFailure>(CallFailure::Decode(DecodeError::UnmappedIdentifier)),
        },
{
    match account_id_of(manager, a) {
        Ok(c) => Ok(c),
        Err(e) => Err(CallFailure::Decode(e)),
    }
}

/// Translates every address of a swap path, in order; stops at the first unmapped one.
fn path_of<M: ExchangeManager>(manager: &M, path: &Vec<Address>) -> (r: Result<Vec<M::CurrencyId>, CallFailure>)
    ensures
        path_translates(*manager, path_view(path@)) ==> r == Ok::<Vec<M::CurrencyId>, CallFailure>(
            r->Ok_0,
        ) && r->Ok_0@ == translated_path(*manager, path_view(path@)),
        !path_translates(*manager, path_view(path@)) ==> r == Err::<Vec<M::CurrencyId>, CallFailure>(
            CallFailure::Decode(DecodeError::UnmappedIdentifier),
        ),
{
    let ghost pv = path_view(path@);
    let mut out: Vec<M::CurrencyId> = Vec::new();
    let mut k: usize = 0;
    while k < path.len()
        invariant
            k <= path@.len(),
            pv == path_view(path@),
            out@.len() == k,
            forall|j: int| 0 <= j < k ==> manager.spec_currency_id(#[trigger] pv[j]) == Some(out@[j]),
        decreases path@.len() - k,
    {
        let c = match currency_of(manager, &path[k]) {
            Ok(c) => c,
            Err(f) => {
                assert(pv[k as int] == path@[k as int]@);
                return Err(f);
            },
        };
        out.push(c);
        k = k + 1;
    }
    proof {
        assert(out@ =~= translated_path(*manager, pv));
    }
    Ok(out)
}

/// The exchange surface: decodes a payload, drives the exchange manager and
/// encodes its answer.
pub struct DexPrecompile {
    /// The longest swap path that a payload may declare.
    pub max_path_len: u32,
}

impl DexPrecompile {
    /// Runs one call.
    ///
    /// A payload that does not decode fails with its decode error and leaves the
    /// manager as it was. Otherwise the response is `dex_result` on the manager's
    /// state before the call, and a query leaves the manager as it was.
    pub fn execute<M: ExchangeManager>(&self, manager: &mut M, input: &[u8]) -> (r: Result<Vec<u8>, CallFailure>)
        ensures
            match spec_decode_dex(input@, self.max_path_len) {
                Err(e) => r == Err::<Vec<u8>, CallFailure>(CallFailure::Decode(e)) && *final(manager)
                    == *old(manager),
                Ok(c) => response_view(r) == dex_result(*old(manager), c) && (is_query(c)
                    ==> *final(manager) == *old(manager)),
            },
    {
        let call = match decode(input, self.max_path_len) {
            Ok(c) => c,
            Err(e) => return Err(CallFailure::Decode(e)),
        };
        match call {
            DexCall::GetLiquidityPool { currency_a, currency_b } => {
                let a = currency_of(manager, &currency_a)?;
                let b = currency_of(manager, &currency_b)?;
                let (x, y) = manager.get_liquidity_pool(&a, &b);
                Ok(encode_u128_tuple(x, y))
            },
            DexCall::GetLiquidityTokenAddress { currency_a, currency_b } => {
                let a = currency_of(manager, &currency_a)?;
                let b = currency_of(manager, &currency_b)?;
                token_address_output(manager.get_liquidity_token_address(&a, &b))
            },
            DexCall::GetSwapTargetAmount { path, supply_amount } => {
                let p = path_of(manager, &path)?;
                let limit = SwapLimit::ExactSupply(supply_amount, 0);
                quote_output(limit, manager.get_swap_amount(&p, limit))
            },
            DexCall::GetSwapSupplyAmount { path, target_amount } => {
                let p = path_of(manager, &path)?;
                let limit = SwapLimit::ExactTarget(u128::MAX, target_amount);
                quote_output(limit, manager.get_swap_amount(&p, limit))
            },
            DexCall::SwapWithExactSupply { who, path, supply_amount, min_target_amount } => {
                let w = account_of(manager, &who)?;
                let p = path_of(manager, &path)?;
                let limit = SwapLimit::ExactSupply(supply_amount, min_target_amount);
                swap_output(limit, manager.swap_with_specific_path(&w, &p, limit))
            },
            DexCall::SwapWithExactTarget { who, path, target_amount, max_supply_amount } => {
                let w = account_of(manager, &who)?;
                let p = path_of(manager, &path)?;
                let limit = SwapLimit::ExactTarget(max_supply_amount, target_amount);
                swap_output(limit, manager.swap_with_specific_path(&w, &p, limit))
            },
            DexCall::AddLiquidity {
                who,
                currency_a,
                currency_b,
                max_amount_a,
                max_amount_b,
                min_share_increment,
            } => {
                let w = account_of(manager, &who)?;
                let a = currency_of(manager, &currency_a)?;
                let b = currency_of(manager, &currency_b)?;
                unit_output(
                    manager.add_liquidity(
                        &w,
                        &a,
                        &b,
                        max_amount_a,
                        max_amount_b,
                        min_share_increment,
                        false,
                    ),
                )
            },
            DexCall::RemoveLiquidity {
                who,
                currency_a,
                currency_b,
                remove_share,
                min_withdrawn_a,
                min_withdrawn_b,
            } => {
                let w = account_of(manager, &who)?;
                let a = currency_of(manager, &currency_a)?;
                let b = currency_of(manager, &currency_b)?;
                unit_output(
                    manager.remove_liquidity(
                        &w,
                        &a,
                        &b,
                        remove_share,
                        min_withdrawn_a,
                        min_withdrawn_b,
                        false,
                    ),
                )
            },
        }
    }
}

} // verus!
