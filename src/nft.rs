use vstd::prelude::*;
use crate::abi::{
    Address, DecodeError, address_at, address_word, address_word_of, encode_address, encode_u128,
    has_words, selector, spec_selector, spec_u32_at, spec_u64_at, u128_word, u32_at, u64_at,
    words_present,
};
use crate::support::{AssetRegistry, CallFailure, account_id_of, response_view, unit_output, unit_response};

verus! {

/// The operations of the asset-registry surface.
#[derive(Debug, Clone, Copy, PartialEq, Eq, Structural)]
pub enum Action {
    QueryBalance,
    QueryOwner,
    Transfer,
}

/// The action whose selector is `sel`, if any.
#[verifier::opaque]
pub open spec fn action_of(sel: u32) -> Option<Action> {
    if exists|a: Action| a.spec_selector() == sel {
        Some(choose|a: Action| a.spec_selector() == sel)
    } else {
        None
    }
}

impl Action {
    /// The first four bytes of the keccak-256 digest of the action's signature.
    pub open spec fn spec_selector(self) -> u32 {
        match self {
            Action::QueryBalance => 0x70a08231,
            Action::QueryOwner => 0xd9dad80d,
            Action::Transfer => 0x0411b252,
        }
    }

    pub fn selector(&self) -> (r: u32)
        ensures
            r == self.spec_selector(),
    {
        match self {
            Action::QueryBalance => 0x70a08231,
            Action::QueryOwner => 0xd9dad80d,
            Action::Transfer => 0x0411b252,
        }
    }

    /// The call signature that the selector is the digest of.
    pub open spec fn spec_signature(self) -> Seq<char> {
        match self {
            Action::QueryBalance => "balanceOf(address)"@,
            Action::QueryOwner => "ownerOf(uint256,uint256)"@,
            Action::Transfer => "transfer(address,address,uint256,uint256)"@,
        }
    }

    pub fn signature(&self) -> (r: &'static str)
        ensures
            r@ == self.spec_signature(),
    {
        match self {
            Action::QueryBalance => "balanceOf(address)",
            Action::QueryOwner => "ownerOf(uint256,uint256)",
            Action::Transfer => "transfer(address,address,uint256,uint256)",
        }
    }

    /// Looks a selector up in the table.
    pub fn from_selector(sel: u32) -> (r: Option<Action>)
        ensures
            r == action_of(sel),
    {
        let r = if sel == 0x70a08231 {
            Some(Action::QueryBalance)
        } else if sel == 0xd9dad80d {
            Some(Action::QueryOwner)
        } else if sel == 0x0411b252 {
            Some(Action::Transfer)
        } else {
            None
        };
        proof {
            reveal(action_of);
            match r {
                Some(a) => {
                    assert(a.spec_selector() == sel);
                    assert forall|b: Action| b.spec_selector() == sel implies b == a by {
                        match b {
                            Action::QueryBalance => {},
                            Action::QueryOwner => {},
                            Action::Transfer => {},
                        }
                    }
                    let c = choose|c: Action| c.spec_selector() == sel;
                    assert(c.spec_selector() == sel);
                    assert(c == a);
                },
                None => {
                    assert forall|b: Action| #[trigger] b.spec_selector() != sel by {
                        match b {
                            Action::QueryBalance => {},
                            Action::QueryOwner => {},
                            Action::Transfer => {},
                        }
                    }
                    assert(!(exists|b: Action| b.spec_selector() == sel));
                },
            }
        }
        r
    }

    /// Number of argument words that the action reads.
    pub open spec fn spec_fixed_words(self) -> nat {
        match self {
            Action::QueryBalance => 1,
            Action::QueryOwner => 2,
            Action::Transfer => 4,
        }
    }

    pub fn fixed_words(&self) -> (r: usize)
        ensures
            r == self.spec_fixed_words(),
    {
        match self {
            Action::QueryBalance => 1,
            Action::QueryOwner => 2,
            Action::Transfer => 4,
        }
    }
}

/// The selectors of distinct actions differ, and each names its own action.
pub proof fn lemma_selector_table(a: Action)
    ensures
        action_of(a.spec_selector()) == Some(a),
        forall|sel: u32| #[trigger] action_of(sel) == Some(a) ==> sel == a.spec_selector(),
{
    reveal(action_of);
    let c = choose|c: Action| c.spec_selector() == a.spec_selector();
    assert(c == a) by {
        match c {
            Action::QueryBalance => {},
            Action::QueryOwner => {},
            Action::Transfer => {},
        }
        match a {
            Action::QueryBalance => {},
            Action::QueryOwner => {},
            Action::Transfer => {},
        }
    }
}

/// The action that a payload's selector names.
pub open spec fn spec_action(s: Seq<u8>) -> Result<Action, DecodeError> {
    match spec_selector(s) {
        Err(e) => Err(e),
        Ok(sel) => match action_of(sel) {
            Some(a) => Ok(a),
            None => Err(DecodeError::UnknownSelector),
        },
    }
}

/// Reads the selector of a payload and looks it up.
pub fn action(input: &[u8]) -> (r: Result<Action, DecodeError>)
    ensures
        r == spec_action(input@),
{
    match selector(input) {
        Err(e) => Err(e),
        Ok(sel) => match Action::from_selector(sel) {
            Some(a) => Ok(a),
            None => Err(DecodeError::UnknownSelector),
        },
    }
}

/// The arguments of an asset-registry call; addresses are raw.
#[derive(Debug, Clone, Copy, PartialEq, Eq)]
pub enum NftCall {
    QueryBalance { who: Address },
    QueryOwner { class_id: u32, token_id: u64 },
    Transfer { from: Address, to: Address, class_id: u32, token_id: u64 },
}

/// The mathematical value of an [`NftCall`]: addresses as byte sequences.
pub enum NftArgs {
    QueryBalance { who: Seq<u8> },
    QueryOwner { class_id: u32, token_id: u64 },
    Transfer { from: Seq<u8>, to: Seq<u8>, class_id: u32, token_id: u64 },
}

impl View for NftCall {
    type V = NftArgs;

    open spec fn view(&self) -> NftArgs {
        match self {
            NftCall::QueryBalance { who } => NftArgs::QueryBalance { who: who@ },
            NftCall::QueryOwner { class_id, token_id } => NftArgs::QueryOwner {
                class_id: *class_id,
                token_id: *token_id,
            },
            NftCall::Transfer { from, to, class_id, token_id } => NftArgs::Transfer {
                from: from@,
                to: to@,
                class_id: *class_id,
                token_id: *token_id,
            },
        }
    }
}

/// What a payload decodes to: the selector names an action, every argument word
/// of that action is present, then the arguments are read in order.
pub open spec fn spec_decode_nft(s: Seq<u8>) -> Result<NftArgs, DecodeError> {
    match spec_action(s) {
        Err(e) => Err(e),
        Ok(a) => if !words_present(s, a.spec_fixed_words()) {
            Err(DecodeError::OutOfBounds)
        } else {
            match a {
                Action::QueryBalance => Ok(NftArgs::QueryBalance { who: address_word(s, 1) }),
                Action::QueryOwner => match spec_u32_at(s, 1) {
                    Err(e) => Err(e),
                    Ok(class_id) => match spec_u64_at(s, 2) {
                        Err(e) => Err(e),
                        Ok(token_id) => Ok(NftArgs::QueryOwner { class_id, token_id }),
                    },
                },
                Action::Transfer => match spec_u32_at(s, 3) {
                    Err(e) => Err(e),
                    Ok(class_id) => match spec_u64_at(s, 4) {
                        Err(e) => Err(e),
                        Ok(token_id) => Ok(
                            NftArgs::Transfer {
                                from: address_word(s, 1),
                                to: address_word(s, 2),
                                class_id,
                                token_id,
                            },
                        ),
                    },
                },
            }
        },
    }
}

/// A payload shorter than a selector names no action, and its decoding fails
/// with `OutOfBounds`.
pub proof fn lemma_short_payload_fails(s: Seq<u8>)
    requires
        s.len() < 4,
    ensures
        spec_action(s) == Err::<Action, DecodeError>(DecodeError::OutOfBounds),
        spec_decode_nft(s) == Err::<NftArgs, DecodeError>(DecodeError::OutOfBounds),
{
}

/// When the selector names an action and one of that action's argument words
/// lies past the end of the payload, decoding fails with `OutOfBounds`.
pub proof fn lemma_missing_argument_fails(s: Seq<u8>, a: Action, i: nat)
    requires
        spec_action(s) == Ok::<Action, DecodeError>(a),
        1 <= i <= a.spec_fixed_words(),
        !words_present(s, i),
    ensures
        spec_decode_nft(s) == Err::<NftArgs, DecodeError>(DecodeError::OutOfBounds),
{
}

/// Decodes an asset-registry payload into its action's arguments.
pub fn decode(input: &[u8]) -> (r: Result<NftCall, DecodeError>)
    ensures
        match r {
            Ok(c) => spec_decode_nft(input@) == Ok::<NftArgs, DecodeError>(c@),
            Err(e) => spec_decode_nft(input@) == Err::<NftArgs, DecodeError>(e),
        },
{
    let a = match action(input) {
        Ok(a) => a,
        Err(e) => return Err(e),
    };
    if !has_words(input, a.fixed_words()) {
        return Err(DecodeError::OutOfBounds);
    }
    match a {
        Action::QueryBalance => {
            let who = match address_at(input, 1) {
                Ok(v) => v,
                Err(e) => return Err(e),
            };
            Ok(NftCall::QueryBalance { who })
        },
        Action::QueryOwner => {
            let class_id = match u32_at(input, 1) {
                Ok(v) => v,
                Err(e) => return Err(e),
            };
            let token_id = match u64_at(input, 2) {
                Ok(v) => v,
                Err(e) => return Err(e),
            };
            Ok(NftCall::QueryOwner { class_id, token_id })
        },
        Action::Transfer => {
            let from = match address_at(input, 1) {
                Ok(v) => v,
                Err(e) => return Err(e),
            };
            let to = match address_at(input, 2) {
                Ok(v) => v,
                Err(e) => return Err(e),
            };
            let class_id = match u32_at(input, 3) {
                Ok(v) => v,
                Err(e) => return Err(e),
            };
            let token_id = match u64_at(input, 4) {
                Ok(v) => v,
                Err(e) => return Err(e),
            };
            Ok(NftCall::Transfer { from, to, class_id, token_id })
        },
    }
}

/// The address that stands for "no owner": twenty zero bytes.
pub open spec fn zero_address() -> Seq<u8> {
    Seq::new(20, |k: int| 0u8)
}

/// The response to an owner query: the owner's address, or the zero address when
/// the token is unowned.
pub fn owner_output(o: Option<Address>) -> (r: Vec<u8>)
    ensures
        match o {
            Some(a) => r@ == address_word_of(a@),
            None => r@ == address_word_of(zero_address()),
        },
{
    match o {
        Some(a) => encode_address(&a),
        None => {
            let z: Address = [0u8; 20];
            proof {
                assert(z@ =~= zero_address());
            }
            encode_address(&z)
        },
    }
}

/// The call only reads ledger state.
pub open spec fn is_query(c: NftArgs) -> bool {
    !(c is Transfer)
}

/// The response to a decoded asset-registry call on registry state `m`.
///
/// A balance query translates the account and answers its balance. An owner
/// query always succeeds: the owner's address, or the zero address for an
/// unowned token. A transfer translates the sender and then the recipient
/// (`UnmappedIdentifier` at the first that maps to nothing) and moves the token
/// to the recipient.
pub open spec fn nft_result<R: AssetRegistry>(m: R, c: NftArgs) -> Result<Seq<u8>, CallFailure> {
    match c {
        NftArgs::QueryBalance { who } => match m.spec_account_id(who) {
            Some(w) => Ok(u128_word(m.spec_balance(w))),
            None => Err(CallFailure::Decode(DecodeError::UnmappedIdentifier)),
        },
        NftArgs::QueryOwner { class_id, token_id } => Ok(
            address_word_of(
                match m.spec_owner(class_id, token_id) {
                    Some(o) => m.spec_evm_address(o)@,
                    None => zero_address(),
                },
            ),
        ),
        NftArgs::Transfer { from, to, class_id, token_id } => match (
            m.spec_account_id(from),
            m.spec_account_id(to),
        ) {
            (Some(_), Some(t)) => unit_response(m.spec_transfer(class_id, token_id, t)),
            _ => Err(CallFailure::Decode(DecodeError::UnmappedIdentifier)),
        },
    }
}

/// An owner query never fails: it answers the owner's address, or the zero
/// address when the token is unowned.
pub proof fn lemma_owner_query_response<R: AssetRegistry>(m: R, class_id: u32, token_id: u64)
    ensures
        m.spec_owner(class_id, token_id) is None ==> nft_result(m, NftArgs::QueryOwner { class_id, token_id })
            == Ok::<Seq<u8>, CallFailure>(Seq::new(32, |k: int| 0u8)),
        m.spec_owner(class_id, token_id) is Some ==> nft_result(m, NftArgs::QueryOwner { class_id, token_id })
            == Ok::<Seq<u8>, CallFailure>(
            address_word_of(m.spec_evm_address(m.spec_owner(class_id, token_id)->Some_0)@),
        ),
{
    assert(address_word_of(zero_address()) =~= Seq::new(32, |k: int| 0u8));
}

/// Translates an address into an account of the registry.
fn account_of<R: AssetRegistry>(registry: &R, a: &Address) -> (r: Result<R::AccountId, CallFailure>)
    ensures
        match registry.spec_account_id(a@) {
            Some(id) => r == Ok::<R::AccountId, CallFailure>(id),
            None => r == Err::<R::AccountId, CallFailure>(CallFailure::Decode(DecodeError::UnmappedIdentifier)),
        },
{
    match account_id_of(registry, a) {
        Ok(c) => Ok(c),
        Err(e) => Err(CallFailure::Decode(e)),
    }
}

/// The asset-registry surface: decodes a payload, drives the registry and
/// encodes its answer.
pub struct NFTPrecompile;

impl NFTPrecompile {
    /// Runs one call.
    ///
    /// A payload that does not decode fails with its decode error and leaves the
    /// registry as it was. Otherwise the response is `nft_result` on the
    /// registry's state before the call, and a query leaves the registry as it was.
    pub fn execute<R: AssetRegistry>(&self, registry: &mut R, input: &[u8]) -> (r: Result<Vec<u8>, CallFailure>)
        ensures
            match spec_decode_nft(input@) {
                Err(e) => r == Err::<Vec<u8>, CallFailure>(CallFailure::Decode(e)) && *final(registry)
                    == *old(registry),
                Ok(c) => response_view(r) == nft_result(*old(registry), c) && (is_query(c)
                    ==> *final(registry) == *old(registry)),
            },
    {
        let call = match decode(input) {
            Ok(c) => c,
            Err(e) => return Err(CallFailure::Decode(e)),
        };
        match call {
            NftCall::QueryBalance { who } => {
                let w = account_of(registry, &who)?;
                Ok(encode_u128(registry.balance(&w)))
            },
            NftCall::QueryOwner { class_id, token_id } => {
                let owner = match registry.owner(class_id, token_id) {
                    Some(o) => Some(registry.evm_address(&o)),
                    None => None,
                };
                Ok(owner_output(owner))
            },
            NftCall::Transfer { from, to, class_id, token_id } => {
                let _from = account_of(registry, &from)?;
                let t = account_of(registry, &to)?;
                unit_output(registry.transfer(class_id, token_id, &t))
            },
        }
    }
}

} // verus!
