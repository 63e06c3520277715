use vstd::prelude::*;
use crate::abi::{Address, DecodeError, address_at, spec_address_at};

verus! {

/// Which side of a swap is fixed and the bound on the other side.
#[derive(Debug, Clone, Copy, PartialEq, Eq, Structural)]
pub enum SwapLimit {
    /// Supply exactly the first amount; receive at least the second.
    ExactSupply(u128, u128),
    /// Supply at most the first amount; receive exactly the second.
    ExactTarget(u128, u128),
}

/// Why a call failed.
#[derive(Debug, Clone, PartialEq, Eq)]
pub enum CallFailure {
    /// The payload could not be decoded; no manager operation ran.
    Decode(DecodeError),
    /// The manager knows no such object.
    NotFound,
    /// The manager knows no route for the requested swap.
    NoRoute,
    /// The manager refused the operation, for the reason it gave.
    Manager(String),
}

/// Translation between the calling machine's addresses and ledger identifiers.
///
/// Each query comes with a spec function that models it; an implementation
/// defines the model and proves its method against it.
pub trait IdentifierTranslator {
    type AccountId;
    type CurrencyId;

    /// Model of `account_id`.
    spec fn spec_account_id(&self, address: Seq<u8>) -> Option<Self::AccountId>;

    /// Model of `currency_id`.
    spec fn spec_currency_id(&self, address: Seq<u8>) -> Option<Self::CurrencyId>;

    /// Model of `evm_address`.
    spec fn spec_evm_address(&self, account: Self::AccountId) -> Address;

    /// The ledger account behind an address, if any.
    fn account_id(&self, address: &Address) -> (r: Option<Self::AccountId>)
        ensures
            r == self.spec_account_id(address@),
    ;

    /// The currency that an address stands for, if any.
    fn currency_id(&self, address: &Address) -> (r: Option<Self::CurrencyId>)
        ensures
            r == self.spec_currency_id(address@),
    ;

    /// The address under which an account is seen by the calling machine: its
    /// mapped address, or the default one derived from the account.
    fn evm_address(&self, account: &Self::AccountId) -> (r: Address)
        ensures
            r == self.spec_evm_address(*account),
    ;
}

/// The exchange engine that the exchange surface drives.
///
/// Each operation is modelled by a spec function of the engine's state and the
/// arguments; the mutating ones are modelled by the result they give on the
/// state they start from.
pub trait ExchangeManager: IdentifierTranslator {
    /// Model of `get_liquidity_pool`.
    spec fn spec_pool(&self, a: Self::CurrencyId, b: Self::CurrencyId) -> (u128, u128);

    /// Model of `get_liquidity_token_address`.
    spec fn spec_token_address(&self, a: Self::CurrencyId, b: Self::CurrencyId) -> Option<Address>;

    /// Model of `get_swap_amount`.
    spec fn spec_swap_amount(&self, path: Seq<Self::CurrencyId>, limit: SwapLimit) -> Option<(u128, u128)>;

    /// Model of the result of `swap_with_specific_path`.
    spec fn spec_swap(&self, who: Self::AccountId, path: Seq<Self::CurrencyId>, limit: SwapLimit) -> Result<
        (u128, u128),
        String,
    >;

    /// Model of the result of `add_liquidity`.
    spec fn spec_add_liquidity(
        &self,
        who: Self::AccountId,
        a: Self::CurrencyId,
        b: Self::CurrencyId,
        max_amount_a: u128,
        max_amount_b: u128,
        min_share_increment: u128,
        stake_increment_share: bool,
    ) -> Result<(), String>;

    /// Model of the result of `remove_liquidity`.
    spec fn spec_remove_liquidity(
        &self,
        who: Self::AccountId,
        a: Self::CurrencyId,
        b: Self::CurrencyId,
        remove_share: u128,
        min_withdrawn_a: u128,
        min_withdrawn_b: u128,
        by_unstake: bool,
    ) -> Result<(), String>;

    /// The reserves of the pool of `a` and `b`.
    fn get_liquidity_pool(&self, a: &Self::CurrencyId, b: &Self::CurrencyId) -> (r: (u128, u128))
        ensures
            r == self.spec_pool(*a, *b),
    ;

    /// The address of the liquidity token of the pair, if there is one.
    fn get_liquidity_token_address(&self, a: &Self::CurrencyId, b: &Self::CurrencyId) -> (r: Option<Address>)
        ensures
            r == self.spec_token_address(*a, *b),
    ;

    /// The (supply, target) amounts of a swap along `path`, if it can be made.
    fn get_swap_amount(&self, path: &Vec<Self::CurrencyId>, limit: SwapLimit) -> (r: Option<(u128, u128)>)
        ensures
            r == self.spec_swap_amount(path@, limit),
    ;

    /// Swaps along `path`; gives the (supply, target) amounts actually moved.
    fn swap_with_specific_path(
        &mut self,
        who: &Self::AccountId,
        path: &Vec<Self::CurrencyId>,
        limit: SwapLimit,
    ) -> (r: Result<(u128, u128), String>)
        ensures
            r == old(self).spec_swap(*who, path@, limit),
    ;

    fn add_liquidity(
        &mut self,
        who: &Self::AccountId,
        a: &Self::CurrencyId,
        b: &Self::CurrencyId,
        max_amount_a: u128,
        max_amount_b: u128,
        min_share_increment: u128,
        stake_increment_share: bool,
    ) -> (r: Result<(), String>)
        ensures
            r == old(self).spec_add_liquidity(
                *who,
                *a,
                *b,
                max_amount_a,
                max_amount_b,
                min_share_increment,
                stake_increment_share,
            ),
    ;

    fn remove_liquidity(
        &mut self,
        who: &Self::AccountId,
        a: &Self::CurrencyId,
        b: &Self::CurrencyId,
        remove_share: u128,
        min_withdrawn_a: u128,
        min_withdrawn_b: u128,
        by_unstake: bool,
    ) -> (r: Result<(), String>)
        ensures
            r == old(self).spec_remove_liquidity(
                *who,
                *a,
                *b,
                remove_share,
                min_withdrawn_a,
                min_withdrawn_b,
                by_unstake,
            ),
    ;
}

/// The registry of non-fungible tokens that the asset surface drives.
pub trait AssetRegistry: IdentifierTranslator {
    /// Model of `balance`.
    spec fn spec_balance(&self, who: Self::AccountId) -> u128;

    /// Model of `owner`.
    spec fn spec_owner(&self, class_id: u32, token_id: u64) -> Option<Self::AccountId>;

    /// Model of the result of `transfer`.
    spec fn spec_transfer(&self, class_id: u32, token_id: u64, to: Self::AccountId) -> Result<(), String>;

    /// The number of tokens that an account holds.
    fn balance(&self, who: &Self::AccountId) -> (r: u128)
        ensures
            r == self.spec_balance(*who),
    ;

    /// The owner of a token, if it is owned.
    fn owner(&self, class_id: u32, token_id: u64) -> (r: Option<Self::AccountId>)
        ensures
            r == self.spec_owner(class_id, token_id),
    ;

    /// Moves a token to `to`.
    fn transfer(&mut self, class_id: u32, token_id: u64, to: &Self::AccountId) -> (r: Result<(), String>)
        ensures
            r == old(self).spec_transfer(class_id, token_id, *to),
    ;
}

/// A response as bytes, or the failure.
pub open spec fn response_view(r: Result<Vec<u8>, CallFailure>) -> Result<Seq<u8>, CallFailure> {
    match r {
        Ok(out) => Ok(out@),
        Err(f) => Err(f),
    }
}

/// The response to an operation that returns nothing: empty, or the manager's reason.
pub open spec fn unit_response(o: Result<(), String>) -> Result<Seq<u8>, CallFailure> {
    match o {
        Ok(_) => Ok(Seq::empty()),
        Err(reason) => Err(CallFailure::Manager(reason)),
    }
}

/// The response to an operation that returns nothing: empty, or the manager's reason.
pub fn unit_output(o: Result<(), String>) -> (r: Result<Vec<u8>, CallFailure>)
    ensures
        response_view(r) == unit_response(o),
{
    match o {
        Ok(_) => {
            let out: Vec<u8> = Vec::new();
            proof {
                assert(out@ =~= Seq::empty());
            }
            Ok(out)
        },
        Err(reason) => Err(CallFailure::Manager(reason)),
    }
}

/// The account behind an address, or `UnmappedIdentifier`.
pub open spec fn spec_account_of<T: IdentifierTranslator>(t: T, a: Seq<u8>) -> Result<T::AccountId, DecodeError> {
    match t.spec_account_id(a) {
        Some(id) => Ok(id),
        None => Err(DecodeError::UnmappedIdentifier),
    }
}

/// The currency behind an address, or `UnmappedIdentifier`.
pub open spec fn spec_asset_of<T: IdentifierTranslator>(t: T, a: Seq<u8>) -> Result<T::CurrencyId, DecodeError> {
    match t.spec_currency_id(a) {
        Some(id) => Ok(id),
        None => Err(DecodeError::UnmappedIdentifier),
    }
}

/// Translates an address into a ledger account; `UnmappedIdentifier` when none
/// corresponds.
pub fn account_id_of<T: IdentifierTranslator>(t: &T, a: &Address) -> (r: Result<T::AccountId, DecodeError>)
    ensures
        r == spec_account_of(*t, a@),
{
    match t.account_id(a) {
        Some(id) => Ok(id),
        None => Err(DecodeError::UnmappedIdentifier),
    }
}

/// Translates an address into a currency; `UnmappedIdentifier` when none
/// corresponds.
pub fn asset_id_of<T: IdentifierTranslator>(t: &T, a: &Address) -> (r: Result<T::CurrencyId, DecodeError>)
    ensures
        r == spec_asset_of(*t, a@),
{
    match t.currency_id(a) {
        Some(id) => Ok(id),
        None => Err(DecodeError::UnmappedIdentifier),
    }
}

/// Reads the address of argument word `index` and translates it into an account.
pub fn account_id_at<T: IdentifierTranslator>(t: &T, input: &[u8], index: usize) -> (r: Result<
    T::AccountId,
    DecodeError,
>)
    ensures
        r == match spec_address_at(input@, index as nat) {
            Err(e) => Err(e),
            Ok(a) => spec_account_of(*t, a),
        },
{
    match address_at(input, index) {
        Ok(a) => account_id_of(t, &a),
        Err(e) => Err(e),
    }
}

/// Reads the address of argument word `index` and translates it into a currency.
pub fn asset_id_at<T: IdentifierTranslator>(t: &T, input: &[u8], index: usize) -> (r: Result<
    T::CurrencyId,
    DecodeError,
>)
    ensures
        r == match spec_address_at(input@, index as nat) {
            Err(e) => Err(e),
            Ok(a) => spec_asset_of(*t, a),
        },
{
    match address_at(input, index) {
        Ok(a) => asset_id_of(t, &a),
        Err(e) => Err(e),
    }
}

} // verus!
