//! The values the pallet stores, emits and returns.
use vstd::prelude::*;

verus! {

/// Two assets named together.
#[derive(Clone, Copy, PartialEq, Eq, Structural, Debug)]
pub struct AssetPair {
    pub asset_a: u32,
    pub asset_b: u32,
}

/// A liquidity pool: its two assets in the order its creator named them, the reserves of
/// each, and the asset that represents a share of the pool.
#[derive(Clone, Copy, PartialEq, Eq, Debug)]
pub struct LiquidityPool {
    pub asset_ids: (u32, u32),
    pub balances: (u128, u128),
    pub liquidity_token_id: u32,
}

impl LiquidityPool {
    pub fn get_asset_id_a(&self) -> (r: u32)
        ensures
            r == self.asset_ids.0,
    {
        self.asset_ids.0
    }

    pub fn get_asset_a_balance(&self) -> (r: u128)
        ensures
            r == self.balances.0,
    {
        self.balances.0
    }

    pub fn get_asset_b_balance(&self) -> (r: u128)
        ensures
            r == self.balances.1,
    {
        self.balances.1
    }
}

/// The configuration of the pallet: the identifier from which its own account is derived.
#[derive(Clone, Copy, PartialEq, Eq, Debug)]
pub struct Config {
    pub pallet_id: [u8; 8],
}

/// Who dispatches a call: the root, a signing account, or no one (an unsigned call).
#[derive(Clone, Copy, PartialEq, Eq, Structural, Debug)]
pub enum Origin {
    Root,
    Signed(u64),
    Unsigned,
}

/// Events that the pallet deposits.
#[derive(Clone, Copy, PartialEq, Eq, Debug)]
pub enum Event {
    PoolCreated {
        pool_id: (u32, u32),
        asset_id_a: u32,
        asset_id_b: u32,
        creator: u64,
        liquidity_token_id: u32,
    },
    LiquiditySupplied {
        pool_id: (u32, u32),
        liquidity_token_id: u32,
        asset_id_a: u32,
        asset_id_b: u32,
        amount_a: u128,
        amount_b: u128,
        liquidity_token_minted: u128,
    },
}

/// The pallet's own errors.
#[derive(Clone, Copy, PartialEq, Eq, Structural, Debug)]
pub enum Error {
    /// Can not create a pool that already exists.
    DuplicatePoolError,
    /// Assets in the pool must be distinct.
    DistinctAssetsRequired,
    /// Trying to do an operation on a pool that does not exists. Create pool first.
    PoolNotFoundError,
    /// The number provided in the arithmetics overflow the type bound. Use lower number.
    ArithmeticsOverflow,
    /// Provided amounts for liquidity are insufficient.
    InsufficientLiquidityProvided,
    /// An error occurred while trying to derive the pool account
    PoolAccountError,
    /// Sender has insufficient balance for this action
    InsufficientAccountBalance,
}

/// Why a token operation was refused.
#[derive(Clone, Copy, PartialEq, Eq, Structural, Debug)]
pub enum TokenError {
    /// The account does not hold the funds.
    FundsUnavailable,
    /// The asset does not exist.
    UnknownAsset,
}

/// An arithmetic failure in a token operation.
#[derive(Clone, Copy, PartialEq, Eq, Structural, Debug)]
pub enum ArithmeticError {
    Overflow,
}

/// Why the creation of an asset was refused.
#[derive(Clone, Copy, PartialEq, Eq, Structural, Debug)]
pub enum AssetsError {
    /// An asset with this id exists already.
    InUse,
    /// An asset needs a positive minimum balance.
    MinBalanceZero,
}

/// Why a call failed.
#[derive(Clone, Copy, PartialEq, Eq, Debug)]
pub enum DispatchError {
    /// The origin may not make this call.
    BadOrigin,
    /// One of the pallet's own errors.
    Module(Error),
    /// The creation of an asset was refused.
    Assets(AssetsError),
    /// A token operation was refused.
    Token(TokenError),
    /// A token operation overflowed.
    Arithmetic(ArithmeticError),
    /// Any other failure, with its description.
    Other(&'static str),
}

} // verus!
