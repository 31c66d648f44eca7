//! When each operation succeeds, and what it refuses, stated over balances, supplies, classes
//! and pools.
use crate::assets::{
    balance_of, spec_mint_into, spec_transfer, total_issuance_of, AssetDetails, AssetsView,
};
use crate::math::{floor_sqrt, lemma_floor_sqrt_exists};
use crate::pallet::{
    pools_consistent, spec_add_liquidity, spec_create_token_if_not_exists, spec_get_price,
    spec_initialise_pool, spec_liquidity_token_id, spec_pool_account, spec_pool_id, PalletView,
};
use crate::types::{ArithmeticError, DispatchError, Error, Origin, TokenError};
use crate::laws::lemma_pool_id_identifies_pair;
use vstd::prelude::*;

verus! {

/// Minting into a known asset succeeds exactly when neither its total issuance nor the
/// receiver's balance would pass `u128::MAX`; an unknown asset is refused as unknown, and an
/// overflow as an overflow.
pub proof fn lemma_mint_outcome(v: AssetsView, id: u32, who: u64, amount: u128)
    ensures
        !v.classes.contains_key(id) ==> spec_mint_into(v, id, who, amount) == Err::<
            AssetsView,
            DispatchError,
        >(DispatchError::Token(TokenError::UnknownAsset)),
        v.classes.contains_key(id) ==> (spec_mint_into(v, id, who, amount) is Ok <==> (
        total_issuance_of(v, id) + amount <= u128::MAX && balance_of(v, id, who) + amount
            <= u128::MAX)),
        v.classes.contains_key(id) && spec_mint_into(v, id, who, amount) is Err
            ==> spec_mint_into(v, id, who, amount) == Err::<AssetsView, DispatchError>(
            DispatchError::Arithmetic(ArithmeticError::Overflow),
        ),
{
}

/// A transfer of a known asset succeeds exactly when the sender holds the amount and, between
/// two accounts, the receiver's balance would not pass `u128::MAX`.
pub proof fn lemma_transfer_outcome(v: AssetsView, id: u32, from: u64, to: u64, amount: u128)
    ensures
        !v.classes.contains_key(id) ==> spec_transfer(v, id, from, to, amount) is Err,
        v.classes.contains_key(id) ==> (spec_transfer(v, id, from, to, amount) is Ok <==> (
        balance_of(v, id, from) >= amount && (from == to || balance_of(v, id, to) + amount
            <= u128::MAX))),
{
}

/// Creating a token that exists changes nothing and succeeds, whatever has been minted of it;
/// creating one that does not exist adds it, administered by `admin`, sufficient, with a
/// minimum balance of one and nothing minted, and changes no balance.
pub proof fn lemma_create_token_outcome(v: AssetsView, id: u32, admin: u64)
    ensures
        v.classes.contains_key(id) ==> spec_create_token_if_not_exists(v, id, admin) == Ok::<
            AssetsView,
            DispatchError,
        >(v),
        !v.classes.contains_key(id) ==> {
            &&& spec_create_token_if_not_exists(v, id, admin) is Ok
            &&& spec_create_token_if_not_exists(v, id, admin)->Ok_0.classes == v.classes.insert(
                id,
                AssetDetails { owner: admin, is_sufficient: true, min_balance: 1, supply: 0 },
            )
            &&& spec_create_token_if_not_exists(v, id, admin)->Ok_0.balances == v.balances
            &&& spec_create_token_if_not_exists(v, id, admin)->Ok_0.native == v.native
        },
{
}

/// Pool creation by a signer, of two distinct assets with positive amounts, is refused for
/// want of funds exactly when the signer holds less than `amount_a` of `asset_id_a` or less
/// than `amount_b` of `asset_id_b`, whether or not the pool exists.
pub proof fn lemma_initialise_insufficient_balance(
    s: PalletView,
    who: u64,
    asset_id_a: u32,
    asset_id_b: u32,
    amount_a: u128,
    amount_b: u128,
)
    requires
        asset_id_a != asset_id_b,
        amount_a > 0,
        amount_b > 0,
    ensures
        (spec_initialise_pool(s, Origin::Signed(who), asset_id_a, asset_id_b, amount_a, amount_b)
            == Err::<PalletView, DispatchError>(
            DispatchError::Module(Error::InsufficientAccountBalance),
        )) <==> (balance_of(s.assets, asset_id_a, who) < amount_a || balance_of(
            s.assets,
            asset_id_b,
            who,
        ) < amount_b),
{
    lemma_floor_sqrt_exists(amount_a * amount_b);
}

/// Pool creation succeeds where the signer names two distinct known assets with positive
/// amounts that it holds, the pair has no pool, the product of the amounts fits in `u128`,
/// the pool's account can receive both amounts, and the signer can be minted the square root
/// of the product, rounded down, of the pair's liquidity token.
pub proof fn lemma_initialise_succeeds(
    s: PalletView,
    who: u64,
    asset_id_a: u32,
    asset_id_b: u32,
    amount_a: u128,
    amount_b: u128,
)
    requires
        asset_id_a != asset_id_b,
        amount_a > 0,
        amount_b > 0,
        s.assets.classes.contains_key(asset_id_a),
        s.assets.classes.contains_key(asset_id_b),
        balance_of(s.assets, asset_id_a, who) >= amount_a,
        balance_of(s.assets, asset_id_b, who) >= amount_b,
        !s.pools.contains_key(spec_pool_id(asset_id_a, asset_id_b)),
        amount_a * amount_b <= u128::MAX,
        spec_pool_account(spec_pool_id(asset_id_a, asset_id_b)) != who ==> balance_of(
            s.assets,
            asset_id_a,
            spec_pool_account(spec_pool_id(asset_id_a, asset_id_b)),
        ) + amount_a <= u128::MAX,
        spec_pool_account(spec_pool_id(asset_id_a, asset_id_b)) != who ==> balance_of(
            s.assets,
            asset_id_b,
            spec_pool_account(spec_pool_id(asset_id_a, asset_id_b)),
        ) + amount_b <= u128::MAX,
        total_issuance_of(s.assets, spec_liquidity_token_id(spec_pool_id(asset_id_a, asset_id_b)))
            + floor_sqrt(amount_a * amount_b) <= u128::MAX,
        balance_of(s.assets, spec_liquidity_token_id(spec_pool_id(asset_id_a, asset_id_b)), who)
            + floor_sqrt(amount_a * amount_b) <= u128::MAX,
    ensures
        spec_initialise_pool(s, Origin::Signed(who), asset_id_a, asset_id_b, amount_a, amount_b) is Ok,
{
    let pool_id = spec_pool_id(asset_id_a, asset_id_b);
    let lp_token = spec_liquidity_token_id(pool_id);
    let account = spec_pool_account(pool_id);
    lemma_floor_sqrt_exists(amount_a * amount_b);
    let lp_amount = floor_sqrt(amount_a * amount_b) as u128;
    let admin = crate::pallet::spec_pallet_account(s.config);
    let v0 = spec_create_token_if_not_exists(s.assets, lp_token, admin)->Ok_0;
    assert(spec_create_token_if_not_exists(s.assets, lp_token, admin) is Ok);
    assert(v0.balances == s.assets.balances);
    assert(total_issuance_of(v0, lp_token) == total_issuance_of(s.assets, lp_token));
    let v1 = spec_transfer(v0, asset_id_a, who, account, amount_a)->Ok_0;
    assert(spec_transfer(v0, asset_id_a, who, account, amount_a) is Ok);
    assert(balance_of(v1, asset_id_b, who) == balance_of(v0, asset_id_b, who));
    assert(balance_of(v1, asset_id_b, account) == balance_of(v0, asset_id_b, account));
    let v2 = spec_transfer(v1, asset_id_b, who, account, amount_b)->Ok_0;
    assert(spec_transfer(v1, asset_id_b, who, account, amount_b) is Ok);
    assert(total_issuance_of(v2, lp_token) == total_issuance_of(v0, lp_token));
    assert(balance_of(v2, lp_token, who) <= balance_of(v0, lp_token, who));
    assert(spec_mint_into(v2, lp_token, who, lp_amount) is Ok);
}

/// Adding liquidity by a signer, of two distinct assets, is refused for want of funds exactly
/// when the signer holds less than `amount_a` of `asset_id_a` or less than `amount_b` of
/// `asset_id_b`, whether or not the pool exists.
pub proof fn lemma_add_liquidity_insufficient_balance(
    s: PalletView,
    who: u64,
    asset_id_a: u32,
    asset_id_b: u32,
    amount_a: u128,
    amount_b: u128,
)
    requires
        asset_id_a != asset_id_b,
    ensures
        (spec_add_liquidity(s, Origin::Signed(who), asset_id_a, asset_id_b, amount_a, amount_b)
            == Err::<PalletView, DispatchError>(
            DispatchError::Module(Error::InsufficientAccountBalance),
        )) <==> (balance_of(s.assets, asset_id_a, who) < amount_a || balance_of(
            s.assets,
            asset_id_b,
            who,
        ) < amount_b),
{
    lemma_floor_sqrt_exists(amount_a * amount_b);
}

/// Adding liquidity succeeds where the signer names two distinct known assets whose pool
/// exists and whose liquidity token exists, with positive amounts that it holds, whose product
/// fits in `u128`, that the pool's reserves and, where it is not the signer, the pool's
/// account can take, and where the signer can be minted the square root of the product,
/// rounded down, of the liquidity token.
pub proof fn lemma_add_liquidity_succeeds(
    s: PalletView,
    who: u64,
    asset_id_a: u32,
    asset_id_b: u32,
    amount_a: u128,
    amount_b: u128,
)
    requires
        pools_consistent(s.pools),
        asset_id_a != asset_id_b,
        amount_a > 0,
        amount_b > 0,
        s.assets.classes.contains_key(asset_id_a),
        s.assets.classes.contains_key(asset_id_b),
        balance_of(s.assets, asset_id_a, who) >= amount_a,
        balance_of(s.assets, asset_id_b, who) >= amount_b,
        s.pools.contains_key(spec_pool_id(asset_id_a, asset_id_b)),
        s.assets.classes.contains_key(s.pools[spec_pool_id(asset_id_a, asset_id_b)].liquidity_token_id),
        amount_a * amount_b <= u128::MAX,
        s.pools[spec_pool_id(asset_id_a, asset_id_b)].asset_ids.0 == asset_id_a ==> (
        s.pools[spec_pool_id(asset_id_a, asset_id_b)].balances.0 + amount_a <= u128::MAX
            && s.pools[spec_pool_id(asset_id_a, asset_id_b)].balances.1 + amount_b <= u128::MAX),
        s.pools[spec_pool_id(asset_id_a, asset_id_b)].asset_ids.0 == asset_id_b ==> (
        s.pools[spec_pool_id(asset_id_a, asset_id_b)].balances.0 + amount_b <= u128::MAX
            && s.pools[spec_pool_id(asset_id_a, asset_id_b)].balances.1 + amount_a <= u128::MAX),
        spec_pool_account(spec_pool_id(asset_id_a, asset_id_b)) != who ==> balance_of(
            s.assets,
            asset_id_a,
            spec_pool_account(spec_pool_id(asset_id_a, asset_id_b)),
        ) + amount_a <= u128::MAX,
        spec_pool_account(spec_pool_id(asset_id_a, asset_id_b)) != who ==> balance_of(
            s.assets,
            asset_id_b,
            spec_pool_account(spec_pool_id(asset_id_a, asset_id_b)),
        ) + amount_b <= u128::MAX,
        total_issuance_of(s.assets, spec_liquidity_token_id(spec_pool_id(asset_id_a, asset_id_b)))
            + floor_sqrt(amount_a * amount_b) <= u128::MAX,
        balance_of(s.assets, spec_liquidity_token_id(spec_pool_id(asset_id_a, asset_id_b)), who)
            + floor_sqrt(amount_a * amount_b) <= u128::MAX,
    ensures
        spec_add_liquidity(s, Origin::Signed(who), asset_id_a, asset_id_b, amount_a, amount_b) is Ok,
{
    let pool_id = spec_pool_id(asset_id_a, asset_id_b);
    let pool = s.pools[pool_id];
    let lp_token = spec_liquidity_token_id(pool_id);
    let account = spec_pool_account(pool_id);
    lemma_pool_id_identifies_pair(pool.asset_ids.0, pool.asset_ids.1, asset_id_a, asset_id_b);
    assert(pool.liquidity_token_id == lp_token);
    lemma_floor_sqrt_exists(amount_a * amount_b);
    let lp_amount = floor_sqrt(amount_a * amount_b) as u128;
    let v0 = s.assets;
    let v1 = spec_transfer(v0, asset_id_a, who, account, amount_a)->Ok_0;
    assert(spec_transfer(v0, asset_id_a, who, account, amount_a) is Ok);
    assert(balance_of(v1, asset_id_b, who) == balance_of(v0, asset_id_b, who));
    assert(balance_of(v1, asset_id_b, account) == balance_of(v0, asset_id_b, account));
    let v2 = spec_transfer(v1, asset_id_b, who, account, amount_b)->Ok_0;
    assert(spec_transfer(v1, asset_id_b, who, account, amount_b) is Ok);
    assert(total_issuance_of(v2, lp_token) == total_issuance_of(v0, lp_token));
    assert(balance_of(v2, lp_token, who) <= balance_of(v0, lp_token, who));
    assert(spec_mint_into(v2, lp_token, who, lp_amount) is Ok);
}

/// The price that a signer is given for the two assets of any stored pool is the reserve of
/// the first asset named divided by the reserve of the second, rounded down, in either order;
/// for a pair with no pool it is refused.
pub proof fn lemma_price_of_stored_pool(s: PalletView, pool_id: (u32, u32), who: u64)
    requires
        pools_consistent(s.pools),
        s.pools.contains_key(pool_id),
    ensures
        spec_get_price(s, Origin::Signed(who), s.pools[pool_id].asset_ids.0, s.pools[pool_id].asset_ids.1)
            == Ok::<u128, DispatchError>(
            (s.pools[pool_id].balances.0 / s.pools[pool_id].balances.1) as u128,
        ),
        spec_get_price(s, Origin::Signed(who), s.pools[pool_id].asset_ids.1, s.pools[pool_id].asset_ids.0)
            == Ok::<u128, DispatchError>(
            (s.pools[pool_id].balances.1 / s.pools[pool_id].balances.0) as u128,
        ),
{
    let pool = s.pools[pool_id];
    lemma_pool_id_identifies_pair(pool.asset_ids.0, pool.asset_ids.1, pool.asset_ids.1, pool.asset_ids.0);
}

/// A price asked for a pair with no pool is refused with `PoolNotFoundError`.
pub proof fn lemma_price_without_pool(s: PalletView, who: u64, asset_id_a: u32, asset_id_b: u32)
    requires
        !s.pools.contains_key(spec_pool_id(asset_id_a, asset_id_b)),
    ensures
        spec_get_price(s, Origin::Signed(who), asset_id_a, asset_id_b) == Err::<u128, DispatchError>(
            DispatchError::Module(Error::PoolNotFoundError),
        ),
{
}

/// The refusals of pool creation, in the order they are checked: an origin other than a
/// signer, the same asset twice, a zero amount, missing funds (see
/// `lemma_initialise_insufficient_balance`), an existing pool, and a product of the amounts
/// beyond `u128::MAX`.
pub proof fn lemma_initialise_refusals(
    s: PalletView,
    origin: Origin,
    asset_id_a: u32,
    asset_id_b: u32,
    amount_a: u128,
    amount_b: u128,
)
    ensures
        ({
            let r = spec_initialise_pool(s, origin, asset_id_a, asset_id_b, amount_a, amount_b);
            let funded = origin matches Origin::Signed(who) && balance_of(s.assets, asset_id_a, who)
                >= amount_a && balance_of(s.assets, asset_id_b, who) >= amount_b;
            &&& !(origin is Signed) ==> r == Err::<PalletView, DispatchError>(DispatchError::BadOrigin)
            &&& origin is Signed && asset_id_a == asset_id_b ==> r == Err::<PalletView, DispatchError>(
                DispatchError::Module(Error::DistinctAssetsRequired),
            )
            &&& origin is Signed && asset_id_a != asset_id_b && (amount_a == 0 || amount_b == 0)
                ==> r == Err::<PalletView, DispatchError>(
                DispatchError::Module(Error::InsufficientLiquidityProvided),
            )
            &&& funded && asset_id_a != asset_id_b && amount_a > 0 && amount_b > 0 ==> (r
                == Err::<PalletView, DispatchError>(DispatchError::Module(Error::DuplicatePoolError))
                <==> s.pools.contains_key(spec_pool_id(asset_id_a, asset_id_b)))
            &&& funded && asset_id_a != asset_id_b && amount_a > 0 && amount_b > 0
                && !s.pools.contains_key(spec_pool_id(asset_id_a, asset_id_b)) ==> (r
                == Err::<PalletView, DispatchError>(DispatchError::Module(Error::ArithmeticsOverflow))
                <==> amount_a * amount_b > u128::MAX)
        }),
{
    lemma_floor_sqrt_exists(amount_a * amount_b);
}

/// The refusals of adding liquidity, in the order they are checked: an origin other than a
/// signer, the same asset twice, missing funds (see
/// `lemma_add_liquidity_insufficient_balance`), a pair without a pool, a product of the
/// amounts beyond `u128::MAX`, and then a zero amount.
pub proof fn lemma_add_liquidity_refusals(
    s: PalletView,
    origin: Origin,
    asset_id_a: u32,
    asset_id_b: u32,
    amount_a: u128,
    amount_b: u128,
)
    ensures
        ({
            let r = spec_add_liquidity(s, origin, asset_id_a, asset_id_b, amount_a, amount_b);
            let funded = origin matches Origin::Signed(who) && balance_of(s.assets, asset_id_a, who)
                >= amount_a && balance_of(s.assets, asset_id_b, who) >= amount_b;
            &&& !(origin is Signed) ==> r == Err::<PalletView, DispatchError>(DispatchError::BadOrigin)
            &&& origin is Signed && asset_id_a == asset_id_b ==> r == Err::<PalletView, DispatchError>(
                DispatchError::Module(Error::DistinctAssetsRequired),
            )
            &&& funded && asset_id_a != asset_id_b ==> (r == Err::<PalletView, DispatchError>(
                DispatchError::Module(Error::PoolNotFoundError),
            ) <==> !s.pools.contains_key(spec_pool_id(asset_id_a, asset_id_b)))
            &&& funded && asset_id_a != asset_id_b && s.pools.contains_key(
                spec_pool_id(asset_id_a, asset_id_b),
            ) && amount_a * amount_b > u128::MAX ==> r == Err::<PalletView, DispatchError>(
                DispatchError::Module(Error::ArithmeticsOverflow),
            )
            &&& funded && asset_id_a != asset_id_b && s.pools.contains_key(
                spec_pool_id(asset_id_a, asset_id_b),
            ) && amount_a * amount_b <= u128::MAX && (amount_a == 0 || amount_b == 0) ==> r
                == Err::<PalletView, DispatchError>(
                DispatchError::Module(Error::InsufficientLiquidityProvided),
            )
        }),
{
    lemma_floor_sqrt_exists(amount_a * amount_b);
}

} // verus!
