//! What holds of the exchange across its operations.
use crate::assets::{balance_of, spec_mint_into, spec_transfer, total_issuance_of, AssetsView};
use crate::encoding::{le_bytes_u32, lemma_le_bytes_u32_injective, lemma_lex_trichotomy, lex_lt};
use crate::math::{floor_sqrt, lemma_floor_sqrt_exists};
use crate::pallet::{
    pools_consistent, spec_add_liquidity, spec_create_token_if_not_exists, spec_get_price,
    spec_initialise_pool, spec_liquidity_token_id, spec_transfer_and_mint, spec_pallet_account, spec_pool_account,
    spec_pool_id, PalletView,
};
use crate::types::{DispatchError, Error, Event, LiquidityPool, Origin};
use vstd::prelude::*;

verus! {

/// The reserve that `pool` holds of `asset`, one of its two assets.
pub open spec fn reserve_of(pool: LiquidityPool, asset: u32) -> u128 {
    if pool.asset_ids.0 == asset {
        pool.balances.0
    } else {
        pool.balances.1
    }
}

/// The pool id of two assets is the pair in one of its two orders, the one whose first
/// encoding does not come after the second.
pub proof fn lemma_pool_id_orders_pair(asset_1: u32, asset_2: u32)
    ensures
        spec_pool_id(asset_1, asset_2) == (asset_1, asset_2) || spec_pool_id(asset_1, asset_2) == (
        asset_2, asset_1),
        !lex_lt(
            le_bytes_u32(spec_pool_id(asset_1, asset_2).1),
            le_bytes_u32(spec_pool_id(asset_1, asset_2).0),
        ),
{
    lemma_lex_trichotomy(le_bytes_u32(asset_1), le_bytes_u32(asset_2), 0);
}

/// The pool id does not depend on the order in which the two assets are named:
/// f(a, b) == f(b, a).
pub proof fn lemma_pool_id_commutative(asset_1: u32, asset_2: u32)
    ensures
        spec_pool_id(asset_1, asset_2) == spec_pool_id(asset_2, asset_1),
{
    let x = le_bytes_u32(asset_1);
    let y = le_bytes_u32(asset_2);
    lemma_lex_trichotomy(x, y, 0);
    if asset_1 != asset_2 {
        if !lex_lt(x, y) && !lex_lt(y, x) {
            assert(x =~= y);
            lemma_le_bytes_u32_injective(asset_1, asset_2);
        }
    }
}

/// Two pairs of assets have the same pool id exactly when they are the same pair, in either
/// order: different pairs get different pools.
pub proof fn lemma_pool_id_identifies_pair(a: u32, b: u32, c: u32, d: u32)
    ensures
        spec_pool_id(a, b) == spec_pool_id(c, d) <==> ((a == c && b == d) || (a == d && b == c)),
{
    lemma_pool_id_orders_pair(a, b);
    lemma_pool_id_orders_pair(c, d);
    lemma_pool_id_commutative(a, b);
    lemma_pool_id_commutative(c, d);
}

/// The liquidity token of a pair does not depend on the order in which its assets are named.
pub proof fn lemma_liquidity_token_id_commutative(asset_1: u32, asset_2: u32)
    ensures
        spec_liquidity_token_id(spec_pool_id(asset_1, asset_2)) == spec_liquidity_token_id(
            spec_pool_id(asset_2, asset_1),
        ),
{
    lemma_pool_id_commutative(asset_1, asset_2);
}

/// Creating a token where it does not exist, a second time, changes nothing more.
pub proof fn lemma_create_token_idempotent(v: AssetsView, id: u32, admin: u64)
    requires
        spec_create_token_if_not_exists(v, id, admin) is Ok,
    ensures
        spec_create_token_if_not_exists(spec_create_token_if_not_exists(v, id, admin)->Ok_0, id, admin)
            == spec_create_token_if_not_exists(v, id, admin),
{
}

/// Minting into an account raises its balance and the asset's total issuance by the amount
/// minted, and changes no other balance.
pub proof fn lemma_mint_raises_balance(v: AssetsView, id: u32, who: u64, amount: u128)
    requires
        spec_mint_into(v, id, who, amount) is Ok,
    ensures
        balance_of(spec_mint_into(v, id, who, amount)->Ok_0, id, who) == balance_of(v, id, who)
            + amount,
        total_issuance_of(spec_mint_into(v, id, who, amount)->Ok_0, id) == total_issuance_of(v, id)
            + amount,
        forall|asset: u32, acc: u64|
            (asset, acc) != (id, who) ==> #[trigger] balance_of(
                spec_mint_into(v, id, who, amount)->Ok_0,
                asset,
                acc,
            ) == balance_of(v, asset, acc),
        forall|asset: u32|
            asset != id ==> #[trigger] total_issuance_of(
                spec_mint_into(v, id, who, amount)->Ok_0,
                asset,
            ) == total_issuance_of(v, asset),
{
}

/// How much of `asset` the provider hands to the pool's account when both amounts move.
pub open spec fn moved_amount(
    asset: u32,
    asset_id_a: u32,
    asset_id_b: u32,
    amount_a: u128,
    amount_b: u128,
) -> int {
    (if asset == asset_id_a {
        amount_a as int
    } else {
        0
    }) + (if asset == asset_id_b {
        amount_b as int
    } else {
        0
    })
}

/// How much of `asset` is minted when `lp_amount` liquidity tokens are.
pub open spec fn minted_amount(asset: u32, lp_token: u32, lp_amount: u128) -> int {
    if asset == lp_token {
        lp_amount as int
    } else {
        0
    }
}

/// A pool that was created is stored under the id of its pair, with the amounts it was
/// created with as its reserves and the liquidity token of its id, which exists; the event
/// says who created it. The amounts move from the creator to the pool's account, and the
/// creator is minted the square root of their product, rounded down, of liquidity tokens.
pub proof fn lemma_pool_creation_effects(
    s: PalletView,
    who: u64,
    asset_id_a: u32,
    asset_id_b: u32,
    amount_a: u128,
    amount_b: u128,
)
    requires
        spec_initialise_pool(s, Origin::Signed(who), asset_id_a, asset_id_b, amount_a, amount_b) is Ok,
    ensures
        ({
            let s2 = spec_initialise_pool(
                s,
                Origin::Signed(who),
                asset_id_a,
                asset_id_b,
                amount_a,
                amount_b,
            )->Ok_0;
            let pool_id = spec_pool_id(asset_id_a, asset_id_b);
            let lp_token = spec_liquidity_token_id(pool_id);
            let account = spec_pool_account(pool_id);
            &&& asset_id_a != asset_id_b
            &&& !s.pools.contains_key(pool_id)
            &&& s2.pools == s.pools.insert(
                pool_id,
                LiquidityPool {
                    asset_ids: (asset_id_a, asset_id_b),
                    balances: (amount_a, amount_b),
                    liquidity_token_id: lp_token,
                },
            )
            &&& s2.events == s.events.push(
                Event::PoolCreated {
                    pool_id,
                    asset_id_a,
                    asset_id_b,
                    creator: who,
                    liquidity_token_id: lp_token,
                },
            )
            &&& s2.assets.classes.dom() == s.assets.classes.dom().insert(lp_token)
            &&& moved_balances(
                s.assets,
                s2.assets,
                who,
                asset_id_a,
                asset_id_b,
                amount_a,
                amount_b,
                account,
                lp_token,
                floor_sqrt(amount_a * amount_b) as u128,
            )
        }),
{
    let pool_id = spec_pool_id(asset_id_a, asset_id_b);
    let lp_token = spec_liquidity_token_id(pool_id);
    let account = spec_pool_account(pool_id);
    let created = spec_create_token_if_not_exists(s.assets, lp_token, spec_pallet_account(s.config));
    assert(created is Ok);
    let v0 = created->Ok_0;
    lemma_floor_sqrt_exists(amount_a * amount_b);
    assert(v0.balances == s.assets.balances);
    assert(v0.classes.contains_key(lp_token));
    let lp_amount = floor_sqrt(amount_a * amount_b) as u128;
    let moved = spec_transfer_and_mint(
        v0,
        who,
        asset_id_a,
        asset_id_b,
        amount_a,
        amount_b,
        account,
        lp_token,
        lp_amount,
    );
    assert(moved.1 is Ok);
    assert(spec_initialise_pool(s, Origin::Signed(who), asset_id_a, asset_id_b, amount_a, amount_b)
        == Ok::<PalletView, DispatchError>(
        PalletView {
            config: s.config,
            pools: s.pools.insert(
                pool_id,
                LiquidityPool {
                    asset_ids: (asset_id_a, asset_id_b),
                    balances: (amount_a, amount_b),
                    liquidity_token_id: lp_token,
                },
            ),
            assets: moved.0,
            events: s.events.push(
                Event::PoolCreated {
                    pool_id,
                    asset_id_a,
                    asset_id_b,
                    creator: who,
                    liquidity_token_id: lp_token,
                },
            ),
        },
    ));
    lemma_transfer_and_mint_effects(
        v0,
        who,
        asset_id_a,
        asset_id_b,
        amount_a,
        amount_b,
        account,
        lp_token,
        lp_amount,
    );
    assert(v0.classes.dom() =~= s.assets.classes.dom().insert(lp_token));
    assert forall|asset: u32| #[trigger]
        total_issuance_of(v0, asset) == total_issuance_of(s.assets, asset) by {}
    assert forall|asset: u32, acc: u64| #[trigger]
        balance_of(v0, asset, acc) == balance_of(s.assets, asset, acc) by {}
}

/// The balances after both amounts moved from `who` to `account` and `lp_amount` of
/// `lp_token` was minted into `who`: `who` holds each asset less what it handed over and more
/// what it was minted, `account` holds each asset more what it received (where the two are
/// one account, only the mint shows), every other account holds what it held, and each
/// asset's total issuance rose by what was minted of it.
pub open spec fn moved_balances(
    before: AssetsView,
    after: AssetsView,
    who: u64,
    asset_id_a: u32,
    asset_id_b: u32,
    amount_a: u128,
    amount_b: u128,
    account: u64,
    lp_token: u32,
    lp_amount: u128,
) -> bool {
    &&& forall|asset: u32| #[trigger]
        total_issuance_of(after, asset) == total_issuance_of(before, asset) + minted_amount(
            asset,
            lp_token,
            lp_amount,
        )
    &&& account != who ==> forall|asset: u32| #[trigger]
        balance_of(after, asset, who) == balance_of(before, asset, who) - moved_amount(
            asset,
            asset_id_a,
            asset_id_b,
            amount_a,
            amount_b,
        ) + minted_amount(asset, lp_token, lp_amount)
    &&& account != who ==> forall|asset: u32| #[trigger]
        balance_of(after, asset, account) == balance_of(before, asset, account) + moved_amount(
            asset,
            asset_id_a,
            asset_id_b,
            amount_a,
            amount_b,
        )
    &&& account == who ==> forall|asset: u32| #[trigger]
        balance_of(after, asset, who) == balance_of(before, asset, who) + minted_amount(
            asset,
            lp_token,
            lp_amount,
        )
    &&& forall|asset: u32, acc: u64|
        acc != who && acc != account ==> #[trigger] balance_of(after, asset, acc) == balance_of(
            before,
            asset,
            acc,
        )
}

/// The steps of `transfer_assets_and_mint_lp_tokens` in their order: the transfer of the first
/// asset, then that of the second, then the mint of the liquidity tokens. The first step that
/// fails is the last one taken: its error is the result, and the steps before it stay done.
/// The result is `Ok` exactly when all three succeed, and then the balances are moved as
/// `moved_balances` says.
pub proof fn lemma_transfer_and_mint_steps(
    v: AssetsView,
    who: u64,
    asset_id_a: u32,
    asset_id_b: u32,
    amount_a: u128,
    amount_b: u128,
    account: u64,
    lp_token: u32,
    lp_amount: u128,
)
    requires
        asset_id_a != asset_id_b,
    ensures
        ({
            let moved = spec_transfer_and_mint(
                v,
                who,
                asset_id_a,
                asset_id_b,
                amount_a,
                amount_b,
                account,
                lp_token,
                lp_amount,
            );
            let first = spec_transfer(v, asset_id_a, who, account, amount_a);
            let second = spec_transfer(first->Ok_0, asset_id_b, who, account, amount_b);
            let third = spec_mint_into(second->Ok_0, lp_token, who, lp_amount);
            &&& first is Err ==> moved == (v, Err::<(), DispatchError>(first->Err_0))
            &&& first is Ok && second is Err ==> moved == (
                first->Ok_0,
                Err::<(), DispatchError>(second->Err_0),
            )
            &&& first is Ok && second is Ok && third is Err ==> moved == (
                second->Ok_0,
                Err::<(), DispatchError>(third->Err_0),
            )
            &&& (moved.1 is Ok <==> (first is Ok && second is Ok && third is Ok))
            &&& moved.1 is Ok ==> moved.0 == third->Ok_0 && moved_balances(
                v,
                moved.0,
                who,
                asset_id_a,
                asset_id_b,
                amount_a,
                amount_b,
                account,
                lp_token,
                lp_amount,
            )
        }),
{
    let first = spec_transfer(v, asset_id_a, who, account, amount_a);
    if first is Ok {
        let second = spec_transfer(first->Ok_0, asset_id_b, who, account, amount_b);
        if second is Ok {
            let third = spec_mint_into(second->Ok_0, lp_token, who, lp_amount);
            if third is Ok {
                lemma_transfer_and_mint_effects(
                    v,
                    who,
                    asset_id_a,
                    asset_id_b,
                    amount_a,
                    amount_b,
                    account,
                    lp_token,
                    lp_amount,
                );
            }
        }
    }
}

/// A successful `spec_transfer_and_mint` moves the balances as `moved_balances` says.
proof fn lemma_transfer_and_mint_effects(
    v: AssetsView,
    who: u64,
    asset_id_a: u32,
    asset_id_b: u32,
    amount_a: u128,
    amount_b: u128,
    account: u64,
    lp_token: u32,
    lp_amount: u128,
)
    requires
        spec_transfer_and_mint(
            v,
            who,
            asset_id_a,
            asset_id_b,
            amount_a,
            amount_b,
            account,
            lp_token,
            lp_amount,
        ).1 is Ok,
        asset_id_a != asset_id_b,
    ensures
        spec_transfer_and_mint(
            v,
            who,
            asset_id_a,
            asset_id_b,
            amount_a,
            amount_b,
            account,
            lp_token,
            lp_amount,
        ).0.classes.dom() == v.classes.dom(),
        moved_balances(
            v,
            spec_transfer_and_mint(
                v,
                who,
                asset_id_a,
                asset_id_b,
                amount_a,
                amount_b,
                account,
                lp_token,
                lp_amount,
            ).0,
            who,
            asset_id_a,
            asset_id_b,
            amount_a,
            amount_b,
            account,
            lp_token,
            lp_amount,
        ),
{
    let v1 = spec_transfer(v, asset_id_a, who, account, amount_a)->Ok_0;
    let v2 = spec_transfer(v1, asset_id_b, who, account, amount_b)->Ok_0;
    let v3 = spec_mint_into(v2, lp_token, who, lp_amount)->Ok_0;
    assert(v3.classes.dom() =~= v.classes.dom());
    assert forall|asset: u32| #[trigger]
        total_issuance_of(v3, asset) == total_issuance_of(v, asset) + minted_amount(
            asset,
            lp_token,
            lp_amount,
        ) by {
        assert(total_issuance_of(v2, asset) == total_issuance_of(v, asset));
    }
    assert forall|asset: u32, acc: u64|
        acc != who && acc != account implies #[trigger] balance_of(v3, asset, acc) == balance_of(
            v,
            asset,
            acc,
        ) by {
        assert(balance_of(v1, asset, acc) == balance_of(v, asset, acc));
        assert(balance_of(v2, asset, acc) == balance_of(v1, asset, acc));
    }
    if account != who {
        assert forall|asset: u32| #[trigger]
            balance_of(v3, asset, who) == balance_of(v, asset, who) - moved_amount(
                asset,
                asset_id_a,
                asset_id_b,
                amount_a,
                amount_b,
            ) + minted_amount(asset, lp_token, lp_amount) by {
            assert(balance_of(v1, asset, who) == balance_of(v, asset, who) - (if asset
                == asset_id_a {
                amount_a as int
            } else {
                0
            }));
            assert(balance_of(v2, asset, who) == balance_of(v1, asset, who) - (if asset
                == asset_id_b {
                amount_b as int
            } else {
                0
            }));
        }
        assert forall|asset: u32| #[trigger]
            balance_of(v3, asset, account) == balance_of(v, asset, account) + moved_amount(
                asset,
                asset_id_a,
                asset_id_b,
                amount_a,
                amount_b,
            ) by {
            assert(balance_of(v1, asset, account) == balance_of(v, asset, account) + (if asset
                == asset_id_a {
                amount_a as int
            } else {
                0
            }));
            assert(balance_of(v2, asset, account) == balance_of(v1, asset, account) + (if asset
                == asset_id_b {
                amount_b as int
            } else {
                0
            }));
        }
    } else {
        assert forall|asset: u32| #[trigger]
            balance_of(v3, asset, who) == balance_of(v, asset, who) + minted_amount(
                asset,
                lp_token,
                lp_amount,
            ) by {
            assert(balance_of(v1, asset, who) == balance_of(v, asset, who));
            assert(balance_of(v2, asset, who) == balance_of(v1, asset, who));
        }
    }
}

/// A pair has one pool: once the pool of two assets is created, creating it again, with the
/// assets in either order, fails; where the other checks pass, with `DuplicatePoolError`.
pub proof fn lemma_pool_created_once(
    s: PalletView,
    origin: Origin,
    asset_id_a: u32,
    asset_id_b: u32,
    amount_a: u128,
    amount_b: u128,
    origin_2: Origin,
    asset_id_c: u32,
    asset_id_d: u32,
    amount_c: u128,
    amount_d: u128,
)
    requires
        spec_initialise_pool(s, origin, asset_id_a, asset_id_b, amount_a, amount_b) is Ok,
        (asset_id_c == asset_id_a && asset_id_d == asset_id_b) || (asset_id_c == asset_id_b
            && asset_id_d == asset_id_a),
    ensures
        ({
            let s2 = spec_initialise_pool(s, origin, asset_id_a, asset_id_b, amount_a, amount_b)->Ok_0;
            let again = spec_initialise_pool(
                s2,
                origin_2,
                asset_id_c,
                asset_id_d,
                amount_c,
                amount_d,
            );
            &&& again is Err
            &&& (origin_2 matches Origin::Signed(who) && amount_c > 0 && amount_d > 0
                && balance_of(s2.assets, asset_id_c, who) >= amount_c && balance_of(
                s2.assets,
                asset_id_d,
                who,
            ) >= amount_d) ==> again == Err::<PalletView, DispatchError>(
                DispatchError::Module(Error::DuplicatePoolError),
            )
        }),
{
    lemma_pool_id_commutative(asset_id_a, asset_id_b);
}

/// Liquidity that was added raises the pool's reserve of each asset by the amount given for
/// it, keeps the pool's assets and liquidity token and every other pool, deposits no event,
/// moves the amounts from the provider to the pool's account and mints the provider the
/// square root of their product, rounded down, of liquidity tokens, which is at least one.
/// Where the liquidity token is neither of the two assets, the provider's balance of it rises.
pub proof fn lemma_liquidity_addition_effects(
    s: PalletView,
    who: u64,
    asset_id_a: u32,
    asset_id_b: u32,
    amount_a: u128,
    amount_b: u128,
)
    requires
        pools_consistent(s.pools),
        spec_add_liquidity(s, Origin::Signed(who), asset_id_a, asset_id_b, amount_a, amount_b) is Ok,
    ensures
        ({
            let s2 = spec_add_liquidity(
                s,
                Origin::Signed(who),
                asset_id_a,
                asset_id_b,
                amount_a,
                amount_b,
            )->Ok_0;
            let pool_id = spec_pool_id(asset_id_a, asset_id_b);
            let pool = s.pools[pool_id];
            let pool_2 = s2.pools[pool_id];
            let lp_token = spec_liquidity_token_id(pool_id);
            let account = spec_pool_account(pool_id);
            &&& s.pools.contains_key(pool_id)
            &&& s2.pools.contains_key(pool_id)
            &&& pool_2.asset_ids == pool.asset_ids
            &&& pool_2.liquidity_token_id == pool.liquidity_token_id
            &&& reserve_of(pool_2, asset_id_a) == reserve_of(pool, asset_id_a) + amount_a
            &&& reserve_of(pool_2, asset_id_b) == reserve_of(pool, asset_id_b) + amount_b
            &&& forall|other: (u32, u32)|
                other != pool_id ==> s2.pools.contains_key(other) == s.pools.contains_key(other)
                    && (s.pools.contains_key(other) ==> s2.pools[other] == s.pools[other])
            &&& s2.events == s.events
            &&& moved_balances(
                s.assets,
                s2.assets,
                who,
                asset_id_a,
                asset_id_b,
                amount_a,
                amount_b,
                account,
                lp_token,
                floor_sqrt(amount_a * amount_b) as u128,
            )
            &&& floor_sqrt(amount_a * amount_b) >= 1
            &&& (lp_token != asset_id_a && lp_token != asset_id_b) ==> balance_of(
                s2.assets,
                lp_token,
                who,
            ) > balance_of(s.assets, lp_token, who)
        }),
{
    let pool_id = spec_pool_id(asset_id_a, asset_id_b);
    let pool = s.pools[pool_id];
    let lp_token = spec_liquidity_token_id(pool_id);
    let account = spec_pool_account(pool_id);
    assert(s.pools.contains_key(pool_id));
    lemma_floor_sqrt_exists(amount_a * amount_b);
    let root = floor_sqrt(amount_a * amount_b);
    assert(amount_a * amount_b >= 1) by (nonlinear_arith)
        requires
            amount_a >= 1,
            amount_b >= 1,
    ;
    assert(root >= 1) by (nonlinear_arith)
        requires
            amount_a * amount_b < (root + 1) * (root + 1),
            amount_a * amount_b >= 1,
            root >= 0,
    ;
    lemma_pool_id_identifies_pair(pool.asset_ids.0, pool.asset_ids.1, asset_id_a, asset_id_b);
    lemma_transfer_and_mint_effects(
        s.assets,
        who,
        asset_id_a,
        asset_id_b,
        amount_a,
        amount_b,
        account,
        lp_token,
        root as u128,
    );
    if lp_token != asset_id_a && lp_token != asset_id_b {
        assert(moved_amount(lp_token, asset_id_a, asset_id_b, amount_a, amount_b) == 0);
        assert(minted_amount(lp_token, lp_token, root as u128) == root);
    }
}

/// The price in a pool just created is the ratio of the amounts it was created with, rounded
/// down, in either direction.
pub proof fn lemma_price_after_creation(
    s: PalletView,
    who: u64,
    asset_id_a: u32,
    asset_id_b: u32,
    amount_a: u128,
    amount_b: u128,
    asker: u64,
)
    requires
        spec_initialise_pool(s, Origin::Signed(who), asset_id_a, asset_id_b, amount_a, amount_b) is Ok,
    ensures
        ({
            let s2 = spec_initialise_pool(
                s,
                Origin::Signed(who),
                asset_id_a,
                asset_id_b,
                amount_a,
                amount_b,
            )->Ok_0;
            &&& spec_get_price(s2, Origin::Signed(asker), asset_id_a, asset_id_b) == Ok::<
                u128,
                DispatchError,
            >((amount_a / amount_b) as u128)
            &&& spec_get_price(s2, Origin::Signed(asker), asset_id_b, asset_id_a) == Ok::<
                u128,
                DispatchError,
            >((amount_b / amount_a) as u128)
        }),
{
    lemma_pool_id_commutative(asset_id_a, asset_id_b);
}

/// Every pool's account holds at least the pool's recorded reserve of each of its two assets.
pub open spec fn reserves_backed(s: PalletView) -> bool {
    forall|pool_id: (u32, u32)| #[trigger]
        s.pools.contains_key(pool_id) ==> {
            &&& balance_of(s.assets, s.pools[pool_id].asset_ids.0, spec_pool_account(pool_id))
                >= s.pools[pool_id].balances.0
            &&& balance_of(s.assets, s.pools[pool_id].asset_ids.1, spec_pool_account(pool_id))
                >= s.pools[pool_id].balances.1
        }
}

/// `who` is the account of a stored pool.
pub open spec fn is_pool_account(s: PalletView, who: u64) -> bool {
    exists|pool_id: (u32, u32)| s.pools.contains_key(pool_id) && spec_pool_account(pool_id) == who
}

/// Moving the provider's assets into a pool's account and minting its liquidity tokens takes
/// nothing from any other account, and leaves the pool's account with the amount of the first
/// asset added, or, where the pool's account is the provider, with no less than the provider
/// held.
proof fn lemma_transfer_and_mint_backs(
    v: AssetsView,
    who: u64,
    asset_id_a: u32,
    asset_id_b: u32,
    amount_a: u128,
    amount_b: u128,
    account: u64,
    lp_token: u32,
    lp_amount: u128,
)
    requires
        spec_transfer_and_mint(
            v,
            who,
            asset_id_a,
            asset_id_b,
            amount_a,
            amount_b,
            account,
            lp_token,
            lp_amount,
        ).1 is Ok,
        asset_id_a != asset_id_b,
    ensures
        ({
            let v3 = spec_transfer_and_mint(
                v,
                who,
                asset_id_a,
                asset_id_b,
                amount_a,
                amount_b,
                account,
                lp_token,
                lp_amount,
            ).0;
            &&& forall|asset: u32, acc: u64|
                acc != who ==> #[trigger] balance_of(v3, asset, acc) >= balance_of(v, asset, acc)
            &&& account != who ==> balance_of(v3, asset_id_a, account) >= balance_of(
                v,
                asset_id_a,
                account,
            ) + amount_a
            &&& account != who ==> balance_of(v3, asset_id_b, account) >= balance_of(
                v,
                asset_id_b,
                account,
            ) + amount_b
            &&& account == who ==> balance_of(v3, asset_id_a, account) >= balance_of(
                v,
                asset_id_a,
                who,
            )
            &&& account == who ==> balance_of(v3, asset_id_b, account) >= balance_of(
                v,
                asset_id_b,
                who,
            )
        }),
{
    let v1 = spec_transfer(v, asset_id_a, who, account, amount_a)->Ok_0;
    let v2 = spec_transfer(v1, asset_id_b, who, account, amount_b)->Ok_0;
    let v3 = spec_mint_into(v2, lp_token, who, lp_amount)->Ok_0;
    assert forall|asset: u32, acc: u64| acc != who implies #[trigger] balance_of(v3, asset, acc)
        >= balance_of(v, asset, acc) by {
        assert(balance_of(v1, asset, acc) >= balance_of(v, asset, acc));
        assert(balance_of(v2, asset, acc) >= balance_of(v1, asset, acc));
        assert(balance_of(v3, asset, acc) >= balance_of(v2, asset, acc));
    }
    assert(balance_of(v3, asset_id_a, account) >= balance_of(v2, asset_id_a, account));
    assert(balance_of(v3, asset_id_b, account) >= balance_of(v2, asset_id_b, account));
    assert(balance_of(v2, asset_id_a, account) == balance_of(v1, asset_id_a, account));
    assert(balance_of(v1, asset_id_b, account) == balance_of(v, asset_id_b, account));
}

/// Creating a pool keeps every pool's reserves backed by its account, where the creator is
/// not the account of a stored pool.
pub proof fn lemma_creation_keeps_reserves_backed(
    s: PalletView,
    who: u64,
    asset_id_a: u32,
    asset_id_b: u32,
    amount_a: u128,
    amount_b: u128,
)
    requires
        reserves_backed(s),
        !is_pool_account(s, who),
        spec_initialise_pool(s, Origin::Signed(who), asset_id_a, asset_id_b, amount_a, amount_b) is Ok,
    ensures
        reserves_backed(
            spec_initialise_pool(
                s,
                Origin::Signed(who),
                asset_id_a,
                asset_id_b,
                amount_a,
                amount_b,
            )->Ok_0,
        ),
{
    let pool_id = spec_pool_id(asset_id_a, asset_id_b);
    let lp_token = spec_liquidity_token_id(pool_id);
    let account = spec_pool_account(pool_id);
    let created = spec_create_token_if_not_exists(s.assets, lp_token, spec_pallet_account(s.config));
    let v0 = created->Ok_0;
    lemma_floor_sqrt_exists(amount_a * amount_b);
    assert(v0.balances == s.assets.balances);
    let lp_amount = floor_sqrt(amount_a * amount_b) as u128;
    let moved = spec_transfer_and_mint(
        v0,
        who,
        asset_id_a,
        asset_id_b,
        amount_a,
        amount_b,
        account,
        lp_token,
        lp_amount,
    );
    lemma_pool_creation_effects(s, who, asset_id_a, asset_id_b, amount_a, amount_b);
    let s2 = spec_initialise_pool(
        s,
        Origin::Signed(who),
        asset_id_a,
        asset_id_b,
        amount_a,
        amount_b,
    )->Ok_0;
    assert(s2.assets == moved.0);
    lemma_transfer_and_mint_backs(
        v0,
        who,
        asset_id_a,
        asset_id_b,
        amount_a,
        amount_b,
        account,
        lp_token,
        lp_amount,
    );
    assert forall|pid: (u32, u32)| #[trigger] s2.pools.contains_key(pid) implies {
        &&& balance_of(s2.assets, s2.pools[pid].asset_ids.0, spec_pool_account(pid))
            >= s2.pools[pid].balances.0
        &&& balance_of(s2.assets, s2.pools[pid].asset_ids.1, spec_pool_account(pid))
            >= s2.pools[pid].balances.1
    } by {
        if pid != pool_id {
            assert(s.pools.contains_key(pid));
            assert(spec_pool_account(pid) != who);
            assert(balance_of(v0, s.pools[pid].asset_ids.0, spec_pool_account(pid)) == balance_of(
                s.assets,
                s.pools[pid].asset_ids.0,
                spec_pool_account(pid),
            ));
            assert(balance_of(v0, s.pools[pid].asset_ids.1, spec_pool_account(pid)) == balance_of(
                s.assets,
                s.pools[pid].asset_ids.1,
                spec_pool_account(pid),
            ));
        } else {
            assert(balance_of(v0, asset_id_a, who) == balance_of(s.assets, asset_id_a, who));
            assert(balance_of(v0, asset_id_b, who) == balance_of(s.assets, asset_id_b, who));
        }
    }
}

/// Adding liquidity keeps every pool's reserves backed by its account, where the provider is
/// not the account of a stored pool.
pub proof fn lemma_addition_keeps_reserves_backed(
    s: PalletView,
    who: u64,
    asset_id_a: u32,
    asset_id_b: u32,
    amount_a: u128,
    amount_b: u128,
)
    requires
        pools_consistent(s.pools),
        reserves_backed(s),
        !is_pool_account(s, who),
        spec_add_liquidity(s, Origin::Signed(who), asset_id_a, asset_id_b, amount_a, amount_b) is Ok,
    ensures
        reserves_backed(
            spec_add_liquidity(
                s,
                Origin::Signed(who),
                asset_id_a,
                asset_id_b,
                amount_a,
                amount_b,
            )->Ok_0,
        ),
{
    let pool_id = spec_pool_id(asset_id_a, asset_id_b);
    let pool = s.pools[pool_id];
    let lp_token = spec_liquidity_token_id(pool_id);
    let account = spec_pool_account(pool_id);
    lemma_floor_sqrt_exists(amount_a * amount_b);
    let lp_amount = floor_sqrt(amount_a * amount_b) as u128;
    lemma_pool_id_identifies_pair(pool.asset_ids.0, pool.asset_ids.1, asset_id_a, asset_id_b);
    lemma_transfer_and_mint_backs(
        s.assets,
        who,
        asset_id_a,
        asset_id_b,
        amount_a,
        amount_b,
        account,
        lp_token,
        lp_amount,
    );
    let s2 = spec_add_liquidity(
        s,
        Origin::Signed(who),
        asset_id_a,
        asset_id_b,
        amount_a,
        amount_b,
    )->Ok_0;
    assert(account != who);
    assert forall|pid: (u32, u32)| #[trigger] s2.pools.contains_key(pid) implies {
        &&& balance_of(s2.assets, s2.pools[pid].asset_ids.0, spec_pool_account(pid))
            >= s2.pools[pid].balances.0
        &&& balance_of(s2.assets, s2.pools[pid].asset_ids.1, spec_pool_account(pid))
            >= s2.pools[pid].balances.1
    } by {
        assert(s.pools.contains_key(pid));
        assert(spec_pool_account(pid) != who);
    }
}

/// Minting keeps every pool's reserves backed by its account.
pub proof fn lemma_mint_keeps_reserves_backed(s: PalletView, asset_id: u32, receiver: u64, amount: u128)
    requires
        reserves_backed(s),
        spec_mint_into(s.assets, asset_id, receiver, amount) is Ok,
    ensures
        reserves_backed(PalletView { assets: spec_mint_into(s.assets, asset_id, receiver, amount)->Ok_0, ..s }),
{
    let v = spec_mint_into(s.assets, asset_id, receiver, amount)->Ok_0;
    assert forall|pid: (u32, u32)| #[trigger] s.pools.contains_key(pid) implies {
        &&& balance_of(v, s.pools[pid].asset_ids.0, spec_pool_account(pid)) >= s.pools[pid].balances.0
        &&& balance_of(v, s.pools[pid].asset_ids.1, spec_pool_account(pid)) >= s.pools[pid].balances.1
    } by {
        assert(balance_of(v, s.pools[pid].asset_ids.0, spec_pool_account(pid)) >= balance_of(
            s.assets,
            s.pools[pid].asset_ids.0,
            spec_pool_account(pid),
        ));
        assert(balance_of(v, s.pools[pid].asset_ids.1, spec_pool_account(pid)) >= balance_of(
            s.assets,
            s.pools[pid].asset_ids.1,
            spec_pool_account(pid),
        ));
    }
}

} // verus!
