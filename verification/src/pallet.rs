//! The exchange: its pools, the assets it moves, the events it deposits, and the calls that
//! create pools and add liquidity to them.
use crate::assets::{
    balance_of, spec_create, spec_mint_into, spec_mint_native, spec_transfer, Assets,
    AssetsView,
};
use crate::encoding::{
    blake2_256_of_bytes, bytes_lt, decode_u32_trailing_zero, decode_u64, encode_asset_id,
    encode_pool_id, hash_bytes, le_bytes_pair, le_bytes_u32, le_u32_value, le_u64_value,
    lex_lt, pallet_id_into_account,
};
use crate::math::{floor_sqrt, integer_sqrt, lemma_floor_sqrt_is};
use crate::types::{Config, DispatchError, Error, Event, LiquidityPool, Origin};
use crate::vec_map::{copy_vec, VecMap};
use vstd::prelude::*;

verus! {

/// The amount of native currency that the genesis puts into the pallet's account.
pub const GENESIS_PALLET_BALANCE: u128 = 100_000;

/// The id of the pool of two assets: the pair ordered by their SCALE encodings.
pub open spec fn spec_pool_id(asset_1: u32, asset_2: u32) -> (u32, u32) {
    if lex_lt(le_bytes_u32(asset_1), le_bytes_u32(asset_2)) {
        (asset_1, asset_2)
    } else {
        (asset_2, asset_1)
    }
}

/// The liquidity token of a pool: the first four bytes, little-endian, of the digest of the
/// pool id's encoding.
pub open spec fn spec_liquidity_token_id(pool_id: (u32, u32)) -> u32 {
    le_u32_value(blake2_256_of_bytes(le_bytes_pair(pool_id))) as u32
}

/// The account that holds a pool's assets: the first eight bytes, little-endian, of the
/// digest of the pool id's encoding.
pub open spec fn spec_pool_account(pool_id: (u32, u32)) -> u64 {
    le_u64_value(blake2_256_of_bytes(le_bytes_pair(pool_id))) as u64
}

/// The pallet's own account, derived from its pallet id.
pub open spec fn spec_pallet_account(config: Config) -> u64 {
    le_u64_value(seq![109u8, 111u8, 100u8, 108u8] + config.pallet_id@) as u64
}

/// The liquidity tokens minted for amounts `a` and `b`: the square root of their product,
/// rounded down, or an overflow error where the product exceeds `u128::MAX`.
pub open spec fn spec_lp_token_amount(a: u128, b: u128) -> Result<u128, DispatchError> {
    if a * b > u128::MAX {
        Err(DispatchError::Module(Error::ArithmeticsOverflow))
    } else {
        Ok(floor_sqrt(a * b) as u128)
    }
}

/// The signer of a signed origin; any other origin is refused.
pub open spec fn spec_ensure_signed(origin: Origin) -> Result<u64, DispatchError> {
    match origin {
        Origin::Signed(who) => Ok(who),
        _ => Err(DispatchError::BadOrigin),
    }
}

/// The state of the pallet: its configuration, its pools by id, the assets, and the events
/// deposited so far.
#[verifier::ext_equal]
pub struct PalletView {
    pub config: Config,
    pub pools: Map<(u32, u32), LiquidityPool>,
    pub assets: AssetsView,
    pub events: Seq<Event>,
}

/// Creating the asset `id`, administered by `admin`, unless it exists.
pub open spec fn spec_create_token_if_not_exists(v: AssetsView, id: u32, admin: u64) -> Result<
    AssetsView,
    DispatchError,
> {
    if v.classes.contains_key(id) {
        Ok(v)
    } else {
        spec_create(v, id, admin, true, 1)
    }
}

/// Moving `amount_a` of `asset_a` and `amount_b` of `asset_b` from `who` to `pool_account`,
/// then minting `lp_amount` of `lp_token` into `who`; each step only where the ones before
/// it succeeded. The assets after the steps that succeeded, and the first error.
pub open spec fn spec_transfer_and_mint(
    v: AssetsView,
    who: u64,
    asset_a: u32,
    asset_b: u32,
    amount_a: u128,
    amount_b: u128,
    pool_account: u64,
    lp_token: u32,
    lp_amount: u128,
) -> (AssetsView, Result<(), DispatchError>) {
    match spec_transfer(v, asset_a, who, pool_account, amount_a) {
        Err(e) => (v, Err(e)),
        Ok(v1) => match spec_transfer(v1, asset_b, who, pool_account, amount_b) {
            Err(e) => (v1, Err(e)),
            Ok(v2) => match spec_mint_into(v2, lp_token, who, lp_amount) {
                Err(e) => (v2, Err(e)),
                Ok(v3) => (v3, Ok(())),
            },
        },
    }
}

/// The outcome of `initialise_pool_with_assets`: the first check that fails, or the state
/// with the new pool stored, its event deposited, its liquidity token created where it did
/// not exist, the amounts moved into the pool's account and the liquidity tokens minted.
pub open spec fn spec_initialise_pool(
    s: PalletView,
    origin: Origin,
    asset_id_a: u32,
    asset_id_b: u32,
    amount_a: u128,
    amount_b: u128,
) -> Result<PalletView, DispatchError> {
    let pool_id = spec_pool_id(asset_id_a, asset_id_b);
    let lp_token = spec_liquidity_token_id(pool_id);
    match spec_ensure_signed(origin) {
        Err(e) => Err(e),
        Ok(who) => if asset_id_a == asset_id_b {
            Err(DispatchError::Module(Error::DistinctAssetsRequired))
        } else if amount_a == 0 || amount_b == 0 {
            Err(DispatchError::Module(Error::InsufficientLiquidityProvided))
        } else if balance_of(s.assets, asset_id_a, who) < amount_a || balance_of(
            s.assets,
            asset_id_b,
            who,
        ) < amount_b {
            Err(DispatchError::Module(Error::InsufficientAccountBalance))
        } else if s.pools.contains_key(pool_id) {
            Err(DispatchError::Module(Error::DuplicatePoolError))
        } else {
            match spec_lp_token_amount(amount_a, amount_b) {
                Err(e) => Err(e),
                Ok(lp_amount) => match spec_create_token_if_not_exists(
                    s.assets,
                    lp_token,
                    spec_pallet_account(s.config),
                ) {
                    Err(e) => Err(e),
                    Ok(assets) => {
                        let moved = spec_transfer_and_mint(
                            assets,
                            who,
                            asset_id_a,
                            asset_id_b,
                            amount_a,
                            amount_b,
                            spec_pool_account(pool_id),
                            lp_token,
                            lp_amount,
                        );
                        match moved.1 {
                            Err(e) => Err(e),
                            Ok(_) => Ok(
                                PalletView {
                                    config: s.config,
                                    pools: s.pools.insert(
                                        pool_id,
                                        LiquidityPool {
                                            asset_ids: (asset_id_a, asset_id_b),
                                            balances: (amount_a, amount_b),
                                            liquidity_token_id: lp_token,
                                        },
                                    ),
                                    assets: moved.0,
                                    events: s.events.push(
                                        Event::PoolCreated {
                                            pool_id,
                                            asset_id_a,
                                            asset_id_b,
                                            creator: who,
                                            liquidity_token_id: lp_token,
                                        },
                                    ),
                                },
                            ),
                        }
                    },
                },
            }
        },
    }
}

/// Adding `amount_a` and `amount_b` to the reserves of `pool`, in the order of its assets, and
/// storing it under `pool_id`: refused where an amount is zero or a reserve would overflow.
pub open spec fn spec_provide_liquidity(
    pools: Map<(u32, u32), LiquidityPool>,
    pool_id: (u32, u32),
    pool: LiquidityPool,
    amount_a: u128,
    amount_b: u128,
) -> Result<Map<(u32, u32), LiquidityPool>, DispatchError> {
    if !(amount_a > 0 && amount_b > 0) {
        Err(DispatchError::Module(Error::InsufficientLiquidityProvided))
    } else if pool.balances.0 + amount_a > u128::MAX || pool.balances.1 + amount_b > u128::MAX {
        Err(DispatchError::Module(Error::ArithmeticsOverflow))
    } else {
        Ok(
            pools.insert(
                pool_id,
                LiquidityPool {
                    balances: (
                        (pool.balances.0 + amount_a) as u128,
                        (pool.balances.1 + amount_b) as u128,
                    ),
                    ..pool
                },
            ),
        )
    }
}

/// The amounts of `asset_id_a` and of the other asset, in the order of the pool's assets.
pub open spec fn in_pool_order(pool: LiquidityPool, asset_id_a: u32, amount_a: u128, amount_b: u128) -> (u128, u128) {
    if pool.asset_ids.0 == asset_id_a {
        (amount_a, amount_b)
    } else {
        (amount_b, amount_a)
    }
}

/// The outcome of `add_liquidity`: the first check that fails, or the state with the
/// pool's reserves increased, the amounts moved into the pool's account and the liquidity
/// tokens minted. No event is deposited.
pub open spec fn spec_add_liquidity(
    s: PalletView,
    origin: Origin,
    asset_id_a: u32,
    asset_id_b: u32,
    amount_a: u128,
    amount_b: u128,
) -> Result<PalletView, DispatchError> {
    let pool_id = spec_pool_id(asset_id_a, asset_id_b);
    let lp_token = spec_liquidity_token_id(pool_id);
    match spec_ensure_signed(origin) {
        Err(e) => Err(e),
        Ok(who) => if asset_id_a == asset_id_b {
            Err(DispatchError::Module(Error::DistinctAssetsRequired))
        } else if balance_of(s.assets, asset_id_a, who) < amount_a || balance_of(
            s.assets,
            asset_id_b,
            who,
        ) < amount_b {
            Err(DispatchError::Module(Error::InsufficientAccountBalance))
        } else if !s.pools.contains_key(pool_id) {
            Err(DispatchError::Module(Error::PoolNotFoundError))
        } else {
            match spec_lp_token_amount(amount_a, amount_b) {
                Err(e) => Err(e),
                Ok(lp_amount) => {
                    let pool = s.pools[pool_id];
                    let amounts = in_pool_order(pool, asset_id_a, amount_a, amount_b);
                    match spec_provide_liquidity(s.pools, pool_id, pool, amounts.0, amounts.1) {
                        Err(e) => Err(e),
                        Ok(pools) => {
                            let moved = spec_transfer_and_mint(
                                s.assets,
                                who,
                                asset_id_a,
                                asset_id_b,
                                amount_a,
                                amount_b,
                                spec_pool_account(pool_id),
                                lp_token,
                                lp_amount,
                            );
                            match moved.1 {
                                Err(e) => Err(e),
                                Ok(_) => Ok(
                                    PalletView {
                                        config: s.config,
                                        pools,
                                        assets: moved.0,
                                        events: s.events,
                                    },
                                ),
                            }
                        },
                    }
                },
            }
        },
    }
}

/// The price of `asset_id_a` in `asset_id_b`: the reserve of the one divided by the reserve
/// of the other, rounded down.
pub open spec fn spec_get_price(s: PalletView, origin: Origin, asset_id_a: u32, asset_id_b: u32) -> Result<
    u128,
    DispatchError,
> {
    let pool_id = spec_pool_id(asset_id_a, asset_id_b);
    match spec_ensure_signed(origin) {
        Err(e) => Err(e),
        Ok(_) => if !s.pools.contains_key(pool_id) {
            Err(DispatchError::Module(Error::PoolNotFoundError))
        } else {
            let pool = s.pools[pool_id];
            let reserves = in_pool_order(pool, asset_id_a, pool.balances.0, pool.balances.1);
            Ok((reserves.0 / reserves.1) as u128)
        },
    }
}

/// The outcome of a call on a state: the new state where the call succeeds, the old state
/// and the error where it fails.
pub open spec fn dispatched(
    before: PalletView,
    after: PalletView,
    r: Result<(), DispatchError>,
    outcome: Result<PalletView, DispatchError>,
) -> bool {
    match outcome {
        Ok(s) => r is Ok && after == s,
        Err(e) => r == Err::<(), DispatchError>(e) && after == before,
    }
}

/// The pallet: its configuration and its storage, with the assets it operates on.
pub struct Pallet {
    config: Config,
    pools: VecMap<(u32, u32), LiquidityPool>,
    assets: Assets,
    events: Vec<Event>,
}

impl View for Pallet {
    type V = PalletView;

    closed spec fn view(&self) -> PalletView {
        PalletView {
            config: self.config,
            pools: self.pools@,
            assets: self.assets@,
            events: self.events@,
        }
    }
}

/// Every stored pool fits the id under which it is stored.
pub open spec fn pools_consistent(pools: Map<(u32, u32), LiquidityPool>) -> bool {
    forall|pool_id: (u32, u32)| #[trigger]
        pools.contains_key(pool_id) ==> pool_fits(pool_id, pools[pool_id])
}

/// A pool that may be stored under `pool_id`: it holds two distinct assets whose pair has
/// this id, names the liquidity token of this id, and holds a positive reserve of each asset.
pub open spec fn pool_fits(pool_id: (u32, u32), pool: LiquidityPool) -> bool {
    &&& pool.asset_ids.0 != pool.asset_ids.1
    &&& spec_pool_id(pool.asset_ids.0, pool.asset_ids.1) == pool_id
    &&& pool.liquidity_token_id == spec_liquidity_token_id(pool_id)
    &&& pool.balances.0 > 0
    &&& pool.balances.1 > 0
}

/// Every call keeps the pallet well formed, so every pool it stores fits the id under which
/// it is stored.
pub proof fn lemma_stored_pools_fit(pallet: &Pallet)
    requires
        pallet.wf(),
    ensures
        pools_consistent(pallet@.pools),
{
}

/// The signer of `origin`, as `frame_system::ensure_signed` gives it.
pub fn ensure_signed(origin: Origin) -> (r: Result<u64, DispatchError>)
    ensures
        r == spec_ensure_signed(origin),
{
    match origin {
        Origin::Signed(who) => Ok(who),
        _ => Err(DispatchError::BadOrigin),
    }
}

/// Whether `origin` is the root, as `frame_system::ensure_root` decides it.
pub fn ensure_root(origin: Origin) -> (r: Result<(), DispatchError>)
    ensures
        r == (if origin is Root {
            Ok::<(), DispatchError>(())
        } else {
            Err(DispatchError::BadOrigin)
        }),
{
    match origin {
        Origin::Root => Ok(()),
        _ => Err(DispatchError::BadOrigin),
    }
}

impl Pallet {
    pub closed spec fn wf(&self) -> bool {
        &&& self.pools.wf()
        &&& self.assets.wf()
        &&& pools_consistent(self.pools@)
    }

    /// A pallet with no pools, no assets and no events.
    pub fn new(config: Config) -> (r: Self)
        ensures
            r.wf(),
            r@.config == config,
            r@.pools == Map::<(u32, u32), LiquidityPool>::empty(),
            r@.assets.classes.is_empty(),
            r@.assets.balances.is_empty(),
            r@.assets.native.is_empty(),
            r@.events == Seq::<Event>::empty(),
    {
        Pallet { config, pools: VecMap::new(), assets: Assets::new(), events: Vec::new() }
    }

    /// A copy of the whole state.
    fn snapshot(&self) -> (r: Self)
        requires
            self.wf(),
        ensures
            r.wf(),
            r@ == self@,
    {
        Pallet {
            config: self.config,
            pools: self.pools.copy(),
            assets: self.assets.copy(),
            events: copy_vec(&self.events),
        }
    }

    fn deposit_event(&mut self, event: Event)
        ensures
            final(self).config == old(self).config,
            final(self).pools == old(self).pools,
            final(self).assets == old(self).assets,
            final(self).events@ == old(self).events@.push(event),
    {
        self.events.push(event);
    }

    /// The assets that the pallet operates on.
    pub fn assets(&self) -> (r: &Assets)
        ensures
            r@ == self@.assets,
            self.wf() ==> r.wf(),
    {
        &self.assets
    }

    /// The events deposited so far.
    pub fn events(&self) -> (r: &Vec<Event>)
        ensures
            r@ == self@.events,
    {
        &self.events
    }

    /// This function takes two asset identifiers and returns them in a consistent order.
    /// ensures commutativity:  f(a, b) == f(b, a)
    pub fn create_pool_id_from_assets(asset_1: u32, asset_2: u32) -> (r: (u32, u32))
        ensures
            r == spec_pool_id(asset_1, asset_2),
    {
        let encoded_1 = encode_asset_id(asset_1);
        let encoded_2 = encode_asset_id(asset_2);
        if bytes_lt(&encoded_1, &encoded_2) {
            (asset_1, asset_2)
        } else {
            (asset_2, asset_1)
        }
    }

    /// Retrieves a pool based on its ID.
    pub fn get_pool_by_id(&self, pool_id: &(u32, u32)) -> (r: Option<LiquidityPool>)
        requires
            self.wf(),
        ensures
            r == (if self@.pools.contains_key(*pool_id) {
                Some(self@.pools[*pool_id])
            } else {
                None::<LiquidityPool>
            }),
    {
        self.pools.get(pool_id)
    }

    pub fn pool_exists(&self, pool_id: &(u32, u32)) -> (r: bool)
        requires
            self.wf(),
        ensures
            r == self@.pools.contains_key(*pool_id),
    {
        self.pools.contains_key(pool_id)
    }

    pub fn create_liquidity_token_id_for_pair(asset_1: u32, asset_2: u32) -> (r: u32)
        ensures
            r == spec_liquidity_token_id(spec_pool_id(asset_1, asset_2)),
    {
        Self::create_liquidity_token_id_for_pool_id(
            &Self::create_pool_id_from_assets(asset_1, asset_2),
        )
    }

    pub fn create_liquidity_token_id_for_pool_id(pool_id: &(u32, u32)) -> (r: u32)
        ensures
            r == spec_liquidity_token_id(*pool_id),
    {
        let digest = hash_bytes(&encode_pool_id(pool_id));
        decode_u32_trailing_zero(&digest)
    }

    pub fn derive_pool_account_from_id(pool_id: &(u32, u32)) -> (r: Result<u64, &'static str>)
        ensures
            r == Ok::<u64, &'static str>(spec_pool_account(*pool_id)),
    {
        let seed = hash_bytes(&encode_pool_id(pool_id));
        match decode_u64(&seed) {
            Some(account) => Ok(account),
            None => Err("Failed to decode AccountId from seed"),
        }
    }

    pub fn ensure_distinct_assets(asset_a: &u32, asset_b: &u32) -> (r: Result<(), DispatchError>)
        ensures
            r == (if *asset_a != *asset_b {
                Ok::<(), DispatchError>(())
            } else {
                Err(DispatchError::Module(Error::DistinctAssetsRequired))
            }),
    {
        if *asset_a == *asset_b {
            return Err(DispatchError::Module(Error::DistinctAssetsRequired));
        }
        Ok(())
    }

    pub fn calculate_lp_token_amount_for_pair_amounts(amount_a: u128, amount_b: u128) -> (r:
        Result<u128, DispatchError>)
        ensures
            r == spec_lp_token_amount(amount_a, amount_b),
    {
        match amount_a.checked_mul(amount_b) {
            Some(product) => {
                let root = integer_sqrt(product);
                proof {
                    lemma_floor_sqrt_is(product as int, root as int);
                }
                Ok(root)
            },
            None => Err(DispatchError::Module(Error::ArithmeticsOverflow)),
        }
    }

    pub fn ensure_amounts_non_zero(amount_a: &u128, amount_b: &u128) -> (r: Result<
        (),
        DispatchError,
    >)
        ensures
            r == (if *amount_a > 0 && *amount_b > 0 {
                Ok::<(), DispatchError>(())
            } else {
                Err(DispatchError::Module(Error::InsufficientLiquidityProvided))
            }),
    {
        if !(*amount_a > 0 && *amount_b > 0) {
            return Err(DispatchError::Module(Error::InsufficientLiquidityProvided));
        }
        Ok(())
    }

    pub fn mint_asset(&mut self, origin: Origin, asset_id: u32, receiver: u64, amount: u128) -> (r:
        Result<(), DispatchError>)
        requires
            old(self).wf(),
        ensures
            final(self).wf(),
            dispatched(
                old(self)@,
                final(self)@,
                r,
                if origin is Root {
                    match spec_mint_into(old(self)@.assets, asset_id, receiver, amount) {
                        Ok(assets) => Ok(PalletView { assets, ..old(self)@ }),
                        Err(e) => Err(e),
                    }
                } else {
                    Err(DispatchError::BadOrigin)
                },
            ),
    {
        ensure_root(origin)?;
        self.assets.mint_into(asset_id, &receiver, amount)?;
        Ok(())
    }

    /// The pallet's own account.
    pub fn account_id(&self) -> (r: u64)
        ensures
            r == spec_pallet_account(self@.config),
    {
        pallet_id_into_account(self.config.pallet_id)
    }

    pub fn create_token_if_not_exists(&mut self, asset_id: u32) -> (r: Result<(), DispatchError>)
        requires
            old(self).wf(),
        ensures
            final(self).wf(),
            dispatched(
                old(self)@,
                final(self)@,
                r,
                match spec_create_token_if_not_exists(
                    old(self)@.assets,
                    asset_id,
                    spec_pallet_account(old(self)@.config),
                ) {
                    Ok(assets) => Ok(PalletView { assets, ..old(self)@ }),
                    Err(e) => Err(e),
                },
            ),
    {
        if !self.assets.asset_exists(asset_id) {
            let admin = self.account_id();
            self.assets.create(asset_id, admin, true, 1)?;
        }
        Ok(())
    }

    pub fn get_balance(&self, who: &u64, asset_id: u32) -> (r: u128)
        requires
            self.wf(),
        ensures
            r == balance_of(self@.assets, asset_id, *who),
    {
        self.assets.balance(asset_id, who)
    }

    pub fn ensure_sufficient_balance(&self, who: &u64, asset_id: u32, amount_a: u128) -> (r: Result<
        (),
        DispatchError,
    >)
        requires
            self.wf(),
        ensures
            r == (if balance_of(self@.assets, asset_id, *who) >= amount_a {
                Ok::<(), DispatchError>(())
            } else {
                Err(DispatchError::Module(Error::InsufficientAccountBalance))
            }),
    {
        let sender_balance = self.get_balance(who, asset_id);
        if sender_balance < amount_a {
            return Err(DispatchError::Module(Error::InsufficientAccountBalance));
        }
        Ok(())
    }

    /// Moves both amounts from `who` to the pool's account, then mints the liquidity tokens
    /// into `who`. Steps that succeeded before one fails stay done.
    pub fn transfer_assets_and_mint_lp_tokens(
        &mut self,
        who: &u64,
        asset_id_a: u32,
        asset_id_b: u32,
        amount_a: u128,
        amount_b: u128,
        pool_account: u64,
        liquidity_token_id: u32,
        liquidity_token_amount: u128,
    ) -> (r: Result<(), DispatchError>)
        requires
            old(self).wf(),
        ensures
            final(self).wf(),
            ({
                let moved = spec_transfer_and_mint(
                    old(self)@.assets,
                    *who,
                    asset_id_a,
                    asset_id_b,
                    amount_a,
                    amount_b,
                    pool_account,
                    liquidity_token_id,
                    liquidity_token_amount,
                );
                &&& r == moved.1
                &&& final(self)@ == PalletView { assets: moved.0, ..old(self)@ }
            }),
    {
        self.assets.transfer(asset_id_a, who, &pool_account, amount_a)?;
        self.assets.transfer(asset_id_b, who, &pool_account, amount_b)?;
        self.assets.mint_into(liquidity_token_id, who, liquidity_token_amount)?;
        Ok(())
    }

    /// Adds the amounts to the reserves of the pool stored under `pool_id`, in the order of
    /// its assets.
    pub fn provide_liquidity_to_pool(
        &mut self,
        pool_id: (u32, u32),
        pool: LiquidityPool,
        amount_a: u128,
        amount_b: u128,
    ) -> (r: Result<(), DispatchError>)
        requires
            old(self).wf(),
            amount_a > 0 && amount_b > 0 ==> pool_fits(pool_id, pool),
        ensures
            final(self).wf(),
            dispatched(
                old(self)@,
                final(self)@,
                r,
                match spec_provide_liquidity(old(self)@.pools, pool_id, pool, amount_a, amount_b) {
                    Ok(pools) => Ok(PalletView { pools, ..old(self)@ }),
                    Err(e) => Err(e),
                },
            ),
    {
        if !(amount_a > 0 && amount_b > 0) {
            return Err(DispatchError::Module(Error::InsufficientLiquidityProvided));
        }
        let balance_a = match pool.balances.0.checked_add(amount_a) {
            Some(b) => b,
            None => return Err(DispatchError::Module(Error::ArithmeticsOverflow)),
        };
        let balance_b = match pool.balances.1.checked_add(amount_b) {
            Some(b) => b,
            None => return Err(DispatchError::Module(Error::ArithmeticsOverflow)),
        };
        self.pools.insert(pool_id, LiquidityPool { balances: (balance_a, balance_b), ..pool });
        Ok(())
    }

    /// The steps of `initialise_pool_with_assets`, with what they leave behind where one fails.
    fn initialise_pool_steps(
        &mut self,
        origin: Origin,
        asset_id_a: u32,
        asset_id_b: u32,
        amount_a: u128,
        amount_b: u128,
    ) -> (r: Result<(), DispatchError>)
        requires
            old(self).wf(),
        ensures
            final(self).wf(),
            match spec_initialise_pool(old(self)@, origin, asset_id_a, asset_id_b, amount_a, amount_b) {
                Ok(s) => r is Ok && final(self)@ == s,
                Err(e) => r == Err::<(), DispatchError>(e),
            },
    {
        let who = ensure_signed(origin)?;
        Self::ensure_distinct_assets(&asset_id_a, &asset_id_b)?;
        Self::ensure_amounts_non_zero(&amount_a, &amount_b)?;
        self.ensure_sufficient_balance(&who, asset_id_a, amount_a)?;
        self.ensure_sufficient_balance(&who, asset_id_b, amount_b)?;
        let pool_id = Self::create_pool_id_from_assets(asset_id_a, asset_id_b);
        if self.pool_exists(&pool_id) {
            return Err(DispatchError::Module(Error::DuplicatePoolError));
        }
        let liquidity_token_id = Self::create_liquidity_token_id_for_pool_id(&pool_id);
        let lp_token_amount_to_mint = Self::calculate_lp_token_amount_for_pair_amounts(
            amount_a,
            amount_b,
        )?;
        self.create_token_if_not_exists(liquidity_token_id)?;
        let pool = LiquidityPool {
            asset_ids: (asset_id_a, asset_id_b),
            balances: (amount_a, amount_b),
            liquidity_token_id,
        };
        let pool_account = match Self::derive_pool_account_from_id(&pool_id) {
            Ok(account) => account,
            Err(e) => return Err(DispatchError::Other(e)),
        };
        self.pools.insert(pool_id, pool);
        self.deposit_event(
            Event::PoolCreated {
                pool_id,
                asset_id_a,
                asset_id_b,
                creator: who,
                liquidity_token_id,
            },
        );
        self.transfer_assets_and_mint_lp_tokens(
            &who,
            asset_id_a,
            asset_id_b,
            amount_a,
            amount_b,
            pool_account,
            liquidity_token_id,
            lp_token_amount_to_mint,
        )?;
        Ok(())
    }

    /// Creates the pool of two distinct assets with the signer's first liquidity, and mints
    /// the signer's liquidity tokens. A call that fails changes nothing.
    pub fn initialise_pool_with_assets(
        &mut self,
        origin: Origin,
        asset_id_a: u32,
        asset_id_b: u32,
        amount_a: u128,
        amount_b: u128,
    ) -> (r: Result<(), DispatchError>)
        requires
            old(self).wf(),
        ensures
            final(self).wf(),
            dispatched(
                old(self)@,
                final(self)@,
                r,
                spec_initialise_pool(old(self)@, origin, asset_id_a, asset_id_b, amount_a, amount_b),
            ),
    {
        let saved = self.snapshot();
        let r = self.initialise_pool_steps(origin, asset_id_a, asset_id_b, amount_a, amount_b);
        if r.is_err() {
            *self = saved;
        }
        r
    }

    /// The steps of `add_liquidity`, with what they leave behind where one fails.
    fn add_liquidity_steps(
        &mut self,
        origin: Origin,
        asset_id_a: u32,
        asset_id_b: u32,
        amount_a: u128,
        amount_b: u128,
    ) -> (r: Result<(), DispatchError>)
        requires
            old(self).wf(),
        ensures
            final(self).wf(),
            match spec_add_liquidity(old(self)@, origin, asset_id_a, asset_id_b, amount_a, amount_b) {
                Ok(s) => r is Ok && final(self)@ == s,
                Err(e) => r == Err::<(), DispatchError>(e),
            },
    {
        let who = ensure_signed(origin)?;
        Self::ensure_distinct_assets(&asset_id_a, &asset_id_b)?;
        self.ensure_sufficient_balance(&who, asset_id_a, amount_a)?;
        self.ensure_sufficient_balance(&who, asset_id_b, amount_b)?;
        let pool_id = Self::create_pool_id_from_assets(asset_id_a, asset_id_b);
        let pool = match self.get_pool_by_id(&pool_id) {
            Some(pool) => pool,
            None => return Err(DispatchError::Module(Error::PoolNotFoundError)),
        };
        let liquidity_token_id = Self::create_liquidity_token_id_for_pool_id(&pool_id);
        let lp_token_amount_to_mint = Self::calculate_lp_token_amount_for_pair_amounts(
            amount_a,
            amount_b,
        )?;
        let (amount_first, amount_second) = if pool.asset_ids.0 == asset_id_a {
            (amount_a, amount_b)
        } else {
            (amount_b, amount_a)
        };
        self.provide_liquidity_to_pool(pool_id, pool, amount_first, amount_second)?;
        let pool_account = match Self::derive_pool_account_from_id(&pool_id) {
            Ok(account) => account,
            Err(e) => return Err(DispatchError::Other(e)),
        };
        self.transfer_assets_and_mint_lp_tokens(
            &who,
            asset_id_a,
            asset_id_b,
            amount_a,
            amount_b,
            pool_account,
            liquidity_token_id,
            lp_token_amount_to_mint,
        )?;
        Ok(())
    }

    /// Adds the signer's liquidity to the existing pool of two distinct assets, and mints the
    /// signer's liquidity tokens. A call that fails changes nothing; one that succeeds deposits
    /// no event.
    pub fn add_liquidity(
        &mut self,
        origin: Origin,
        asset_id_a: u32,
        asset_id_b: u32,
        amount_a: u128,
        amount_b: u128,
    ) -> (r: Result<(), DispatchError>)
        requires
            old(self).wf(),
        ensures
            final(self).wf(),
            dispatched(
                old(self)@,
                final(self)@,
                r,
                spec_add_liquidity(old(self)@, origin, asset_id_a, asset_id_b, amount_a, amount_b),
            ),
    {
        let saved = self.snapshot();
        let r = self.add_liquidity_steps(origin, asset_id_a, asset_id_b, amount_a, amount_b);
        if r.is_err() {
            *self = saved;
        }
        r
    }

    /// The price of `asset_id_a` in `asset_id_b` in their pool.
    pub fn get_price(&self, origin: Origin, asset_id_a: u32, asset_id_b: u32) -> (r: Result<
        u128,
        DispatchError,
    >)
        requires
            self.wf(),
        ensures
            r == spec_get_price(self@, origin, asset_id_a, asset_id_b),
    {
        let _who = ensure_signed(origin)?;
        let pool_id = Self::create_pool_id_from_assets(asset_id_a, asset_id_b);
        let pool = match self.get_pool_by_id(&pool_id) {
            Some(pool) => pool,
            None => return Err(DispatchError::Module(Error::PoolNotFoundError)),
        };
        let (reserve_a, reserve_b) = if pool.asset_ids.0 == asset_id_a {
            (pool.balances.0, pool.balances.1)
        } else {
            (pool.balances.1, pool.balances.0)
        };
        Ok(reserve_a / reserve_b)
    }
}

/// The genesis of the pallet.
pub struct GenesisConfig {}

impl GenesisConfig {
    /// Puts native currency into the pallet's account, for creating and minting liquidity
    /// tokens. Where the mint fails, nothing changes.
    pub fn build(&self, pallet: &mut Pallet)
        requires
            old(pallet).wf(),
        ensures
            final(pallet).wf(),
            final(pallet)@ == match spec_mint_native(
                old(pallet)@.assets,
                spec_pallet_account(old(pallet)@.config),
                GENESIS_PALLET_BALANCE,
            ) {
                Ok(assets) => PalletView { assets, ..old(pallet)@ },
                Err(_) => old(pallet)@,
            },
    {
        let account_id = pallet.account_id();
        let _ = pallet.assets.mint_native(&account_id, GENESIS_PALLET_BALANCE);
    }
}

} // verus!
