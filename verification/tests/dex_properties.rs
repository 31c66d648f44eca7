use pallet_dex::assets::Assets;
use pallet_dex::pallet::{GenesisConfig, Pallet, GENESIS_PALLET_BALANCE};
use pallet_dex::types::{
    ArithmeticError, AssetsError, Config, DispatchError, Error, Event, LiquidityPool, Origin,
    TokenError,
};

const ALICE: u64 = 2;
const BOB: u64 = 3;
const A: u32 = 1;
const B: u32 = 2;

fn dex_with_alice(amount_a: u128, amount_b: u128) -> Pallet {
    let mut dex = Pallet::new(Config { pallet_id: *b"py/dexpl" });
    GenesisConfig {}.build(&mut dex);
    assert_eq!(dex.create_token_if_not_exists(A), Ok(()));
    assert_eq!(dex.create_token_if_not_exists(B), Ok(()));
    assert_eq!(dex.mint_asset(Origin::Root, A, ALICE, amount_a), Ok(()));
    assert_eq!(dex.mint_asset(Origin::Root, B, ALICE, amount_b), Ok(()));
    dex
}

#[test]
fn pool_id_orders_by_encoding_not_by_value() {
    // 256 encodes as [0, 1, 0, 0], which comes before [1, 0, 0, 0].
    assert_eq!(Pallet::create_pool_id_from_assets(1, 256), (256, 1));
    assert_eq!(Pallet::create_pool_id_from_assets(256, 1), (256, 1));
    assert_eq!(Pallet::create_pool_id_from_assets(2, 1), (1, 2));
    assert_eq!(Pallet::create_pool_id_from_assets(7, 7), (7, 7));
}

#[test]
fn liquidity_token_id_and_pool_account_are_read_from_the_digest() {
    assert_eq!(Pallet::create_liquidity_token_id_for_pair(1, 2), 1581588597);
    assert_eq!(Pallet::create_liquidity_token_id_for_pool_id(&(1, 2)), 1581588597);
    assert_eq!(Pallet::create_liquidity_token_id_for_pair(3, 2), 2242596037);
    assert_eq!(Pallet::create_liquidity_token_id_for_pair(1, 256), 1747922377);
    assert_eq!(Pallet::derive_pool_account_from_id(&(1, 2)), Ok(10312365016426553461));
    assert_eq!(Pallet::derive_pool_account_from_id(&(256, 1)), Ok(4819744367821401545));
}

#[test]
fn pallet_account_is_derived_from_the_pallet_id() {
    let dex = Pallet::new(Config { pallet_id: *b"py/dexpl" });
    assert_eq!(dex.account_id(), 7219122251460013933);
}

#[test]
fn genesis_funds_the_pallet_account() {
    let mut dex = Pallet::new(Config { pallet_id: *b"py/dexpl" });
    let account = dex.account_id();
    assert_eq!(dex.assets().native_balance(&account), 0);
    GenesisConfig {}.build(&mut dex);
    assert_eq!(dex.assets().native_balance(&account), GENESIS_PALLET_BALANCE);
}

#[test]
fn lp_token_amount_is_the_square_root_rounded_down() {
    assert_eq!(Pallet::calculate_lp_token_amount_for_pair_amounts(0, 5), Ok(0));
    assert_eq!(Pallet::calculate_lp_token_amount_for_pair_amounts(3, 3), Ok(3));
    assert_eq!(Pallet::calculate_lp_token_amount_for_pair_amounts(2, 4), Ok(2));
    assert_eq!(Pallet::calculate_lp_token_amount_for_pair_amounts(30, 70), Ok(45));
    assert_eq!(
        Pallet::calculate_lp_token_amount_for_pair_amounts(u128::MAX, 1),
        Ok(18446744073709551615)
    );
    assert_eq!(
        Pallet::calculate_lp_token_amount_for_pair_amounts(1 << 64, 1 << 64),
        Err(DispatchError::Module(Error::ArithmeticsOverflow))
    );
}

#[test]
fn checks_of_assets_and_amounts() {
    assert_eq!(Pallet::ensure_distinct_assets(&A, &B), Ok(()));
    assert_eq!(
        Pallet::ensure_distinct_assets(&A, &A),
        Err(DispatchError::Module(Error::DistinctAssetsRequired))
    );
    assert_eq!(Pallet::ensure_amounts_non_zero(&1, &1), Ok(()));
    assert_eq!(
        Pallet::ensure_amounts_non_zero(&0, &1),
        Err(DispatchError::Module(Error::InsufficientLiquidityProvided))
    );
    assert_eq!(
        Pallet::ensure_amounts_non_zero(&1, &0),
        Err(DispatchError::Module(Error::InsufficientLiquidityProvided))
    );
}

#[test]
fn pool_creation_moves_the_amounts_and_mints_liquidity_tokens() {
    let mut dex = dex_with_alice(100, 100);
    assert_eq!(dex.initialise_pool_with_assets(Origin::Signed(ALICE), A, B, 30, 70), Ok(()));
    let pool_id = Pallet::create_pool_id_from_assets(A, B);
    let account = Pallet::derive_pool_account_from_id(&pool_id).unwrap();
    let lp = Pallet::create_liquidity_token_id_for_pool_id(&pool_id);
    assert_eq!(dex.get_balance(&ALICE, A), 70);
    assert_eq!(dex.get_balance(&ALICE, B), 30);
    assert_eq!(dex.get_balance(&account, A), 30);
    assert_eq!(dex.get_balance(&account, B), 70);
    assert_eq!(dex.get_balance(&ALICE, lp), 45);
    assert!(dex.assets().asset_exists(lp));
    assert_eq!(
        dex.get_pool_by_id(&pool_id),
        Some(LiquidityPool { asset_ids: (A, B), balances: (30, 70), liquidity_token_id: lp })
    );
    assert_eq!(
        dex.events().last(),
        Some(&Event::PoolCreated {
            pool_id,
            asset_id_a: A,
            asset_id_b: B,
            creator: ALICE,
            liquidity_token_id: lp
        })
    );
}

#[test]
fn pool_of_a_pair_is_created_once_in_either_order() {
    let mut dex = dex_with_alice(100, 100);
    assert_eq!(dex.initialise_pool_with_assets(Origin::Signed(ALICE), A, B, 10, 10), Ok(()));
    assert_eq!(
        dex.initialise_pool_with_assets(Origin::Signed(ALICE), B, A, 10, 10),
        Err(DispatchError::Module(Error::DuplicatePoolError))
    );
    assert_eq!(dex.get_balance(&ALICE, A), 90);
    assert_eq!(dex.events().len(), 1);
}

#[test]
fn pool_creation_refusals() {
    let mut dex = dex_with_alice(u128::MAX, u128::MAX);
    assert_eq!(
        dex.initialise_pool_with_assets(Origin::Root, A, B, 10, 10),
        Err(DispatchError::BadOrigin)
    );
    assert_eq!(
        dex.initialise_pool_with_assets(Origin::Unsigned, A, B, 10, 10),
        Err(DispatchError::BadOrigin)
    );
    assert_eq!(
        dex.initialise_pool_with_assets(Origin::Signed(ALICE), A, B, 0, 10),
        Err(DispatchError::Module(Error::InsufficientLiquidityProvided))
    );
    assert_eq!(
        dex.initialise_pool_with_assets(Origin::Signed(ALICE), A, B, u128::MAX, 2),
        Err(DispatchError::Module(Error::ArithmeticsOverflow))
    );
    assert_eq!(dex.get_balance(&ALICE, A), u128::MAX);
    assert!(!dex.pool_exists(&Pallet::create_pool_id_from_assets(A, B)));
    assert!(dex.events().is_empty());
}

#[test]
fn transfers_that_succeeded_before_a_failure_stay_done() {
    let mut dex = dex_with_alice(100, 5);
    let r = dex.transfer_assets_and_mint_lp_tokens(&ALICE, A, B, 10, 10, BOB, 77, 1);
    assert_eq!(r, Err(DispatchError::Token(TokenError::FundsUnavailable)));
    assert_eq!(dex.get_balance(&ALICE, A), 90);
    assert_eq!(dex.get_balance(&BOB, A), 10);
    assert_eq!(dex.get_balance(&ALICE, B), 5);
    let r = dex.transfer_assets_and_mint_lp_tokens(&ALICE, A, B, 10, 5, BOB, 77, 1);
    assert_eq!(r, Err(DispatchError::Token(TokenError::UnknownAsset)));
    assert_eq!(dex.get_balance(&BOB, B), 5);
}

#[test]
fn liquidity_goes_to_the_reserve_of_its_asset_whatever_the_order() {
    let mut dex = dex_with_alice(100, 100);
    assert_eq!(dex.initialise_pool_with_assets(Origin::Signed(ALICE), A, B, 50, 50), Ok(()));
    let pool_id = Pallet::create_pool_id_from_assets(A, B);
    let lp = Pallet::create_liquidity_token_id_for_pool_id(&pool_id);
    assert_eq!(dex.add_liquidity(Origin::Signed(ALICE), B, A, 10, 20), Ok(()));
    let pool = dex.get_pool_by_id(&pool_id).unwrap();
    assert_eq!(pool.get_asset_id_a(), A);
    assert_eq!(pool.get_asset_a_balance(), 70);
    assert_eq!(pool.get_asset_b_balance(), 60);
    assert_eq!(dex.get_balance(&ALICE, A), 30);
    assert_eq!(dex.get_balance(&ALICE, B), 40);
    assert_eq!(dex.get_balance(&ALICE, lp), 50 + 14);
    let account = Pallet::derive_pool_account_from_id(&pool_id).unwrap();
    assert_eq!((dex.get_balance(&account, A), dex.get_balance(&account, B)), (70, 60));
    assert_eq!(dex.events().len(), 1);
    assert!(matches!(dex.events()[0], Event::PoolCreated { .. }));
    assert_eq!(dex.assets().total_issuance(lp), 64);
}

#[test]
fn adding_no_liquidity_is_refused() {
    let mut dex = dex_with_alice(100, 100);
    assert_eq!(dex.initialise_pool_with_assets(Origin::Signed(ALICE), A, B, 50, 50), Ok(()));
    assert_eq!(
        dex.add_liquidity(Origin::Signed(ALICE), A, B, 0, 10),
        Err(DispatchError::Module(Error::InsufficientLiquidityProvided))
    );
    assert_eq!(
        dex.add_liquidity(Origin::Root, A, B, 10, 10),
        Err(DispatchError::BadOrigin)
    );
    assert_eq!(dex.get_pool_by_id(&Pallet::create_pool_id_from_assets(A, B)).unwrap().balances, (50, 50));
}

#[test]
fn provide_liquidity_to_pool_checks_amounts_and_reserves() {
    let mut dex = dex_with_alice(100, 100);
    assert_eq!(dex.initialise_pool_with_assets(Origin::Signed(ALICE), A, B, 50, 50), Ok(()));
    let pool_id = Pallet::create_pool_id_from_assets(A, B);
    let pool = dex.get_pool_by_id(&pool_id).unwrap();
    assert_eq!(
        dex.provide_liquidity_to_pool(pool_id, pool, 0, 1),
        Err(DispatchError::Module(Error::InsufficientLiquidityProvided))
    );
    assert_eq!(
        dex.provide_liquidity_to_pool(pool_id, pool, u128::MAX, 1),
        Err(DispatchError::Module(Error::ArithmeticsOverflow))
    );
    let unfit = LiquidityPool { asset_ids: (A, A), balances: (0, 0), liquidity_token_id: 0 };
    assert_eq!(
        dex.provide_liquidity_to_pool((9, 9), unfit, 0, 5),
        Err(DispatchError::Module(Error::InsufficientLiquidityProvided))
    );
    assert!(!dex.pool_exists(&(9, 9)));
    assert_eq!(dex.provide_liquidity_to_pool(pool_id, pool, 1, 2), Ok(()));
    assert_eq!(dex.get_pool_by_id(&pool_id).unwrap().balances, (51, 52));
}

#[test]
fn price_in_either_direction() {
    let mut dex = dex_with_alice(100, 100);
    assert_eq!(dex.initialise_pool_with_assets(Origin::Signed(ALICE), A, B, 25, 75), Ok(()));
    assert_eq!(dex.get_price(Origin::Signed(BOB), A, B), Ok(0));
    assert_eq!(dex.get_price(Origin::Signed(BOB), B, A), Ok(3));
    assert_eq!(dex.get_price(Origin::Root, B, A), Err(DispatchError::BadOrigin));
    assert_eq!(
        dex.get_price(Origin::Signed(BOB), A, 9),
        Err(DispatchError::Module(Error::PoolNotFoundError))
    );
}

#[test]
fn minting_needs_root_and_a_known_asset() {
    let mut dex = dex_with_alice(100, 100);
    assert_eq!(dex.mint_asset(Origin::Signed(ALICE), A, ALICE, 1), Err(DispatchError::BadOrigin));
    assert_eq!(
        dex.mint_asset(Origin::Root, 9, ALICE, 1),
        Err(DispatchError::Token(TokenError::UnknownAsset))
    );
    assert_eq!(
        dex.mint_asset(Origin::Root, A, ALICE, u128::MAX),
        Err(DispatchError::Arithmetic(ArithmeticError::Overflow))
    );
    assert_eq!(dex.get_balance(&ALICE, A), 100);
    assert_eq!(dex.assets().total_issuance(A), 100);
    assert_eq!(dex.mint_asset(Origin::Root, A, BOB, 7), Ok(()));
    assert_eq!(dex.assets().total_issuance(A), 107);
    assert_eq!(dex.assets().total_issuance(9), 0);
}

#[test]
fn token_creation_twice_is_creation_once() {
    let mut dex = dex_with_alice(100, 100);
    assert!(!dex.assets().asset_exists(5));
    assert_eq!(dex.create_token_if_not_exists(5), Ok(()));
    assert_eq!(dex.create_token_if_not_exists(5), Ok(()));
    assert!(dex.assets().asset_exists(5));
    assert_eq!(dex.get_balance(&ALICE, A), 100);
}

#[test]
fn asset_ledger_refusals() {
    let mut assets = Assets::new();
    assert_eq!(assets.create(1, ALICE, true, 0), Err(DispatchError::Assets(AssetsError::MinBalanceZero)));
    assert_eq!(assets.create(1, ALICE, true, 1), Ok(()));
    assert_eq!(assets.create(1, BOB, true, 1), Err(DispatchError::Assets(AssetsError::InUse)));
    assert_eq!(assets.mint_into(1, &ALICE, 10), Ok(()));
    assert_eq!(assets.transfer(1, &ALICE, &ALICE, 10), Ok(()));
    assert_eq!(assets.balance(1, &ALICE), 10);
    assert_eq!(
        assets.transfer(1, &ALICE, &BOB, 11),
        Err(DispatchError::Token(TokenError::FundsUnavailable))
    );
    assert_eq!(assets.transfer(1, &ALICE, &BOB, 4), Ok(()));
    assert_eq!((assets.balance(1, &ALICE), assets.balance(1, &BOB)), (6, 4));
    assert_eq!(assets.total_issuance(1), 10);
    assert_eq!(
        assets.mint_into(1, &BOB, u128::MAX - 5),
        Err(DispatchError::Arithmetic(ArithmeticError::Overflow))
    );
    assert_eq!(assets.balance(1, &BOB), 4);
    assert_eq!(assets.mint_native(&BOB, u128::MAX), Ok(()));
    assert_eq!(
        assets.mint_native(&BOB, 1),
        Err(DispatchError::Arithmetic(ArithmeticError::Overflow))
    );
}
