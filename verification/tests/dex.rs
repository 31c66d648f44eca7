use pallet_dex::pallet::{GenesisConfig, Pallet};
use pallet_dex::types::{Config, DispatchError, Error, Event, LiquidityPool, Origin};

const ALICE_ID: u64 = 2;
const BOB_ID: u64 = 3;
const ASSET_ID_A: u32 = 1;
const ASSET_ID_B: u32 = 2;
const ASSET_ID_C: u32 = 3;

fn new_test_ext() -> Pallet {
    let mut dex = Pallet::new(Config { pallet_id: *b"py/dexpl" });
    GenesisConfig {}.build(&mut dex);
    dex
}

fn mint_token(dex: &mut Pallet, receiver: u64, token: u32, amount: u128) {
    assert_eq!(dex.mint_asset(Origin::Root, token, receiver, amount), Ok(()));
}

fn mint_token_creating(dex: &mut Pallet, receiver: u64, token: u32, amount: u128) {
    let _ = dex.create_token_if_not_exists(token);
    mint_token(dex, receiver, token, amount);
}

fn set_up_alice_with_100_a_b_coins(dex: &mut Pallet) {
    mint_token_creating(dex, ALICE_ID, ASSET_ID_A, 100);
    mint_token_creating(dex, ALICE_ID, ASSET_ID_B, 100);
}

fn set_up_alice_with_u128_max_a_b_coins(dex: &mut Pallet) {
    mint_token_creating(dex, ALICE_ID, ASSET_ID_A, u128::MAX);
    mint_token_creating(dex, ALICE_ID, ASSET_ID_B, u128::MAX);
}

fn set_up_bob_with_100_a_b_coins(dex: &mut Pallet) {
    mint_token_creating(dex, BOB_ID, ASSET_ID_A, 100);
    mint_token_creating(dex, BOB_ID, ASSET_ID_B, 100);
}

fn alice_initializes_pool_a_b_with_50(dex: &mut Pallet) {
    assert_eq!(
        dex.initialise_pool_with_assets(Origin::Signed(ALICE_ID), ASSET_ID_A, ASSET_ID_B, 50, 50),
        Ok(())
    );
}

fn alice_initializes_pool_a_with_25_and_b_with_75(dex: &mut Pallet) {
    assert_eq!(
        dex.initialise_pool_with_assets(Origin::Signed(ALICE_ID), ASSET_ID_A, ASSET_ID_B, 25, 75),
        Ok(())
    );
}

/// The parts of the state that a failed call must leave as they were: the events, the
/// balances of the given accounts and of the pools' accounts, the total issuance and
/// existence of the given assets and of the pools' liquidity tokens, and the pools.
fn observable(
    dex: &Pallet,
    accounts: &[u64],
    assets: &[u32],
) -> (Vec<Event>, Vec<u128>, Vec<(bool, u128)>, Vec<Option<LiquidityPool>>) {
    let mut holders: Vec<u64> = accounts.to_vec();
    let mut tokens: Vec<u32> = assets.to_vec();
    let mut pools = Vec::new();
    for a in assets {
        for b in assets {
            let pool_id = Pallet::create_pool_id_from_assets(*a, *b);
            holders.push(Pallet::derive_pool_account_from_id(&pool_id).unwrap());
            tokens.push(Pallet::create_liquidity_token_id_for_pool_id(&pool_id));
            pools.push(dex.get_pool_by_id(&pool_id));
        }
    }
    holders.push(dex.account_id());
    let mut balances = Vec::new();
    for who in &holders {
        for asset in &tokens {
            balances.push(dex.get_balance(who, *asset));
        }
        balances.push(dex.assets().native_balance(who));
    }
    let classes = tokens
        .iter()
        .map(|t| (dex.assets().asset_exists(*t), dex.assets().total_issuance(*t)))
        .collect();
    (dex.events().clone(), balances, classes, pools)
}

#[test]
fn test_pool_id_consistency_regardless_of_asset_order() {
    assert_eq!(
        Pallet::create_pool_id_from_assets(ASSET_ID_A, ASSET_ID_B),
        Pallet::create_pool_id_from_assets(ASSET_ID_B, ASSET_ID_A),
        "The pool id function should order asset IDs correctly."
    );
    assert_ne!(
        Pallet::create_pool_id_from_assets(ASSET_ID_A, ASSET_ID_B),
        Pallet::create_pool_id_from_assets(ASSET_ID_B, ASSET_ID_C),
        "The pool id function return different ids for different pairs"
    );
}

#[test]
fn test_lp_token_id_consistency_and_uniqueness_for_asset_pairs() {
    assert_eq!(
        Pallet::create_liquidity_token_id_for_pair(ASSET_ID_A, ASSET_ID_B),
        Pallet::create_liquidity_token_id_for_pair(ASSET_ID_B, ASSET_ID_A),
        "Lp id should be the same for a reverted pair"
    );
    assert_ne!(
        Pallet::create_liquidity_token_id_for_pair(ASSET_ID_A, ASSET_ID_B),
        Pallet::create_liquidity_token_id_for_pair(ASSET_ID_B, ASSET_ID_C),
        "Lp id should be different for different pairs"
    );
}

#[test]
fn calculate_lp_token_amount_for_pair_amounts_overflow() {
    assert!(Pallet::calculate_lp_token_amount_for_pair_amounts(u128::MAX, 2).is_err());
}

#[test]
fn calculate_lp_token_amount_for_pair_amounts_works() {
    assert_eq!(Pallet::calculate_lp_token_amount_for_pair_amounts(100, 200).unwrap(), 141);
    assert_eq!(Pallet::calculate_lp_token_amount_for_pair_amounts(100, 100).unwrap(), 100);
    assert_eq!(Pallet::calculate_lp_token_amount_for_pair_amounts(100, 99).unwrap(), 99);
}

#[test]
fn ensure_sufficient_balance_fails_for_low_balance() {
    let dex = new_test_ext();
    assert_eq!(
        dex.ensure_sufficient_balance(&ALICE_ID, ASSET_ID_A, 150),
        Err(DispatchError::Module(Error::InsufficientAccountBalance))
    );
}

#[test]
fn mint_asset_increases_balance() {
    let mut dex = new_test_ext();
    let initial_balance = dex.get_balance(&ALICE_ID, ASSET_ID_A);
    assert_eq!(initial_balance, 0, "Initial balance should be zero");

    set_up_alice_with_100_a_b_coins(&mut dex);

    let new_balance = dex.get_balance(&ALICE_ID, ASSET_ID_A);
    assert_eq!(new_balance, 100, "Balance should be equal to the minted amount");
}

#[test]
fn token_creation_is_idempotent() {
    let mut dex = new_test_ext();
    let _ = dex.create_token_if_not_exists(ASSET_ID_A);
    let _ = dex.create_token_if_not_exists(ASSET_ID_A);
    let _ = dex.create_token_if_not_exists(ASSET_ID_A);
    let _ = dex.create_token_if_not_exists(ASSET_ID_A);
}

#[test]
fn fail_create_pool_with_identical_assets() {
    let mut dex = new_test_ext();
    let before = observable(&dex, &[ALICE_ID], &[ASSET_ID_A]);
    assert_eq!(
        dex.initialise_pool_with_assets(
            Origin::Signed(ALICE_ID),
            ASSET_ID_A.clone(),
            ASSET_ID_A.clone(),
            10,
            10
        ),
        Err(DispatchError::Module(Error::DistinctAssetsRequired))
    );
    assert_eq!(observable(&dex, &[ALICE_ID], &[ASSET_ID_A]), before);
}

#[test]
fn duplicate_pool_creation_should_fail() {
    let mut dex = new_test_ext();
    set_up_bob_with_100_a_b_coins(&mut dex);
    set_up_alice_with_100_a_b_coins(&mut dex);

    assert_eq!(
        dex.initialise_pool_with_assets(Origin::Signed(BOB_ID), ASSET_ID_A, ASSET_ID_B, 10, 10),
        Ok(())
    );

    let accounts = [ALICE_ID, BOB_ID];
    let assets = [ASSET_ID_A, ASSET_ID_B];
    let before = observable(&dex, &accounts, &assets);
    assert_eq!(
        dex.initialise_pool_with_assets(Origin::Signed(BOB_ID), ASSET_ID_A, ASSET_ID_B, 10, 10),
        Err(DispatchError::Module(Error::DuplicatePoolError))
    );
    assert_eq!(observable(&dex, &accounts, &assets), before);
}

#[test]
fn creation_pool_succeeds() {
    let mut dex = new_test_ext();
    set_up_bob_with_100_a_b_coins(&mut dex);

    let pool_id = Pallet::create_pool_id_from_assets(ASSET_ID_A, ASSET_ID_B);
    assert!(dex.get_pool_by_id(&pool_id).is_none());
    assert_eq!(
        dex.initialise_pool_with_assets(Origin::Signed(BOB_ID), ASSET_ID_A, ASSET_ID_B, 10, 10),
        Ok(())
    );
    assert!(dex.get_pool_by_id(&pool_id).is_some());
}

#[test]
fn pool_creation_emits_correct_event() {
    let mut dex = new_test_ext();
    set_up_bob_with_100_a_b_coins(&mut dex);

    assert_eq!(
        dex.initialise_pool_with_assets(Origin::Signed(BOB_ID), ASSET_ID_A, ASSET_ID_B, 10, 10),
        Ok(())
    );
    let _pool_id = Pallet::create_pool_id_from_assets(ASSET_ID_A, ASSET_ID_B);
    let lp_id = Pallet::create_liquidity_token_id_for_pair(ASSET_ID_A, ASSET_ID_B);

    let mut found = false;
    for event in dex.events() {
        if let Event::PoolCreated { asset_id_a, asset_id_b, creator, liquidity_token_id, .. } =
            *event
        {
            assert_eq!(asset_id_a, ASSET_ID_A);
            assert_eq!(asset_id_b, ASSET_ID_B);
            assert_eq!(creator, BOB_ID);
            assert_eq!(liquidity_token_id, lp_id);
            found = true;
            break;
        }
    }
    assert!(found, "Failed to find PoolCreated event");
}

#[test]
fn initialise_pool_fails_due_to_insufficient_balance() {
    let mut dex = new_test_ext();
    let before = observable(&dex, &[BOB_ID], &[ASSET_ID_A, ASSET_ID_B]);
    assert_eq!(
        dex.initialise_pool_with_assets(Origin::Signed(BOB_ID), ASSET_ID_A, ASSET_ID_B, 10, 10),
        Err(DispatchError::Module(Error::InsufficientAccountBalance))
    );
    assert_eq!(observable(&dex, &[BOB_ID], &[ASSET_ID_A, ASSET_ID_B]), before);
}

#[test]
fn lp_tokens_are_correctly_transferred_to_sender() {
    let mut dex = new_test_ext();
    set_up_alice_with_100_a_b_coins(&mut dex);
    let amount_a: u128 = 100;
    let amount_b: u128 = 100;

    assert_eq!(
        dex.initialise_pool_with_assets(
            Origin::Signed(ALICE_ID),
            ASSET_ID_A,
            ASSET_ID_B,
            amount_a,
            amount_b
        ),
        Ok(())
    );

    let expected_lp_token_amount =
        Pallet::calculate_lp_token_amount_for_pair_amounts(amount_a, amount_b).unwrap();

    let liquidity_token_id = Pallet::create_liquidity_token_id_for_pair(ASSET_ID_A, ASSET_ID_B);
    assert_eq!(
        dex.get_balance(&ALICE_ID, liquidity_token_id),
        expected_lp_token_amount,
        "LP token balance should have increased by the calculated amount"
    );
    assert_eq!(dex.get_balance(&ALICE_ID, ASSET_ID_A), 0);
    assert_eq!(dex.get_balance(&ALICE_ID, ASSET_ID_B), 0);
}

#[test]
fn successful_liquidity_addition() {
    let mut dex = new_test_ext();
    set_up_alice_with_100_a_b_coins(&mut dex);
    alice_initializes_pool_a_b_with_50(&mut dex);

    let liquidity_token_id = Pallet::create_liquidity_token_id_for_pair(ASSET_ID_A, ASSET_ID_B);
    let alice_lp_balance_after_init = dex.get_balance(&ALICE_ID, liquidity_token_id);
    assert!(alice_lp_balance_after_init > 0, "Alice should have received LP tokens");

    assert_eq!(
        dex.add_liquidity(Origin::Signed(ALICE_ID), ASSET_ID_A, ASSET_ID_B, 25, 25),
        Ok(())
    );

    let alice_lp_balance_after_add = dex.get_balance(&ALICE_ID, liquidity_token_id);
    assert!(
        alice_lp_balance_after_add > alice_lp_balance_after_init,
        "Alice should have received LP tokens"
    );

    let pool_id = Pallet::create_pool_id_from_assets(ASSET_ID_A, ASSET_ID_B);
    let pool = dex.get_pool_by_id(&pool_id).expect("Pool should exist");

    assert_eq!(pool.get_asset_a_balance(), 75, "Asset A balance should be 75");
    assert_eq!(pool.get_asset_b_balance(), 75, "Asset B balance should be 75");
}

#[test]
fn create_pool_with_same_assets_fails() {
    let mut dex = new_test_ext();
    let before = observable(&dex, &[ALICE_ID], &[ASSET_ID_A]);
    assert_eq!(
        dex.initialise_pool_with_assets(Origin::Signed(ALICE_ID), ASSET_ID_A, ASSET_ID_A, 10, 10),
        Err(DispatchError::Module(Error::DistinctAssetsRequired))
    );
    assert_eq!(observable(&dex, &[ALICE_ID], &[ASSET_ID_A]), before);
}

#[test]
fn add_liquidity_to_nonexistent_pool_fails() {
    let mut dex = new_test_ext();
    set_up_alice_with_100_a_b_coins(&mut dex);
    let before = observable(&dex, &[ALICE_ID], &[ASSET_ID_A, ASSET_ID_B]);
    assert_eq!(
        dex.add_liquidity(Origin::Signed(ALICE_ID), ASSET_ID_A, ASSET_ID_B, 10, 10),
        Err(DispatchError::Module(Error::PoolNotFoundError))
    );
    assert_eq!(observable(&dex, &[ALICE_ID], &[ASSET_ID_A, ASSET_ID_B]), before);
}

#[test]
fn add_liquidity_with_same_assets_fails() {
    let mut dex = new_test_ext();
    set_up_alice_with_100_a_b_coins(&mut dex);
    let before = observable(&dex, &[ALICE_ID], &[ASSET_ID_A, ASSET_ID_B]);
    assert_eq!(
        dex.add_liquidity(Origin::Signed(ALICE_ID), ASSET_ID_A, ASSET_ID_A, 10, 10),
        Err(DispatchError::Module(Error::DistinctAssetsRequired))
    );
    assert_eq!(observable(&dex, &[ALICE_ID], &[ASSET_ID_A, ASSET_ID_B]), before);
}

#[test]
fn insufficient_balance_for_adding_liquidity_fails() {
    let mut dex = new_test_ext();
    set_up_alice_with_100_a_b_coins(&mut dex);
    let before = observable(&dex, &[ALICE_ID], &[ASSET_ID_A, ASSET_ID_B]);
    assert_eq!(
        dex.add_liquidity(Origin::Signed(ALICE_ID), ASSET_ID_A, ASSET_ID_B, 150, 10),
        Err(DispatchError::Module(Error::InsufficientAccountBalance))
    );
    assert_eq!(observable(&dex, &[ALICE_ID], &[ASSET_ID_A, ASSET_ID_B]), before);
}

#[test]
fn lp_token_amount_overflow_in_add_liquidity_fails() {
    let mut dex = new_test_ext();
    set_up_alice_with_u128_max_a_b_coins(&mut dex);
    alice_initializes_pool_a_b_with_50(&mut dex);
    let lp_id = Pallet::create_liquidity_token_id_for_pair(ASSET_ID_A, ASSET_ID_B);
    let accounts = [ALICE_ID];
    let assets = [ASSET_ID_A, ASSET_ID_B, lp_id];
    let before = observable(&dex, &accounts, &assets);
    assert_eq!(
        dex.add_liquidity(
            Origin::Signed(ALICE_ID),
            ASSET_ID_A,
            ASSET_ID_B,
            u128::MAX - 50,
            u128::MAX - 50
        ),
        Err(DispatchError::Module(Error::ArithmeticsOverflow))
    );
    assert_eq!(observable(&dex, &accounts, &assets), before);
}

#[test]
fn successful_get_price() {
    let mut dex = new_test_ext();
    set_up_alice_with_100_a_b_coins(&mut dex);
    alice_initializes_pool_a_b_with_50(&mut dex);
    let price = dex.get_price(Origin::Signed(ALICE_ID), ASSET_ID_A, ASSET_ID_B);
    assert_eq!(price, Ok(1));
}

#[test]
fn successful_get_price_2() {
    let mut dex = new_test_ext();
    set_up_alice_with_100_a_b_coins(&mut dex);
    alice_initializes_pool_a_with_25_and_b_with_75(&mut dex);
    let price = dex.get_price(Origin::Signed(ALICE_ID), ASSET_ID_B, ASSET_ID_A);
    assert_eq!(price, Ok(3));
}
