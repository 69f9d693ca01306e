use subdex::error::Error;
use subdex::exchange::{calculate_fraction, calculate_swap_fees, Exchange, SwapDelta};
use subdex::math::sqrt;
use subdex::types::{Config, DexTreasury};

const ALICE: u64 = 1;
const BOB: u64 = 2;

fn config() -> Config {
    Config {
        fee_rate_nominator: 3,
        fee_rate_denominator: 1000,
        min_main_network_asset_amount: 10_000,
        min_parachain_asset_amount: 1000,
    }
}

fn launched() -> Exchange {
    let (exchange, _) = Exchange::initialize_new(100_000, 60_000, ALICE, 0).unwrap();
    exchange
}

#[test]
fn sqrt_of_small_inputs() {
    assert_eq!(sqrt(0), 0);
    assert_eq!(sqrt(1), 1);
    assert_eq!(sqrt(2), 1);
    assert_eq!(sqrt(3), 1);
    assert_eq!(sqrt(4), 2);
    assert_eq!(sqrt(8), 2);
    assert_eq!(sqrt(9), 3);
    assert_eq!(sqrt(15), 3);
    assert_eq!(sqrt(16), 4);
}

#[test]
fn sqrt_rounds_down() {
    assert_eq!(sqrt(6_000_000_000), 77_459);
    assert_eq!(sqrt(77_459 * 77_459), 77_459);
    assert_eq!(sqrt(77_460 * 77_460 - 1), 77_459);
    assert_eq!(sqrt(77_460 * 77_460), 77_460);
}

#[test]
fn sqrt_of_the_largest_balance() {
    assert_eq!(sqrt(u128::MAX), u64::MAX as u128);
    assert_eq!(sqrt(u128::MAX - 1), u64::MAX as u128);
    let root = u64::MAX as u128;
    assert_eq!(sqrt(root * root), root);
    assert_eq!(sqrt(root * root - 1), root - 1);
}

#[test]
fn sqrt_result_brackets_its_input() {
    let mut y: u128 = 0;
    while y < 5000 {
        let z = sqrt(y);
        assert!(z * z <= y);
        assert!(y < (z + 1) * (z + 1));
        y += 1;
    }
}

#[test]
fn initialize_new_sets_shares_to_the_root_of_the_product() {
    let (exchange, initial_shares) = Exchange::initialize_new(100_000, 60_000, ALICE, 42).unwrap();
    assert_eq!(initial_shares, 77_459);
    assert_eq!(exchange.first_asset_pool(), 100_000);
    assert_eq!(exchange.second_asset_pool(), 60_000);
    assert_eq!(exchange.invariant, 6_000_000_000);
    assert_eq!(exchange.total_shares, 77_459);
    assert_eq!(exchange.shares_of(ALICE), Some(77_459));
    assert_eq!(exchange.shares_of(BOB), None);
    assert_eq!(exchange.last_timestamp, 42);
    assert_eq!(exchange.price1_cumulative_last, 0);
    assert_eq!(exchange.price2_cumulative_last, 0);
}

#[test]
fn initialize_new_rejects_a_product_out_of_range() {
    assert_eq!(
        Exchange::initialize_new(u128::MAX, 2, ALICE, 0),
        Err(Error::UnderflowOrOverflowOccured)
    );
    assert!(Exchange::initialize_new(u128::MAX, 1, ALICE, 0).is_ok());
}

#[test]
fn empty_pool_holds_nothing() {
    let exchange = Exchange::empty(7);
    assert_eq!(exchange.first_asset_pool(), 0);
    assert_eq!(exchange.second_asset_pool(), 0);
    assert_eq!(exchange.stored_invariant(), 0);
    assert_eq!(exchange.total_shares(), 0);
    assert_eq!(exchange.last_timestamp(), 7);
    assert_eq!(exchange.price1_cumulative_last(), 0);
    assert_eq!(exchange.price2_cumulative_last(), 0);
    assert_eq!(exchange.ensure_launch(), Ok(()));
}

#[test]
fn fraction_rounds_down_and_guards_its_operands() {
    assert_eq!(calculate_fraction(3, 1000, 1000), Some(3));
    assert_eq!(calculate_fraction(3, 999, 1000), Some(2));
    assert_eq!(calculate_fraction(3, 333, 1000), Some(0));
    assert_eq!(calculate_fraction(3, 1000, 0), None);
    assert_eq!(calculate_fraction(3, u128::MAX, 1000), None);
    assert_eq!(calculate_fraction(0, u128::MAX, 1), Some(0));
}

#[test]
fn swap_fees_without_treasury_stay_in_the_pool() {
    assert_eq!(calculate_swap_fees(&config(), None, 1000), Ok((3, None)));
    assert_eq!(calculate_swap_fees(&config(), None, 100_000), Ok((300, None)));
}

#[test]
fn swap_fees_with_treasury_are_split() {
    let treasury = DexTreasury::new(255, 1, 4);
    // A quarter of 3 rounds down to nothing.
    assert_eq!(
        calculate_swap_fees(&config(), Some(treasury), 1000),
        Ok((3, Some((0, 255))))
    );
    assert_eq!(
        calculate_swap_fees(&config(), Some(treasury), 100_000),
        Ok((225, Some((75, 255))))
    );
}

#[test]
fn swap_fees_fail_on_bad_rates() {
    let no_denominator = Config { fee_rate_denominator: 0, ..config() };
    assert_eq!(
        calculate_swap_fees(&no_denominator, None, 1000),
        Err(Error::UnderflowOrOverflowOccured)
    );
    assert_eq!(
        calculate_swap_fees(&config(), None, u128::MAX),
        Err(Error::UnderflowOrOverflowOccured)
    );
    assert_eq!(
        calculate_swap_fees(&config(), Some(DexTreasury::new(255, 1, 0)), 1000),
        Err(Error::UnderflowOrOverflowOccured)
    );
    // A treasury that asks for more than the whole fee.
    assert_eq!(
        calculate_swap_fees(&config(), Some(DexTreasury::new(255, 5, 4)), 100_000),
        Err(Error::UnderflowOccured)
    );
}

#[test]
fn first_to_second_swap_of_the_launched_pool() {
    let exchange = launched();
    // fee = 3, priced reserve = 101000 - 3 = 100997,
    // new second reserve = 6000000000 / 100997 = 59407.
    assert_eq!(
        exchange.calculate_first_to_second_asset_swap(&config(), None, 1000),
        Ok((SwapDelta::new(101_000, 59_407, 593), None))
    );
    assert_eq!(
        exchange.perform_first_to_second_asset_swap_calculation(3, 1000),
        Ok(SwapDelta::new(101_000, 59_407, 593))
    );
    // The quote changes nothing.
    assert_eq!(exchange, launched());
}

#[test]
fn second_to_first_swap_of_the_launched_pool() {
    let exchange = launched();
    // fee = 3, priced reserve = 61000 - 3 = 60997,
    // new first reserve = 6000000000 / 60997 = 98365.
    assert_eq!(
        exchange.calculate_second_to_first_asset_swap(&config(), None, 1000),
        Ok((SwapDelta::new(98_365, 61_000, 1635), None))
    );
    assert_eq!(
        exchange.perform_second_to_first_asset_swap_calculation(3, 1000),
        Ok(SwapDelta::new(98_365, 61_000, 1635))
    );
}

#[test]
fn swap_with_treasury_reports_its_cut() {
    let exchange = launched();
    let treasury = DexTreasury::new(255, 1, 4);
    // fee = 300, treasury = 75, pool keeps 225,
    // new second reserve = 6000000000 / (200000 - 225) = 30033.
    assert_eq!(
        exchange.calculate_first_to_second_asset_swap(&config(), Some(treasury), 100_000),
        Ok((SwapDelta::new(200_000, 30_033, 29_967), Some((75, 255))))
    );
}

#[test]
fn swap_errors() {
    let exchange = launched();
    assert_eq!(
        exchange.perform_first_to_second_asset_swap_calculation(0, u128::MAX),
        Err(Error::OverflowOccured)
    );
    assert_eq!(
        exchange.perform_first_to_second_asset_swap_calculation(101_001, 1000),
        Err(Error::UnderflowOccured)
    );
    // The fee eats the whole reserve: nothing is left to divide by.
    assert_eq!(
        exchange.perform_first_to_second_asset_swap_calculation(101_000, 1000),
        Err(Error::UnderflowOrOverflowOccured)
    );
    assert_eq!(
        exchange.perform_second_to_first_asset_swap_calculation(0, u128::MAX),
        Err(Error::OverflowOccured)
    );
    assert_eq!(
        exchange.perform_second_to_first_asset_swap_calculation(61_001, 1000),
        Err(Error::UnderflowOccured)
    );
    assert_eq!(
        exchange.perform_second_to_first_asset_swap_calculation(61_000, 1000),
        Err(Error::UnderflowOrOverflowOccured)
    );
    // A fee so large that the priced reserve asks for more than the pool has.
    assert_eq!(
        exchange.perform_first_to_second_asset_swap_calculation(100_999, 1000),
        Err(Error::UnderflowOccured)
    );
}

#[test]
fn costs_are_proportional_and_round_down() {
    let exchange = launched();
    assert_eq!(exchange.calculate_costs(77_459), Ok((100_000, 60_000)));
    // 100000 * 100000 / 77459 = 129100.5..., 60000 * 100000 / 77459 = 77460.3...
    assert_eq!(exchange.calculate_costs(100_000), Ok((129_100, 77_460)));
    assert_eq!(exchange.calculate_costs(1), Ok((1, 0)));
    assert_eq!(exchange.calculate_costs(0), Ok((0, 0)));
}

#[test]
fn costs_fail_without_shares_or_on_overflow() {
    assert_eq!(
        Exchange::empty(0).calculate_costs(10),
        Err(Error::UnderflowOrOverflowOccured)
    );
    assert_eq!(
        launched().calculate_costs(u128::MAX),
        Err(Error::UnderflowOrOverflowOccured)
    );
}

#[test]
fn invest_adds_to_shares_and_reserves() {
    let mut exchange = launched();
    assert_eq!(exchange.invest(129_100, 77_460, 100_000, &BOB), Ok(()));
    assert_eq!(exchange.first_asset_pool(), 229_100);
    assert_eq!(exchange.second_asset_pool(), 137_460);
    assert_eq!(exchange.invariant, 229_100 * 137_460);
    assert_eq!(exchange.total_shares, 177_459);
    assert_eq!(exchange.shares_of(ALICE), Some(77_459));
    assert_eq!(exchange.shares_of(BOB), Some(100_000));

    // A second investment of the same account adds to its entry.
    assert_eq!(exchange.invest(10, 10, 41, &BOB), Ok(()));
    assert_eq!(exchange.shares_of(BOB), Some(100_041));
    assert_eq!(exchange.total_shares, 177_500);
}

#[test]
fn invest_leaves_prices_and_timestamp_alone() {
    // Cumulative prices move with swaps only, not with liquidity.
    let mut exchange = launched();
    assert_eq!(exchange.update_pools(200_000, 50_000, 10), Ok(()));
    let price1 = exchange.price1_cumulative_last;
    let price2 = exchange.price2_cumulative_last;
    assert_eq!(exchange.invest(5, 5, 5, &ALICE), Ok(()));
    assert_eq!(exchange.divest(1, 1, 1, &ALICE), Ok(()));
    assert_eq!(exchange.price1_cumulative_last, price1);
    assert_eq!(exchange.price2_cumulative_last, price2);
    assert_eq!(exchange.last_timestamp, 10);
}

#[test]
fn invest_errors_change_nothing() {
    let mut exchange = launched();
    assert_eq!(
        exchange.invest(1, 1, u128::MAX, &BOB),
        Err(Error::OverflowOccured)
    );
    assert_eq!(exchange, launched());
    assert_eq!(
        exchange.invest(u128::MAX, 1, 1, &BOB),
        Err(Error::OverflowOccured)
    );
    assert_eq!(exchange, launched());
    assert_eq!(
        exchange.invest(1, u128::MAX, 1, &BOB),
        Err(Error::OverflowOccured)
    );
    assert_eq!(exchange, launched());
    assert_eq!(
        exchange.invest(u128::MAX / 2, u128::MAX / 2, 1, &BOB),
        Err(Error::UnderflowOrOverflowOccured)
    );
    assert_eq!(exchange, launched());
}

#[test]
fn divest_of_all_shares_closes_the_pool() {
    let mut exchange = launched();
    let (first_cost, second_cost) = exchange.calculate_costs(77_459).unwrap();
    assert_eq!((first_cost, second_cost), (100_000, 60_000));
    assert_eq!(exchange.divest(first_cost, second_cost, 77_459, &ALICE), Ok(()));
    assert_eq!(exchange.total_shares, 0);
    assert_eq!(exchange.invariant, 0);
    assert_eq!(exchange.first_asset_pool(), 0);
    assert_eq!(exchange.second_asset_pool(), 0);
    assert_eq!(exchange.shares_of(ALICE), Some(0));
    assert_eq!(exchange.ensure_launch(), Ok(()));
}

#[test]
fn divest_of_the_last_shares_forces_the_invariant_to_zero() {
    let mut exchange = launched();
    // Less than the reserves leaves, yet no share is left.
    assert_eq!(exchange.divest(1, 1, 77_459, &ALICE), Ok(()));
    assert_eq!(exchange.total_shares, 0);
    assert_eq!(exchange.invariant, 0);
    assert_eq!(exchange.first_asset_pool(), 99_999);
    assert_eq!(exchange.second_asset_pool(), 59_999);
}

#[test]
fn divest_of_a_part_recomputes_the_invariant() {
    let mut exchange = launched();
    assert_eq!(exchange.divest(1000, 600, 459, &ALICE), Ok(()));
    assert_eq!(exchange.total_shares, 77_000);
    assert_eq!(exchange.first_asset_pool(), 99_000);
    assert_eq!(exchange.second_asset_pool(), 59_400);
    assert_eq!(exchange.invariant, 99_000 * 59_400);
    assert_eq!(exchange.shares_of(ALICE), Some(77_000));
}

#[test]
fn divest_errors_change_nothing() {
    let mut exchange = launched();
    assert_eq!(exchange.divest(1, 1, 1, &BOB), Err(Error::DoesNotOwnShare));
    assert_eq!(exchange, launched());
    assert_eq!(
        exchange.divest(1, 1, 77_460, &ALICE),
        Err(Error::InsufficientShares)
    );
    assert_eq!(exchange, launched());
    assert_eq!(
        exchange.divest(100_001, 1, 1, &ALICE),
        Err(Error::UnderflowOccured)
    );
    assert_eq!(exchange, launched());
    assert_eq!(
        exchange.divest(1, 60_001, 1, &ALICE),
        Err(Error::UnderflowOccured)
    );
    assert_eq!(exchange, launched());
}

#[test]
fn update_pools_accumulates_price_times_elapsed_time() {
    let mut exchange = launched();
    assert_eq!(exchange.update_pools(200, 50, 7), Ok(()));
    // 200 / 50 = 4, times 7; 50 / 200 = 0.
    assert_eq!(exchange.price1_cumulative_last, 28);
    assert_eq!(exchange.price2_cumulative_last, 0);
    assert_eq!(exchange.last_timestamp, 7);
    assert_eq!(exchange.first_asset_pool(), 200);
    assert_eq!(exchange.second_asset_pool(), 50);
    assert_eq!(exchange.invariant, 10_000);

    assert_eq!(exchange.update_pools(30, 100, 17), Ok(()));
    // 30 / 100 = 0; 100 / 30 = 3, times 10.
    assert_eq!(exchange.price1_cumulative_last, 28);
    assert_eq!(exchange.price2_cumulative_last, 30);
    assert_eq!(exchange.last_timestamp, 17);
    assert_eq!(exchange.total_shares, 77_459);
}

#[test]
fn update_pools_at_the_same_moment_adds_nothing() {
    let mut exchange = launched();
    assert_eq!(exchange.update_pools(101_000, 59_407, 0), Ok(()));
    assert_eq!(exchange.price1_cumulative_last, 0);
    assert_eq!(exchange.price2_cumulative_last, 0);
    assert_eq!(exchange.invariant, 101_000 * 59_407);
}

#[test]
fn update_pools_errors_change_nothing() {
    let (mut exchange, _) = Exchange::initialize_new(100_000, 60_000, ALICE, 5).unwrap();
    let before = exchange.clone();
    // The clock went back.
    assert_eq!(
        exchange.update_pools(10, 10, 4),
        Err(Error::UnderflowOrOverflowOccured)
    );
    assert_eq!(exchange, before);
    // An empty reserve has no price.
    assert_eq!(
        exchange.update_pools(10, 0, 6),
        Err(Error::UnderflowOrOverflowOccured)
    );
    assert_eq!(exchange, before);
    assert_eq!(
        exchange.update_pools(0, 10, 6),
        Err(Error::UnderflowOrOverflowOccured)
    );
    assert_eq!(exchange, before);
    // The product of the reserves is out of range.
    assert_eq!(
        exchange.update_pools(u128::MAX, 2, 6),
        Err(Error::UnderflowOrOverflowOccured)
    );
    assert_eq!(exchange, before);
    // The cumulative price is out of range.
    assert_eq!(
        exchange.update_pools(u128::MAX, 1, 7),
        Err(Error::UnderflowOrOverflowOccured)
    );
    assert_eq!(exchange, before);
}

#[test]
fn ensure_launch_reports_what_is_not_zero() {
    assert_eq!(launched().ensure_launch(), Err(Error::InvariantNotNull));
    // Shares without reserves: the invariant is zero, the shares are not.
    let mut exchange = Exchange::empty(0);
    assert_eq!(exchange.invest(0, 0, 5, &ALICE), Ok(()));
    assert_eq!(exchange.ensure_launch(), Err(Error::TotalSharesNotNull));
}

#[test]
fn ensure_asset_amounts() {
    let exchange = launched();
    assert_eq!(exchange.ensure_second_asset_amount(593, 593), Ok(()));
    assert_eq!(
        exchange.ensure_second_asset_amount(593, 594),
        Err(Error::SecondAssetAmountBelowExpectation)
    );
    assert_eq!(exchange.ensure_second_asset_amount(60_000, 0), Ok(()));
    assert_eq!(
        exchange.ensure_second_asset_amount(60_001, 0),
        Err(Error::InsufficientPool)
    );
    assert_eq!(exchange.ensure_first_asset_amount(1635, 1635), Ok(()));
    assert_eq!(
        exchange.ensure_first_asset_amount(1635, 1636),
        Err(Error::SecondAssetAmountBelowExpectation)
    );
    assert_eq!(exchange.ensure_first_asset_amount(100_000, 0), Ok(()));
    assert_eq!(
        exchange.ensure_first_asset_amount(100_001, 0),
        Err(Error::InsufficientPool)
    );
}

#[test]
fn ensure_burned_shares_checks_amount_and_owner() {
    let exchange = launched();
    assert_eq!(exchange.ensure_burned_shares(&ALICE, 77_459), Ok(()));
    assert_eq!(exchange.ensure_burned_shares(&ALICE, 1), Ok(()));
    assert_eq!(
        exchange.ensure_burned_shares(&ALICE, 0),
        Err(Error::InvalidShares)
    );
    assert_eq!(
        exchange.ensure_burned_shares(&BOB, 0),
        Err(Error::InvalidShares)
    );
    assert_eq!(
        exchange.ensure_burned_shares(&ALICE, 77_460),
        Err(Error::InsufficientShares)
    );
    assert_eq!(
        exchange.ensure_burned_shares(&BOB, 1),
        Err(Error::DoesNotOwnShare)
    );
}

#[test]
fn clone_is_equal_and_independent() {
    let exchange = launched();
    let mut copy = exchange.clone();
    assert_eq!(copy, exchange);
    assert_eq!(copy.invest(1, 1, 1, &BOB), Ok(()));
    assert_ne!(copy, exchange);
    assert_eq!(exchange, launched());
}

#[test]
fn share_entries_list_every_account_once() {
    let mut exchange = launched();
    assert_eq!(exchange.share_entries(), vec![(ALICE, 77_459)]);
    assert_eq!(exchange.invest(5, 5, 7, &BOB), Ok(()));
    assert_eq!(exchange.invest(5, 5, 3, &BOB), Ok(()));
    assert_eq!(exchange.share_entries(), vec![(ALICE, 77_459), (BOB, 10)]);
    assert_eq!(Exchange::empty(0).share_entries(), vec![]);
}

#[test]
fn from_parts_rebuilds_a_pool() {
    let mut exchange = launched();
    assert_eq!(exchange.invest(129_100, 77_460, 100_000, &BOB), Ok(()));
    assert_eq!(exchange.update_pools(250_000, 130_000, 9), Ok(()));
    let rebuilt = Exchange::from_parts(
        exchange.first_asset_pool(),
        exchange.second_asset_pool(),
        exchange.invariant,
        exchange.total_shares,
        exchange.last_timestamp,
        exchange.price1_cumulative_last,
        exchange.price2_cumulative_last,
        &exchange.share_entries(),
    );
    assert_eq!(rebuilt, Some(exchange));
    assert_eq!(
        Exchange::from_parts(0, 0, 0, 0, 7, 0, 0, &vec![]),
        Some(Exchange::empty(7))
    );
}

#[test]
fn from_parts_accepts_a_closed_pool_with_leftovers() {
    // No shares and a zero invariant, whatever the reserves.
    let rebuilt = Exchange::from_parts(5, 9, 0, 0, 0, 0, 0, &vec![(ALICE, 0)]).unwrap();
    assert_eq!(rebuilt.first_asset_pool(), 5);
    assert_eq!(rebuilt.shares_of(ALICE), Some(0));
}

#[test]
fn from_parts_refuses_what_is_not_a_pool() {
    // The shares do not sum to the total.
    assert_eq!(
        Exchange::from_parts(10, 10, 100, 11, 0, 0, 0, &vec![(ALICE, 4), (BOB, 6)]),
        None
    );
    assert!(Exchange::from_parts(10, 10, 100, 10, 0, 0, 0, &vec![(ALICE, 4), (BOB, 6)]).is_some());
    // An account with two entries.
    assert_eq!(
        Exchange::from_parts(10, 10, 100, 10, 0, 0, 0, &vec![(ALICE, 4), (ALICE, 6)]),
        None
    );
    // The invariant is not the product of the reserves.
    assert_eq!(
        Exchange::from_parts(10, 10, 99, 10, 0, 0, 0, &vec![(ALICE, 10)]),
        None
    );
    assert_eq!(
        Exchange::from_parts(10, 10, 0, 10, 0, 0, 0, &vec![(ALICE, 10)]),
        None
    );
    // The product of the reserves is out of range.
    assert_eq!(
        Exchange::from_parts(u128::MAX, 2, 5, 10, 0, 0, 0, &vec![(ALICE, 10)]),
        None
    );
    // The shares sum to more than a balance holds.
    assert_eq!(
        Exchange::from_parts(10, 10, 100, 0, 0, 0, 0, &vec![(ALICE, u128::MAX), (BOB, 1)]),
        None
    );
}
