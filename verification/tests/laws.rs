use subdex::error::Error;
use subdex::exchange::Exchange;
use subdex::types::Config;

const ALICE: u64 = 1;
const BOB: u64 = 2;
const CAROL: u64 = 3;

fn no_fee() -> Config {
    Config {
        fee_rate_nominator: 0,
        fee_rate_denominator: 1,
        min_main_network_asset_amount: 0,
        min_parachain_asset_amount: 0,
    }
}

fn three_per_mille() -> Config {
    Config {
        fee_rate_nominator: 3,
        fee_rate_denominator: 1000,
        min_main_network_asset_amount: 0,
        min_parachain_asset_amount: 0,
    }
}

fn sum_of_shares(exchange: &Exchange) -> u128 {
    [ALICE, BOB, CAROL]
        .iter()
        .map(|who| exchange.shares_of(*who).unwrap_or(0))
        .sum()
}

#[test]
fn committed_swap_records_the_product_of_the_new_reserves() {
    let (mut exchange, _) = Exchange::initialize_new(100_000, 60_000, ALICE, 0).unwrap();
    let (delta, _) = exchange
        .calculate_first_to_second_asset_swap(&three_per_mille(), None, 1000)
        .unwrap();
    assert_eq!(
        exchange.update_pools(delta.first_asset_pool, delta.second_asset_pool, 1),
        Ok(())
    );
    assert_eq!(
        exchange.invariant,
        exchange.first_asset_pool() * exchange.second_asset_pool()
    );
    // The fee kept, 3, valued at 59407 covers the remainder of the division:
    // the invariant grew.
    assert!(6_000_000_000u128 % 100_997 <= 59_407 * 3);
    assert!(exchange.invariant >= 6_000_000_000u128);
}

#[test]
fn swap_without_fee_can_lower_the_invariant_by_rounding() {
    let (mut exchange, _) = Exchange::initialize_new(3, 3, ALICE, 0).unwrap();
    let (delta, _) = exchange
        .calculate_first_to_second_asset_swap(&no_fee(), None, 1)
        .unwrap();
    // 9 / 4 = 2 with remainder 1, and no fee covers it.
    assert_eq!((delta.first_asset_pool, delta.second_asset_pool, delta.amount), (4, 2, 1));
    assert_eq!(exchange.update_pools(4, 2, 1), Ok(()));
    assert_eq!(exchange.invariant, 8);
    // It falls by less than the reserve that was divided by.
    assert!(exchange.invariant > 9 - 4);
}

#[test]
fn swap_without_fee_keeps_the_invariant_when_the_division_is_exact() {
    let (mut exchange, _) = Exchange::initialize_new(4, 4, ALICE, 0).unwrap();
    let (delta, _) = exchange
        .calculate_first_to_second_asset_swap(&no_fee(), None, 4)
        .unwrap();
    assert_eq!((delta.first_asset_pool, delta.second_asset_pool, delta.amount), (8, 2, 2));
    assert_eq!(exchange.update_pools(8, 2, 1), Ok(()));
    assert_eq!(exchange.invariant, 16);
}

#[test]
fn shares_sum_to_the_total_after_every_step() {
    let (mut exchange, _) = Exchange::initialize_new(100_000, 60_000, ALICE, 0).unwrap();
    assert_eq!(sum_of_shares(&exchange), exchange.total_shares);

    assert_eq!(exchange.invest(500, 300, 400, &BOB), Ok(()));
    assert_eq!(sum_of_shares(&exchange), exchange.total_shares);

    assert_eq!(exchange.invest(7, 9, 11, &CAROL), Ok(()));
    assert_eq!(sum_of_shares(&exchange), exchange.total_shares);

    assert_eq!(exchange.divest(100, 100, 150, &BOB), Ok(()));
    assert_eq!(sum_of_shares(&exchange), exchange.total_shares);

    // A step that is rejected changes neither side.
    assert_eq!(exchange.divest(1, 1, 12, &CAROL), Err(Error::InsufficientShares));
    assert_eq!(sum_of_shares(&exchange), exchange.total_shares);

    assert_eq!(exchange.divest(1, 1, 11, &CAROL), Ok(()));
    assert_eq!(exchange.invest(1, 1, 1, &ALICE), Ok(()));
    assert_eq!(sum_of_shares(&exchange), exchange.total_shares);
    assert_eq!(exchange.total_shares, 77_459 + 400 + 11 - 150 - 11 + 1);
}

#[test]
fn rejected_operations_leave_the_pool_as_it_was() {
    let (mut exchange, _) = Exchange::initialize_new(100_000, 60_000, ALICE, 3).unwrap();
    let before = exchange.clone();
    assert!(exchange.divest(100_001, 0, 1, &ALICE).is_err());
    assert!(exchange.divest(0, 60_001, 1, &ALICE).is_err());
    assert!(exchange.invest(u128::MAX, 0, 0, &ALICE).is_err());
    assert!(exchange.update_pools(1, 1, 2).is_err());
    assert_eq!(exchange, before);
}

#[test]
fn invest_then_divest_gives_the_reserves_back() {
    let (start, _) = Exchange::initialize_new(100_000, 60_000, ALICE, 0).unwrap();
    for shares in [1u128, 2, 3, 7, 1000, 77_459, 100_000, 123_456_789] {
        let mut exchange = start.clone();
        let (first_cost, second_cost) = exchange.calculate_costs(shares).unwrap();
        assert_eq!(exchange.invest(first_cost, second_cost, shares, &BOB), Ok(()));
        // The same shares are quoted the same costs again.
        assert_eq!(exchange.calculate_costs(shares), Ok((first_cost, second_cost)));
        assert_eq!(exchange.divest(first_cost, second_cost, shares, &BOB), Ok(()));
        assert_eq!(exchange.first_asset_pool(), 100_000);
        assert_eq!(exchange.second_asset_pool(), 60_000);
        assert_eq!(exchange.total_shares, 77_459);
        assert_eq!(exchange.invariant, 6_000_000_000);
        assert_eq!(exchange.shares_of(ALICE), Some(77_459));
        assert_eq!(exchange.shares_of(BOB), Some(0));
    }
}

#[test]
fn invest_then_divest_by_a_holder_gives_the_pool_back() {
    let (start, _) = Exchange::initialize_new(99_991, 60_013, ALICE, 0).unwrap();
    let mut exchange = start.clone();
    let (first_cost, second_cost) = exchange.calculate_costs(5_003).unwrap();
    assert_eq!(exchange.invest(first_cost, second_cost, 5_003, &ALICE), Ok(()));
    assert_eq!(exchange.divest(first_cost, second_cost, 5_003, &ALICE), Ok(()));
    assert_eq!(exchange, start);
}

#[test]
fn quotes_repeat() {
    let (exchange, _) = Exchange::initialize_new(100_000, 60_000, ALICE, 0).unwrap();
    let copy = exchange.clone();
    let config = three_per_mille();
    assert_eq!(
        exchange.calculate_first_to_second_asset_swap(&config, None, 1234),
        exchange.calculate_first_to_second_asset_swap(&config, None, 1234)
    );
    assert_eq!(
        exchange.calculate_second_to_first_asset_swap(&config, None, 1234),
        copy.calculate_second_to_first_asset_swap(&config, None, 1234)
    );
    assert_eq!(exchange.calculate_costs(999), copy.calculate_costs(999));
    assert_eq!(exchange.calculate_costs(999), exchange.calculate_costs(999));
    assert_eq!(exchange, copy);
}

#[test]
fn cumulative_prices_never_fall() {
    let (mut exchange, _) = Exchange::initialize_new(100_000, 60_000, ALICE, 0).unwrap();
    let mut price1 = 0;
    let mut price2 = 0;
    for (first, second, now) in [(200u128, 50u128, 3u64), (50, 200, 3), (10, 10, 9), (1, 7, 20)] {
        assert_eq!(exchange.update_pools(first, second, now), Ok(()));
        assert!(exchange.price1_cumulative_last >= price1);
        assert!(exchange.price2_cumulative_last >= price2);
        price1 = exchange.price1_cumulative_last;
        price2 = exchange.price2_cumulative_last;
    }
    // 4 * 3, then nothing at the same moment, 1 * 6, 0 * 11.
    assert_eq!(price1, 12 + 6);
    // 0 * 3, then 4 * 0, 1 * 6, 7 * 11.
    assert_eq!(price2, 6 + 77);
}
