use subdex::dex::Event;
use subdex::error::Error;
use subdex::exchange::Exchange;
use subdex::mock::{
    asset_balances, assert_event_success, assert_subdex_failure, dex_exchanges,
    emulate_downward_message, emulate_xcmp_message, get_min_main_network_asset_amount,
    get_min_parachain_asset_amount, get_next_asset_id, get_subdex_test_event,
    initialize_new_exchange, with_test_externalities, FirstAccountId, FirstParaId, Test,
};
use subdex::types::{Asset, Balance};

// Receives a parachain asset and main network currency for the first account.
fn fund_first_account(t: &mut Test, main_network_amount: Balance, para_asset_amount: Balance) {
    assert_eq!(
        emulate_xcmp_message(
            t,
            FirstParaId::get(),
            FirstAccountId::get(),
            para_asset_amount,
            Some(5),
        ),
        Ok(())
    );
    assert_eq!(
        emulate_downward_message(t, FirstAccountId::get(), main_network_amount),
        Ok(())
    );
}

#[test]
fn initialize_exchange() {
    with_test_externalities(|mut t: Test| {
        let main_network_currency_transfer_amount = 10_000;
        let para_asset_transfer_amount = 6_000;
        let asset_id = get_next_asset_id(&t);

        fund_first_account(
            &mut t,
            main_network_currency_transfer_amount,
            para_asset_transfer_amount,
        );

        let number_of_events_before_call = t.events.len();

        assert_eq!(
            initialize_new_exchange(
                &mut t,
                FirstAccountId::get(),
                Asset::ParachainAsset(asset_id),
                para_asset_transfer_amount,
                Asset::MainNetworkCurrency,
                main_network_currency_transfer_amount,
            ),
            Ok(())
        );

        // Both balances were invested in full.
        assert_eq!(asset_balances(&t, FirstAccountId::get(), asset_id), 0);
        assert_eq!(t.subdex.free_balance(FirstAccountId::get()), 0);

        // The stored pool is the one that these amounts launch.
        let (newly_created_exchange, initial_shares) = Exchange::initialize_new(
            main_network_currency_transfer_amount,
            para_asset_transfer_amount,
            FirstAccountId::get(),
            t.subdex.timestamp(),
        )
        .unwrap();

        assert_eq!(
            newly_created_exchange,
            dex_exchanges(&t, Asset::MainNetworkCurrency, Asset::ParachainAsset(asset_id))
        );

        let exchange_initialized_event = get_subdex_test_event(Event::Initialized(
            FirstAccountId::get(),
            Asset::MainNetworkCurrency,
            Asset::ParachainAsset(asset_id),
            initial_shares,
        ));

        // The log holds the exchange's own events only: one for this call.
        assert!(assert_event_success(
            &t,
            exchange_initialized_event,
            number_of_events_before_call + 1,
        ));
    })
}

#[test]
fn initialize_invalid_exchange() {
    with_test_externalities(|mut t: Test| {
        let transfer_amount = 10_000;

        fund_first_account(&mut t, transfer_amount, transfer_amount);

        let number_of_events_before_call = t.events.len();

        // The same asset on both sides.
        let initialize_new_exchange_result = initialize_new_exchange(
            &mut t,
            FirstAccountId::get(),
            Asset::MainNetworkCurrency,
            transfer_amount / 2,
            Asset::MainNetworkCurrency,
            transfer_amount / 2,
        );

        assert!(assert_subdex_failure(
            &t,
            initialize_new_exchange_result,
            Error::InvalidExchange,
            number_of_events_before_call,
        ));
    })
}

#[test]
fn initialize_exchange_main_network_asset_amount_below_min() {
    with_test_externalities(|mut t: Test| {
        let main_network_currency_transfer_amount = get_min_main_network_asset_amount() - 1;
        let para_asset_transfer_amount = get_min_parachain_asset_amount();
        let asset_id = get_next_asset_id(&t);

        fund_first_account(
            &mut t,
            main_network_currency_transfer_amount,
            para_asset_transfer_amount,
        );

        let number_of_events_before_call = t.events.len();

        let initialize_new_exchange_result = initialize_new_exchange(
            &mut t,
            FirstAccountId::get(),
            Asset::ParachainAsset(asset_id),
            para_asset_transfer_amount,
            Asset::MainNetworkCurrency,
            main_network_currency_transfer_amount,
        );

        assert!(assert_subdex_failure(
            &t,
            initialize_new_exchange_result,
            Error::MainNetworkAssetAmountBelowMin,
            number_of_events_before_call,
        ));
    })
}

#[test]
fn initialize_exchange_parachain_asset_amount_below_min() {
    with_test_externalities(|mut t: Test| {
        let main_network_currency_transfer_amount = get_min_main_network_asset_amount();
        let para_asset_transfer_amount = get_min_parachain_asset_amount() - 1;
        let asset_id = get_next_asset_id(&t);

        fund_first_account(
            &mut t,
            main_network_currency_transfer_amount,
            para_asset_transfer_amount,
        );

        let number_of_events_before_call = t.events.len();

        let initialize_new_exchange_result = initialize_new_exchange(
            &mut t,
            FirstAccountId::get(),
            Asset::ParachainAsset(asset_id),
            para_asset_transfer_amount,
            Asset::MainNetworkCurrency,
            main_network_currency_transfer_amount,
        );

        assert!(assert_subdex_failure(
            &t,
            initialize_new_exchange_result,
            Error::ParachainAssetAmountBelowMin,
            number_of_events_before_call,
        ));
    })
}

#[test]
fn initialize_exchange_already_exists() {
    with_test_externalities(|mut t: Test| {
        let main_network_currency_transfer_amount = get_min_main_network_asset_amount();
        let para_asset_transfer_amount = get_min_parachain_asset_amount();
        let asset_id = get_next_asset_id(&t);

        fund_first_account(
            &mut t,
            main_network_currency_transfer_amount,
            para_asset_transfer_amount,
        );

        assert_eq!(
            initialize_new_exchange(
                &mut t,
                FirstAccountId::get(),
                Asset::ParachainAsset(asset_id),
                para_asset_transfer_amount,
                Asset::MainNetworkCurrency,
                main_network_currency_transfer_amount,
            ),
            Ok(())
        );

        let number_of_events_before_call = t.events.len();

        // A second launch of the same pair.
        let initialize_new_exchange_result = initialize_new_exchange(
            &mut t,
            FirstAccountId::get(),
            Asset::ParachainAsset(asset_id),
            para_asset_transfer_amount,
            Asset::MainNetworkCurrency,
            main_network_currency_transfer_amount,
        );

        assert!(assert_subdex_failure(
            &t,
            initialize_new_exchange_result,
            Error::ExchangeAlreadyExists,
            number_of_events_before_call,
        ));
    })
}

#[test]
fn initialize_exchange_insufficient_main_network_asset_amount() {
    with_test_externalities(|mut t: Test| {
        let main_network_currency_transfer_amount = get_min_main_network_asset_amount();
        let para_asset_transfer_amount = get_min_parachain_asset_amount();
        let asset_id = get_next_asset_id(&t);

        fund_first_account(
            &mut t,
            main_network_currency_transfer_amount,
            para_asset_transfer_amount,
        );

        let number_of_events_before_call = t.events.len();

        let initialize_new_exchange_result = initialize_new_exchange(
            &mut t,
            FirstAccountId::get(),
            Asset::ParachainAsset(asset_id),
            para_asset_transfer_amount,
            Asset::MainNetworkCurrency,
            2 * main_network_currency_transfer_amount,
        );

        assert!(assert_subdex_failure(
            &t,
            initialize_new_exchange_result,
            Error::InsufficientMainNetworkAssetAmount,
            number_of_events_before_call,
        ));
    })
}

#[test]
fn initialize_exchange_insufficient_parachain_asset_amount() {
    with_test_externalities(|mut t: Test| {
        let main_network_currency_transfer_amount = get_min_main_network_asset_amount();
        let para_asset_transfer_amount = get_min_parachain_asset_amount();
        let asset_id = get_next_asset_id(&t);

        fund_first_account(
            &mut t,
            main_network_currency_transfer_amount,
            para_asset_transfer_amount,
        );

        let number_of_events_before_call = t.events.len();

        let initialize_new_exchange_result = initialize_new_exchange(
            &mut t,
            FirstAccountId::get(),
            Asset::ParachainAsset(asset_id),
            2 * para_asset_transfer_amount,
            Asset::MainNetworkCurrency,
            main_network_currency_transfer_amount,
        );

        assert!(assert_subdex_failure(
            &t,
            initialize_new_exchange_result,
            Error::InsufficientParachainAssetAmount,
            number_of_events_before_call,
        ));
    })
}
