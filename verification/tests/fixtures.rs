use subdex::dex::Event as SubdexEvent;
use subdex::error::Error as SubdexError;
use subdex::mock::{
    asset_balances, assert_event_success, assert_subdex_failure, assert_subdex_xcmp_failure,
    emulate_downward_message, emulate_swap_exact_to, emulate_xcmp_message,
    get_min_main_network_asset_amount, get_min_parachain_asset_amount, get_next_asset_id,
    get_subdex_test_event, get_subdex_xcmp_test_event, initialize_simple_exchange, run_to_block,
    with_test_externalities, ExtBuilder, FirstAccountId, FirstParaId, SecondAccountId, Test,
    MessageBrokerMock, TestEvent, TreasuryAccountId,
};
use subdex::types::{Asset, DexTreasury};
use subdex::xcmp::{
    DispatchError, DownwardMessage, Error, Event, Module, Outgoing, XCMPMessage,
};

#[test]
fn genesis_state() {
    let t = ExtBuilder::build();
    assert_eq!(t.block_number, 0);
    assert!(t.events.is_empty());
    assert!(t.broker.sent.is_empty());
    assert_eq!(get_next_asset_id(&t), 1);
    assert_eq!(t.subdex.timestamp(), 0);
    assert_eq!(
        t.subdex.dex_treasury(),
        Some(DexTreasury::new(TreasuryAccountId::get(), 1, 4))
    );
    let config = t.subdex.config();
    assert_eq!(config.fee_rate_nominator, 3);
    assert_eq!(config.fee_rate_denominator, 1000);
    assert_eq!(config.min_main_network_asset_amount, get_min_main_network_asset_amount());
    assert_eq!(config.min_parachain_asset_amount, get_min_parachain_asset_amount());
    assert_eq!(get_min_main_network_asset_amount(), 10_000);
    assert_eq!(get_min_parachain_asset_amount(), 1000);
}

#[test]
fn fixture_accounts() {
    assert_eq!(FirstAccountId::get(), 1);
    assert_eq!(SecondAccountId::get(), 2);
    assert_eq!(TreasuryAccountId::get(), 255);
    assert_eq!(FirstParaId::get(), 300);
}

#[test]
fn externalities_start_at_block_one() {
    let block = with_test_externalities(|t: Test| t.block_number);
    assert_eq!(block, 1);
}

#[test]
fn run_to_block_never_goes_back() {
    let mut t = ExtBuilder::build();
    run_to_block(&mut t, 5);
    assert_eq!(t.block_number, 5);
    run_to_block(&mut t, 3);
    assert_eq!(t.block_number, 5);
    run_to_block(&mut t, 5);
    assert_eq!(t.block_number, 5);
}

#[test]
fn no_event_is_logged_in_block_zero() {
    let mut t = ExtBuilder::build();
    assert_eq!(emulate_downward_message(&mut t, FirstAccountId::get(), 500), Ok(()));
    assert_eq!(t.subdex.free_balance(FirstAccountId::get()), 500);
    assert!(t.events.is_empty());
    run_to_block(&mut t, 1);
    assert_eq!(emulate_downward_message(&mut t, FirstAccountId::get(), 500), Ok(()));
    assert_eq!(t.events.len(), 1);
}

#[test]
fn event_success_needs_count_and_last_event() {
    with_test_externalities(|mut t: Test| {
        let event = get_subdex_xcmp_test_event(Event::TransferredTokensFromRelayChain(1, 500));
        // Nothing is logged yet.
        assert!(!assert_event_success(&t, event, 0));
        assert_eq!(emulate_downward_message(&mut t, 1, 500), Ok(()));
        assert!(assert_event_success(&t, event, 1));
        assert!(!assert_event_success(&t, event, 2));
        let other = get_subdex_xcmp_test_event(Event::TransferredTokensFromRelayChain(1, 501));
        assert!(!assert_event_success(&t, other, 1));
        assert_eq!(
            get_subdex_test_event(SubdexEvent::Invested(
                1,
                Asset::MainNetworkCurrency,
                Asset::ParachainAsset(1),
                5
            )),
            TestEvent::PalletSubdex(SubdexEvent::Invested(
                1,
                Asset::MainNetworkCurrency,
                Asset::ParachainAsset(1),
                5
            ))
        );
    })
}

#[test]
fn failure_checks_tell_the_two_kinds_of_error_apart() {
    let t = ExtBuilder::build();
    let own = Err(DispatchError::SubdexXcmp(Error::AssetIdDoesNotExist));
    let exchange = Err(DispatchError::Subdex(SubdexError::InvalidExchange));
    assert!(assert_subdex_xcmp_failure(&t, own, Error::AssetIdDoesNotExist, 0));
    assert!(!assert_subdex_xcmp_failure(&t, own, Error::AmountShouldBeGreaterThanZero, 0));
    assert!(!assert_subdex_xcmp_failure(&t, own, Error::AssetIdDoesNotExist, 1));
    assert!(!assert_subdex_xcmp_failure(&t, exchange, Error::AssetIdDoesNotExist, 0));
    assert!(!assert_subdex_xcmp_failure(&t, Ok(()), Error::AssetIdDoesNotExist, 0));
    assert!(assert_subdex_failure(&t, exchange, SubdexError::InvalidExchange, 0));
    assert!(!assert_subdex_failure(&t, exchange, SubdexError::ExchangeNotExists, 0));
    assert!(!assert_subdex_failure(&t, exchange, SubdexError::InvalidExchange, 1));
    assert!(!assert_subdex_failure(&t, own, SubdexError::InvalidExchange, 0));
    assert!(!assert_subdex_failure(&t, Ok(()), SubdexError::InvalidExchange, 0));
}

#[test]
fn other_downward_messages_are_ignored() {
    let mut t = ExtBuilder::build();
    assert_eq!(
        Module::handle_downward_message(&mut t.subdex, &DownwardMessage::Other),
        Ok(None)
    );
    assert_eq!(t.subdex.free_balance(FirstAccountId::get()), 0);
}

#[test]
fn downward_message_without_room_is_rejected() {
    let mut t = ExtBuilder::build();
    assert_eq!(emulate_downward_message(&mut t, 1, u128::MAX), Ok(()));
    assert_eq!(
        emulate_downward_message(&mut t, 1, 1),
        Err(DispatchError::Subdex(SubdexError::OverflowOccured))
    );
    assert_eq!(t.subdex.free_balance(1), u128::MAX);
}

#[test]
fn assets_of_different_chains_get_different_identifiers() {
    with_test_externalities(|mut t: Test| {
        assert_eq!(emulate_xcmp_message(&mut t, 300, 1, 10, Some(5)), Ok(()));
        assert_eq!(emulate_xcmp_message(&mut t, 301, 1, 20, Some(5)), Ok(()));
        assert_eq!(emulate_xcmp_message(&mut t, 300, 1, 30, None), Ok(()));
        assert_eq!(emulate_xcmp_message(&mut t, 300, 2, 40, Some(5)), Ok(()));
        assert_eq!(t.subdex_xcmp.ensure_asset_id_exists(300, Some(5)), Ok(1));
        assert_eq!(t.subdex_xcmp.ensure_asset_id_exists(301, Some(5)), Ok(2));
        assert_eq!(t.subdex_xcmp.ensure_asset_id_exists(300, None), Ok(3));
        assert_eq!(
            t.subdex_xcmp.ensure_asset_id_exists(301, None),
            Err(Error::AssetIdDoesNotExist)
        );
        assert_eq!(get_next_asset_id(&t), 4);
        assert_eq!(asset_balances(&t, 1, 1), 10);
        assert_eq!(asset_balances(&t, 1, 2), 20);
        assert_eq!(asset_balances(&t, 1, 3), 30);
        assert_eq!(asset_balances(&t, 2, 1), 40);
        assert_eq!(t.events.len(), 4);
    })
}

#[test]
fn xcmp_message_without_room_is_rejected_and_changes_nothing() {
    let mut t = ExtBuilder::build();
    assert_eq!(emulate_xcmp_message(&mut t, 300, 1, u128::MAX, Some(5)), Ok(()));
    assert_eq!(
        emulate_xcmp_message(&mut t, 300, 1, 1, Some(5)),
        Err(DispatchError::Subdex(SubdexError::OverflowOccured))
    );
    assert_eq!(asset_balances(&t, 1, 1), u128::MAX);
    assert_eq!(get_next_asset_id(&t), 2);
}

#[test]
fn xcmp_message_is_rejected_when_no_identifier_is_left() {
    let mut xcmp = Module::new(u32::MAX);
    let mut t = ExtBuilder::build();
    let message = XCMPMessage::TransferToken(1, 10, Some(5));
    assert_eq!(
        xcmp.handle_xcmp_message(&mut t.subdex, 300, &message),
        Err(DispatchError::Subdex(SubdexError::OverflowOccured))
    );
    assert_eq!(xcmp.next_asset_id(), u32::MAX);
    assert!(!xcmp.contains_asset_id(300, Some(5)));
    assert_eq!(t.subdex.asset_balances(1, u32::MAX), 0);

    let mut last = Module::new(u32::MAX - 1);
    assert_eq!(
        last.handle_xcmp_message(&mut t.subdex, 300, &message),
        Ok(Event::DepositAssetViaXCMP(300, Some(5), 1, u32::MAX - 1, 10))
    );
    assert_eq!(last.next_asset_id(), u32::MAX);
}

#[test]
fn non_zero_balance_check() {
    assert_eq!(Module::ensure_non_zero_balance(1), Ok(()));
    assert_eq!(
        Module::ensure_non_zero_balance(0),
        Err(Error::AmountShouldBeGreaterThanZero)
    );
}

#[test]
fn unknown_asset_has_identifier_zero() {
    let xcmp = Module::new(1);
    assert_eq!(xcmp.asset_id_by_para_asset_id(300, Some(5)), 0);
    assert!(!xcmp.contains_asset_id(300, Some(5)));
}

#[test]
fn simple_exchange_stops_at_the_first_failure() {
    with_test_externalities(|mut t: Test| {
        // The parachain amount is below the minimum: both transfers arrive,
        // the launch is refused.
        assert_eq!(
            initialize_simple_exchange(&mut t, 1, 10_000, Some(5), 999),
            Err(DispatchError::Subdex(SubdexError::ParachainAssetAmountBelowMin))
        );
        assert_eq!(asset_balances(&t, 1, 1), 999);
        assert_eq!(t.subdex.free_balance(1), 10_000);
        assert_eq!(t.events.len(), 2);
    })
}

#[test]
fn swap_through_the_host_pays_the_treasury() {
    with_test_externalities(|mut t: Test| {
        assert_eq!(
            initialize_simple_exchange(&mut t, 1, 100_000, Some(5), 60_000),
            Ok(())
        );
        assert_eq!(emulate_downward_message(&mut t, 2, 100_000), Ok(()));
        let number_of_events_before_call = t.events.len();
        assert_eq!(
            emulate_swap_exact_to(
                &mut t,
                2,
                Asset::MainNetworkCurrency,
                100_000,
                Asset::ParachainAsset(1),
                29_967,
                2,
            ),
            Ok(())
        );
        assert_eq!(t.subdex.free_balance(2), 0);
        assert_eq!(asset_balances(&t, 2, 1), 29_967);
        assert_eq!(t.subdex.free_balance(TreasuryAccountId::get()), 75);
        assert!(assert_event_success(
            &t,
            get_subdex_test_event(SubdexEvent::Exchanged(
                2,
                Asset::MainNetworkCurrency,
                100_000,
                Asset::ParachainAsset(1),
                29_967,
                Some(75),
            )),
            number_of_events_before_call + 1,
        ));
        let failed = emulate_swap_exact_to(
            &mut t,
            2,
            Asset::MainNetworkCurrency,
            1,
            Asset::ParachainAsset(1),
            0,
            2,
        );
        assert!(assert_subdex_failure(
            &t,
            failed,
            SubdexError::InsufficientMainNetworkAssetAmount,
            number_of_events_before_call + 1,
        ));
    })
}

#[test]
fn events_of_what_leaves_ask_for_a_message() {
    assert_eq!(
        Event::TransferredTokensToRelayChain(7, 500).outgoing(),
        Some(Outgoing::Upward(7, 500))
    );
    assert_eq!(
        Event::WithdrawAssetViaXCMP(300, Some(5), 7, 1, 500).outgoing(),
        Some(Outgoing::Xcmp(300, XCMPMessage::TransferToken(7, 500, Some(5))))
    );
    assert_eq!(
        Event::WithdrawAssetViaXCMP(301, None, 8, 2, 1).outgoing(),
        Some(Outgoing::Xcmp(301, XCMPMessage::TransferToken(8, 1, None)))
    );
}

#[test]
fn events_of_what_arrives_ask_for_none() {
    assert_eq!(Event::TransferredTokensFromRelayChain(7, 500).outgoing(), None);
    assert_eq!(Event::DepositAssetViaXCMP(300, Some(5), 7, 1, 500).outgoing(), None);
}

#[test]
fn broker_keeps_what_it_is_given_in_order() {
    let mut broker = MessageBrokerMock::new();
    assert!(broker.sent.is_empty());
    assert_eq!(broker.send_upward_message(7, 500), Ok(()));
    assert_eq!(
        broker.send_xcmp_message(300, &XCMPMessage::TransferToken(7, 1, None)),
        Ok(())
    );
    assert_eq!(
        broker.sent,
        vec![
            Outgoing::Upward(7, 500),
            Outgoing::Xcmp(300, XCMPMessage::TransferToken(7, 1, None)),
        ]
    );
}

#[test]
fn arrivals_hand_nothing_to_the_broker() {
    with_test_externalities(|mut t: Test| {
        assert_eq!(emulate_downward_message(&mut t, 1, 500), Ok(()));
        assert_eq!(emulate_xcmp_message(&mut t, 300, 1, 10, Some(5)), Ok(()));
        assert!(t.broker.sent.is_empty());
    })
}
