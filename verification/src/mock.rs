//! A small host for the exchange: one state that holds both modules and the
//! log of their events, with the accounts and settings that examples and
//! tests share.

use vstd::prelude::*;
use crate::dex::ModuleView;
use crate::exchange::Exchange;
use crate::types::{AccountId, Asset, AssetId, Balance, Config, DexTreasury, ParaId};
use crate::xcmp::{
    downward_message_outcome, outgoing_of, relay_transfer_outcome, DispatchError, DownwardMessage,
    ModuleState, Outgoing, XCMPMessage,
};

verus! {

/// Outcome of an operation that reports nothing but its failure.
pub type DispatchResult = Result<(), DispatchError>;

/// Account of the treasury.
pub struct TreasuryAccountId;

impl TreasuryAccountId {
    pub fn get() -> (r: AccountId)
        ensures
            r == 255,
    {
        255
    }
}

/// First account that the examples use.
pub struct FirstAccountId;

impl FirstAccountId {
    pub fn get() -> (r: AccountId)
        ensures
            r == 1,
    {
        1
    }
}

/// Second account that the examples use.
pub struct SecondAccountId;

impl SecondAccountId {
    pub fn get() -> (r: AccountId)
        ensures
            r == 2,
    {
        2
    }
}

/// Chain that the examples receive assets from.
pub struct FirstParaId;

impl FirstParaId {
    pub fn get() -> (r: ParaId)
        ensures
            r == 300,
    {
        300
    }
}

/// Least amount of a parachain asset that opens a pool, for a balance of
/// 128 bits.
pub fn get_min_parachain_asset_amount() -> (r: Balance)
    ensures
        r == 1000,
{
    1000
}

/// Least amount of the main network currency that opens a pool, for a
/// balance of 128 bits.
pub fn get_min_main_network_asset_amount() -> (r: Balance)
    ensures
        r == 10_000,
{
    10_000
}

/// An event of either module.
#[derive(Clone, Copy, PartialEq, Eq, Debug, Structural)]
pub enum TestEvent {
    SubdexXcmp(crate::xcmp::Event),
    PalletSubdex(crate::dex::Event),
}

/// A way to other chains that sends nothing and keeps what it was given to
/// send, in order.
pub struct MessageBrokerMock {
    pub sent: Vec<Outgoing>,
}

impl MessageBrokerMock {
    /// A broker that was given nothing yet.
    pub fn new() -> (r: Self)
        ensures
            r.sent@ == Seq::<Outgoing>::empty(),
    {
        MessageBrokerMock { sent: Vec::new() }
    }

    /// Takes a request to the relay chain to transfer `amount` to `dest`.
    /// Never fails.
    pub fn send_upward_message(&mut self, dest: AccountId, amount: Balance) -> (r: Result<(), ()>)
        ensures
            r.is_ok(),
            final(self).sent@ == old(self).sent@.push(Outgoing::Upward(dest, amount)),
    {
        self.sent.push(Outgoing::Upward(dest, amount));
        Ok(())
    }

    /// Takes a message for the chain `dest`. Never fails.
    pub fn send_xcmp_message(&mut self, dest: ParaId, msg: &XCMPMessage) -> (r: Result<(), ()>)
        ensures
            r.is_ok(),
            final(self).sent@ == old(self).sent@.push(Outgoing::Xcmp(dest, *msg)),
    {
        self.sent.push(Outgoing::Xcmp(dest, *msg));
        Ok(())
    }
}

/// The host's state: both modules, the way to other chains, the number of
/// the present block, and the events in the order in which they were
/// reported.
pub struct Test {
    pub subdex: crate::dex::Module,
    pub subdex_xcmp: crate::xcmp::Module,
    pub broker: MessageBrokerMock,
    pub block_number: u64,
    pub events: Vec<TestEvent>,
}

/// What was given to send, after the message of `event`, if it has one, is
/// given too.
pub open spec fn sent_after(sent: Seq<Outgoing>, event: crate::xcmp::Event) -> Seq<Outgoing> {
    match outgoing_of(event) {
        Some(message) => sent.push(message),
        None => sent,
    }
}

/// The settings that [`ExtBuilder::build`] starts with: a fee of 3/1000 and
/// the two minimum amounts.
pub open spec fn genesis_config() -> Config {
    Config {
        fee_rate_nominator: 3,
        fee_rate_denominator: 1000,
        min_main_network_asset_amount: 10_000,
        min_parachain_asset_amount: 1000,
    }
}

/// The exchange that [`ExtBuilder::build`] starts with: no pools and no
/// balances, and a treasury that takes a quarter of the fee.
pub open spec fn genesis_subdex() -> ModuleView {
    ModuleView {
        config: genesis_config(),
        dex_treasury: Some(
            DexTreasury {
                dex_account: 255,
                treasury_fee_rate_nominator: 1,
                treasury_fee_rate_denominator: 4,
            },
        ),
        now: 0,
        exchanges: Map::empty(),
        asset_balances: Map::empty(),
        balances: Map::empty(),
    }
}

/// A log with `event` added at its end. Nothing is added in block 0.
pub open spec fn appended(block_number: u64, events: Seq<TestEvent>, event: TestEvent) -> Seq<
    TestEvent,
> {
    if block_number > 0 {
        events.push(event)
    } else {
        events
    }
}

impl Test {
    /// The state as it is built, at the given block: nothing has happened.
    pub open spec fn at_genesis(self, block_number: u64) -> bool {
        &&& self.subdex@ == genesis_subdex()
        &&& self.subdex_xcmp@ == (ModuleState {
            asset_id_by_para_asset_id: Map::empty(),
            next_asset_id: 1,
        })
        &&& self.broker.sent@ == Seq::<Outgoing>::empty()
        &&& self.block_number == block_number
        &&& self.events@ == Seq::<TestEvent>::empty()
    }

    /// The log after `event` is reported. Nothing is logged in block 0.
    pub open spec fn logged(self, event: TestEvent) -> Seq<TestEvent> {
        appended(self.block_number, self.events@, event)
    }

    /// Reports an event to the log. Nothing is logged in block 0.
    pub fn deposit_event(&mut self, event: TestEvent)
        ensures
            final(self).events@ == old(self).logged(event),
            final(self).subdex == old(self).subdex,
            final(self).subdex_xcmp == old(self).subdex_xcmp,
            final(self).broker == old(self).broker,
            final(self).block_number == old(self).block_number,
    {
        if self.block_number > 0 {
            self.events.push(event);
        }
    }
}

/// Builder of the state that every example starts from.
pub struct ExtBuilder;

impl ExtBuilder {
    /// The state at block 0, with nothing in it.
    pub fn build() -> (r: Test)
        ensures
            r.at_genesis(0),
            r.subdex@.wf(),
    {
        let config = Config {
            fee_rate_nominator: 3,
            fee_rate_denominator: 1000,
            min_main_network_asset_amount: get_min_main_network_asset_amount(),
            min_parachain_asset_amount: get_min_parachain_asset_amount(),
        };
        Test {
            subdex: crate::dex::Module::new(
                config,
                Some(DexTreasury::new(TreasuryAccountId::get(), 1, 4)),
            ),
            subdex_xcmp: crate::xcmp::Module::new(1),
            broker: MessageBrokerMock::new(),
            block_number: 0,
            events: Vec::new(),
        }
    }
}

/// Moves the state on to block `n`, one block at a time; a state that is
/// already there or further stays where it is.
pub fn run_to_block(runtime: &mut Test, n: u64)
    ensures
        final(runtime).block_number == (if old(runtime).block_number < n {
            n
        } else {
            old(runtime).block_number
        }),
        final(runtime).subdex == old(runtime).subdex,
        final(runtime).subdex_xcmp == old(runtime).subdex_xcmp,
        final(runtime).broker == old(runtime).broker,
        final(runtime).events == old(runtime).events,
{
    while runtime.block_number < n
        invariant
            runtime.block_number <= n || runtime.block_number == old(runtime).block_number,
            runtime.block_number >= old(runtime).block_number,
            runtime.subdex == old(runtime).subdex,
            runtime.subdex_xcmp == old(runtime).subdex_xcmp,
            runtime.broker == old(runtime).broker,
            runtime.events == old(runtime).events,
        decreases n - runtime.block_number,
    {
        runtime.block_number = runtime.block_number + 1;
    }
}

/// Runs `f` on a fresh state at block 1, where events are logged.
pub fn with_test_externalities<R, F: FnOnce(Test) -> R>(f: F) -> (r: R)
    requires
        forall|runtime: Test| runtime.at_genesis(1) ==> f.requires((runtime,)),
    ensures
        exists|runtime: Test| runtime.at_genesis(1) && f.ensures((runtime,), r),
{
    let mut runtime = ExtBuilder::build();
    run_to_block(&mut runtime, 1);
    let ghost started = runtime;
    assert(started.at_genesis(1));
    let r = f(runtime);
    assert(f.ensures((started,), r));
    r
}

pub fn get_subdex_xcmp_test_event(raw_event: crate::xcmp::Event) -> (r: TestEvent)
    ensures
        r == TestEvent::SubdexXcmp(raw_event),
{
    TestEvent::SubdexXcmp(raw_event)
}

pub fn get_subdex_test_event(raw_event: crate::dex::Event) -> (r: TestEvent)
    ensures
        r == TestEvent::PalletSubdex(raw_event),
{
    TestEvent::PalletSubdex(raw_event)
}

/// Whether the log holds exactly `number_of_events_after_call` events and the
/// last of them is `tested_event`.
pub fn assert_event_success(
    runtime: &Test,
    tested_event: TestEvent,
    number_of_events_after_call: usize,
) -> (r: bool)
    ensures
        r == (runtime.events@.len() == number_of_events_after_call && runtime.events@.len() > 0
            && runtime.events@.last() == tested_event),
{
    let n: usize = runtime.events.len();
    if n != number_of_events_after_call || n == 0 {
        return false;
    }
    runtime.events[n - 1] == tested_event
}

/// Whether the call failed with the given error of this module's own and the
/// log still holds `number_of_events_before_call` events.
pub fn assert_subdex_xcmp_failure(
    runtime: &Test,
    call_result: DispatchResult,
    expected_error: crate::xcmp::Error,
    number_of_events_before_call: usize,
) -> (r: bool)
    ensures
        r == (call_result == Err::<(), DispatchError>(DispatchError::SubdexXcmp(expected_error))
            && runtime.events@.len() == number_of_events_before_call),
{
    let failed = match call_result {
        Err(DispatchError::SubdexXcmp(e)) => e == expected_error,
        _ => false,
    };
    failed && runtime.events.len() == number_of_events_before_call
}

/// Whether the call failed with the given error of the exchange and the log
/// still holds `number_of_events_before_call` events.
pub fn assert_subdex_failure(
    runtime: &Test,
    call_result: DispatchResult,
    expected_error: crate::error::Error,
    number_of_events_before_call: usize,
) -> (r: bool)
    ensures
        r == (call_result == Err::<(), DispatchError>(DispatchError::Subdex(expected_error))
            && runtime.events@.len() == number_of_events_before_call),
{
    let failed = match call_result {
        Err(DispatchError::Subdex(e)) => e == expected_error,
        _ => false,
    };
    failed && runtime.events.len() == number_of_events_before_call
}

/// Balance of the account in the asset `asset_id` of another chain.
pub fn asset_balances(runtime: &Test, account_id: AccountId, asset_id: AssetId) -> (r: Balance)
    ensures
        r == runtime.subdex@.balance(account_id, Asset::ParachainAsset(asset_id)),
{
    runtime.subdex.asset_balances(account_id, asset_id)
}

/// The pool stored for the pair, or a pool that was never launched.
pub fn dex_exchanges(runtime: &Test, first_asset: Asset, second_asset: Asset) -> (r: Exchange)
    ensures
        r@ == runtime.subdex@.exchange(first_asset, second_asset),
{
    runtime.subdex.exchanges(first_asset, second_asset)
}

/// Whether the asset of the chain has an identifier.
pub fn asset_id_exists(runtime: &Test, para_id: ParaId, asset_id: Option<AssetId>) -> (r: bool)
    ensures
        r == runtime.subdex_xcmp@.asset_id_by_para_asset_id.contains_key((para_id, asset_id)),
{
    runtime.subdex_xcmp.contains_asset_id(para_id, asset_id)
}

/// The identifier of the asset of the chain; `0` for one that is not known.
pub fn asset_id_by_para_asset_id(runtime: &Test, para_id: ParaId, asset_id: Option<AssetId>) -> (r:
    AssetId)
    ensures
        r == (match runtime.subdex_xcmp@.asset_id_check(para_id, asset_id) {
            Ok(known) => known,
            Err(_) => 0,
        }),
{
    runtime.subdex_xcmp.asset_id_by_para_asset_id(para_id, asset_id)
}

/// The identifier that the next new asset will get.
pub fn get_next_asset_id(runtime: &Test) -> (r: AssetId)
    ensures
        r == runtime.subdex_xcmp@.next_asset_id,
{
    runtime.subdex_xcmp.next_asset_id()
}

/// Logs what an operation of the exchange reported, and keeps its verdict.
fn conclude_subdex(
    runtime: &mut Test,
    outcome: Result<crate::dex::Event, crate::error::Error>,
) -> (r: DispatchResult)
    ensures
        match outcome {
            Ok(event) => r.is_ok() && final(runtime).events@ == old(runtime).logged(
                TestEvent::PalletSubdex(event),
            ),
            Err(e) => {
                &&& r == Err::<(), DispatchError>(DispatchError::Subdex(e))
                &&& final(runtime).events@ == old(runtime).events@
            },
        },
        final(runtime).subdex == old(runtime).subdex,
        final(runtime).subdex_xcmp == old(runtime).subdex_xcmp,
        final(runtime).broker == old(runtime).broker,
        final(runtime).block_number == old(runtime).block_number,
{
    match outcome {
        Ok(event) => {
            runtime.deposit_event(TestEvent::PalletSubdex(event));
            Ok(())
        },
        Err(e) => Err(DispatchError::Subdex(e)),
    }
}

/// Hands the message of what a transfer reported to the broker, logs the
/// event, and keeps the verdict.
fn conclude_transfer(runtime: &mut Test, outcome: Result<crate::xcmp::Event, DispatchError>) -> (r:
    DispatchResult)
    ensures
        match outcome {
            Ok(event) => {
                &&& r.is_ok()
                &&& final(runtime).events@ == old(runtime).logged(TestEvent::SubdexXcmp(event))
                &&& final(runtime).broker.sent@ == sent_after(old(runtime).broker.sent@, event)
            },
            Err(e) => {
                &&& r == Err::<(), DispatchError>(e)
                &&& final(runtime).events@ == old(runtime).events@
                &&& final(runtime).broker == old(runtime).broker
            },
        },
        final(runtime).subdex == old(runtime).subdex,
        final(runtime).subdex_xcmp == old(runtime).subdex_xcmp,
        final(runtime).block_number == old(runtime).block_number,
{
    match outcome {
        Ok(event) => {
            match event.outgoing() {
                Some(Outgoing::Upward(dest, amount)) => {
                    let _ = runtime.broker.send_upward_message(dest, amount);
                },
                Some(Outgoing::Xcmp(dest, msg)) => {
                    let _ = runtime.broker.send_xcmp_message(dest, &msg);
                },
                None => {},
            }
            runtime.deposit_event(TestEvent::SubdexXcmp(event));
            Ok(())
        },
        Err(e) => Err(e),
    }
}

/// Launches a pool for `origin` and logs the event.
pub fn initialize_new_exchange(
    runtime: &mut Test,
    origin: AccountId,
    first_asset: Asset,
    first_asset_amount: Balance,
    second_asset: Asset,
    second_asset_amount: Balance,
) -> (r: DispatchResult)
    ensures
        match old(runtime).subdex@.initialize_exchange(
            origin,
            first_asset,
            first_asset_amount,
            second_asset,
            second_asset_amount,
        ) {
            Ok((next, event)) => {
                &&& r.is_ok()
                &&& final(runtime).subdex@ == next
                &&& final(runtime).events@ == old(runtime).logged(TestEvent::PalletSubdex(event))
            },
            Err(e) => {
                &&& r == Err::<(), DispatchError>(DispatchError::Subdex(e))
                &&& final(runtime).subdex == old(runtime).subdex
                &&& final(runtime).events@ == old(runtime).events@
            },
        },
        final(runtime).subdex_xcmp == old(runtime).subdex_xcmp,
        final(runtime).block_number == old(runtime).block_number,
        final(runtime).broker.sent@ == old(runtime).broker.sent@,
        old(runtime).subdex@.wf() ==> final(runtime).subdex@.wf(),
{
    let outcome = runtime.subdex.initialize_exchange(
        origin,
        first_asset,
        first_asset_amount,
        second_asset,
        second_asset_amount,
    );
    conclude_subdex(runtime, outcome)
}

/// Buys shares of a pool for `origin` and logs the event.
pub fn emulate_invest_liquidity(
    runtime: &mut Test,
    origin: AccountId,
    first_asset: Asset,
    second_asset: Asset,
    shares: Balance,
) -> (r: DispatchResult)
    ensures
        match old(runtime).subdex@.invest_liquidity(origin, first_asset, second_asset, shares) {
            Ok((next, event)) => {
                &&& r.is_ok()
                &&& final(runtime).subdex@ == next
                &&& final(runtime).events@ == old(runtime).logged(TestEvent::PalletSubdex(event))
            },
            Err(e) => {
                &&& r == Err::<(), DispatchError>(DispatchError::Subdex(e))
                &&& final(runtime).subdex == old(runtime).subdex
                &&& final(runtime).events@ == old(runtime).events@
            },
        },
        final(runtime).subdex_xcmp == old(runtime).subdex_xcmp,
        final(runtime).block_number == old(runtime).block_number,
        final(runtime).broker.sent@ == old(runtime).broker.sent@,
        old(runtime).subdex@.wf() ==> final(runtime).subdex@.wf(),
{
    let outcome = runtime.subdex.invest_liquidity(origin, first_asset, second_asset, shares);
    conclude_subdex(runtime, outcome)
}

/// Gives back shares of a pool for `origin` and logs the event.
pub fn emulate_divest_liquidity(
    runtime: &mut Test,
    origin: AccountId,
    first_asset: Asset,
    second_asset: Asset,
    shares_burned: Balance,
    min_first_asset_received: Balance,
    min_second_asset_received: Balance,
) -> (r: DispatchResult)
    ensures
        match old(runtime).subdex@.divest_liquidity(
            origin,
            first_asset,
            second_asset,
            shares_burned,
            min_first_asset_received,
            min_second_asset_received,
        ) {
            Ok((next, event)) => {
                &&& r.is_ok()
                &&& final(runtime).subdex@ == next
                &&& final(runtime).events@ == old(runtime).logged(TestEvent::PalletSubdex(event))
            },
            Err(e) => {
                &&& r == Err::<(), DispatchError>(DispatchError::Subdex(e))
                &&& final(runtime).subdex == old(runtime).subdex
                &&& final(runtime).events@ == old(runtime).events@
            },
        },
        final(runtime).subdex_xcmp == old(runtime).subdex_xcmp,
        final(runtime).block_number == old(runtime).block_number,
        final(runtime).broker.sent@ == old(runtime).broker.sent@,
        old(runtime).subdex@.wf() ==> final(runtime).subdex@.wf(),
{
    let outcome = runtime.subdex.divest_liquidity(
        origin,
        first_asset,
        second_asset,
        shares_burned,
        min_first_asset_received,
        min_second_asset_received,
    );
    conclude_subdex(runtime, outcome)
}

/// Swaps one asset for another for `origin` and logs the event.
pub fn emulate_swap_exact_to(
    runtime: &mut Test,
    origin: AccountId,
    asset_in: Asset,
    asset_in_amount: Balance,
    asset_out: Asset,
    min_asset_out_amount: Balance,
    receiver: AccountId,
) -> (r: DispatchResult)
    ensures
        match old(runtime).subdex@.swap_exact_to(
            origin,
            asset_in,
            asset_in_amount,
            asset_out,
            min_asset_out_amount,
        ) {
            Ok((next, event)) => {
                &&& r.is_ok()
                &&& final(runtime).subdex@ == next
                &&& final(runtime).events@ == old(runtime).logged(TestEvent::PalletSubdex(event))
            },
            Err(e) => {
                &&& r == Err::<(), DispatchError>(DispatchError::Subdex(e))
                &&& final(runtime).subdex == old(runtime).subdex
                &&& final(runtime).events@ == old(runtime).events@
            },
        },
        final(runtime).subdex_xcmp == old(runtime).subdex_xcmp,
        final(runtime).block_number == old(runtime).block_number,
        final(runtime).broker.sent@ == old(runtime).broker.sent@,
        old(runtime).subdex@.wf() ==> final(runtime).subdex@.wf(),
{
    let outcome = runtime.subdex.swap_exact_to(
        origin,
        asset_in,
        asset_in_amount,
        asset_out,
        min_asset_out_amount,
        receiver,
    );
    conclude_subdex(runtime, outcome)
}

/// Delivers a transfer of the main network currency from the relay chain
/// and logs the event.
pub fn emulate_downward_message(runtime: &mut Test, dest: AccountId, transfer_amount: Balance) -> (r:
    DispatchResult)
    ensures
        match downward_message_outcome(
            old(runtime).subdex@,
            DownwardMessage::TransferInto(dest, transfer_amount),
        ) {
            Ok((next, event)) => {
                &&& r.is_ok()
                &&& final(runtime).subdex@ == next
                &&& final(runtime).events@ == old(runtime).logged(
                    TestEvent::SubdexXcmp(event.unwrap()),
                )
            },
            Err(e) => {
                &&& r == Err::<(), DispatchError>(e)
                &&& final(runtime).subdex == old(runtime).subdex
                &&& final(runtime).events@ == old(runtime).events@
            },
        },
        final(runtime).subdex_xcmp == old(runtime).subdex_xcmp,
        final(runtime).block_number == old(runtime).block_number,
        final(runtime).broker.sent@ == old(runtime).broker.sent@,
        old(runtime).subdex@.wf() ==> final(runtime).subdex@.wf(),
{
    let downward_message = DownwardMessage::TransferInto(dest, transfer_amount);
    match crate::xcmp::Module::handle_downward_message(&mut runtime.subdex, &downward_message) {
        Ok(Some(event)) => conclude_transfer(runtime, Ok(event)),
        Ok(None) => Ok(()),
        Err(e) => conclude_transfer(runtime, Err(e)),
    }
}

/// Delivers a transfer of an asset from the chain `para_id` and logs the
/// event.
pub fn emulate_xcmp_message(
    runtime: &mut Test,
    para_id: ParaId,
    dest: AccountId,
    transfer_amount: Balance,
    asset_id: Option<AssetId>,
) -> (r: DispatchResult)
    ensures
        match old(runtime).subdex_xcmp@.xcmp_message_outcome(
            old(runtime).subdex@,
            para_id,
            XCMPMessage::TransferToken(dest, transfer_amount, asset_id),
        ) {
            Ok((next, next_subdex, event)) => {
                &&& r.is_ok()
                &&& final(runtime).subdex_xcmp@ == next
                &&& final(runtime).subdex@ == next_subdex
                &&& final(runtime).events@ == old(runtime).logged(TestEvent::SubdexXcmp(event))
            },
            Err(e) => {
                &&& r == Err::<(), DispatchError>(e)
                &&& final(runtime).subdex_xcmp == old(runtime).subdex_xcmp
                &&& final(runtime).subdex == old(runtime).subdex
                &&& final(runtime).events@ == old(runtime).events@
            },
        },
        final(runtime).block_number == old(runtime).block_number,
        final(runtime).broker.sent@ == old(runtime).broker.sent@,
        old(runtime).subdex@.wf() ==> final(runtime).subdex@.wf(),
{
    let xcmp_message = XCMPMessage::TransferToken(dest, transfer_amount, asset_id);
    let outcome = runtime.subdex_xcmp.handle_xcmp_message(
        &mut runtime.subdex,
        para_id,
        &xcmp_message,
    );
    conclude_transfer(runtime, outcome)
}

/// Sends main network currency of `origin` to `dest` on the relay chain and
/// logs the event.
pub fn emulate_transfer_balance_to_relay_chain(
    runtime: &mut Test,
    origin: AccountId,
    dest: AccountId,
    transfer_amount: Balance,
) -> (r: DispatchResult)
    ensures
        match relay_transfer_outcome(old(runtime).subdex@, origin, dest, transfer_amount) {
            Ok((next, event)) => {
                &&& r.is_ok()
                &&& final(runtime).subdex@ == next
                &&& final(runtime).events@ == old(runtime).logged(TestEvent::SubdexXcmp(event))
            },
            Err(e) => {
                &&& r == Err::<(), DispatchError>(e)
                &&& final(runtime).subdex == old(runtime).subdex
                &&& final(runtime).events@ == old(runtime).events@
            },
        },
        final(runtime).subdex_xcmp == old(runtime).subdex_xcmp,
        final(runtime).block_number == old(runtime).block_number,
        final(runtime).broker.sent@ == (if relay_transfer_outcome(
            old(runtime).subdex@,
            origin,
            dest,
            transfer_amount,
        ).is_ok() {
            old(runtime).broker.sent@.push(Outgoing::Upward(dest, transfer_amount))
        } else {
            old(runtime).broker.sent@
        }),
        old(runtime).subdex@.wf() ==> final(runtime).subdex@.wf(),
{
    let outcome = crate::xcmp::Module::transfer_balance_to_relay_chain(
        &mut runtime.subdex,
        origin,
        dest,
        transfer_amount,
    );
    conclude_transfer(runtime, outcome)
}

/// Sends an asset of `origin` back to `dest` on the chain `para_id` and logs
/// the event.
pub fn emulate_transfer_asset_balance_to_parachain_chain(
    runtime: &mut Test,
    origin: AccountId,
    para_id: ParaId,
    dest: AccountId,
    para_asset_id: Option<AssetId>,
    transfer_amount: Balance,
) -> (r: DispatchResult)
    ensures
        match old(runtime).subdex_xcmp@.parachain_transfer_outcome(
            old(runtime).subdex@,
            origin,
            para_id,
            dest,
            para_asset_id,
            transfer_amount,
        ) {
            Ok((next, event)) => {
                &&& r.is_ok()
                &&& final(runtime).subdex@ == next
                &&& final(runtime).events@ == old(runtime).logged(TestEvent::SubdexXcmp(event))
            },
            Err(e) => {
                &&& r == Err::<(), DispatchError>(e)
                &&& final(runtime).subdex == old(runtime).subdex
                &&& final(runtime).events@ == old(runtime).events@
            },
        },
        final(runtime).subdex_xcmp == old(runtime).subdex_xcmp,
        final(runtime).block_number == old(runtime).block_number,
        final(runtime).broker.sent@ == (if old(runtime).subdex_xcmp@.parachain_transfer_outcome(
            old(runtime).subdex@,
            origin,
            para_id,
            dest,
            para_asset_id,
            transfer_amount,
        ).is_ok() {
            old(runtime).broker.sent@.push(
                Outgoing::Xcmp(
                    para_id,
                    XCMPMessage::TransferToken(dest, transfer_amount, para_asset_id),
                ),
            )
        } else {
            old(runtime).broker.sent@
        }),
        old(runtime).subdex@.wf() ==> final(runtime).subdex@.wf(),
{
    let outcome = runtime.subdex_xcmp.transfer_asset_balance_to_parachain_chain(
        &mut runtime.subdex,
        origin,
        para_id,
        dest,
        para_asset_id,
        transfer_amount,
    );
    conclude_transfer(runtime, outcome)
}

/// Receives both amounts for the account, the parachain asset from the first
/// chain and the main network currency from the relay chain, and launches a
/// pool with them. Stops at the first step that fails; what the steps before
/// it did stays done.
pub fn initialize_simple_exchange(
    runtime: &mut Test,
    account_id: AccountId,
    main_network_currency_transfer_amount: Balance,
    para_asset_id: Option<AssetId>,
    para_asset_transfer_amount: Balance,
) -> (r: DispatchResult)
    ensures
        ({
            let start = old(runtime);
            let block = start.block_number;
            let asset_id = match start.subdex_xcmp@.asset_id_check(300, para_asset_id) {
                Ok(known) => known,
                Err(_) => start.subdex_xcmp@.next_asset_id,
            };
            match start.subdex_xcmp@.xcmp_message_outcome(
                start.subdex@,
                300,
                XCMPMessage::TransferToken(account_id, para_asset_transfer_amount, para_asset_id),
            ) {
                Err(e) => {
                    &&& r == Err::<(), DispatchError>(e)
                    &&& final(runtime).subdex_xcmp == start.subdex_xcmp
                    &&& final(runtime).subdex == start.subdex
                    &&& final(runtime).events@ == start.events@
                },
                Ok((registry, received, deposit)) => {
                    let log1 = appended(block, start.events@, TestEvent::SubdexXcmp(deposit));
                    match downward_message_outcome(
                        received,
                        DownwardMessage::TransferInto(
                            account_id,
                            main_network_currency_transfer_amount,
                        ),
                    ) {
                        Err(e) => {
                            &&& r == Err::<(), DispatchError>(e)
                            &&& final(runtime).subdex_xcmp@ == registry
                            &&& final(runtime).subdex@ == received
                            &&& final(runtime).events@ == log1
                        },
                        Ok((funded, transfer)) => {
                            let log2 = appended(
                                block,
                                log1,
                                TestEvent::SubdexXcmp(transfer.unwrap()),
                            );
                            match funded.initialize_exchange(
                                account_id,
                                Asset::ParachainAsset(asset_id),
                                para_asset_transfer_amount,
                                Asset::MainNetworkCurrency,
                                main_network_currency_transfer_amount,
                            ) {
                                Err(e) => {
                                    &&& r == Err::<(), DispatchError>(DispatchError::Subdex(e))
                                    &&& final(runtime).subdex_xcmp@ == registry
                                    &&& final(runtime).subdex@ == funded
                                    &&& final(runtime).events@ == log2
                                },
                                Ok((launched, event)) => {
                                    &&& r.is_ok()
                                    &&& final(runtime).subdex_xcmp@ == registry
                                    &&& final(runtime).subdex@ == launched
                                    &&& final(runtime).events@ == appended(
                                        block,
                                        log2,
                                        TestEvent::PalletSubdex(event),
                                    )
                                },
                            }
                        },
                    }
                },
            }
        }),
        old(runtime).subdex@.wf() ==> final(runtime).subdex@.wf(),
        final(runtime).block_number == old(runtime).block_number,
        final(runtime).broker.sent@ == old(runtime).broker.sent@,
{
    let para_id: ParaId = FirstParaId::get();
    let asset_id: AssetId = match runtime.subdex_xcmp.ensure_asset_id_exists(
        para_id,
        para_asset_id,
    ) {
        Ok(known) => known,
        Err(_) => get_next_asset_id(runtime),
    };
    emulate_xcmp_message(runtime, para_id, account_id, para_asset_transfer_amount, para_asset_id)?;
    emulate_downward_message(runtime, account_id, main_network_currency_transfer_amount)?;
    initialize_new_exchange(
        runtime,
        account_id,
        Asset::ParachainAsset(asset_id),
        para_asset_transfer_amount,
        Asset::MainNetworkCurrency,
        main_network_currency_transfer_amount,
    )
}

} // verus!
