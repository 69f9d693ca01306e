//! Transfers between the exchange and other chains: what arrives is credited
//! to an account, what leaves is taken from one.
//!
//! Assets of other chains are known here by identifiers of this exchange's
//! own; the first transfer of an asset from a chain assigns the next free
//! identifier to it.

use std::collections::BTreeMap;
use vstd::prelude::*;
use crate::dex::ModuleView;
use crate::types::{following_id, AccountId, Asset, AssetId, Balance, ParaId};

verus! {

/// Message between two chains.
#[derive(Clone, Copy, PartialEq, Eq, Debug, Structural)]
pub enum XCMPMessage {
    /// Transfer tokens to the given account from the Parachain account.
    /// When the asset is `None`, treat message as main currency transfer.
    TransferToken(AccountId, Balance, Option<AssetId>),
}

/// Message from the relay chain.
#[derive(Clone, Copy, PartialEq, Eq, Debug, Structural)]
pub enum DownwardMessage {
    /// Transfer the given amount of the main network currency into the
    /// given account.
    TransferInto(AccountId, Balance),
    /// Any other message; it is not for this module.
    Other,
}

/// Why a transfer was rejected by this module's own checks.
#[derive(Clone, Copy, PartialEq, Eq, Debug, Structural)]
pub enum Error {
    /// Transferred amount should be greater than 0.
    AmountShouldBeGreaterThanZero,
    /// Given parachain asset id entry does not exist.
    AssetIdDoesNotExist,
}

/// Why a transfer was rejected: by the exchange's checks or by this
/// module's own.
#[derive(Clone, Copy, PartialEq, Eq, Debug, Structural)]
pub enum DispatchError {
    Subdex(crate::error::Error),
    SubdexXcmp(Error),
}

/// What a transfer that succeeded reports to the host.
#[derive(Clone, Copy, PartialEq, Eq, Debug, Structural)]
pub enum Event {
    /// Transferred main currency amount to the account on the relay chain.
    TransferredTokensToRelayChain(AccountId, Balance),
    /// Transferred main currency amount to the account on request from the
    /// relay chain.
    TransferredTokensFromRelayChain(AccountId, Balance),
    /// Transferred custom asset to the account from the given parachain
    /// account. Chain, its asset, account, our asset identifier, amount.
    DepositAssetViaXCMP(ParaId, Option<AssetId>, AccountId, AssetId, Balance),
    /// Transferred custom asset from the account to the given parachain
    /// account. Chain, its asset, account, our asset identifier, amount.
    WithdrawAssetViaXCMP(ParaId, Option<AssetId>, AccountId, AssetId, Balance),
}

/// A message that the host is to send after a transfer out of the exchange.
#[derive(Clone, Copy, PartialEq, Eq, Debug, Structural)]
pub enum Outgoing {
    /// Ask the relay chain to transfer the amount of the main network
    /// currency to the account.
    Upward(AccountId, Balance),
    /// Send the message to the chain.
    Xcmp(ParaId, XCMPMessage),
}

/// The message that an event asks the host to send: a transfer on the relay
/// chain for main network currency that left, a transfer of tokens on the
/// other chain for an asset that left, and none for what arrived.
pub open spec fn outgoing_of(event: Event) -> Option<Outgoing> {
    match event {
        Event::TransferredTokensToRelayChain(dest, amount) => Some(Outgoing::Upward(dest, amount)),
        Event::WithdrawAssetViaXCMP(para_id, para_asset_id, dest, _, amount) => Some(
            Outgoing::Xcmp(para_id, XCMPMessage::TransferToken(dest, amount, para_asset_id)),
        ),
        Event::TransferredTokensFromRelayChain(_, _) => None,
        Event::DepositAssetViaXCMP(_, _, _, _, _) => None,
    }
}

impl Event {
    /// The message that the host is to send for this event, if any.
    pub fn outgoing(&self) -> (r: Option<Outgoing>)
        ensures
            r == outgoing_of(*self),
    {
        match self {
            Event::TransferredTokensToRelayChain(dest, amount) => Some(
                Outgoing::Upward(*dest, *amount),
            ),
            Event::WithdrawAssetViaXCMP(para_id, para_asset_id, dest, _, amount) => Some(
                Outgoing::Xcmp(*para_id, XCMPMessage::TransferToken(*dest, *amount, *para_asset_id)),
            ),
            Event::TransferredTokensFromRelayChain(_, _) => None,
            Event::DepositAssetViaXCMP(_, _, _, _, _) => None,
        }
    }
}

/// The identifiers given to the assets of other chains.
pub struct Module {
    asset_id_by_para_asset_id: BTreeMap<(ParaId, Option<AssetId>), AssetId>,
    next_asset_id: AssetId,
}

/// What the module holds, as mathematical values.
pub struct ModuleState {
    /// Maps parachain asset id to our internal representation.
    pub asset_id_by_para_asset_id: Map<(ParaId, Option<AssetId>), AssetId>,
    /// Next dex parachain asset id.
    pub next_asset_id: AssetId,
}

/// The amount is greater than zero.
pub open spec fn non_zero_check(amount: Balance) -> Result<(), Error> {
    if amount > 0 {
        Ok(())
    } else {
        Err(Error::AmountShouldBeGreaterThanZero)
    }
}

/// Outcome of a message from the relay chain: the exchange's next state and
/// the event, if the message is a transfer.
///
/// A transfer gives the amount of the main network currency to the account,
/// and is rejected with `OverflowOccured` where the balance has no room for
/// it. Any other message changes nothing and reports nothing.
pub open spec fn downward_message_outcome(dex: ModuleView, msg: DownwardMessage) -> Result<
    (ModuleView, Option<Event>),
    DispatchError,
> {
    match msg {
        DownwardMessage::TransferInto(dest, amount) => match dex.can_hold_check(
            dest,
            Asset::MainNetworkCurrency,
            amount,
        ) {
            Err(e) => Err(DispatchError::Subdex(e)),
            Ok(_) => Ok(
                (
                    dex.minted(dest, Asset::MainNetworkCurrency, amount),
                    Some(Event::TransferredTokensFromRelayChain(dest, amount)),
                ),
            ),
        },
        DownwardMessage::Other => Ok((dex, None)),
    }
}

/// Outcome of sending `amount` of the main network currency from `sender`
/// to `dest` on the relay chain: the exchange's next state and the event.
///
/// The amount must be positive and the sender must hold it; it is then
/// taken from the sender.
pub open spec fn relay_transfer_outcome(
    dex: ModuleView,
    sender: AccountId,
    dest: AccountId,
    amount: Balance,
) -> Result<(ModuleView, Event), DispatchError> {
    match non_zero_check(amount) {
        Err(e) => Err(DispatchError::SubdexXcmp(e)),
        Ok(_) => match dex.sufficient_balance_check(sender, Asset::MainNetworkCurrency, amount) {
            Err(e) => Err(DispatchError::Subdex(e)),
            Ok(_) => Ok(
                (
                    dex.slashed(sender, Asset::MainNetworkCurrency, amount),
                    Event::TransferredTokensToRelayChain(dest, amount),
                ),
            ),
        },
    }
}

impl ModuleState {
    /// The identifier that the asset of the chain is known by.
    pub open spec fn asset_id_check(self, para_id: ParaId, para_asset_id: Option<AssetId>) -> Result<
        AssetId,
        Error,
    > {
        if self.asset_id_by_para_asset_id.contains_key((para_id, para_asset_id)) {
            Ok(self.asset_id_by_para_asset_id[(para_id, para_asset_id)])
        } else {
            Err(Error::AssetIdDoesNotExist)
        }
    }

    /// Outcome of a transfer that arrives from the chain `src`: the next
    /// state of this module and of the exchange, and the event.
    ///
    /// An asset that the chain sent before is credited under the identifier
    /// it has. One that is new is given the next free identifier, which then
    /// moves on by one. The transfer is rejected with `OverflowOccured`, and
    /// nothing changes, where the account's balance has no room for the
    /// amount or no identifier is left.
    pub open spec fn xcmp_message_outcome(self, dex: ModuleView, src: ParaId, msg: XCMPMessage)
        -> Result<(ModuleState, ModuleView, Event), DispatchError> {
        match msg {
            XCMPMessage::TransferToken(dest, amount, para_asset_id) => {
                let known = self.asset_id_by_para_asset_id.contains_key((src, para_asset_id));
                let asset_id = if known {
                    self.asset_id_by_para_asset_id[(src, para_asset_id)]
                } else {
                    self.next_asset_id
                };
                if dex.can_hold_check(dest, Asset::ParachainAsset(asset_id), amount).is_err() || (
                !known && self.next_asset_id == AssetId::MAX) {
                    Err(DispatchError::Subdex(crate::error::Error::OverflowOccured))
                } else {
                    Ok(
                        (
                            if known {
                                self
                            } else {
                                ModuleState {
                                    asset_id_by_para_asset_id: self.asset_id_by_para_asset_id.insert(
                                        (src, para_asset_id),
                                        asset_id,
                                    ),
                                    next_asset_id: following_id(self.next_asset_id),
                                }
                            },
                            dex.minted(dest, Asset::ParachainAsset(asset_id), amount),
                            Event::DepositAssetViaXCMP(src, para_asset_id, dest, asset_id, amount),
                        ),
                    )
                }
            },
        }
    }

    /// Outcome of sending `amount` of an asset of the chain `para_id` from
    /// `who` to `dest` on that chain: the exchange's next state and the
    /// event.
    ///
    /// The amount must be positive, the asset must be known, and the sender
    /// must hold the amount; it is then taken from the sender.
    pub open spec fn parachain_transfer_outcome(
        self,
        dex: ModuleView,
        who: AccountId,
        para_id: ParaId,
        dest: AccountId,
        para_asset_id: Option<AssetId>,
        amount: Balance,
    ) -> Result<(ModuleView, Event), DispatchError> {
        match non_zero_check(amount) {
            Err(e) => Err(DispatchError::SubdexXcmp(e)),
            Ok(_) => match self.asset_id_check(para_id, para_asset_id) {
                Err(e) => Err(DispatchError::SubdexXcmp(e)),
                Ok(asset_id) => match dex.sufficient_balance_check(
                    who,
                    Asset::ParachainAsset(asset_id),
                    amount,
                ) {
                    Err(e) => Err(DispatchError::Subdex(e)),
                    Ok(_) => Ok(
                        (
                            dex.slashed(who, Asset::ParachainAsset(asset_id), amount),
                            Event::WithdrawAssetViaXCMP(
                                para_id,
                                para_asset_id,
                                dest,
                                asset_id,
                                amount,
                            ),
                        ),
                    ),
                },
            },
        }
    }
}

impl View for Module {
    type V = ModuleState;

    closed spec fn view(&self) -> ModuleState {
        ModuleState {
            asset_id_by_para_asset_id: self.asset_id_by_para_asset_id@,
            next_asset_id: self.next_asset_id,
        }
    }
}

impl Module {
    /// A module that knows no asset yet and gives `next_asset_id` to the
    /// first.
    pub fn new(next_asset_id: AssetId) -> (r: Self)
        ensures
            r@ == (ModuleState { asset_id_by_para_asset_id: Map::empty(), next_asset_id }),
    {
        Module { asset_id_by_para_asset_id: BTreeMap::new(), next_asset_id }
    }

    /// Next dex parachain asset id.
    pub fn next_asset_id(&self) -> (r: AssetId)
        ensures
            r == self@.next_asset_id,
    {
        self.next_asset_id
    }

    /// Whether the asset of the chain has an identifier here.
    pub fn contains_asset_id(&self, para_id: ParaId, para_asset_id: Option<AssetId>) -> (r: bool)
        ensures
            r == self@.asset_id_by_para_asset_id.contains_key((para_id, para_asset_id)),
    {
        self.asset_id_by_para_asset_id.get(&(para_id, para_asset_id)).is_some()
    }

    /// The identifier of the asset of the chain; `0` for one that is not
    /// known.
    pub fn asset_id_by_para_asset_id(&self, para_id: ParaId, para_asset_id: Option<AssetId>) -> (r:
        AssetId)
        ensures
            r == (match self@.asset_id_check(para_id, para_asset_id) {
                Ok(asset_id) => asset_id,
                Err(_) => 0,
            }),
    {
        match self.asset_id_by_para_asset_id.get(&(para_id, para_asset_id)) {
            Some(asset_id) => *asset_id,
            None => 0,
        }
    }

    /// The identifier of the asset of the chain, which must be known.
    pub fn ensure_asset_id_exists(&self, para_id: ParaId, para_asset_id: Option<AssetId>) -> (r:
        Result<AssetId, Error>)
        ensures
            r == self@.asset_id_check(para_id, para_asset_id),
    {
        match self.asset_id_by_para_asset_id.get(&(para_id, para_asset_id)) {
            Some(asset_id) => Ok(*asset_id),
            None => Err(Error::AssetIdDoesNotExist),
        }
    }

    /// Checks that the amount transferred is greater than zero.
    pub fn ensure_non_zero_balance(amount: Balance) -> (r: Result<(), Error>)
        ensures
            r == non_zero_check(amount),
    {
        if amount > 0 {
            Ok(())
        } else {
            Err(Error::AmountShouldBeGreaterThanZero)
        }
    }

    /// Transfer main network asset into dex parachain from the relay chain.
    /// On failure nothing is changed.
    pub fn handle_downward_message(dex: &mut crate::dex::Module, msg: &DownwardMessage) -> (r:
        Result<Option<Event>, DispatchError>)
        ensures
            match downward_message_outcome(old(dex)@, *msg) {
                Ok((next, event)) => r == Ok::<Option<Event>, DispatchError>(event) && final(dex)@
                    == next,
                Err(e) => r == Err::<Option<Event>, DispatchError>(e) && *final(dex) == *old(dex),
            },
            old(dex)@.wf() ==> final(dex)@.wf(),
    {
        match msg {
            DownwardMessage::TransferInto(dest, amount) => {
                match dex.ensure_can_hold_balance(dest, Asset::MainNetworkCurrency, *amount) {
                    Ok(_) => {},
                    Err(e) => {
                        return Err(DispatchError::Subdex(e));
                    },
                }
                dex.mint_asset(dest, Asset::MainNetworkCurrency, *amount);
                Ok(Some(Event::TransferredTokensFromRelayChain(*dest, *amount)))
            },
            DownwardMessage::Other => Ok(None),
        }
    }

    /// Transfer main currency or custom asset from other parachain to our
    /// chain. On failure nothing is changed.
    pub fn handle_xcmp_message(
        &mut self,
        dex: &mut crate::dex::Module,
        src: ParaId,
        msg: &XCMPMessage,
    ) -> (r: Result<Event, DispatchError>)
        ensures
            match old(self)@.xcmp_message_outcome(old(dex)@, src, *msg) {
                Ok((next, next_dex, event)) => {
                    &&& r == Ok::<Event, DispatchError>(event)
                    &&& final(self)@ == next
                    &&& final(dex)@ == next_dex
                },
                Err(e) => {
                    &&& r == Err::<Event, DispatchError>(e)
                    &&& *final(self) == *old(self)
                    &&& *final(dex) == *old(dex)
                },
            },
            old(dex)@.wf() ==> final(dex)@.wf(),
    {
        match msg {
            XCMPMessage::TransferToken(dest, amount, para_asset_id) => {
                let known = self.asset_id_by_para_asset_id.get(&(src, *para_asset_id));
                match known {
                    Some(asset_id) => {
                        let asset_id: AssetId = *asset_id;
                        match dex.ensure_can_hold_balance(
                            dest,
                            Asset::ParachainAsset(asset_id),
                            *amount,
                        ) {
                            Ok(_) => {},
                            Err(e) => {
                                return Err(DispatchError::Subdex(e));
                            },
                        }
                        dex.mint_asset(dest, Asset::ParachainAsset(asset_id), *amount);
                        Ok(
                            Event::DepositAssetViaXCMP(
                                src,
                                *para_asset_id,
                                *dest,
                                asset_id,
                                *amount,
                            ),
                        )
                    },
                    None => {
                        let next_asset_id: AssetId = self.next_asset_id;
                        match dex.ensure_can_hold_balance(
                            dest,
                            Asset::ParachainAsset(next_asset_id),
                            *amount,
                        ) {
                            Ok(_) => {},
                            Err(e) => {
                                return Err(DispatchError::Subdex(e));
                            },
                        }
                        let following: AssetId = match next_asset_id.checked_add(1) {
                            Some(following) => following,
                            None => {
                                return Err(
                                    DispatchError::Subdex(crate::error::Error::OverflowOccured),
                                );
                            },
                        };
                        self.asset_id_by_para_asset_id.insert((src, *para_asset_id), next_asset_id);
                        dex.mint_asset(dest, Asset::ParachainAsset(next_asset_id), *amount);
                        self.next_asset_id = following;
                        Ok(
                            Event::DepositAssetViaXCMP(
                                src,
                                *para_asset_id,
                                *dest,
                                next_asset_id,
                                *amount,
                            ),
                        )
                    },
                }
            },
        }
    }

    /// Transfer `amount` of main currency on the relay chain from the
    /// Parachain account to the given `dest` account. The host sends the
    /// message that [`Event::outgoing`] gives for the event. On failure
    /// nothing is changed.
    pub fn transfer_balance_to_relay_chain(
        dex: &mut crate::dex::Module,
        sender: AccountId,
        dest: AccountId,
        amount: Balance,
    ) -> (r: Result<Event, DispatchError>)
        ensures
            match relay_transfer_outcome(old(dex)@, sender, dest, amount) {
                Ok((next, event)) => r == Ok::<Event, DispatchError>(event) && final(dex)@ == next,
                Err(e) => r == Err::<Event, DispatchError>(e) && *final(dex) == *old(dex),
            },
            old(dex)@.wf() ==> final(dex)@.wf(),
    {
        match Self::ensure_non_zero_balance(amount) {
            Ok(_) => {},
            Err(e) => {
                return Err(DispatchError::SubdexXcmp(e));
            },
        }
        match dex.ensure_sufficient_balance(&sender, Asset::MainNetworkCurrency, amount) {
            Ok(_) => {},
            Err(e) => {
                return Err(DispatchError::Subdex(e));
            },
        }
        dex.slash_asset(&sender, Asset::MainNetworkCurrency, amount);
        Ok(Event::TransferredTokensToRelayChain(dest, amount))
    }

    /// Transfer an `amount` of another parachain asset. The host sends the
    /// message that [`Event::outgoing`] gives for the event. On failure
    /// nothing is changed.
    pub fn transfer_asset_balance_to_parachain_chain(
        &self,
        dex: &mut crate::dex::Module,
        who: AccountId,
        para_id: ParaId,
        dest: AccountId,
        para_asset_id: Option<AssetId>,
        amount: Balance,
    ) -> (r: Result<Event, DispatchError>)
        ensures
            match self@.parachain_transfer_outcome(
                old(dex)@,
                who,
                para_id,
                dest,
                para_asset_id,
                amount,
            ) {
                Ok((next, event)) => r == Ok::<Event, DispatchError>(event) && final(dex)@ == next,
                Err(e) => r == Err::<Event, DispatchError>(e) && *final(dex) == *old(dex),
            },
            old(dex)@.wf() ==> final(dex)@.wf(),
    {
        match Self::ensure_non_zero_balance(amount) {
            Ok(_) => {},
            Err(e) => {
                return Err(DispatchError::SubdexXcmp(e));
            },
        }
        let asset_id: AssetId = match self.ensure_asset_id_exists(para_id, para_asset_id) {
            Ok(asset_id) => asset_id,
            Err(e) => {
                return Err(DispatchError::SubdexXcmp(e));
            },
        };
        match dex.ensure_sufficient_balance(&who, Asset::ParachainAsset(asset_id), amount) {
            Ok(_) => {},
            Err(e) => {
                return Err(DispatchError::Subdex(e));
            },
        }
        dex.slash_asset(&who, Asset::ParachainAsset(asset_id), amount);
        Ok(Event::WithdrawAssetViaXCMP(para_id, para_asset_id, dest, asset_id, amount))
    }
}

} // verus!
