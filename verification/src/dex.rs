//! The exchange as a whole: the pools, the balances they draw on, and the
//! operations that validate first and write afterwards.

use std::collections::BTreeMap;
use vstd::prelude::*;
use crate::checked::{checked_add, checked_sub};
use crate::error::Error;
use crate::exchange::{payout_check, Exchange, ExchangeView};
use crate::laws::{lemma_divested_sound, lemma_invested_sound, lemma_pools_updated_sound};
use crate::types::{AccountId, Asset, AssetId, Balance, Config, DexTreasury, Moment};

verus! {

/// What an operation that succeeded reports to the host.
#[derive(Clone, Copy, PartialEq, Eq, Debug, Structural)]
pub enum Event {
    /// Account, asset in, amount in, asset out, amount out, treasury fee.
    Exchanged(AccountId, Asset, Balance, Asset, Balance, Option<Balance>),
    /// Account, first asset, second asset, shares bought.
    Invested(AccountId, Asset, Asset, Balance),
    /// Account, first asset, second asset, initial shares.
    Initialized(AccountId, Asset, Asset, Balance),
    /// Account, first asset, second asset, shares burned.
    Divested(AccountId, Asset, Asset, Balance),
}

/// The exchange: its configuration, the time, the pools by their pair of
/// assets in canonical order, and the balances of all accounts.
pub struct Module {
    config: Config,
    dex_treasury: Option<DexTreasury>,
    now: Moment,
    exchanges: BTreeMap<(u64, u64), Exchange>,
    asset_balances: BTreeMap<(AccountId, AssetId), Balance>,
    balances: BTreeMap<AccountId, Balance>,
}

/// What the exchange holds, as mathematical values.
pub struct ModuleView {
    pub config: Config,
    pub dex_treasury: Option<DexTreasury>,
    pub now: Moment,
    /// Pools that were ever stored, by their pair of assets.
    pub exchanges: Map<(Asset, Asset), ExchangeView>,
    /// Balances of assets located on other chains.
    pub asset_balances: Map<(AccountId, AssetId), Balance>,
    /// Balances of the main network currency.
    pub balances: Map<AccountId, Balance>,
}

/// Storage key of a pair of assets.
pub open spec fn pair_key(pair: (Asset, Asset)) -> (u64, u64) {
    (pair.0.rank() as u64, pair.1.rank() as u64)
}

/// Assets are different: an exchange of an asset for itself is refused.
pub open spec fn valid_exchange_check(asset_in: Asset, asset_out: Asset) -> Result<(), Error> {
    if asset_in == asset_out {
        Err(Error::InvalidExchange)
    } else {
        Ok(())
    }
}

/// The pair in canonical order, and whether it had to be turned round.
pub open spec fn canonical(first_asset: Asset, second_asset: Asset) -> (Asset, Asset, bool) {
    if first_asset.rank() > second_asset.rank() {
        (second_asset, first_asset, true)
    } else {
        (first_asset, second_asset, false)
    }
}

/// Both amounts received meet the minimum that the caller accepts.
pub open spec fn divest_expectations_check(
    first_asset_cost: Balance,
    second_asset_cost: Balance,
    min_first_asset_received: Balance,
    min_second_asset_received: Balance,
) -> Result<(), Error> {
    if first_asset_cost < min_first_asset_received {
        Err(Error::FirstAssetAmountBelowExpectation)
    } else if second_asset_cost < min_second_asset_received {
        Err(Error::SecondAssetAmountBelowExpectation)
    } else {
        Ok(())
    }
}

/// The amount meets the minimum that the configuration sets for its kind of
/// asset.
pub open spec fn min_asset_amount_check(config: Config, asset: Asset, asset_amount: Balance)
    -> Result<(), Error> {
    match asset {
        Asset::MainNetworkCurrency => if asset_amount < config.min_main_network_asset_amount {
            Err(Error::MainNetworkAssetAmountBelowMin)
        } else {
            Ok(())
        },
        Asset::ParachainAsset(_) => if asset_amount < config.min_parachain_asset_amount {
            Err(Error::ParachainAssetAmountBelowMin)
        } else {
            Ok(())
        },
    }
}

/// The first failure of two checks, the first check first.
pub open spec fn both(first: Result<(), Error>, second: Result<(), Error>) -> Result<(), Error> {
    match first {
        Err(e) => Err(e),
        Ok(_) => second,
    }
}

impl ModuleView {
    /// What `who` holds of `asset`; an account without an entry holds nothing.
    pub open spec fn balance(self, who: AccountId, asset: Asset) -> Balance {
        match asset {
            Asset::MainNetworkCurrency => if self.balances.contains_key(who) {
                self.balances[who]
            } else {
                0
            },
            Asset::ParachainAsset(asset_id) => if self.asset_balances.contains_key(
                (who, asset_id),
            ) {
                self.asset_balances[(who, asset_id)]
            } else {
                0
            },
        }
    }

    /// The state with the balance of `who` in `asset` set to `value`.
    pub open spec fn with_balance(self, who: AccountId, asset: Asset, value: Balance) -> ModuleView {
        match asset {
            Asset::MainNetworkCurrency => ModuleView {
                balances: self.balances.insert(who, value),
                ..self
            },
            Asset::ParachainAsset(asset_id) => ModuleView {
                asset_balances: self.asset_balances.insert((who, asset_id), value),
                ..self
            },
        }
    }

    /// The state after `amount` of `asset` is taken from `who`.
    pub open spec fn slashed(self, who: AccountId, asset: Asset, amount: Balance) -> ModuleView
        recommends
            self.balance(who, asset) >= amount,
    {
        self.with_balance(who, asset, (self.balance(who, asset) - amount) as Balance)
    }

    /// The state after `amount` of `asset` is given to `who`.
    pub open spec fn minted(self, who: AccountId, asset: Asset, amount: Balance) -> ModuleView
        recommends
            self.balance(who, asset) + amount <= Balance::MAX,
    {
        self.with_balance(who, asset, (self.balance(who, asset) + amount) as Balance)
    }

    /// The pool stored for the pair, or a pool that was never launched.
    pub open spec fn exchange(self, first_asset: Asset, second_asset: Asset) -> ExchangeView {
        if self.exchanges.contains_key((first_asset, second_asset)) {
            self.exchanges[(first_asset, second_asset)]
        } else {
            ExchangeView::empty(self.now)
        }
    }

    /// The state with `pool` stored for the pair.
    pub open spec fn with_exchange(self, first_asset: Asset, second_asset: Asset, pool: ExchangeView)
        -> ModuleView {
        ModuleView { exchanges: self.exchanges.insert((first_asset, second_asset), pool), ..self }
    }

    /// Every stored pool is sound and stored under a pair in canonical order.
    pub open spec fn wf(self) -> bool {
        forall|pair: (Asset, Asset)| #[trigger]
            self.exchanges.contains_key(pair) ==> self.exchanges[pair].sound() && pair.0.rank()
                < pair.1.rank()
    }

    /// `who` holds at least `amount` of `asset`.
    pub open spec fn sufficient_balance_check(self, who: AccountId, asset: Asset, amount: Balance)
        -> Result<(), Error> {
        if self.balance(who, asset) >= amount {
            Ok(())
        } else {
            match asset {
                Asset::MainNetworkCurrency => Err(Error::InsufficientMainNetworkAssetAmount),
                Asset::ParachainAsset(_) => Err(Error::InsufficientParachainAssetAmount),
            }
        }
    }

    /// The balance of `who` in `asset` can grow by `amount`.
    pub open spec fn can_hold_check(self, who: AccountId, asset: Asset, amount: Balance) -> Result<
        (),
        Error,
    > {
        if self.balance(who, asset) + amount > Balance::MAX {
            Err(Error::OverflowOccured)
        } else {
            Ok(())
        }
    }

    /// A launched pool is stored for the pair.
    pub open spec fn exists_check(self, first_asset: Asset, second_asset: Asset) -> Result<
        (),
        Error,
    > {
        if self.exchange(first_asset, second_asset).invariant > 0 {
            Ok(())
        } else {
            Err(Error::ExchangeNotExists)
        }
    }

    /// No launched pool is stored for the pair.
    pub open spec fn not_exists_check(self, first_asset: Asset, second_asset: Asset) -> Result<
        (),
        Error,
    > {
        if self.exchange(first_asset, second_asset).invariant == 0 {
            Ok(())
        } else {
            Err(Error::ExchangeAlreadyExists)
        }
    }
    /// The checks that every operation on an existing pool begins with: the
    /// assets differ and a launched pool is stored for their canonical pair.
    pub open spec fn pool_check(self, first_asset: Asset, second_asset: Asset) -> Result<(), Error> {
        both(
            valid_exchange_check(first_asset, second_asset),
            self.exists_check(
                canonical(first_asset, second_asset).0,
                canonical(first_asset, second_asset).1,
            ),
        )
    }

    /// Outcome of launching a pool: the next state and the event, or the
    /// first check that fails.
    ///
    /// In order: the assets differ; both amounts meet the minimum of their
    /// kind; no launched pool is stored for the canonical pair and the stored
    /// one may be replaced; the sender holds both amounts; the product of the
    /// amounts fits a balance. Then both amounts leave the sender and the new
    /// pool is stored.
    pub open spec fn initialize_exchange(
        self,
        sender: AccountId,
        first_asset: Asset,
        first_asset_amount: Balance,
        second_asset: Asset,
        second_asset_amount: Balance,
    ) -> Result<(ModuleView, Event), Error> {
        let (first, second, turned) = canonical(first_asset, second_asset);
        let first_amount = if turned {
            second_asset_amount
        } else {
            first_asset_amount
        };
        let second_amount = if turned {
            first_asset_amount
        } else {
            second_asset_amount
        };
        let checks = both(
            valid_exchange_check(first_asset, second_asset),
            both(
                min_asset_amount_check(self.config, first_asset, first_asset_amount),
                both(
                    min_asset_amount_check(self.config, second_asset, second_asset_amount),
                    both(
                        self.not_exists_check(first, second),
                        both(
                            self.exchange(first, second).launch_check(),
                            both(
                                self.sufficient_balance_check(sender, first, first_amount),
                                self.sufficient_balance_check(sender, second, second_amount),
                            ),
                        ),
                    ),
                ),
            ),
        );
        match checks {
            Err(e) => Err(e),
            Ok(_) => if first_amount * second_amount > Balance::MAX {
                Err(Error::UnderflowOrOverflowOccured)
            } else {
                let pool = ExchangeView::initialized(first_amount, second_amount, sender, self.now);
                Ok(
                    (
                        self.slashed(sender, first, first_amount).slashed(
                            sender,
                            second,
                            second_amount,
                        ).with_exchange(first, second, pool),
                        Event::Initialized(sender, first, second, pool.total_shares),
                    ),
                )
            },
        }
    }

    /// Outcome of buying `shares` shares of a pool: the next state and the
    /// event, or the first check that fails.
    ///
    /// In order: the assets differ; a launched pool is stored for the
    /// canonical pair; the pool can price the shares; the sender holds both
    /// costs; the pool can take the investment. Then both costs leave the
    /// sender and the pool is stored with the investment made.
    pub open spec fn invest_liquidity(
        self,
        sender: AccountId,
        first_asset: Asset,
        second_asset: Asset,
        shares: Balance,
    ) -> Result<(ModuleView, Event), Error> {
        let (first, second, turned) = canonical(first_asset, second_asset);
        let pool = self.exchange(first, second);
        match self.pool_check(first_asset, second_asset) {
            Err(e) => Err(e),
            Ok(_) => match pool.costs(shares) {
                None => Err(Error::UnderflowOrOverflowOccured),
                Some((first_cost, second_cost)) => match both(
                    self.sufficient_balance_check(sender, first, first_cost),
                    self.sufficient_balance_check(sender, second, second_cost),
                ) {
                    Err(e) => Err(e),
                    Ok(_) => match pool.invested(first_cost, second_cost, shares, sender) {
                        Err(e) => Err(e),
                        Ok(next) => Ok(
                            (
                                self.slashed(sender, first, first_cost).slashed(
                                    sender,
                                    second,
                                    second_cost,
                                ).with_exchange(first, second, next),
                                Event::Invested(sender, first, second, shares),
                            ),
                        ),
                    },
                },
            },
        }
    }

    /// Outcome of giving back `shares_burned` shares of a pool: the next
    /// state and the event, or the first check that fails.
    ///
    /// In order: the assets differ; a launched pool is stored for the
    /// canonical pair; the sender can burn the shares; the pool can price
    /// them; both costs meet the caller's minimum; the sender's balances have
    /// room for them; the pool can take the divestment. Then both costs go to
    /// the sender and the pool is stored with the divestment made.
    pub open spec fn divest_liquidity(
        self,
        sender: AccountId,
        first_asset: Asset,
        second_asset: Asset,
        shares_burned: Balance,
        min_first_asset_received: Balance,
        min_second_asset_received: Balance,
    ) -> Result<(ModuleView, Event), Error> {
        let (first, second, turned) = canonical(first_asset, second_asset);
        let pool = self.exchange(first, second);
        match both(
            self.pool_check(first_asset, second_asset),
            pool.burn_check(sender, shares_burned),
        ) {
            Err(e) => Err(e),
            Ok(_) => match pool.costs(shares_burned) {
                None => Err(Error::UnderflowOrOverflowOccured),
                Some((first_cost, second_cost)) => match both(
                    divest_expectations_check(
                        first_cost,
                        second_cost,
                        min_first_asset_received,
                        min_second_asset_received,
                    ),
                    both(
                        self.can_hold_check(sender, first, first_cost),
                        self.can_hold_check(sender, second, second_cost),
                    ),
                ) {
                    Err(e) => Err(e),
                    Ok(_) => match pool.divested(first_cost, second_cost, shares_burned, sender) {
                        Err(e) => Err(e),
                        Ok(next) => Ok(
                            (
                                self.minted(sender, first, first_cost).minted(
                                    sender,
                                    second,
                                    second_cost,
                                ).with_exchange(first, second, next),
                                Event::Divested(sender, first, second, shares_burned),
                            ),
                        ),
                    },
                },
            },
        }
    }

    /// The state after the treasury, if it takes a cut, is given it in
    /// `asset`.
    pub open spec fn treasury_paid(self, asset: Asset, cut: Option<(Balance, AccountId)>)
        -> ModuleView {
        match cut {
            Some((treasury_fee, dex_account)) => self.minted(dex_account, asset, treasury_fee),
            None => self,
        }
    }

    /// The treasury's balance in `asset` has room for its cut, if it takes
    /// one.
    pub open spec fn treasury_check(self, asset: Asset, cut: Option<(Balance, AccountId)>) -> Result<
        (),
        Error,
    > {
        match cut {
            Some((treasury_fee, dex_account)) => self.can_hold_check(
                dex_account,
                asset,
                treasury_fee,
            ),
            None => Ok(()),
        }
    }

    /// Outcome of swapping `asset_in_amount` of one asset for another: the
    /// next state and the event, or the first check that fails.
    ///
    /// In order: the assets differ; a launched pool is stored for the
    /// canonical pair; the sender holds the amount paid in; the pool can
    /// quote the swap; the amount paid out meets the caller's minimum and the
    /// pool holds it; the sender's balance has room for it; the treasury's
    /// balance has room for its cut; the pool can take the new reserves at
    /// the present time. Then the amount paid in leaves the sender, the
    /// amount paid out and the treasury's cut are given, and the pool is
    /// stored with its new reserves.
    pub open spec fn swap_exact_to(
        self,
        sender: AccountId,
        asset_in: Asset,
        asset_in_amount: Balance,
        asset_out: Asset,
        min_asset_out_amount: Balance,
    ) -> Result<(ModuleView, Event), Error> {
        let (first, second, turned) = canonical(asset_in, asset_out);
        let pool = self.exchange(first, second);
        let quote = if turned {
            pool.second_to_first_swap(self.config, self.dex_treasury, asset_in_amount)
        } else {
            pool.first_to_second_swap(self.config, self.dex_treasury, asset_in_amount)
        };
        let pool_out = if turned {
            pool.first_asset_pool
        } else {
            pool.second_asset_pool
        };
        match both(
            self.pool_check(asset_in, asset_out),
            self.sufficient_balance_check(sender, asset_in, asset_in_amount),
        ) {
            Err(e) => Err(e),
            Ok(_) => match quote {
                Err(e) => Err(e),
                Ok((delta, cut)) => match both(
                    payout_check(delta.amount, min_asset_out_amount, pool_out),
                    both(
                        self.can_hold_check(sender, asset_out, delta.amount),
                        self.treasury_check(asset_in, cut),
                    ),
                ) {
                    Err(e) => Err(e),
                    Ok(_) => match pool.pools_updated(
                        delta.first_asset_pool,
                        delta.second_asset_pool,
                        self.now,
                    ) {
                        None => Err(Error::UnderflowOrOverflowOccured),
                        Some(next) => Ok(
                            (
                                self.slashed(sender, asset_in, asset_in_amount).minted(
                                    sender,
                                    asset_out,
                                    delta.amount,
                                ).treasury_paid(asset_in, cut).with_exchange(first, second, next),
                                Event::Exchanged(
                                    sender,
                                    asset_in,
                                    asset_in_amount,
                                    asset_out,
                                    delta.amount,
                                    match cut {
                                        Some((treasury_fee, _)) => Some(treasury_fee),
                                        None => None,
                                    },
                                ),
                            ),
                        ),
                    },
                },
            },
        }
    }
}

impl View for Module {
    type V = ModuleView;

    closed spec fn view(&self) -> ModuleView {
        ModuleView {
            config: self.config,
            dex_treasury: self.dex_treasury,
            now: self.now,
            exchanges: Map::new(
                |pair: (Asset, Asset)| self.exchanges@.contains_key(pair_key(pair)),
                |pair: (Asset, Asset)| self.exchanges@[pair_key(pair)]@,
            ),
            asset_balances: self.asset_balances@,
            balances: self.balances@,
        }
    }
}

impl Module {
    /// An exchange without pools and balances, at time zero.
    pub fn new(config: Config, dex_treasury: Option<DexTreasury>) -> (r: Self)
        ensures
            r@ == (ModuleView {
                config,
                dex_treasury,
                now: 0,
                exchanges: Map::empty(),
                asset_balances: Map::empty(),
                balances: Map::empty(),
            }),
            r@.wf(),
    {
        let r = Module {
            config,
            dex_treasury,
            now: 0,
            exchanges: BTreeMap::new(),
            asset_balances: BTreeMap::new(),
            balances: BTreeMap::new(),
        };
        assert(r@.exchanges =~= Map::empty());
        r
    }

    /// Sets the time that the pools see.
    pub fn set_timestamp(&mut self, now: Moment)
        ensures
            final(self)@ == (ModuleView { now, ..old(self)@ }),
    {
        self.now = now;
    }

    /// The time that the pools see.
    pub fn timestamp(&self) -> (r: Moment)
        ensures
            r == self@.now,
    {
        self.now
    }

    /// Rates and thresholds of this deployment.
    pub fn config(&self) -> (r: Config)
        ensures
            r == self@.config,
    {
        self.config
    }

    /// Treasury data (used to charge fee, when enabled).
    pub fn dex_treasury(&self) -> (r: Option<DexTreasury>)
        ensures
            r == self@.dex_treasury,
    {
        self.dex_treasury
    }

    /// Balance of `who` in the asset `asset_id` of another chain.
    pub fn asset_balances(&self, who: AccountId, asset_id: AssetId) -> (r: Balance)
        ensures
            r == self@.balance(who, Asset::ParachainAsset(asset_id)),
    {
        match self.asset_balances.get(&(who, asset_id)) {
            Some(held) => *held,
            None => 0,
        }
    }

    /// Balance of `who` in the main network currency.
    pub fn free_balance(&self, who: AccountId) -> (r: Balance)
        ensures
            r == self@.balance(who, Asset::MainNetworkCurrency),
    {
        match self.balances.get(&who) {
            Some(held) => *held,
            None => 0,
        }
    }

    /// Balance of `who` in `asset`.
    pub fn balance(&self, who: AccountId, asset: Asset) -> (r: Balance)
        ensures
            r == self@.balance(who, asset),
    {
        match asset {
            Asset::MainNetworkCurrency => self.free_balance(who),
            Asset::ParachainAsset(asset_id) => self.asset_balances(who, asset_id),
        }
    }

    /// The pool stored for the pair, or a pool that was never launched.
    pub fn exchanges(&self, first_asset: Asset, second_asset: Asset) -> (r: Exchange)
        ensures
            r@ == self@.exchange(first_asset, second_asset),
    {
        match self.exchanges.get(&(first_asset.key(), second_asset.key())) {
            Some(pool) => pool.clone(),
            None => Exchange::empty(self.now),
        }
    }

    /// Ensure exchange assets are different.
    pub fn ensure_valid_exchange(asset_in: Asset, asset_out: Asset) -> (r: Result<(), Error>)
        ensures
            r == valid_exchange_check(asset_in, asset_out),
    {
        match (asset_in, asset_out) {
            (Asset::MainNetworkCurrency, Asset::MainNetworkCurrency) => Err(Error::InvalidExchange),
            (Asset::ParachainAsset(asset_in_id), Asset::ParachainAsset(asset_out_id)) => {
                if asset_in_id == asset_out_id {
                    Err(Error::InvalidExchange)
                } else {
                    Ok(())
                }
            },
            _ => Ok(()),
        }
    }

    /// Adjust assets and amounts to satisfy the order (first asset < second
    /// asset).
    pub fn adjust_assets_amount_order(
        first_asset: Asset,
        first_asset_amount: Balance,
        second_asset: Asset,
        second_asset_amount: Balance,
    ) -> (r: (Asset, Balance, Asset, Balance))
        ensures
            r == (if canonical(first_asset, second_asset).2 {
                (second_asset, second_asset_amount, first_asset, first_asset_amount)
            } else {
                (first_asset, first_asset_amount, second_asset, second_asset_amount)
            }),
            r.0 == canonical(first_asset, second_asset).0,
            r.2 == canonical(first_asset, second_asset).1,
            r.0.rank() <= r.2.rank(),
    {
        if first_asset.is_after(second_asset) {
            (second_asset, second_asset_amount, first_asset, first_asset_amount)
        } else {
            (first_asset, first_asset_amount, second_asset, second_asset_amount)
        }
    }

    /// Adjust assets to satisfy the order (first asset < second asset). The
    /// flag says whether the pair was turned round.
    pub fn adjust_assets_order(first_asset: Asset, second_asset: Asset) -> (r: (Asset, Asset, bool))
        ensures
            r == canonical(first_asset, second_asset),
            r.0.rank() <= r.1.rank(),
    {
        if first_asset.is_after(second_asset) {
            (second_asset, first_asset, true)
        } else {
            (first_asset, second_asset, false)
        }
    }

    /// Ensure divest expectations satisfied.
    pub fn ensure_divest_expectations(
        first_asset_cost: Balance,
        second_asset_cost: Balance,
        min_first_asset_received: Balance,
        min_second_asset_received: Balance,
    ) -> (r: Result<(), Error>)
        ensures
            r == divest_expectations_check(
                first_asset_cost,
                second_asset_cost,
                min_first_asset_received,
                min_second_asset_received,
            ),
    {
        if first_asset_cost < min_first_asset_received {
            return Err(Error::FirstAssetAmountBelowExpectation);
        }
        if second_asset_cost < min_second_asset_received {
            return Err(Error::SecondAssetAmountBelowExpectation);
        }
        Ok(())
    }

    /// Ensure provided asset amount satisfy min amount restriction.
    pub fn ensure_min_asset_amount(&self, asset: Asset, asset_amount: Balance) -> (r: Result<
        (),
        Error,
    >)
        ensures
            r == min_asset_amount_check(self@.config, asset, asset_amount),
    {
        match asset {
            Asset::MainNetworkCurrency => {
                if asset_amount < self.config.min_main_network_asset_amount {
                    Err(Error::MainNetworkAssetAmountBelowMin)
                } else {
                    Ok(())
                }
            },
            Asset::ParachainAsset(_) => {
                if asset_amount < self.config.min_parachain_asset_amount {
                    Err(Error::ParachainAssetAmountBelowMin)
                } else {
                    Ok(())
                }
            },
        }
    }

    /// Ensure provided asset amounts satisfy min amounts restrictions.
    pub fn ensure_min_asset_amounts(
        &self,
        first_asset: Asset,
        first_asset_amount: Balance,
        second_asset: Asset,
        second_asset_amount: Balance,
    ) -> (r: Result<(), Error>)
        ensures
            r == both(
                min_asset_amount_check(self@.config, first_asset, first_asset_amount),
                min_asset_amount_check(self@.config, second_asset, second_asset_amount),
            ),
    {
        match self.ensure_min_asset_amount(first_asset, first_asset_amount) {
            Err(e) => Err(e),
            Ok(_) => self.ensure_min_asset_amount(second_asset, second_asset_amount),
        }
    }
    /// Writes the balance of `who` in `asset`.
    fn set_balance(&mut self, who: AccountId, asset: Asset, value: Balance)
        ensures
            final(self)@ == old(self)@.with_balance(who, asset, value),
    {
        match asset {
            Asset::MainNetworkCurrency => {
                self.balances.insert(who, value);
            },
            Asset::ParachainAsset(asset_id) => {
                self.asset_balances.insert((who, asset_id), value);
            },
        }
    }

    /// Stores `pool` for the pair.
    fn store_exchange(&mut self, first_asset: Asset, second_asset: Asset, pool: Exchange)
        ensures
            final(self)@ == old(self)@.with_exchange(first_asset, second_asset, pool@),
    {
        let ghost stored = pool@;
        self.exchanges.insert((first_asset.key(), second_asset.key()), pool);
        proof {
            assert forall|pair: (Asset, Asset)|
                pair != (first_asset, second_asset) implies #[trigger] pair_key(pair) != pair_key(
                (first_asset, second_asset),
            ) by {
                crate::types::lemma_rank_injective(pair.0, first_asset);
                crate::types::lemma_rank_injective(pair.1, second_asset);
            }
            assert(self@.exchanges =~= old(self)@.exchanges.insert(
                (first_asset, second_asset),
                stored,
            ));
        }
    }

    /// Slash respective asset amount from given account after invest or
    /// exchange operation performed. The account must hold the amount.
    pub fn slash_asset(&mut self, from: &AccountId, asset: Asset, asset_amount: Balance)
        requires
            old(self)@.balance(*from, asset) >= asset_amount,
        ensures
            final(self)@ == old(self)@.slashed(*from, asset, asset_amount),
    {
        let held: Balance = self.balance(*from, asset);
        self.set_balance(*from, asset, held - asset_amount);
    }

    /// Slash respective assets amount from given account after invest or
    /// exchange operation performed. The account must hold the first amount,
    /// and the second once the first is taken.
    pub fn slash_assets(
        &mut self,
        from: &AccountId,
        first_asset: Asset,
        first_asset_amount: Balance,
        second_asset: Asset,
        second_asset_amount: Balance,
    )
        requires
            old(self)@.balance(*from, first_asset) >= first_asset_amount,
            old(self)@.slashed(*from, first_asset, first_asset_amount).balance(*from, second_asset)
                >= second_asset_amount,
        ensures
            final(self)@ == old(self)@.slashed(*from, first_asset, first_asset_amount).slashed(
                *from,
                second_asset,
                second_asset_amount,
            ),
    {
        self.slash_asset(from, first_asset, first_asset_amount);
        self.slash_asset(from, second_asset, second_asset_amount);
    }

    /// Mint respective asset amount to given account after divest or
    /// exchange operation performed. The balance must have room for it.
    pub fn mint_asset(&mut self, to: &AccountId, asset: Asset, asset_amount: Balance)
        requires
            old(self)@.balance(*to, asset) + asset_amount <= Balance::MAX,
        ensures
            final(self)@ == old(self)@.minted(*to, asset, asset_amount),
    {
        let held: Balance = self.balance(*to, asset);
        self.set_balance(*to, asset, held + asset_amount);
    }

    /// Mint respective assets amount to given account after divest or
    /// exchange operation performed. The balances must have room for the
    /// first amount, and for the second once the first is given.
    pub fn mint_assets(
        &mut self,
        to: &AccountId,
        first_asset: Asset,
        first_asset_amount: Balance,
        second_asset: Asset,
        second_asset_amount: Balance,
    )
        requires
            old(self)@.balance(*to, first_asset) + first_asset_amount <= Balance::MAX,
            old(self)@.minted(*to, first_asset, first_asset_amount).balance(*to, second_asset)
                + second_asset_amount <= Balance::MAX,
        ensures
            final(self)@ == old(self)@.minted(*to, first_asset, first_asset_amount).minted(
                *to,
                second_asset,
                second_asset_amount,
            ),
    {
        self.mint_asset(to, first_asset, first_asset_amount);
        self.mint_asset(to, second_asset, second_asset_amount);
    }

    /// Ensure given exchange already exists, and hand out a copy of it.
    pub fn ensure_exchange_exists(&self, first_asset: Asset, second_asset: Asset) -> (r: Result<
        Exchange,
        Error,
    >)
        ensures
            match r {
                Ok(pool) => {
                    &&& self@.exists_check(first_asset, second_asset).is_ok()
                    &&& pool@ == self@.exchange(first_asset, second_asset)
                },
                Err(e) => self@.exists_check(first_asset, second_asset) == Err::<(), Error>(e),
            },
    {
        let exchange = self.exchanges(first_asset, second_asset);
        if exchange.stored_invariant() > 0 {
            Ok(exchange)
        } else {
            Err(Error::ExchangeNotExists)
        }
    }

    /// Ensure exchange does not exist yet.
    pub fn ensure_exchange_not_exists(&self, first_asset: Asset, second_asset: Asset) -> (r: Result<
        (),
        Error,
    >)
        ensures
            r == self@.not_exists_check(first_asset, second_asset),
    {
        let first_exchange = self.exchanges(first_asset, second_asset);
        if first_exchange.stored_invariant() == 0 {
            Ok(())
        } else {
            Err(Error::ExchangeAlreadyExists)
        }
    }

    /// Ensure account has sufficient balance to perform exchange or invest
    /// operation.
    pub fn ensure_sufficient_balance(&self, from: &AccountId, asset: Asset, amount: Balance) -> (r:
        Result<(), Error>)
        ensures
            r == self@.sufficient_balance_check(*from, asset, amount),
    {
        match asset {
            Asset::MainNetworkCurrency => {
                match checked_sub(self.free_balance(*from), amount) {
                    Some(_) => Ok(()),
                    None => Err(Error::InsufficientMainNetworkAssetAmount),
                }
            },
            Asset::ParachainAsset(asset_id) => {
                if self.asset_balances(*from, asset_id) >= amount {
                    Ok(())
                } else {
                    Err(Error::InsufficientParachainAssetAmount)
                }
            },
        }
    }

    /// Ensure account has sufficient balances to perform exchange or invest
    /// operation.
    pub fn ensure_sufficient_balances(
        &self,
        sender: &AccountId,
        asset_in: Asset,
        asset_in_amount: Balance,
        asset_out: Asset,
        asset_out_amount: Balance,
    ) -> (r: Result<(), Error>)
        ensures
            r == both(
                self@.sufficient_balance_check(*sender, asset_in, asset_in_amount),
                self@.sufficient_balance_check(*sender, asset_out, asset_out_amount),
            ),
    {
        match self.ensure_sufficient_balance(sender, asset_in, asset_in_amount) {
            Err(e) => Err(e),
            Ok(_) => self.ensure_sufficient_balance(sender, asset_out, asset_out_amount),
        }
    }

    /// Avoid overflow risks after exchange or divest operation performed.
    pub fn ensure_can_hold_balance(&self, who: &AccountId, asset: Asset, amount: Balance) -> (r:
        Result<(), Error>)
        ensures
            r == self@.can_hold_check(*who, asset, amount),
    {
        match checked_add(self.balance(*who, asset), amount) {
            Some(_) => Ok(()),
            None => Err(Error::OverflowOccured),
        }
    }

    /// Avoid overflow risks after exchange or divest operation performed.
    pub fn ensure_can_hold_balances(
        &self,
        who: &AccountId,
        first_asset: Asset,
        first_asset_amount: Balance,
        second_asset: Asset,
        second_asset_amount: Balance,
    ) -> (r: Result<(), Error>)
        ensures
            r == both(
                self@.can_hold_check(*who, first_asset, first_asset_amount),
                self@.can_hold_check(*who, second_asset, second_asset_amount),
            ),
    {
        match self.ensure_can_hold_balance(who, first_asset, first_asset_amount) {
            Err(e) => Err(e),
            Ok(_) => self.ensure_can_hold_balance(who, second_asset, second_asset_amount),
        }
    }
    /// Initialize new exchange pool.
    ///
    /// All checks come first; on failure nothing is changed.
    pub fn initialize_exchange(
        &mut self,
        sender: AccountId,
        first_asset: Asset,
        first_asset_amount: Balance,
        second_asset: Asset,
        second_asset_amount: Balance,
    ) -> (r: Result<Event, Error>)
        ensures
            match old(self)@.initialize_exchange(
                sender,
                first_asset,
                first_asset_amount,
                second_asset,
                second_asset_amount,
            ) {
                Ok((next, event)) => r == Ok::<Event, Error>(event) && final(self)@ == next,
                Err(e) => r == Err::<Event, Error>(e) && *final(self) == *old(self),
            },
            old(self)@.wf() ==> final(self)@.wf(),
    {
        Self::ensure_valid_exchange(first_asset, second_asset)?;
        self.ensure_min_asset_amounts(
            first_asset,
            first_asset_amount,
            second_asset,
            second_asset_amount,
        )?;
        let (first_asset, first_asset_amount, second_asset, second_asset_amount) =
            Self::adjust_assets_amount_order(
            first_asset,
            first_asset_amount,
            second_asset,
            second_asset_amount,
        );
        self.ensure_exchange_not_exists(first_asset, second_asset)?;
        self.exchanges(first_asset, second_asset).ensure_launch()?;
        self.ensure_sufficient_balances(
            &sender,
            first_asset,
            first_asset_amount,
            second_asset,
            second_asset_amount,
        )?;
        let (exchange, initial_shares) = Exchange::initialize_new(
            first_asset_amount,
            second_asset_amount,
            sender,
            self.now,
        )?;

        self.slash_assets(
            &sender,
            first_asset,
            first_asset_amount,
            second_asset,
            second_asset_amount,
        );
        self.store_exchange(first_asset, second_asset, exchange);
        Ok(Event::Initialized(sender, first_asset, second_asset, initial_shares))
    }

    /// Used to invest liquidity into exchange pool.
    ///
    /// All checks come first; on failure nothing is changed.
    pub fn invest_liquidity(
        &mut self,
        sender: AccountId,
        first_asset: Asset,
        second_asset: Asset,
        shares: Balance,
    ) -> (r: Result<Event, Error>)
        ensures
            match old(self)@.invest_liquidity(sender, first_asset, second_asset, shares) {
                Ok((next, event)) => r == Ok::<Event, Error>(event) && final(self)@ == next,
                Err(e) => r == Err::<Event, Error>(e) && *final(self) == *old(self),
            },
            old(self)@.wf() ==> final(self)@.wf(),
    {
        Self::ensure_valid_exchange(first_asset, second_asset)?;
        let (first_asset, second_asset, _) = Self::adjust_assets_order(first_asset, second_asset);
        let mut exchange = self.ensure_exchange_exists(first_asset, second_asset)?;
        let (first_asset_cost, second_asset_cost) = exchange.calculate_costs(shares)?;
        self.ensure_sufficient_balances(
            &sender,
            first_asset,
            first_asset_cost,
            second_asset,
            second_asset_cost,
        )?;
        proof {
            if self@.wf() && exchange@.invested(
                first_asset_cost,
                second_asset_cost,
                shares,
                sender,
            ).is_ok() {
                lemma_invested_sound(exchange@, first_asset_cost, second_asset_cost, shares, sender);
            }
        }
        exchange.invest(first_asset_cost, second_asset_cost, shares, &sender)?;

        self.slash_assets(&sender, first_asset, first_asset_cost, second_asset, second_asset_cost);
        self.store_exchange(first_asset, second_asset, exchange);
        Ok(Event::Invested(sender, first_asset, second_asset, shares))
    }

    /// Used to divest liquidity from exchange pool.
    ///
    /// All checks come first; on failure nothing is changed.
    pub fn divest_liquidity(
        &mut self,
        sender: AccountId,
        first_asset: Asset,
        second_asset: Asset,
        shares_burned: Balance,
        min_first_asset_received: Balance,
        min_second_asset_received: Balance,
    ) -> (r: Result<Event, Error>)
        ensures
            match old(self)@.divest_liquidity(
                sender,
                first_asset,
                second_asset,
                shares_burned,
                min_first_asset_received,
                min_second_asset_received,
            ) {
                Ok((next, event)) => r == Ok::<Event, Error>(event) && final(self)@ == next,
                Err(e) => r == Err::<Event, Error>(e) && *final(self) == *old(self),
            },
            old(self)@.wf() ==> final(self)@.wf(),
    {
        Self::ensure_valid_exchange(first_asset, second_asset)?;
        let (first_asset, second_asset, _) = Self::adjust_assets_order(first_asset, second_asset);
        let mut exchange = self.ensure_exchange_exists(first_asset, second_asset)?;
        exchange.ensure_burned_shares(&sender, shares_burned)?;
        let (first_asset_cost, second_asset_cost) = exchange.calculate_costs(shares_burned)?;
        Self::ensure_divest_expectations(
            first_asset_cost,
            second_asset_cost,
            min_first_asset_received,
            min_second_asset_received,
        )?;
        self.ensure_can_hold_balances(
            &sender,
            first_asset,
            first_asset_cost,
            second_asset,
            second_asset_cost,
        )?;
        proof {
            if self@.wf() {
                lemma_divested_sound(exchange@, shares_burned, sender);
            }
        }
        exchange.divest(first_asset_cost, second_asset_cost, shares_burned, &sender)?;

        self.mint_assets(&sender, first_asset, first_asset_cost, second_asset, second_asset_cost);
        self.store_exchange(first_asset, second_asset, exchange);
        Ok(Event::Divested(sender, first_asset, second_asset, shares_burned))
    }

    /// Perform swap of some asset exact amount to another asset amount.
    ///
    /// The amount paid out goes to the sender; `receiver` is accepted and not
    /// used. All checks come first; on failure nothing is changed.
    pub fn swap_exact_to(
        &mut self,
        sender: AccountId,
        asset_in: Asset,
        asset_in_amount: Balance,
        asset_out: Asset,
        min_asset_out_amount: Balance,
        receiver: AccountId,
    ) -> (r: Result<Event, Error>)
        ensures
            match old(self)@.swap_exact_to(
                sender,
                asset_in,
                asset_in_amount,
                asset_out,
                min_asset_out_amount,
            ) {
                Ok((next, event)) => r == Ok::<Event, Error>(event) && final(self)@ == next,
                Err(e) => r == Err::<Event, Error>(e) && *final(self) == *old(self),
            },
            old(self)@.wf() ==> final(self)@.wf(),
    {
        Self::ensure_valid_exchange(asset_in, asset_out)?;
        let (adjusted_first_asset, adjusted_second_asset, adjusted) = Self::adjust_assets_order(
            asset_in,
            asset_out,
        );
        let mut exchange = self.ensure_exchange_exists(adjusted_first_asset, adjusted_second_asset)?;
        self.ensure_sufficient_balance(&sender, asset_in, asset_in_amount)?;
        let (asset_swap_delta, treasury_fee_data) = if !adjusted {
            let (first_to_second_asset_swap_delta, treasury_fee_data) =
                exchange.calculate_first_to_second_asset_swap(
                &self.config,
                self.dex_treasury,
                asset_in_amount,
            )?;
            exchange.ensure_second_asset_amount(
                first_to_second_asset_swap_delta.amount,
                min_asset_out_amount,
            )?;
            (first_to_second_asset_swap_delta, treasury_fee_data)
        } else {
            let (second_to_first_asset_swap_delta, treasury_fee_data) =
                exchange.calculate_second_to_first_asset_swap(
                &self.config,
                self.dex_treasury,
                asset_in_amount,
            )?;
            exchange.ensure_first_asset_amount(
                second_to_first_asset_swap_delta.amount,
                min_asset_out_amount,
            )?;
            (second_to_first_asset_swap_delta, treasury_fee_data)
        };
        self.ensure_can_hold_balance(&sender, asset_out, asset_swap_delta.amount)?;
        match treasury_fee_data {
            Some((treasury_fee, dex_account_id)) => {
                self.ensure_can_hold_balance(&dex_account_id, asset_in, treasury_fee)?;
            },
            None => {},
        }
        proof {
            if self@.wf() {
                if exchange@.pools_updated(
                    asset_swap_delta.first_asset_pool,
                    asset_swap_delta.second_asset_pool,
                    self.now,
                ).is_some() {
                    lemma_pools_updated_sound(
                        exchange@,
                        asset_swap_delta.first_asset_pool,
                        asset_swap_delta.second_asset_pool,
                        self.now,
                    );
                }
            }
        }
        exchange.update_pools(
            asset_swap_delta.first_asset_pool,
            asset_swap_delta.second_asset_pool,
            self.now,
        )?;

        self.slash_asset(&sender, asset_in, asset_in_amount);
        self.mint_asset(&sender, asset_out, asset_swap_delta.amount);
        let treasury_fee = match treasury_fee_data {
            Some((treasury_fee, dex_account_id)) => {
                self.mint_asset(&dex_account_id, asset_in, treasury_fee);
                Some(treasury_fee)
            },
            None => None,
        };
        self.store_exchange(adjusted_first_asset, adjusted_second_asset, exchange);
        Ok(
            Event::Exchanged(
                sender,
                asset_in,
                asset_in_amount,
                asset_out,
                asset_swap_delta.amount,
                treasury_fee,
            ),
        )
    }
}

} // verus!
