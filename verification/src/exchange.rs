//! One exchange pool: reserves of two assets, the shares of its liquidity
//! providers, and the cumulative prices.
//!
//! Every method that can fail computes its whole result first and writes
//! nothing unless all of it succeeded.

use std::collections::BTreeMap;
use vstd::prelude::*;
use vstd::std_specs::iter::IteratorSpec;
use crate::checked::{checked_add, checked_div, checked_mul, checked_sub, checked_sub_moment};
use crate::error::Error;
use crate::math::{isqrt, sqrt};
use crate::shares::{
    balance_of, distinct_accounts, entries_sum, ledger_of, lemma_entries_sum_grows,
    lemma_ledger_accounts, lemma_ledger_lookup, lemma_ledger_sum, lemma_sum_empty,
    lemma_sum_insert, sum,
};
use crate::types::{AccountId, Balance, Config, DexTreasury, Moment};

verus! {

/// Structure, representing exchange pool.
#[derive(PartialEq, Eq, Debug)]
pub struct Exchange {
    first_asset_pool: Balance,
    second_asset_pool: Balance,
    pub invariant: Balance,
    /// Total pool shares.
    pub total_shares: Balance,
    /// Timestamp of the last pool update, from which elapsed time is counted.
    pub last_timestamp: Moment,
    /// Sum of `first_asset_pool / second_asset_pool * time_elapsed`.
    pub price1_cumulative_last: Balance,
    /// Sum of `second_asset_pool / first_asset_pool * time_elapsed`.
    pub price2_cumulative_last: Balance,
    /// Individual shares.
    shares: BTreeMap<AccountId, Balance>,
}

/// What a pool holds, as mathematical values.
pub struct ExchangeView {
    pub first_asset_pool: Balance,
    pub second_asset_pool: Balance,
    pub invariant: Balance,
    pub total_shares: Balance,
    pub last_timestamp: Moment,
    pub price1_cumulative_last: Balance,
    pub price2_cumulative_last: Balance,
    pub shares: Map<AccountId, Balance>,
}

/// New reserves of a pool after a swap, and the amount that leaves it.
#[derive(Clone, Copy, PartialEq, Eq, Debug, Structural)]
pub struct SwapDelta {
    pub first_asset_pool: Balance,
    pub second_asset_pool: Balance,
    /// Either first or second asset amount (depends on swap direction).
    pub amount: Balance,
}

impl SwapDelta {
    pub fn new(first_asset_pool: Balance, second_asset_pool: Balance, amount: Balance) -> (r: Self)
        ensures
            r == (SwapDelta { first_asset_pool, second_asset_pool, amount }),
    {
        SwapDelta { first_asset_pool, second_asset_pool, amount }
    }
}

/// `floor(nominator * amount / denominator)`; `None` where the product
/// leaves the range of a balance or the denominator is zero.
pub open spec fn fraction(nominator: Balance, amount: Balance, denominator: Balance) -> Option<
    Balance,
> {
    if nominator * amount > Balance::MAX || denominator == 0 {
        None
    } else {
        Some(((nominator * amount) / (denominator as int)) as Balance)
    }
}

/// The fee that a swap of `amount` leaves in the pool, and the treasury's cut
/// with the account it goes to, if a treasury is set.
///
/// The joint fee is `fraction` of the amount at the configured rate. With a
/// treasury, its cut is `fraction` of the joint fee at the treasury's rate and
/// the pool keeps the rest; without one the pool keeps it all.
pub open spec fn swap_fees(config: Config, treasury: Option<DexTreasury>, amount: Balance) -> Result<
    (Balance, Option<(Balance, AccountId)>),
    Error,
> {
    match fraction(config.fee_rate_nominator, amount, config.fee_rate_denominator) {
        None => Err(Error::UnderflowOrOverflowOccured),
        Some(fee) => match treasury {
            None => Ok((fee, None)),
            Some(t) => match fraction(
                t.treasury_fee_rate_nominator,
                fee,
                t.treasury_fee_rate_denominator,
            ) {
                None => Err(Error::UnderflowOrOverflowOccured),
                Some(treasury_fee) => if treasury_fee > fee {
                    Err(Error::UnderflowOccured)
                } else {
                    Ok(((fee - treasury_fee) as Balance, Some((treasury_fee, t.dex_account))))
                },
            },
        },
    }
}

/// Outcome of paying `amount` into the reserve `pool_in` of a pool with the
/// given recorded product of reserves: the new reserve of the asset paid in,
/// the new reserve of the other asset, and the amount of it that leaves.
///
/// The asset paid in grows by the amount. The other reserve becomes the
/// recorded product divided, rounding down, by the reserve paid into less the
/// fee that the pool keeps.
pub open spec fn swap_outcome(
    recorded_product: Balance,
    pool_in: Balance,
    pool_out: Balance,
    exchange_fee: Balance,
    amount: Balance,
) -> Result<(Balance, Balance, Balance), Error> {
    let new_pool_in = pool_in + amount;
    let priced_pool_in = new_pool_in - exchange_fee;
    if new_pool_in > Balance::MAX {
        Err(Error::OverflowOccured)
    } else if priced_pool_in < 0 {
        Err(Error::UnderflowOccured)
    } else if priced_pool_in == 0 {
        Err(Error::UnderflowOrOverflowOccured)
    } else if (recorded_product as int) / priced_pool_in > pool_out {
        Err(Error::UnderflowOccured)
    } else {
        Ok(
            (
                new_pool_in as Balance,
                ((recorded_product as int) / priced_pool_in) as Balance,
                (pool_out - (recorded_product as int) / priced_pool_in) as Balance,
            ),
        )
    }
}

/// Whether an amount paid out meets the caller's minimum and the reserve it
/// is taken from holds it. An amount below the minimum is reported as
/// `SecondAssetAmountBelowExpectation` whichever asset is paid out.
pub open spec fn payout_check(amount: Balance, min_amount: Balance, pool: Balance) -> Result<
    (),
    Error,
> {
    if amount < min_amount {
        Err(Error::SecondAssetAmountBelowExpectation)
    } else if amount > pool {
        Err(Error::InsufficientPool)
    } else {
        Ok(())
    }
}

impl ExchangeView {
    /// The share ledger is finite and sums to `total_shares`, and the
    /// invariant is the product of the reserves, or zero in a pool without
    /// shares.
    pub open spec fn wf(self) -> bool {
        &&& self.shares.dom().finite()
        &&& sum(self.shares) == self.total_shares
        &&& (self.invariant == self.first_asset_pool * self.second_asset_pool || (self.total_shares
            == 0 && self.invariant == 0))
    }

    /// Well-formed, the invariant is exactly the product of the reserves, and
    /// the pool has shares exactly when its invariant is positive.
    pub open spec fn sound(self) -> bool {
        &&& self.wf()
        &&& self.invariant == self.first_asset_pool * self.second_asset_pool
        &&& (self.total_shares == 0 <==> self.invariant == 0)
    }

    /// A pool that was never launched, as seen at `now`.
    pub open spec fn empty(now: Moment) -> ExchangeView {
        ExchangeView {
            first_asset_pool: 0,
            second_asset_pool: 0,
            invariant: 0,
            total_shares: 0,
            last_timestamp: now,
            price1_cumulative_last: 0,
            price2_cumulative_last: 0,
            shares: Map::empty(),
        }
    }

    /// The pool that `sender` launches at `now` with the two amounts: the
    /// initial shares are the integer square root of their product and all
    /// belong to `sender`.
    pub open spec fn initialized(
        first_asset_amount: Balance,
        second_asset_amount: Balance,
        sender: AccountId,
        now: Moment,
    ) -> ExchangeView {
        let product = first_asset_amount * second_asset_amount;
        ExchangeView {
            first_asset_pool: first_asset_amount,
            second_asset_pool: second_asset_amount,
            invariant: product as Balance,
            total_shares: isqrt(product) as Balance,
            last_timestamp: now,
            price1_cumulative_last: 0,
            price2_cumulative_last: 0,
            shares: Map::empty().insert(sender, isqrt(product) as Balance),
        }
    }

    /// Amounts of both assets that `shares` shares are worth:
    /// `floor(reserve * shares / total_shares)` for each reserve. `None` in a
    /// pool without shares, and where a product leaves the range of a balance.
    pub open spec fn costs(self, shares: Balance) -> Option<(Balance, Balance)> {
        if self.total_shares == 0 || self.first_asset_pool * shares > Balance::MAX
            || self.second_asset_pool * shares > Balance::MAX {
            None
        } else {
            Some(
                (
                    ((self.first_asset_pool * shares) / (self.total_shares as int)) as Balance,
                    ((self.second_asset_pool * shares) / (self.total_shares as int)) as Balance,
                ),
            )
        }
    }
    /// New reserves and amount of the second asset paid out, when `amount` of
    /// the first asset is paid in and the pool keeps `exchange_fee` of it.
    pub open spec fn first_to_second(self, exchange_fee: Balance, amount: Balance) -> Result<
        SwapDelta,
        Error,
    > {
        match swap_outcome(
            self.invariant,
            self.first_asset_pool,
            self.second_asset_pool,
            exchange_fee,
            amount,
        ) {
            Ok((pool_in, pool_out, paid_out)) => Ok(
                SwapDelta { first_asset_pool: pool_in, second_asset_pool: pool_out, amount: paid_out },
            ),
            Err(e) => Err(e),
        }
    }

    /// New reserves and amount of the first asset paid out, when `amount` of
    /// the second asset is paid in and the pool keeps `exchange_fee` of it.
    pub open spec fn second_to_first(self, exchange_fee: Balance, amount: Balance) -> Result<
        SwapDelta,
        Error,
    > {
        match swap_outcome(
            self.invariant,
            self.second_asset_pool,
            self.first_asset_pool,
            exchange_fee,
            amount,
        ) {
            Ok((pool_in, pool_out, paid_out)) => Ok(
                SwapDelta { first_asset_pool: pool_out, second_asset_pool: pool_in, amount: paid_out },
            ),
            Err(e) => Err(e),
        }
    }

    /// A swap of `amount` of the first asset at the configured fee: the
    /// outcome for the pool, and the treasury's cut with its account.
    pub open spec fn first_to_second_swap(
        self,
        config: Config,
        treasury: Option<DexTreasury>,
        amount: Balance,
    ) -> Result<(SwapDelta, Option<(Balance, AccountId)>), Error> {
        match swap_fees(config, treasury, amount) {
            Err(e) => Err(e),
            Ok((exchange_fee, treasury_cut)) => match self.first_to_second(exchange_fee, amount) {
                Err(e) => Err(e),
                Ok(delta) => Ok((delta, treasury_cut)),
            },
        }
    }

    /// A swap of `amount` of the second asset at the configured fee: the
    /// outcome for the pool, and the treasury's cut with its account.
    pub open spec fn second_to_first_swap(
        self,
        config: Config,
        treasury: Option<DexTreasury>,
        amount: Balance,
    ) -> Result<(SwapDelta, Option<(Balance, AccountId)>), Error> {
        match swap_fees(config, treasury, amount) {
            Err(e) => Err(e),
            Ok((exchange_fee, treasury_cut)) => match self.second_to_first(exchange_fee, amount) {
                Err(e) => Err(e),
                Ok(delta) => Ok((delta, treasury_cut)),
            },
        }
    }
    /// The pool after `sender` pays in both amounts for `shares` new shares.
    ///
    /// Fails with `OverflowOccured` where the sender's shares, the total of
    /// shares or a reserve would leave the range of a balance, and with
    /// `UnderflowOrOverflowOccured` where the product of the new reserves
    /// would.
    pub open spec fn invested(
        self,
        first_asset_amount: Balance,
        second_asset_amount: Balance,
        shares: Balance,
        sender: AccountId,
    ) -> Result<ExchangeView, Error> {
        let first = self.first_asset_pool + first_asset_amount;
        let second = self.second_asset_pool + second_asset_amount;
        if balance_of(self.shares, sender) + shares > Balance::MAX || self.total_shares + shares
            > Balance::MAX || first > Balance::MAX || second > Balance::MAX {
            Err(Error::OverflowOccured)
        } else if first * second > Balance::MAX {
            Err(Error::UnderflowOrOverflowOccured)
        } else {
            Ok(
                ExchangeView {
                    first_asset_pool: first as Balance,
                    second_asset_pool: second as Balance,
                    invariant: (first * second) as Balance,
                    total_shares: (self.total_shares + shares) as Balance,
                    shares: self.shares.insert(
                        sender,
                        (balance_of(self.shares, sender) + shares) as Balance,
                    ),
                    ..self
                },
            )
        }
    }

    /// The pool after `sender` gives back `shares` shares and takes out both
    /// amounts. A pool left without shares has its invariant set to zero.
    ///
    /// Fails with `DoesNotOwnShare` for a sender without an entry, with
    /// `InsufficientShares` for one who holds fewer shares, with
    /// `UnderflowOccured` where the total of shares or a reserve would go
    /// below zero, and with `UnderflowOrOverflowOccured` where the product of
    /// the new reserves would leave the range of a balance.
    pub open spec fn divested(
        self,
        first_asset_amount: Balance,
        second_asset_amount: Balance,
        shares: Balance,
        sender: AccountId,
    ) -> Result<ExchangeView, Error> {
        let first = self.first_asset_pool - first_asset_amount;
        let second = self.second_asset_pool - second_asset_amount;
        let total = self.total_shares - shares;
        if !self.shares.contains_key(sender) {
            Err(Error::DoesNotOwnShare)
        } else if self.shares[sender] < shares {
            Err(Error::InsufficientShares)
        } else if total < 0 || first < 0 || second < 0 {
            Err(Error::UnderflowOccured)
        } else if total != 0 && first * second > Balance::MAX {
            Err(Error::UnderflowOrOverflowOccured)
        } else {
            Ok(
                ExchangeView {
                    first_asset_pool: first as Balance,
                    second_asset_pool: second as Balance,
                    invariant: if total == 0 {
                        0
                    } else {
                        (first * second) as Balance
                    },
                    total_shares: total as Balance,
                    shares: self.shares.insert(sender, (self.shares[sender] - shares) as Balance),
                    ..self
                },
            )
        }
    }

    /// The pool after its reserves are set to the two amounts at `now`.
    ///
    /// Each cumulative price grows by the ratio of the new reserves, rounded
    /// down, times the time since the last update. `None` where the clock
    /// went back, a new reserve is zero, or a cumulative price or the product
    /// of the reserves would leave the range of a balance.
    pub open spec fn pools_updated(
        self,
        first_asset_pool: Balance,
        second_asset_pool: Balance,
        now: Moment,
    ) -> Option<ExchangeView> {
        if now < self.last_timestamp || first_asset_pool == 0 || second_asset_pool == 0 {
            None
        } else {
            let time_elapsed = now - self.last_timestamp;
            let price1 = (first_asset_pool / second_asset_pool) * time_elapsed;
            let price2 = (second_asset_pool / first_asset_pool) * time_elapsed;
            if self.price1_cumulative_last + price1 > Balance::MAX || self.price2_cumulative_last
                + price2 > Balance::MAX || first_asset_pool * second_asset_pool > Balance::MAX {
                None
            } else {
                Some(
                    ExchangeView {
                        first_asset_pool,
                        second_asset_pool,
                        invariant: (first_asset_pool * second_asset_pool) as Balance,
                        last_timestamp: now,
                        price1_cumulative_last: (self.price1_cumulative_last + price1) as Balance,
                        price2_cumulative_last: (self.price2_cumulative_last + price2) as Balance,
                        ..self
                    },
                )
            }
        }
    }

    /// Whether a new pool may take this one's place: the invariant and the
    /// total of shares must both be zero.
    pub open spec fn launch_check(self) -> Result<(), Error> {
        if self.invariant != 0 {
            Err(Error::InvariantNotNull)
        } else if self.total_shares != 0 {
            Err(Error::TotalSharesNotNull)
        } else {
            Ok(())
        }
    }

    /// Whether `sender` can give back `shares_burned` shares: the amount must
    /// be positive and the sender must hold at least as many.
    pub open spec fn burn_check(self, sender: AccountId, shares_burned: Balance) -> Result<
        (),
        Error,
    > {
        if shares_burned == 0 {
            Err(Error::InvalidShares)
        } else if !self.shares.contains_key(sender) {
            Err(Error::DoesNotOwnShare)
        } else if self.shares[sender] < shares_burned {
            Err(Error::InsufficientShares)
        } else {
            Ok(())
        }
    }
    /// The pool that the given parts describe, if they describe one: no
    /// account may have two entries, and the pool must be well-formed.
    pub open spec fn from_parts(
        first_asset_pool: Balance,
        second_asset_pool: Balance,
        recorded_product: Balance,
        total_shares: Balance,
        last_timestamp: Moment,
        price1_cumulative_last: Balance,
        price2_cumulative_last: Balance,
        entries: Seq<(AccountId, Balance)>,
    ) -> Option<ExchangeView> {
        let pool = ExchangeView {
            first_asset_pool,
            second_asset_pool,
            invariant: recorded_product,
            total_shares,
            last_timestamp,
            price1_cumulative_last,
            price2_cumulative_last,
            shares: ledger_of(entries),
        };
        if distinct_accounts(entries) && pool.wf() {
            Some(pool)
        } else {
            None
        }
    }
}

impl View for Exchange {
    type V = ExchangeView;

    closed spec fn view(&self) -> ExchangeView {
        ExchangeView {
            first_asset_pool: self.first_asset_pool,
            second_asset_pool: self.second_asset_pool,
            invariant: self.invariant,
            total_shares: self.total_shares,
            last_timestamp: self.last_timestamp,
            price1_cumulative_last: self.price1_cumulative_last,
            price2_cumulative_last: self.price2_cumulative_last,
            shares: self.shares@,
        }
    }
}

/// `floor(nominator * amount / denominator)`, or `None` where the product
/// leaves the range of a balance or the denominator is zero.
pub fn calculate_fraction(nominator: Balance, amount: Balance, denominator: Balance) -> (r: Option<
    Balance,
>)
    ensures
        r == fraction(nominator, amount, denominator),
{
    match checked_mul(nominator, amount) {
        Some(product) => checked_div(product, denominator),
        None => None,
    }
}

/// Splits the fee of a swap of `amount` between the pool and the treasury.
///
/// Returns the fee that stays in the pool and, where a treasury is set, its
/// cut together with its account.
pub fn calculate_swap_fees(config: &Config, treasury: Option<DexTreasury>, amount: Balance) -> (r:
    Result<(Balance, Option<(Balance, AccountId)>), Error>)
    ensures
        r == swap_fees(*config, treasury, amount),
{
    let fee: Balance = match calculate_fraction(
        config.fee_rate_nominator,
        amount,
        config.fee_rate_denominator,
    ) {
        Some(fee) => fee,
        None => {
            return Err(Error::UnderflowOrOverflowOccured);
        },
    };
    match treasury {
        Some(dex_treasury) => {
            let treasury_fee: Balance = match calculate_fraction(
                dex_treasury.treasury_fee_rate_nominator,
                fee,
                dex_treasury.treasury_fee_rate_denominator,
            ) {
                Some(treasury_fee) => treasury_fee,
                None => {
                    return Err(Error::UnderflowOrOverflowOccured);
                },
            };
            match checked_sub(fee, treasury_fee) {
                Some(exchange_fee) => Ok(
                    (exchange_fee, Some((treasury_fee, dex_treasury.dex_account))),
                ),
                None => Err(Error::UnderflowOccured),
            }
        },
        None => Ok((fee, None)),
    }
}

/// Pays `amount` into the reserve `pool_in` of a pool and prices what leaves
/// the other reserve; see [`swap_outcome`].
fn calculate_swap_outcome(
    recorded_product: Balance,
    pool_in: Balance,
    pool_out: Balance,
    exchange_fee: Balance,
    amount: Balance,
) -> (r: Result<(Balance, Balance, Balance), Error>)
    ensures
        r == swap_outcome(recorded_product, pool_in, pool_out, exchange_fee, amount),
{
    let new_pool_in: Balance = match checked_add(pool_in, amount) {
        Some(v) => v,
        None => {
            return Err(Error::OverflowOccured);
        },
    };
    let priced_pool_in: Balance = match checked_sub(new_pool_in, exchange_fee) {
        Some(v) => v,
        None => {
            return Err(Error::UnderflowOccured);
        },
    };
    let new_pool_out: Balance = match checked_div(recorded_product, priced_pool_in) {
        Some(v) => v,
        None => {
            return Err(Error::UnderflowOrOverflowOccured);
        },
    };
    let paid_out: Balance = match checked_sub(pool_out, new_pool_out) {
        Some(v) => v,
        None => {
            return Err(Error::UnderflowOccured);
        },
    };
    Ok((new_pool_in, new_pool_out, paid_out))
}

impl Clone for Exchange {
    fn clone(&self) -> (r: Self)
        ensures
            r@ == self@,
    {
        Exchange {
            first_asset_pool: self.first_asset_pool,
            second_asset_pool: self.second_asset_pool,
            invariant: self.invariant,
            total_shares: self.total_shares,
            last_timestamp: self.last_timestamp,
            price1_cumulative_last: self.price1_cumulative_last,
            price2_cumulative_last: self.price2_cumulative_last,
            shares: self.shares.clone(),
        }
    }
}

impl Exchange {
    /// A pool that was never launched, as seen at `now`.
    pub fn empty(now: Moment) -> (r: Self)
        ensures
            r@ == ExchangeView::empty(now),
            r@.sound(),
    {
        proof {
            lemma_sum_empty();
        }
        Exchange {
            first_asset_pool: 0,
            second_asset_pool: 0,
            invariant: 0,
            total_shares: 0,
            last_timestamp: now,
            price1_cumulative_last: 0,
            price2_cumulative_last: 0,
            shares: BTreeMap::new(),
        }
    }

    /// Reserve of the first asset.
    pub fn first_asset_pool(&self) -> (r: Balance)
        ensures
            r == self@.first_asset_pool,
    {
        self.first_asset_pool
    }

    /// Reserve of the second asset.
    pub fn second_asset_pool(&self) -> (r: Balance)
        ensures
            r == self@.second_asset_pool,
    {
        self.second_asset_pool
    }

    /// Product of the reserves as it was last recorded; zero in a pool that
    /// is not launched.
    pub fn stored_invariant(&self) -> (r: Balance)
        ensures
            r == self@.invariant,
    {
        self.invariant
    }

    /// Sum of all outstanding shares.
    pub fn total_shares(&self) -> (r: Balance)
        ensures
            r == self@.total_shares,
    {
        self.total_shares
    }

    /// Timestamp of the last update of the reserves by a swap.
    pub fn last_timestamp(&self) -> (r: Moment)
        ensures
            r == self@.last_timestamp,
    {
        self.last_timestamp
    }

    /// Cumulative price of the first asset in units of the second.
    pub fn price1_cumulative_last(&self) -> (r: Balance)
        ensures
            r == self@.price1_cumulative_last,
    {
        self.price1_cumulative_last
    }

    /// Cumulative price of the second asset in units of the first.
    pub fn price2_cumulative_last(&self) -> (r: Balance)
        ensures
            r == self@.price2_cumulative_last,
    {
        self.price2_cumulative_last
    }

    /// Shares that `who` holds, `None` for an account without an entry.
    pub fn shares_of(&self, who: AccountId) -> (r: Option<Balance>)
        ensures
            r == (if self@.shares.contains_key(who) {
                Some(self@.shares[who])
            } else {
                None
            }),
    {
        match self.shares.get(&who) {
            Some(held) => Some(*held),
            None => None,
        }
    }

    /// Launches a pool at `now` with the two amounts, all initial shares
    /// going to `sender`. Fails exactly when the product of the amounts
    /// leaves the range of a balance.
    pub fn initialize_new(
        first_asset_amount: Balance,
        second_asset_amount: Balance,
        sender: AccountId,
        now: Moment,
    ) -> (r: Result<(Self, Balance), Error>)
        ensures
            match r {
                Ok((exchange, initial_shares)) => {
                    &&& first_asset_amount * second_asset_amount <= Balance::MAX
                    &&& exchange@ == ExchangeView::initialized(
                        first_asset_amount,
                        second_asset_amount,
                        sender,
                        now,
                    )
                    &&& initial_shares == isqrt(first_asset_amount * second_asset_amount)
                    &&& exchange@.sound()
                },
                Err(e) => {
                    &&& first_asset_amount * second_asset_amount > Balance::MAX
                    &&& e == Error::UnderflowOrOverflowOccured
                },
            },
    {
        let reserves_product: Balance = match checked_mul(first_asset_amount, second_asset_amount) {
            Some(product) => product,
            None => {
                return Err(Error::UnderflowOrOverflowOccured);
            },
        };
        let initial_shares: Balance = sqrt(reserves_product);
        let mut shares_map: BTreeMap<AccountId, Balance> = BTreeMap::new();
        shares_map.insert(sender, initial_shares);
        let exchange = Exchange {
            first_asset_pool: first_asset_amount,
            second_asset_pool: second_asset_amount,
            invariant: reserves_product,
            total_shares: initial_shares,
            last_timestamp: now,
            price1_cumulative_last: 0,
            price2_cumulative_last: 0,
            shares: shares_map,
        };
        proof {
            lemma_sum_empty();
            lemma_sum_insert(Map::empty(), sender, initial_shares);
            if initial_shares == 0 {
                assert(reserves_product < 1 * 1);
            } else {
                assert(initial_shares as int * initial_shares as int > 0) by (nonlinear_arith)
                    requires
                        initial_shares > 0,
                ;
            }
        }
        Ok((exchange, initial_shares))
    }

    /// Amounts of both assets that `shares` shares are worth at the pool's
    /// present reserves. Fails exactly in a pool without shares and where a
    /// product leaves the range of a balance.
    pub fn calculate_costs(&self, shares: Balance) -> (r: Result<(Balance, Balance), Error>)
        ensures
            match r {
                Ok(costs) => self@.costs(shares) == Some(costs),
                Err(e) => self@.costs(shares).is_none() && e == Error::UnderflowOrOverflowOccured,
            },
    {
        if self.total_shares == 0 {
            return Err(Error::UnderflowOrOverflowOccured);
        }
        let first_asset_cost: Balance = match checked_mul(self.first_asset_pool, shares) {
            Some(product) => product / self.total_shares,
            None => {
                return Err(Error::UnderflowOrOverflowOccured);
            },
        };
        let second_asset_cost: Balance = match checked_mul(self.second_asset_pool, shares) {
            Some(product) => product / self.total_shares,
            None => {
                return Err(Error::UnderflowOrOverflowOccured);
            },
        };
        Ok((first_asset_cost, second_asset_cost))
    }
    /// New reserves and amount of the second asset paid out, when
    /// `first_asset_amount` is paid in and the pool keeps `exchange_fee`.
    pub fn perform_first_to_second_asset_swap_calculation(
        &self,
        exchange_fee: Balance,
        first_asset_amount: Balance,
    ) -> (r: Result<SwapDelta, Error>)
        ensures
            r == self@.first_to_second(exchange_fee, first_asset_amount),
    {
        match calculate_swap_outcome(
            self.invariant,
            self.first_asset_pool,
            self.second_asset_pool,
            exchange_fee,
            first_asset_amount,
        ) {
            Ok((new_first_asset_pool, new_second_asset_pool, second_asset_amount)) => Ok(
                SwapDelta::new(new_first_asset_pool, new_second_asset_pool, second_asset_amount),
            ),
            Err(e) => Err(e),
        }
    }

    /// Quotes a swap of `first_asset_amount` of the first asset for the
    /// second. The pool is not changed.
    pub fn calculate_first_to_second_asset_swap(
        &self,
        config: &Config,
        treasury: Option<DexTreasury>,
        first_asset_amount: Balance,
    ) -> (r: Result<(SwapDelta, Option<(Balance, AccountId)>), Error>)
        ensures
            r == self@.first_to_second_swap(*config, treasury, first_asset_amount),
    {
        match calculate_swap_fees(config, treasury, first_asset_amount) {
            Ok((exchange_fee, treasury_cut)) => {
                match self.perform_first_to_second_asset_swap_calculation(
                    exchange_fee,
                    first_asset_amount,
                ) {
                    Ok(swap_delta) => Ok((swap_delta, treasury_cut)),
                    Err(e) => Err(e),
                }
            },
            Err(e) => Err(e),
        }
    }

    /// New reserves and amount of the first asset paid out, when
    /// `second_asset_amount` is paid in and the pool keeps `exchange_fee`.
    pub fn perform_second_to_first_asset_swap_calculation(
        &self,
        exchange_fee: Balance,
        second_asset_amount: Balance,
    ) -> (r: Result<SwapDelta, Error>)
        ensures
            r == self@.second_to_first(exchange_fee, second_asset_amount),
    {
        match calculate_swap_outcome(
            self.invariant,
            self.second_asset_pool,
            self.first_asset_pool,
            exchange_fee,
            second_asset_amount,
        ) {
            Ok((new_second_asset_pool, new_first_asset_pool, first_asset_amount)) => Ok(
                SwapDelta::new(new_first_asset_pool, new_second_asset_pool, first_asset_amount),
            ),
            Err(e) => Err(e),
        }
    }

    /// Quotes a swap of `second_asset_amount` of the second asset for the
    /// first. The pool is not changed.
    pub fn calculate_second_to_first_asset_swap(
        &self,
        config: &Config,
        treasury: Option<DexTreasury>,
        second_asset_amount: Balance,
    ) -> (r: Result<(SwapDelta, Option<(Balance, AccountId)>), Error>)
        ensures
            r == self@.second_to_first_swap(*config, treasury, second_asset_amount),
    {
        match calculate_swap_fees(config, treasury, second_asset_amount) {
            Ok((exchange_fee, treasury_cut)) => {
                match self.perform_second_to_first_asset_swap_calculation(
                    exchange_fee,
                    second_asset_amount,
                ) {
                    Ok(swap_delta) => Ok((swap_delta, treasury_cut)),
                    Err(e) => Err(e),
                }
            },
            Err(e) => Err(e),
        }
    }
    /// Pays both amounts into the pool and credits `shares` new shares to
    /// `sender`. On failure the pool is left as it was.
    ///
    /// The cumulative prices and the timestamp are not touched: they move
    /// only with [`Exchange::update_pools`].
    pub fn invest(
        &mut self,
        first_asset_amount: Balance,
        second_asset_amount: Balance,
        shares: Balance,
        sender: &AccountId,
    ) -> (r: Result<(), Error>)
        ensures
            match old(self)@.invested(first_asset_amount, second_asset_amount, shares, *sender) {
                Ok(next) => r.is_ok() && final(self)@ == next,
                Err(e) => r == Err::<(), Error>(e) && *final(self) == *old(self),
            },
            old(self)@.wf() ==> final(self)@.wf(),
    {
        let held: Balance = match self.shares.get(sender) {
            Some(prev_shares) => *prev_shares,
            None => 0,
        };
        let updated_shares: Balance = match checked_add(held, shares) {
            Some(v) => v,
            None => {
                return Err(Error::OverflowOccured);
            },
        };
        let total_shares: Balance = match checked_add(self.total_shares, shares) {
            Some(v) => v,
            None => {
                return Err(Error::OverflowOccured);
            },
        };
        let first_asset_pool: Balance = match checked_add(
            self.first_asset_pool,
            first_asset_amount,
        ) {
            Some(v) => v,
            None => {
                return Err(Error::OverflowOccured);
            },
        };
        let second_asset_pool: Balance = match checked_add(
            self.second_asset_pool,
            second_asset_amount,
        ) {
            Some(v) => v,
            None => {
                return Err(Error::OverflowOccured);
            },
        };
        let reserves_product: Balance = match checked_mul(first_asset_pool, second_asset_pool) {
            Some(v) => v,
            None => {
                return Err(Error::UnderflowOrOverflowOccured);
            },
        };
        proof {
            lemma_sum_insert(self.shares@, *sender, updated_shares);
        }
        self.shares.insert(*sender, updated_shares);
        self.total_shares = total_shares;
        self.first_asset_pool = first_asset_pool;
        self.second_asset_pool = second_asset_pool;
        self.invariant = reserves_product;
        Ok(())
    }

    /// Takes both amounts out of the pool and removes `shares` shares from
    /// `sender`. On failure the pool is left as it was.
    ///
    /// The cumulative prices and the timestamp are not touched: they move
    /// only with [`Exchange::update_pools`].
    pub fn divest(
        &mut self,
        first_asset_amount: Balance,
        second_asset_amount: Balance,
        shares: Balance,
        sender: &AccountId,
    ) -> (r: Result<(), Error>)
        ensures
            match old(self)@.divested(first_asset_amount, second_asset_amount, shares, *sender) {
                Ok(next) => r.is_ok() && final(self)@ == next,
                Err(e) => r == Err::<(), Error>(e) && *final(self) == *old(self),
            },
            old(self)@.wf() ==> final(self)@.wf(),
    {
        let held: Balance = match self.shares.get(sender) {
            Some(share) => *share,
            None => {
                return Err(Error::DoesNotOwnShare);
            },
        };
        let updated_shares: Balance = match checked_sub(held, shares) {
            Some(v) => v,
            None => {
                return Err(Error::InsufficientShares);
            },
        };
        let total_shares: Balance = match checked_sub(self.total_shares, shares) {
            Some(v) => v,
            None => {
                return Err(Error::UnderflowOccured);
            },
        };
        let first_asset_pool: Balance = match checked_sub(
            self.first_asset_pool,
            first_asset_amount,
        ) {
            Some(v) => v,
            None => {
                return Err(Error::UnderflowOccured);
            },
        };
        let second_asset_pool: Balance = match checked_sub(
            self.second_asset_pool,
            second_asset_amount,
        ) {
            Some(v) => v,
            None => {
                return Err(Error::UnderflowOccured);
            },
        };
        let reserves_product: Balance = if total_shares == 0 {
            0
        } else {
            match checked_mul(first_asset_pool, second_asset_pool) {
                Some(v) => v,
                None => {
                    return Err(Error::UnderflowOrOverflowOccured);
                },
            }
        };
        proof {
            lemma_sum_insert(self.shares@, *sender, updated_shares);
        }
        self.shares.insert(*sender, updated_shares);
        self.total_shares = total_shares;
        self.first_asset_pool = first_asset_pool;
        self.second_asset_pool = second_asset_pool;
        self.invariant = reserves_product;
        Ok(())
    }

    /// Sets the reserves to the two amounts at `now`, after adding to each
    /// cumulative price the ratio of the new reserves times the time since
    /// the last update. On failure the pool is left as it was.
    pub fn update_pools(
        &mut self,
        first_asset_pool: Balance,
        second_asset_pool: Balance,
        now: Moment,
    ) -> (r: Result<(), Error>)
        ensures
            match old(self)@.pools_updated(first_asset_pool, second_asset_pool, now) {
                Some(next) => {
                    &&& r.is_ok()
                    &&& final(self)@ == next
                    &&& final(self)@.price1_cumulative_last >= old(self)@.price1_cumulative_last
                    &&& final(self)@.price2_cumulative_last >= old(self)@.price2_cumulative_last
                    &&& final(self)@.invariant == first_asset_pool * second_asset_pool
                },
                None => r == Err::<(), Error>(Error::UnderflowOrOverflowOccured) && *final(self)
                    == *old(self),
            },
            old(self)@.wf() ==> final(self)@.wf(),
    {
        let time_elapsed: Moment = match checked_sub_moment(now, self.last_timestamp) {
            Some(v) => v,
            None => {
                return Err(Error::UnderflowOrOverflowOccured);
            },
        };
        let elapsed: Balance = time_elapsed as Balance;
        let ratio1: Balance = match checked_div(first_asset_pool, second_asset_pool) {
            Some(v) => v,
            None => {
                return Err(Error::UnderflowOrOverflowOccured);
            },
        };
        let ratio2: Balance = match checked_div(second_asset_pool, first_asset_pool) {
            Some(v) => v,
            None => {
                return Err(Error::UnderflowOrOverflowOccured);
            },
        };
        proof {
            assert(ratio1 as int * elapsed as int >= 0) by (nonlinear_arith)
                requires
                    ratio1 >= 0,
                    elapsed >= 0,
            ;
            assert(ratio2 as int * elapsed as int >= 0) by (nonlinear_arith)
                requires
                    ratio2 >= 0,
                    elapsed >= 0,
            ;
        }
        let price1_cumulative: Balance = match checked_mul(ratio1, elapsed) {
            Some(v) => v,
            None => {
                return Err(Error::UnderflowOrOverflowOccured);
            },
        };
        let price1_cumulative_last: Balance = match checked_add(
            self.price1_cumulative_last,
            price1_cumulative,
        ) {
            Some(v) => v,
            None => {
                return Err(Error::UnderflowOrOverflowOccured);
            },
        };
        let price2_cumulative: Balance = match checked_mul(ratio2, elapsed) {
            Some(v) => v,
            None => {
                return Err(Error::UnderflowOrOverflowOccured);
            },
        };
        let price2_cumulative_last: Balance = match checked_add(
            self.price2_cumulative_last,
            price2_cumulative,
        ) {
            Some(v) => v,
            None => {
                return Err(Error::UnderflowOrOverflowOccured);
            },
        };
        let reserves_product: Balance = match checked_mul(first_asset_pool, second_asset_pool) {
            Some(v) => v,
            None => {
                return Err(Error::UnderflowOrOverflowOccured);
            },
        };
        self.first_asset_pool = first_asset_pool;
        self.second_asset_pool = second_asset_pool;
        self.price1_cumulative_last = price1_cumulative_last;
        self.price2_cumulative_last = price2_cumulative_last;
        self.last_timestamp = now;
        self.invariant = reserves_product;
        Ok(())
    }

    /// Checks that a new pool may take this one's place.
    pub fn ensure_launch(&self) -> (r: Result<(), Error>)
        ensures
            r == self@.launch_check(),
    {
        if self.invariant != 0 {
            return Err(Error::InvariantNotNull);
        }
        if self.total_shares != 0 {
            return Err(Error::TotalSharesNotNull);
        }
        Ok(())
    }

    /// Checks that an amount of the second asset meets the caller's minimum
    /// and that the pool holds it.
    pub fn ensure_second_asset_amount(
        &self,
        asset_out_amount: Balance,
        min_asset_out_amount: Balance,
    ) -> (r: Result<(), Error>)
        ensures
            r == payout_check(asset_out_amount, min_asset_out_amount, self@.second_asset_pool),
    {
        if asset_out_amount < min_asset_out_amount {
            return Err(Error::SecondAssetAmountBelowExpectation);
        }
        if asset_out_amount > self.second_asset_pool {
            return Err(Error::InsufficientPool);
        }
        Ok(())
    }

    /// Checks that `sender` can give back `shares_burned` shares.
    pub fn ensure_burned_shares(&self, sender: &AccountId, shares_burned: Balance) -> (r: Result<
        (),
        Error,
    >)
        ensures
            r == self@.burn_check(*sender, shares_burned),
    {
        if shares_burned == 0 {
            return Err(Error::InvalidShares);
        }
        match self.shares.get(sender) {
            Some(shares) => {
                if *shares >= shares_burned {
                    Ok(())
                } else {
                    Err(Error::InsufficientShares)
                }
            },
            None => Err(Error::DoesNotOwnShare),
        }
    }

    /// Checks that an amount of the first asset meets the caller's minimum
    /// and that the pool holds it. An amount below the minimum is reported
    /// as `SecondAssetAmountBelowExpectation`, as for the second asset.
    pub fn ensure_first_asset_amount(
        &self,
        first_asset_out_amount: Balance,
        min_first_asset_out_amount: Balance,
    ) -> (r: Result<(), Error>)
        ensures
            r == payout_check(
                first_asset_out_amount,
                min_first_asset_out_amount,
                self@.first_asset_pool,
            ),
    {
        if first_asset_out_amount < min_first_asset_out_amount {
            return Err(Error::SecondAssetAmountBelowExpectation);
        }
        if first_asset_out_amount > self.first_asset_pool {
            return Err(Error::InsufficientPool);
        }
        Ok(())
    }
    /// Every entry of the share ledger, account and shares, each account
    /// once.
    pub fn share_entries(&self) -> (r: Vec<(AccountId, Balance)>)
        ensures
            r@.len() == self@.shares.dom().len(),
            distinct_accounts(r@),
            ledger_of(r@) == self@.shares,
    {
        let mut r: Vec<(AccountId, Balance)> = Vec::new();
        let entries = self.shares.iter();
        let ghost all = entries.remaining();
        for entry in iter: entries
            invariant
                iter.seq() == all,
                r@.len() == iter.index(),
                forall|j: int| 0 <= j < r@.len() ==> #[trigger] r@[j] == (*all[j].0, *all[j].1),
        {
            r.push((*entry.0, *entry.1));
        }
        proof {
            assert forall|i: int, j: int| 0 <= i < j < r@.len() implies r@[i].0 != r@[j].0 by {
                if r@[i].0 == r@[j].0 {
                    assert(self@.shares[*all[i].0] == *all[i].1);
                    assert(self@.shares[*all[j].0] == *all[j].1);
                    assert(all[i] == all[j]);
                }
            }
            assert forall|who: AccountId| #[trigger]
                self@.shares.contains_key(who) implies ledger_of(r@).contains_key(who) by {
                let held = self@.shares[who];
                assert(all.contains((&who, &held)));
                let j = choose|j: int| 0 <= j < all.len() && all[j] == (&who, &held);
                assert(r@[j].0 == who);
                lemma_ledger_accounts(r@);
            }
            lemma_ledger_accounts(r@);
            lemma_ledger_lookup(r@);
            assert forall|who: AccountId| #[trigger]
                ledger_of(r@).contains_key(who) implies self@.shares.contains_key(who)
                && self@.shares[who] == ledger_of(r@)[who] by {
                let j = choose|j: int| 0 <= j < r@.len() && r@[j].0 == who;
                assert(self@.shares.contains_key(*all[j].0));
                assert(ledger_of(r@)[r@[j].0] == r@[j].1);
            }
            assert(ledger_of(r@) =~= self@.shares);
        }
        r
    }

    /// Builds a pool from its parts, as [`Exchange::share_entries`] and the
    /// getters give them. Parts that do not describe a well-formed pool are
    /// refused: an account with two entries, shares that do not sum to the
    /// total, or an invariant that is neither the product of the reserves nor
    /// zero in a pool without shares.
    pub fn from_parts(
        first_asset_pool: Balance,
        second_asset_pool: Balance,
        recorded_product: Balance,
        total_shares: Balance,
        last_timestamp: Moment,
        price1_cumulative_last: Balance,
        price2_cumulative_last: Balance,
        entries: &Vec<(AccountId, Balance)>,
    ) -> (r: Option<Self>)
        ensures
            match r {
                Some(pool) => Some(pool@) == ExchangeView::from_parts(
                    first_asset_pool,
                    second_asset_pool,
                    recorded_product,
                    total_shares,
                    last_timestamp,
                    price1_cumulative_last,
                    price2_cumulative_last,
                    entries@,
                ),
                None => ExchangeView::from_parts(
                    first_asset_pool,
                    second_asset_pool,
                    recorded_product,
                    total_shares,
                    last_timestamp,
                    price1_cumulative_last,
                    price2_cumulative_last,
                    entries@,
                ).is_none(),
            },
    {
        let mut shares: BTreeMap<AccountId, Balance> = BTreeMap::new();
        let mut running: Balance = 0;
        let mut i: usize = 0;
        proof {
            lemma_sum_empty();
            assert(entries@.take(0) =~= Seq::empty());
        }
        while i < entries.len()
            invariant
                0 <= i <= entries.len(),
                shares@ == ledger_of(entries@.take(i as int)),
                distinct_accounts(entries@.take(i as int)),
                running == entries_sum(entries@.take(i as int)),
            decreases entries.len() - i,
        {
            let (who, held) = entries[i];
            let ghost front = entries@.take(i as int);
            let ghost next = entries@.take(i + 1);
            proof {
                assert(next.drop_last() =~= front);
                assert(next.last() == (who, held));
                lemma_ledger_accounts(front);
            }
            if shares.get(&who).is_some() {
                proof {
                    let j = choose|j: int| 0 <= j < front.len() && front[j].0 == who;
                    assert(entries@[j].0 == entries@[i as int].0);
                }
                return None;
            }
            running = match checked_add(running, held) {
                Some(v) => v,
                None => {
                    proof {
                        lemma_entries_sum_grows(entries@, i + 1);
                        if distinct_accounts(entries@) {
                            lemma_ledger_sum(entries@);
                        }
                    }
                    return None;
                },
            };
            shares.insert(who, held);
            proof {
                assert forall|a: int, b: int| 0 <= a < b < next.len() implies next[a].0
                    != next[b].0 by {
                    if b < i {
                        assert(front[a].0 != front[b].0);
                    } else {
                        assert(front[a].0 == next[a].0);
                    }
                }
            }
            i = i + 1;
        }
        proof {
            assert(entries@.take(i as int) =~= entries@);
            lemma_ledger_sum(entries@);
            lemma_ledger_accounts(entries@);
        }
        if running != total_shares {
            return None;
        }
        let sound_product = match checked_mul(first_asset_pool, second_asset_pool) {
            Some(product) => product == recorded_product,
            None => false,
        };
        if !sound_product && !(total_shares == 0 && recorded_product == 0) {
            return None;
        }
        Some(
            Exchange {
                first_asset_pool,
                second_asset_pool,
                invariant: recorded_product,
                total_shares,
                last_timestamp,
                price1_cumulative_last,
                price2_cumulative_last,
                shares,
            },
        )
    }
}

} // verus!
