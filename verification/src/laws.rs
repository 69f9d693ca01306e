//! What holds of the pool's operations taken together.

use vstd::prelude::*;
use crate::dex::{canonical, ModuleView};
use crate::exchange::{swap_outcome, Exchange, ExchangeView};
use crate::math::{lemma_cost_bounds, lemma_cost_repeats, lemma_product_positive};
use crate::shares::{
    balance_of, distinct_accounts, ledger_of, lemma_entry_le_sum, lemma_sum_insert, sum,
};
use crate::types::{AccountId, Asset, Balance, Config, DexTreasury, Moment};

verus! {

/// How the product of the reserves moves in a swap.
///
/// For a swap that succeeds, with `priced` the reserve paid into less the fee
/// that the pool keeps: the product of the new reserves is at least the
/// recorded product exactly when the fee kept, valued at the new reserve of
/// the other asset, covers what the division left over; and it always exceeds
/// the recorded product less `priced`.
pub proof fn lemma_swap_product(
    recorded_product: Balance,
    pool_in: Balance,
    pool_out: Balance,
    exchange_fee: Balance,
    amount: Balance,
)
    requires
        swap_outcome(recorded_product, pool_in, pool_out, exchange_fee, amount).is_ok(),
    ensures
        ({
            let (new_in, new_out, paid_out) = swap_outcome(
                recorded_product,
                pool_in,
                pool_out,
                exchange_fee,
                amount,
            ).unwrap();
            let priced = new_in - exchange_fee;
            &&& priced > 0
            &&& new_in == pool_in + amount
            &&& new_out + paid_out == pool_out
            &&& (new_in * new_out >= recorded_product <==> new_out * exchange_fee
                >= recorded_product as int % priced)
            &&& new_in * new_out > recorded_product - priced
        }),
{
    let new_in: int = pool_in + amount;
    let priced: int = new_in - exchange_fee;
    let q: int = recorded_product as int / priced;
    let rem: int = recorded_product as int % priced;
    vstd::arithmetic::div_mod::lemma_fundamental_div_mod(recorded_product as int, priced);
    vstd::arithmetic::div_mod::lemma_mod_bound(recorded_product as int, priced);
    vstd::arithmetic::div_mod::lemma_div_pos_is_pos(recorded_product as int, priced);
    assert(recorded_product == priced * q + rem);
    assert(new_in * q == priced * q + q * exchange_fee) by (nonlinear_arith)
        requires
            new_in == priced + exchange_fee,
    ;
    assert(q * exchange_fee >= 0) by (nonlinear_arith)
        requires
            q >= 0,
            exchange_fee >= 0,
    ;
}

/// The recorded invariant after a swap of the first asset.
///
/// For a quote that succeeds and is then committed at `now`: the recorded
/// invariant is exactly the product of the new reserves, and it is at least
/// the invariant before exactly when the fee kept, valued at the new second
/// reserve, covers the remainder of dividing the old invariant.
pub proof fn lemma_first_to_second_invariant(
    pool: ExchangeView,
    exchange_fee: Balance,
    amount: Balance,
    now: Moment,
)
    requires
        pool.first_to_second(exchange_fee, amount).is_ok(),
        pool.pools_updated(
            pool.first_to_second(exchange_fee, amount).unwrap().first_asset_pool,
            pool.first_to_second(exchange_fee, amount).unwrap().second_asset_pool,
            now,
        ).is_some(),
    ensures
        ({
            let delta = pool.first_to_second(exchange_fee, amount).unwrap();
            let next = pool.pools_updated(
                delta.first_asset_pool,
                delta.second_asset_pool,
                now,
            ).unwrap();
            &&& next.invariant == next.first_asset_pool * next.second_asset_pool
            &&& next.first_asset_pool == pool.first_asset_pool + amount
            &&& next.second_asset_pool + delta.amount == pool.second_asset_pool
            &&& (next.invariant >= pool.invariant <==> delta.second_asset_pool * exchange_fee
                >= pool.invariant as int % (delta.first_asset_pool - exchange_fee))
            &&& next.invariant > pool.invariant - (delta.first_asset_pool - exchange_fee)
        }),
{
    lemma_swap_product(
        pool.invariant,
        pool.first_asset_pool,
        pool.second_asset_pool,
        exchange_fee,
        amount,
    );
}

/// The recorded invariant after a swap of the second asset; the mirror image
/// of [`lemma_first_to_second_invariant`].
pub proof fn lemma_second_to_first_invariant(
    pool: ExchangeView,
    exchange_fee: Balance,
    amount: Balance,
    now: Moment,
)
    requires
        pool.second_to_first(exchange_fee, amount).is_ok(),
        pool.pools_updated(
            pool.second_to_first(exchange_fee, amount).unwrap().first_asset_pool,
            pool.second_to_first(exchange_fee, amount).unwrap().second_asset_pool,
            now,
        ).is_some(),
    ensures
        ({
            let delta = pool.second_to_first(exchange_fee, amount).unwrap();
            let next = pool.pools_updated(
                delta.first_asset_pool,
                delta.second_asset_pool,
                now,
            ).unwrap();
            &&& next.invariant == next.first_asset_pool * next.second_asset_pool
            &&& next.second_asset_pool == pool.second_asset_pool + amount
            &&& next.first_asset_pool + delta.amount == pool.first_asset_pool
            &&& (next.invariant >= pool.invariant <==> delta.first_asset_pool * exchange_fee
                >= pool.invariant as int % (delta.second_asset_pool - exchange_fee))
            &&& next.invariant > pool.invariant - (delta.second_asset_pool - exchange_fee)
        }),
{
    lemma_swap_product(
        pool.invariant,
        pool.second_asset_pool,
        pool.first_asset_pool,
        exchange_fee,
        amount,
    );
    let delta = pool.second_to_first(exchange_fee, amount).unwrap();
    assert(delta.first_asset_pool * delta.second_asset_pool == delta.second_asset_pool
        * delta.first_asset_pool) by (nonlinear_arith);
}

/// One change of a pool's liquidity.
pub enum LiquidityOp {
    Invest {
        first_asset_amount: Balance,
        second_asset_amount: Balance,
        shares: Balance,
        sender: AccountId,
    },
    Divest {
        first_asset_amount: Balance,
        second_asset_amount: Balance,
        shares: Balance,
        sender: AccountId,
    },
}

/// The pool after one change of liquidity; a change that is rejected leaves
/// the pool as it was.
pub open spec fn apply(pool: ExchangeView, op: LiquidityOp) -> ExchangeView {
    let outcome = match op {
        LiquidityOp::Invest { first_asset_amount, second_asset_amount, shares, sender } =>
            pool.invested(first_asset_amount, second_asset_amount, shares, sender),
        LiquidityOp::Divest { first_asset_amount, second_asset_amount, shares, sender } =>
            pool.divested(first_asset_amount, second_asset_amount, shares, sender),
    };
    match outcome {
        Ok(next) => next,
        Err(_) => pool,
    }
}

/// The pool after a sequence of changes of liquidity, in order.
pub open spec fn apply_all(pool: ExchangeView, ops: Seq<LiquidityOp>) -> ExchangeView
    decreases ops.len(),
{
    if ops.len() == 0 {
        pool
    } else {
        apply(apply_all(pool, ops.drop_last()), ops.last())
    }
}

/// One change of liquidity keeps a pool well-formed: the shares still sum to
/// the total, and no entry exceeds it.
pub proof fn lemma_apply_keeps_shares(pool: ExchangeView, op: LiquidityOp, who: AccountId)
    requires
        pool.wf(),
    ensures
        apply(pool, op).wf(),
        sum(apply(pool, op).shares) == apply(pool, op).total_shares,
        balance_of(apply(pool, op).shares, who) <= apply(pool, op).total_shares,
{
    match op {
        LiquidityOp::Invest { first_asset_amount, second_asset_amount, shares, sender } => {
            if pool.invested(first_asset_amount, second_asset_amount, shares, sender).is_ok() {
                lemma_sum_insert(
                    pool.shares,
                    sender,
                    (balance_of(pool.shares, sender) + shares) as Balance,
                );
            }
        },
        LiquidityOp::Divest { first_asset_amount, second_asset_amount, shares, sender } => {
            if pool.divested(first_asset_amount, second_asset_amount, shares, sender).is_ok() {
                lemma_sum_insert(pool.shares, sender, (pool.shares[sender] - shares) as Balance);
            }
        },
    }
    lemma_entry_le_sum(apply(pool, op).shares, who);
}

/// Share conservation: after any sequence of investments and divestments of
/// a well-formed pool, the shares of all accounts sum to the total of shares.
pub proof fn lemma_share_conservation(pool: ExchangeView, ops: Seq<LiquidityOp>)
    requires
        pool.wf(),
    ensures
        apply_all(pool, ops).wf(),
        sum(apply_all(pool, ops).shares) == apply_all(pool, ops).total_shares,
    decreases ops.len(),
{
    if ops.len() > 0 {
        lemma_share_conservation(pool, ops.drop_last());
        lemma_apply_keeps_shares(apply_all(pool, ops.drop_last()), ops.last(), 0);
    }
}

/// Round trip of liquidity: an account that invests `shares` shares at the
/// quoted costs and at once divests the same shares is quoted the same costs
/// again, the divestment succeeds, and it gives back the reserves, the total
/// of shares, the invariant and every account's shares as they were.
pub proof fn lemma_invest_divest_round_trip(pool: ExchangeView, shares: Balance, sender: AccountId)
    requires
        pool.wf(),
        pool.costs(shares).is_some(),
        pool.invested(
            pool.costs(shares).unwrap().0,
            pool.costs(shares).unwrap().1,
            shares,
            sender,
        ).is_ok(),
        pool.invested(
            pool.costs(shares).unwrap().0,
            pool.costs(shares).unwrap().1,
            shares,
            sender,
        ).unwrap().costs(shares).is_some(),
    ensures
        ({
            let costs = pool.costs(shares).unwrap();
            let invested = pool.invested(costs.0, costs.1, shares, sender).unwrap();
            let back = invested.divested(costs.0, costs.1, shares, sender);
            &&& invested.costs(shares) == Some(costs)
            &&& back.is_ok()
            &&& back.unwrap().first_asset_pool == pool.first_asset_pool
            &&& back.unwrap().second_asset_pool == pool.second_asset_pool
            &&& back.unwrap().total_shares == pool.total_shares
            &&& back.unwrap().invariant == pool.invariant
            &&& forall|who: AccountId|
                balance_of(back.unwrap().shares, who) == balance_of(pool.shares, who)
        }),
{
    let costs = pool.costs(shares).unwrap();
    let invested = pool.invested(costs.0, costs.1, shares, sender).unwrap();
    lemma_cost_repeats(pool.first_asset_pool as int, shares as int, pool.total_shares as int);
    lemma_cost_repeats(pool.second_asset_pool as int, shares as int, pool.total_shares as int);
    assert(invested.costs(shares) == Some(costs));
    let back = invested.divested(costs.0, costs.1, shares, sender);
    assert(back.is_ok());
    assert forall|who: AccountId|
        balance_of(back.unwrap().shares, who) == balance_of(pool.shares, who) by {}
}

/// Investing in a launched, sound pool leaves it launched and sound.
pub proof fn lemma_invested_sound(
    pool: ExchangeView,
    first_asset_amount: Balance,
    second_asset_amount: Balance,
    shares: Balance,
    sender: AccountId,
)
    requires
        pool.sound(),
        pool.invariant > 0,
        pool.invested(first_asset_amount, second_asset_amount, shares, sender).is_ok(),
    ensures
        pool.invested(first_asset_amount, second_asset_amount, shares, sender).unwrap().sound(),
        pool.invested(first_asset_amount, second_asset_amount, shares, sender).unwrap().invariant > 0,
{
    lemma_apply_keeps_shares(
        pool,
        LiquidityOp::Invest { first_asset_amount, second_asset_amount, shares, sender },
        sender,
    );
    lemma_product_positive(pool.first_asset_pool as int, pool.second_asset_pool as int);
    lemma_product_positive(
        pool.first_asset_pool + first_asset_amount,
        pool.second_asset_pool + second_asset_amount,
    );
}

/// Divesting shares that the sender holds, at the costs that the pool quotes
/// for them, succeeds in a launched, sound pool and leaves it sound: with
/// the last shares both reserves leave in full, and with fewer the pool
/// stays launched.
pub proof fn lemma_divested_sound(pool: ExchangeView, shares: Balance, sender: AccountId)
    requires
        pool.sound(),
        pool.invariant > 0,
        pool.burn_check(sender, shares).is_ok(),
        pool.costs(shares).is_some(),
    ensures
        ({
            let costs = pool.costs(shares).unwrap();
            let next = pool.divested(costs.0, costs.1, shares, sender);
            &&& next.is_ok()
            &&& next.unwrap().sound()
            &&& costs.0 <= pool.first_asset_pool
            &&& costs.1 <= pool.second_asset_pool
            &&& (shares == pool.total_shares ==> next.unwrap().first_asset_pool == 0
                && next.unwrap().second_asset_pool == 0)
            &&& (shares < pool.total_shares ==> next.unwrap().invariant > 0)
        }),
{
    let costs = pool.costs(shares).unwrap();
    lemma_entry_le_sum(pool.shares, sender);
    lemma_product_positive(pool.first_asset_pool as int, pool.second_asset_pool as int);
    lemma_cost_bounds(pool.first_asset_pool as int, shares as int, pool.total_shares as int);
    lemma_cost_bounds(pool.second_asset_pool as int, shares as int, pool.total_shares as int);
    let first = pool.first_asset_pool - costs.0;
    let second = pool.second_asset_pool - costs.1;
    lemma_product_positive(first, second);
    assert(first * second <= pool.first_asset_pool * pool.second_asset_pool) by (nonlinear_arith)
        requires
            0 <= first <= pool.first_asset_pool,
            0 <= second <= pool.second_asset_pool,
    ;
    lemma_apply_keeps_shares(
        pool,
        LiquidityOp::Divest {
            first_asset_amount: costs.0,
            second_asset_amount: costs.1,
            shares,
            sender,
        },
        sender,
    );
}

/// Setting new reserves in a launched, sound pool leaves it launched and
/// sound, and no cumulative price falls.
pub proof fn lemma_pools_updated_sound(
    pool: ExchangeView,
    first_asset_pool: Balance,
    second_asset_pool: Balance,
    now: Moment,
)
    requires
        pool.sound(),
        pool.invariant > 0,
        pool.pools_updated(first_asset_pool, second_asset_pool, now).is_some(),
    ensures
        pool.pools_updated(first_asset_pool, second_asset_pool, now).unwrap().sound(),
        pool.pools_updated(first_asset_pool, second_asset_pool, now).unwrap().invariant > 0,
        pool.pools_updated(first_asset_pool, second_asset_pool, now).unwrap().price1_cumulative_last
            >= pool.price1_cumulative_last,
        pool.pools_updated(first_asset_pool, second_asset_pool, now).unwrap().price2_cumulative_last
            >= pool.price2_cumulative_last,
{
    lemma_product_positive(first_asset_pool as int, second_asset_pool as int);
    let time_elapsed = now - pool.last_timestamp;
    lemma_product_positive((first_asset_pool / second_asset_pool) as int, time_elapsed);
    lemma_product_positive((second_asset_pool / first_asset_pool) as int, time_elapsed);
}

/// Round trip of storage: the parts of a well-formed pool, with its share
/// ledger listed once per account, build the same pool again.
pub proof fn lemma_parts_round_trip(pool: ExchangeView, entries: Seq<(AccountId, Balance)>)
    requires
        pool.wf(),
        distinct_accounts(entries),
        ledger_of(entries) == pool.shares,
    ensures
        ExchangeView::from_parts(
            pool.first_asset_pool,
            pool.second_asset_pool,
            pool.invariant,
            pool.total_shares,
            pool.last_timestamp,
            pool.price1_cumulative_last,
            pool.price2_cumulative_last,
            entries,
        ) == Some(pool),
{
}

/// A swap through the exchange, where it succeeds on a well-formed state,
/// stores a pool whose recorded invariant is exactly the product of its new
/// reserves; the reserve paid into has grown by the whole amount; the shares
/// are as they were; no cumulative price has fallen; and every other pool is
/// as it was.
pub proof fn lemma_swap_exact_to_invariant(
    state: ModuleView,
    sender: AccountId,
    asset_in: Asset,
    asset_in_amount: Balance,
    asset_out: Asset,
    min_asset_out_amount: Balance,
)
    requires
        state.wf(),
        state.swap_exact_to(
            sender,
            asset_in,
            asset_in_amount,
            asset_out,
            min_asset_out_amount,
        ).is_ok(),
    ensures
        ({
            let (first, second, turned) = canonical(asset_in, asset_out);
            let before = state.exchange(first, second);
            let next = state.swap_exact_to(
                sender,
                asset_in,
                asset_in_amount,
                asset_out,
                min_asset_out_amount,
            ).unwrap().0;
            let after = next.exchange(first, second);
            &&& next.wf()
            &&& after.invariant == after.first_asset_pool * after.second_asset_pool
            &&& after.invariant > 0
            &&& (if turned {
                after.second_asset_pool == before.second_asset_pool + asset_in_amount
            } else {
                after.first_asset_pool == before.first_asset_pool + asset_in_amount
            })
            &&& after.total_shares == before.total_shares
            &&& after.shares == before.shares
            &&& after.price1_cumulative_last >= before.price1_cumulative_last
            &&& after.price2_cumulative_last >= before.price2_cumulative_last
            &&& forall|pair: (Asset, Asset)|
                pair != (first, second) ==> #[trigger] next.exchange(pair.0, pair.1)
                    == state.exchange(pair.0, pair.1)
        }),
{
    let (first, second, turned) = canonical(asset_in, asset_out);
    let before = state.exchange(first, second);
    assert(state.exchanges.contains_key((first, second)));
    let quote = if turned {
        before.second_to_first_swap(state.config, state.dex_treasury, asset_in_amount)
    } else {
        before.first_to_second_swap(state.config, state.dex_treasury, asset_in_amount)
    };
    let delta = quote.unwrap().0;
    lemma_pools_updated_sound(before, delta.first_asset_pool, delta.second_asset_pool, state.now);
    let next = state.swap_exact_to(
        sender,
        asset_in,
        asset_in_amount,
        asset_out,
        min_asset_out_amount,
    ).unwrap().0;
    assert forall|pair: (Asset, Asset)| #[trigger]
        next.exchanges.contains_key(pair) implies next.exchanges[pair].sound() && pair.0.rank()
        < pair.1.rank() by {
        if pair != (first, second) {
            assert(state.exchanges.contains_key(pair));
        }
    }
}

/// Round trip of liquidity through the exchange: where an account buys shares
/// of a pool and at once gives the same shares back, asking for no minimum,
/// the second step succeeds whenever the pool can still price the shares,
/// and it leaves the pool's reserves, its total of shares and its invariant,
/// and the account's balances of both assets, as they were before the first
/// step.
pub proof fn lemma_liquidity_round_trip(
    state: ModuleView,
    sender: AccountId,
    first_asset: Asset,
    second_asset: Asset,
    shares: Balance,
)
    requires
        state.wf(),
        shares > 0,
        state.invest_liquidity(sender, first_asset, second_asset, shares).is_ok(),
        state.invest_liquidity(sender, first_asset, second_asset, shares).unwrap().0.exchange(
            canonical(first_asset, second_asset).0,
            canonical(first_asset, second_asset).1,
        ).costs(shares).is_some(),
    ensures
        ({
            let (first, second, turned) = canonical(first_asset, second_asset);
            let invested = state.invest_liquidity(
                sender,
                first_asset,
                second_asset,
                shares,
            ).unwrap().0;
            let back = invested.divest_liquidity(sender, first_asset, second_asset, shares, 0, 0);
            let before = state.exchange(first, second);
            &&& back.is_ok()
            &&& back.unwrap().0.exchange(first, second).first_asset_pool == before.first_asset_pool
            &&& back.unwrap().0.exchange(first, second).second_asset_pool
                == before.second_asset_pool
            &&& back.unwrap().0.exchange(first, second).total_shares == before.total_shares
            &&& back.unwrap().0.exchange(first, second).invariant == before.invariant
            &&& back.unwrap().0.balance(sender, first) == state.balance(sender, first)
            &&& back.unwrap().0.balance(sender, second) == state.balance(sender, second)
        }),
{
    let (first, second, turned) = canonical(first_asset, second_asset);
    let before = state.exchange(first, second);
    assert(state.exchanges.contains_key((first, second)));
    crate::types::lemma_rank_injective(first, second);
    let costs = before.costs(shares).unwrap();
    lemma_invested_sound(before, costs.0, costs.1, shares, sender);
    lemma_invest_divest_round_trip(before, shares, sender);
    let invested = state.invest_liquidity(sender, first_asset, second_asset, shares).unwrap().0;
    let mid = invested.exchange(first, second);
    assert(mid == before.invested(costs.0, costs.1, shares, sender).unwrap());
    assert(mid.shares.contains_key(sender));
    assert(mid.shares[sender] >= shares);
    assert(invested.balance(sender, first) == state.balance(sender, first) - costs.0);
    assert(invested.balance(sender, second) == state.balance(sender, second) - costs.1);
}

/// Quotes are functions of what a pool holds: two pools with the same view
/// give the same swap quotes and the same costs for the same inputs.
pub proof fn lemma_quotes_deterministic(
    a: Exchange,
    b: Exchange,
    config: Config,
    treasury: Option<DexTreasury>,
    amount: Balance,
)
    requires
        a@ == b@,
    ensures
        a@.first_to_second_swap(config, treasury, amount) == b@.first_to_second_swap(
            config,
            treasury,
            amount,
        ),
        a@.second_to_first_swap(config, treasury, amount) == b@.second_to_first_swap(
            config,
            treasury,
            amount,
        ),
        a@.costs(amount) == b@.costs(amount),
{
}

} // verus!
