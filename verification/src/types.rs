//! Plain value types shared by the whole crate.

use vstd::prelude::*;

verus! {

/// Identifier of an account.
pub type AccountId = u64;

/// Amount of an asset, of shares, or of accumulated price.
pub type Balance = u128;

/// Numeric identifier of an asset that lives on another chain.
pub type AssetId = u32;

/// Timestamp, in the unit of the host's clock.
pub type Moment = u64;

/// Identifier of a neighbouring chain.
pub type ParaId = u32;

/// Either the main network currency or an asset of another chain.
///
/// Assets are totally ordered: the main network currency comes before every
/// parachain asset, and parachain assets are ordered by their identifier.
#[derive(Clone, Copy, PartialEq, Eq, Debug, Structural)]
pub enum Asset {
    MainNetworkCurrency,
    ParachainAsset(AssetId),
}

impl Asset {
    /// Position of the asset in the total order: `0` for the main network
    /// currency, `id + 1` for a parachain asset.
    pub open spec fn rank(self) -> nat {
        match self {
            Asset::MainNetworkCurrency => 0,
            Asset::ParachainAsset(id) => id as nat + 1,
        }
    }

    /// Storage key of the asset; equal to its rank.
    pub fn key(self) -> (k: u64)
        ensures
            k == self.rank(),
    {
        match self {
            Asset::MainNetworkCurrency => 0,
            Asset::ParachainAsset(id) => {
                let wide: u64 = id as u64;
                wide + 1
            },
        }
    }

    /// Whether `self` comes strictly after `other` in the total order.
    pub fn is_after(self, other: Asset) -> (r: bool)
        ensures
            r == (self.rank() > other.rank()),
    {
        match (self, other) {
            (Asset::MainNetworkCurrency, _) => false,
            (Asset::ParachainAsset(_), Asset::MainNetworkCurrency) => true,
            (Asset::ParachainAsset(a), Asset::ParachainAsset(b)) => a > b,
        }
    }
}

impl Default for Asset {
    fn default() -> (r: Self)
        ensures
            r == Asset::MainNetworkCurrency,
    {
        Asset::MainNetworkCurrency
    }
}

/// The asset identifier after `id`.
pub open spec fn following_id(id: AssetId) -> AssetId
    recommends
        id < AssetId::MAX,
{
    (id + 1) as AssetId
}

/// Two assets are equal exactly when their ranks are.
pub proof fn lemma_rank_injective(a: Asset, b: Asset)
    ensures
        a.rank() == b.rank() <==> a == b,
{
}

/// Account and rate of the treasury's cut of the swap fee.
#[derive(Clone, Copy, PartialEq, Eq, Debug, Structural)]
pub struct DexTreasury {
    pub dex_account: AccountId,
    pub treasury_fee_rate_nominator: Balance,
    pub treasury_fee_rate_denominator: Balance,
}

impl DexTreasury {
    pub fn new(
        dex_account: AccountId,
        treasury_fee_rate_nominator: Balance,
        treasury_fee_rate_denominator: Balance,
    ) -> (r: Self)
        ensures
            r == (DexTreasury {
                dex_account,
                treasury_fee_rate_nominator,
                treasury_fee_rate_denominator,
            }),
    {
        DexTreasury { dex_account, treasury_fee_rate_nominator, treasury_fee_rate_denominator }
    }
}

impl Default for DexTreasury {
    fn default() -> (r: Self)
        ensures
            r == (DexTreasury {
                dex_account: 0,
                treasury_fee_rate_nominator: 0,
                treasury_fee_rate_denominator: 0,
            }),
    {
        DexTreasury {
            dex_account: 0,
            treasury_fee_rate_nominator: 0,
            treasury_fee_rate_denominator: 0,
        }
    }
}

/// Rates and thresholds that the host fixes for a deployment.
#[derive(Clone, Copy, PartialEq, Eq, Debug, Structural)]
pub struct Config {
    /// Nominator of the joint fee rate (exchange fee and treasury fee).
    pub fee_rate_nominator: Balance,
    /// Denominator of the joint fee rate.
    pub fee_rate_denominator: Balance,
    /// Least amount of the main network currency that opens a pool.
    pub min_main_network_asset_amount: Balance,
    /// Least amount of a parachain asset that opens a pool.
    pub min_parachain_asset_amount: Balance,
}

} // verus!
