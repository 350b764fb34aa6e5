//! Portfolio, intent, trade and market records kept beside the gateway.
use vstd::prelude::*;

verus! {

/// One holding of a portfolio, or one target of an allocation.
#[derive(Clone, Debug)]
pub struct PortfolioAsset {
    pub token_symbol: String,
    pub token_address: String,
    pub balance: String,
    pub chain: String,
    pub value_usd: String,
    pub percentage: String,
}

pub ghost struct AssetView {
    pub token_symbol: Seq<char>,
    pub token_address: Seq<char>,
    pub balance: Seq<char>,
    pub chain: Seq<char>,
    pub value_usd: Seq<char>,
    pub percentage: Seq<char>,
}

impl View for PortfolioAsset {
    type V = AssetView;

    open spec fn view(&self) -> AssetView {
        AssetView {
            token_symbol: self.token_symbol@,
            token_address: self.token_address@,
            balance: self.balance@,
            chain: self.chain@,
            value_usd: self.value_usd@,
            percentage: self.percentage@,
        }
    }
}

/// The views of a list of assets.
pub open spec fn assets_view(assets: Seq<PortfolioAsset>) -> Seq<AssetView> {
    assets.map_values(|a: PortfolioAsset| a@)
}

/// The texts of a list of strings.
pub open spec fn texts_view(texts: Seq<String>) -> Seq<Seq<char>> {
    texts.map_values(|t: String| t@)
}

/// A user's rebalancing preferences.
#[derive(Clone, Debug)]
pub struct UserPreferences {
    /// "low", "medium" or "high".
    pub risk_tolerance: String,
    /// "short", "medium" or "long".
    pub investment_horizon: String,
    pub preferred_chains: Vec<String>,
    pub excluded_assets: Vec<String>,
    /// A percentage, as decimal text.
    pub rebalance_threshold: String,
    pub auto_rebalance: bool,
}

/// A user's request to rebalance, and what its analysis produced.
#[derive(Clone, Debug)]
pub struct RebalanceIntent {
    pub id: u64,
    pub user_id: String,
    pub intent_text: String,
    pub timestamp: u64,
    pub classification: String,
    pub confidence_score: u8,
    pub target_allocations: Vec<PortfolioAsset>,
    /// "pending", "analyzing", "ready", "executing", "completed" or "failed".
    pub status: String,
    pub ai_analysis: String,
    pub estimated_gas_cost: String,
    pub execution_steps: Vec<String>,
}

/// One trade of a rebalance.
#[derive(Clone, Debug)]
pub struct Trade {
    pub id: u64,
    pub intent_id: u64,
    pub from_asset: String,
    pub to_asset: String,
    pub from_chain: String,
    pub to_chain: String,
    pub amount: String,
    pub expected_output: String,
    pub actual_output: String,
    /// "pending", "confirmed" or "failed".
    pub status: String,
    pub tx_hash: String,
    pub timestamp: u64,
    pub gas_used: String,
}

/// A market analysis as the owner stores it.
#[derive(Clone, Debug)]
pub struct MarketAnalysis {
    pub timestamp: u64,
    /// "bullish", "bearish" or "neutral".
    pub sentiment: String,
    /// "low", "medium" or "high".
    pub volatility: String,
    pub confidence: u8,
    pub key_metrics: Vec<String>,
    pub recommendations: Vec<String>,
    pub market_cap_trend: String,
    pub fear_greed_index: u8,
}

/// The health assessment of a user's portfolio.
#[derive(Clone, Debug)]
pub struct PortfolioHealth {
    pub user_id: String,
    /// "A", "B", "C", "D" or "F".
    pub grade: String,
    /// 0 to 100.
    pub score: u8,
    pub diversification_score: u8,
    pub risk_score: u8,
    pub concentration_risk: u8,
    pub recommendations: Vec<String>,
    pub last_updated: u64,
}

pub ghost struct HealthView {
    pub user_id: Seq<char>,
    pub grade: Seq<char>,
    pub score: u8,
    pub diversification_score: u8,
    pub risk_score: u8,
    pub concentration_risk: u8,
    pub recommendations: Seq<Seq<char>>,
    pub last_updated: u64,
}

impl View for PortfolioHealth {
    type V = HealthView;

    open spec fn view(&self) -> HealthView {
        HealthView {
            user_id: self.user_id@,
            grade: self.grade@,
            score: self.score,
            diversification_score: self.diversification_score,
            risk_score: self.risk_score,
            concentration_risk: self.concentration_risk,
            recommendations: texts_view(self.recommendations@),
            last_updated: self.last_updated,
        }
    }
}

/// A copy of a list of strings.
pub fn copy_texts(texts: &Vec<String>) -> (r: Vec<String>)
    ensures
        texts_view(r@) == texts_view(texts@),
{
    let mut r: Vec<String> = Vec::new();
    let mut i: usize = 0;
    while i < texts.len()
        invariant
            i <= texts@.len(),
            texts_view(r@) == texts_view(texts@).subrange(0, i as int),
        decreases texts.len() - i,
    {
        let ghost before = r@;
        r.push(texts[i].clone());
        assert(texts_view(r@) =~= texts_view(texts@).subrange(0, i + 1)) by {
            assert(texts_view(r@) =~= texts_view(before).push(texts@[i as int]@));
        }
        i = i + 1;
    }
    assert(texts_view(texts@).subrange(0, i as int) =~= texts_view(texts@));
    r
}

impl PortfolioHealth {
    /// A copy of this assessment.
    pub fn copied(&self) -> (r: PortfolioHealth)
        ensures
            r@ == self@,
    {
        PortfolioHealth {
            user_id: self.user_id.clone(),
            grade: self.grade.clone(),
            score: self.score,
            diversification_score: self.diversification_score,
            risk_score: self.risk_score,
            concentration_risk: self.concentration_risk,
            recommendations: copy_texts(&self.recommendations),
            last_updated: self.last_updated,
        }
    }
}

} // verus!
