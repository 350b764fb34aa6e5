//! Rebalancing analysis: the strategy an intent asks for, and the target
//! allocations, execution plan and gas estimate that follow from it.
use crate::records::{assets_view, texts_view, AssetView, PortfolioAsset};
use crate::text::{decimal, decimal_text};
use vstd::prelude::*;
use vstd::string::StringSliceAdditionalSpecFns;
use vstd::utf8::encode_utf8;

verus! {

/// The strategies an intent can be classified as.
#[derive(Clone, Copy, Debug, PartialEq, Eq, Structural)]
pub enum Strategy {
    Conservative,
    Aggressive,
    DefiFocused,
    CrossChain,
    Balanced,
}

/// Names what `str::to_lowercase` returns for some text.
pub uninterp spec fn lowercase_of(s: Seq<char>) -> Seq<char>;

/// Relies on `str::to_lowercase`: its result depends on the characters alone.
#[verifier::external_body]
fn lowercase(s: &str) -> (r: String)
    ensures
        r@ == lowercase_of(s@),
{
    s.to_lowercase()
}

/// `needle` occurs in `hay` as a run of consecutive bytes.
pub open spec fn contains_bytes(hay: Seq<u8>, needle: Seq<u8>) -> bool {
    exists|i: int|
        0 <= i && i + needle.len() <= hay.len() && #[trigger] hay.subrange(i, i + needle.len())
            == needle
}

/// The strategy that lowercase intent text asks for: the first group of
/// keywords that occurs in it decides.
pub open spec fn strategy_for(lower: Seq<u8>) -> Strategy {
    if contains_bytes(lower, "conservative".spec_bytes()) || contains_bytes(lower, "safe".spec_bytes()) {
        Strategy::Conservative
    } else if contains_bytes(lower, "aggressive".spec_bytes()) || contains_bytes(lower, "risky".spec_bytes()) {
        Strategy::Aggressive
    } else if contains_bytes(lower, "defi".spec_bytes()) || contains_bytes(lower, "yield".spec_bytes()) {
        Strategy::DefiFocused
    } else if contains_bytes(lower, "cross".spec_bytes()) || contains_bytes(lower, "chain".spec_bytes()) {
        Strategy::CrossChain
    } else {
        Strategy::Balanced
    }
}

/// The strategy that an intent's text asks for.
pub open spec fn intent_strategy(intent_text: Seq<char>) -> Strategy {
    strategy_for(encode_utf8(lowercase_of(intent_text)))
}

/// Whether `needle` occurs in `hay`.
pub fn contains_slice(hay: &[u8], needle: &[u8]) -> (r: bool)
    ensures
        r == contains_bytes(hay@, needle@),
{
    if needle.len() > hay.len() {
        return false;
    }
    let hay_len: usize = hay.len();
    let last: usize = hay_len - needle.len();
    let mut i: usize = 0;
    loop
        invariant
            i <= last,
            last == hay@.len() - needle@.len(),
            needle@.len() <= hay@.len(),
            hay_len == hay@.len(),
            forall|k: int|
                0 <= k < i ==> #[trigger] hay@.subrange(k, k + needle@.len()) != needle@,
        decreases last - i,
    {
        let mut j: usize = 0;
        let mut matched = true;
        while j < needle.len()
            invariant
                i <= last,
                last == hay@.len() - needle@.len(),
                needle@.len() <= hay@.len(),
                hay_len == hay@.len(),
                j <= needle@.len(),
                matched ==> forall|m: int| 0 <= m < j ==> hay@[i + m] == needle@[m],
                !matched ==> hay@.subrange(i as int, i + needle@.len()) != needle@,
            decreases needle.len() - j,
        {
            if matched && hay[i + j] != needle[j] {
                assert(hay@.subrange(i as int, i + needle@.len())[j as int] != needle@[j as int]);
                matched = false;
            }
            j = j + 1;
        }
        if matched {
            assert(hay@.subrange(i as int, i + needle@.len()) =~= needle@);
            return true;
        }
        if i == last {
            return false;
        }
        i = i + 1;
    }
}

/// Classifies lowercase intent text.
pub fn classify_lowered(lower: &str) -> (r: Strategy)
    ensures
        r == strategy_for(lower.spec_bytes()),
{
    let text = lower.as_bytes();
    if contains_slice(text, "conservative".as_bytes()) || contains_slice(text, "safe".as_bytes()) {
        Strategy::Conservative
    } else if contains_slice(text, "aggressive".as_bytes()) || contains_slice(
        text,
        "risky".as_bytes(),
    ) {
        Strategy::Aggressive
    } else if contains_slice(text, "defi".as_bytes()) || contains_slice(text, "yield".as_bytes()) {
        Strategy::DefiFocused
    } else if contains_slice(text, "cross".as_bytes()) || contains_slice(text, "chain".as_bytes()) {
        Strategy::CrossChain
    } else {
        Strategy::Balanced
    }
}

/// Classifies an intent by the keywords in its text, case aside.
pub fn classify_intent(intent_text: &str) -> (r: Strategy)
    ensures
        r == intent_strategy(intent_text@),
{
    let lower = lowercase(intent_text);
    classify_lowered(lower.as_str())
}

/// The classification recorded for a strategy.
pub open spec fn strategy_label(s: Strategy) -> Seq<char> {
    match s {
        Strategy::Conservative => "conservative"@,
        Strategy::Aggressive => "aggressive"@,
        Strategy::DefiFocused => "defi_focused"@,
        Strategy::CrossChain => "cross_chain"@,
        Strategy::Balanced => "balanced"@,
    }
}

/// The confidence score given to a strategy, in percent.
pub open spec fn strategy_confidence(s: Strategy) -> u8 {
    match s {
        Strategy::Conservative => 88,
        Strategy::Aggressive => 82,
        Strategy::DefiFocused => 85,
        Strategy::CrossChain => 90,
        Strategy::Balanced => 75,
    }
}

/// The reasoning given for a strategy.
pub open spec fn strategy_reasoning(s: Strategy) -> Seq<char> {
    match s {
        Strategy::Conservative => "Conservative strategy detected. Recommending increased allocation to stablecoins and established assets."@,
        Strategy::Aggressive => "Aggressive strategy detected. Recommending higher allocation to growth assets and emerging protocols."@,
        Strategy::DefiFocused => "DeFi strategy detected. Recommending diversified DeFi portfolio with yield farming focus."@,
        Strategy::CrossChain => "Cross-chain strategy detected. Recommending multi-chain diversification approach."@,
        Strategy::Balanced => "Balanced rebalancing strategy detected. Recommending risk-adjusted portfolio optimization."@,
    }
}

impl Strategy {
    pub fn label(&self) -> (r: String)
        ensures
            r@ == strategy_label(*self),
    {
        match self {
            Strategy::Conservative => String::from_str("conservative"),
            Strategy::Aggressive => String::from_str("aggressive"),
            Strategy::DefiFocused => String::from_str("defi_focused"),
            Strategy::CrossChain => String::from_str("cross_chain"),
            Strategy::Balanced => String::from_str("balanced"),
        }
    }

    pub fn confidence(&self) -> (r: u8)
        ensures
            r == strategy_confidence(*self),
    {
        match self {
            Strategy::Conservative => 88,
            Strategy::Aggressive => 82,
            Strategy::DefiFocused => 85,
            Strategy::CrossChain => 90,
            Strategy::Balanced => 75,
        }
    }

    pub fn reasoning(&self) -> (r: String)
        ensures
            r@ == strategy_reasoning(*self),
    {
        match self {
            Strategy::Conservative => String::from_str(
                "Conservative strategy detected. Recommending increased allocation to stablecoins and established assets.",
            ),
            Strategy::Aggressive => String::from_str(
                "Aggressive strategy detected. Recommending higher allocation to growth assets and emerging protocols.",
            ),
            Strategy::DefiFocused => String::from_str(
                "DeFi strategy detected. Recommending diversified DeFi portfolio with yield farming focus.",
            ),
            Strategy::CrossChain => String::from_str(
                "Cross-chain strategy detected. Recommending multi-chain diversification approach.",
            ),
            Strategy::Balanced => String::from_str(
                "Balanced rebalancing strategy detected. Recommending risk-adjusted portfolio optimization.",
            ),
        }
    }
}

pub open spec fn asset_of(
    symbol: Seq<char>,
    address: Seq<char>,
    balance: Seq<char>,
    chain: Seq<char>,
    value_usd: Seq<char>,
    percentage: Seq<char>,
) -> AssetView {
    AssetView {
        token_symbol: symbol,
        token_address: address,
        balance,
        chain,
        value_usd,
        percentage,
    }
}

/// The target allocation for a strategy. Strategies without a table of
/// their own get the balanced one.
pub open spec fn target_allocations(s: Strategy) -> Seq<AssetView> {
    match s {
        Strategy::Conservative => seq![
            asset_of("USDC"@, "usdc.token"@, "5000.0"@, "ethereum"@, "5000.0"@, "50.0"@),
            asset_of("ETH"@, "eth"@, "1.0"@, "ethereum"@, "2800.0"@, "28.0"@),
            asset_of("BTC"@, "btc"@, "0.05"@, "ethereum"@, "2200.0"@, "22.0"@),
        ],
        Strategy::Aggressive => seq![
            asset_of("ETH"@, "eth"@, "2.0"@, "ethereum"@, "5600.0"@, "40.0"@),
            asset_of("NEAR"@, "near"@, "2000.0"@, "near"@, "5000.0"@, "35.0"@),
            asset_of("UNI"@, "uni.token"@, "300.0"@, "ethereum"@, "2500.0"@, "25.0"@),
        ],
        _ => seq![
            asset_of("ETH"@, "eth"@, "1.5"@, "ethereum"@, "4200.0"@, "35.0"@),
            asset_of("USDC"@, "usdc.token"@, "3000.0"@, "ethereum"@, "3000.0"@, "25.0"@),
            asset_of("NEAR"@, "near"@, "1600.0"@, "near"@, "4000.0"@, "40.0"@),
        ],
    }
}

fn asset(
    symbol: &str,
    address: &str,
    balance: &str,
    chain: &str,
    value_usd: &str,
    percentage: &str,
) -> (r: PortfolioAsset)
    ensures
        r@ == asset_of(symbol@, address@, balance@, chain@, value_usd@, percentage@),
{
    PortfolioAsset {
        token_symbol: String::from_str(symbol),
        token_address: String::from_str(address),
        balance: String::from_str(balance),
        chain: String::from_str(chain),
        value_usd: String::from_str(value_usd),
        percentage: String::from_str(percentage),
    }
}

/// The target allocation for `strategy`.
pub fn generate_target_allocations(strategy: Strategy) -> (r: Vec<PortfolioAsset>)
    ensures
        assets_view(r@) == target_allocations(strategy),
{
    let mut allocations: Vec<PortfolioAsset> = Vec::new();
    match strategy {
        Strategy::Conservative => {
            allocations.push(asset("USDC", "usdc.token", "5000.0", "ethereum", "5000.0", "50.0"));
            allocations.push(asset("ETH", "eth", "1.0", "ethereum", "2800.0", "28.0"));
            allocations.push(asset("BTC", "btc", "0.05", "ethereum", "2200.0", "22.0"));
        },
        Strategy::Aggressive => {
            allocations.push(asset("ETH", "eth", "2.0", "ethereum", "5600.0", "40.0"));
            allocations.push(asset("NEAR", "near", "2000.0", "near", "5000.0", "35.0"));
            allocations.push(asset("UNI", "uni.token", "300.0", "ethereum", "2500.0", "25.0"));
        },
        _ => {
            allocations.push(asset("ETH", "eth", "1.5", "ethereum", "4200.0", "35.0"));
            allocations.push(asset("USDC", "usdc.token", "3000.0", "ethereum", "3000.0", "25.0"));
            allocations.push(asset("NEAR", "near", "1600.0", "near", "4000.0", "40.0"));
        },
    }
    assert(assets_view(allocations@) =~= target_allocations(strategy));
    allocations
}

/// Fixed part of the gas estimate, in US dollars.
pub const BASE_GAS_COST_USD: u128 = 15;

/// Gas estimate per trade, in US dollars.
pub const PER_TRADE_GAS_COST_USD: u128 = 8;

/// The gas estimate for `trades` trades, in dollars with two decimals.
pub open spec fn gas_estimate_text(trades: nat) -> Seq<char> {
    decimal((BASE_GAS_COST_USD + PER_TRADE_GAS_COST_USD * trades) as nat) + ".00"@
}

/// Estimates the gas cost, in dollars, of carrying out `allocations`: a
/// fixed part and a part per trade.
pub fn estimate_gas_costs(allocations: &[PortfolioAsset]) -> (r: String)
    ensures
        r@ == gas_estimate_text(allocations@.len()),
{
    let trades = allocations.len() as u128;
    let total = BASE_GAS_COST_USD + PER_TRADE_GAS_COST_USD * trades;
    decimal_text(total).concat(".00")
}

/// The fixed part of every execution plan.
pub open spec fn plan_steps() -> Seq<Seq<char>> {
    seq![
        "1. Analyze current portfolio positions"@,
        "2. Calculate required trades for rebalancing"@,
        "3. Optimize trade execution order"@,
        "4. Execute cross-chain trades via MPC"@,
        "5. Monitor trade execution and update status"@,
        "6. Verify final portfolio allocations"@,
        "7. Update user portfolio and health metrics"@,
    ]
}

/// The plan step that reaches one target allocation.
pub open spec fn trade_step(a: AssetView) -> Seq<char> {
    "Trade to achieve "@ + a.percentage + "% allocation in "@ + a.token_symbol
}

/// The execution plan for some target allocations.
pub open spec fn execution_steps(allocations: Seq<AssetView>) -> Seq<Seq<char>> {
    plan_steps() + allocations.map_values(|a: AssetView| trade_step(a))
}

/// The execution plan for `allocations`: the fixed steps, then one step per
/// allocation.
pub fn generate_execution_steps(allocations: &[PortfolioAsset]) -> (r: Vec<String>)
    ensures
        texts_view(r@) == execution_steps(assets_view(allocations@)),
{
    let mut steps: Vec<String> = Vec::new();
    steps.push(String::from_str("1. Analyze current portfolio positions"));
    steps.push(String::from_str("2. Calculate required trades for rebalancing"));
    steps.push(String::from_str("3. Optimize trade execution order"));
    steps.push(String::from_str("4. Execute cross-chain trades via MPC"));
    steps.push(String::from_str("5. Monitor trade execution and update status"));
    steps.push(String::from_str("6. Verify final portfolio allocations"));
    steps.push(String::from_str("7. Update user portfolio and health metrics"));
    assert(texts_view(steps@) =~= plan_steps());
    let mut i: usize = 0;
    while i < allocations.len()
        invariant
            i <= allocations@.len(),
            texts_view(steps@) == plan_steps() + assets_view(allocations@).subrange(
                0,
                i as int,
            ).map_values(|a: AssetView| trade_step(a)),
        decreases allocations.len() - i,
    {
        let a = &allocations[i];
        let mut step = String::from_str("Trade to achieve ");
        step.append(a.percentage.as_str());
        step.append("% allocation in ");
        step.append(a.token_symbol.as_str());
        assert(step@ == trade_step(a@));
        let ghost before = steps@;
        steps.push(step);
        assert(texts_view(steps@) =~= texts_view(before).push(trade_step(a@)));
        assert(assets_view(allocations@).subrange(0, i + 1).map_values(|a: AssetView| trade_step(a))
            =~= assets_view(allocations@).subrange(0, i as int).map_values(
            |a: AssetView| trade_step(a),
        ).push(trade_step(a@)));
        assert(texts_view(steps@) =~= plan_steps() + assets_view(allocations@).subrange(
            0,
            i + 1,
        ).map_values(|a: AssetView| trade_step(a)));
        i = i + 1;
    }
    assert(assets_view(allocations@).subrange(0, i as int) =~= assets_view(allocations@));
    steps
}

/// What the analysis of an intent produces.
#[derive(Clone, Debug)]
pub struct AIAnalysisResult {
    pub classification: String,
    pub confidence_score: u8,
    pub reasoning: String,
    pub target_allocations: Vec<PortfolioAsset>,
    pub estimated_gas_cost: String,
    pub execution_steps: Vec<String>,
}

/// `r` is the analysis that a strategy calls for.
pub open spec fn is_analysis_for(r: AIAnalysisResult, s: Strategy) -> bool {
    &&& r.classification@ == strategy_label(s)
    &&& r.confidence_score == strategy_confidence(s)
    &&& r.reasoning@ == strategy_reasoning(s)
    &&& assets_view(r.target_allocations@) == target_allocations(s)
    &&& r.estimated_gas_cost@ == gas_estimate_text(target_allocations(s).len())
    &&& texts_view(r.execution_steps@) == execution_steps(target_allocations(s))
}

/// The analysis that `strategy` calls for.
pub fn analysis_for(strategy: Strategy) -> (r: AIAnalysisResult)
    ensures
        is_analysis_for(r, strategy),
{
    let target_allocations = generate_target_allocations(strategy);
    let estimated_gas_cost = estimate_gas_costs(target_allocations.as_slice());
    let execution_steps = generate_execution_steps(target_allocations.as_slice());
    AIAnalysisResult {
        classification: strategy.label(),
        confidence_score: strategy.confidence(),
        reasoning: strategy.reasoning(),
        target_allocations,
        estimated_gas_cost,
        execution_steps,
    }
}

/// Analyses an intent: classifies its text and derives the target
/// allocation, gas estimate and execution plan of that strategy.
pub fn perform_ai_analysis(intent_text: &str) -> (r: AIAnalysisResult)
    ensures
        is_analysis_for(r, intent_strategy(intent_text@)),
{
    analysis_for(classify_intent(intent_text))
}

} // verus!
