//! Portfolio bookkeeping kept beside the trust gateway: users, their
//! preferences, portfolios and health, intents, trades, market data and
//! settings.
use crate::account::{is_account_id, is_valid_account_id};
use crate::error::PortfolioError;
use crate::gateway::{AIPortfolioRebalancer, GatewayView};
use crate::analysis::{
    execution_steps, gas_estimate_text, intent_strategy, perform_ai_analysis, strategy_confidence,
    strategy_label, strategy_reasoning, target_allocations, Strategy,
};
use crate::health::{calculate_portfolio_health, is_health_of};
use crate::records::{
    assets_view, copy_texts, texts_view, AssetView, HealthView, MarketAnalysis, PortfolioAsset,
    PortfolioHealth, RebalanceIntent, Trade, UserPreferences,
};
use crate::text::{decimal, decimal_text};
use vstd::hash_map::{HashMapWithView, StringHashMap};
use vstd::hash_set::{HashSetWithView, StringHashSet};
use vstd::prelude::*;

verus! {

/// The success rate a new contract reports, in percent.
pub const INITIAL_CONTRACT_SUCCESS_RATE: u8 = 95;

/// The bookkeeping part of the state.
pub ghost struct BookView {
    pub greeting: Seq<char>,
    pub users: Set<Seq<char>>,
    pub user_portfolios: Map<Seq<char>, Seq<AssetView>>,
    pub user_preferences: Map<Seq<char>, UserPreferences>,
    pub user_health: Map<Seq<char>, HealthView>,
    pub intents: Map<u64, RebalanceIntent>,
    pub next_intent_id: u64,
    pub user_intents: Map<Seq<char>, Seq<u64>>,
    pub trades: Map<u64, Trade>,
    pub next_trade_id: u64,
    pub active_rebalances: Set<u64>,
    pub market_analysis: Seq<char>,
    pub supported_chains: Seq<Seq<char>>,
    pub supported_assets: Seq<Seq<char>>,
    pub asset_prices: Map<Seq<char>, Seq<char>>,
    pub total_volume_usd: Seq<char>,
    pub total_users: u64,
    pub total_intents: u64,
    pub total_trades: u64,
    pub total_gas_saved: Seq<char>,
    pub success_rate: u8,
}

pub open spec fn initial_chains() -> Seq<Seq<char>> {
    seq!["ethereum"@, "near"@, "polygon"@, "arbitrum"@, "optimism"@, "avalanche"@, "bsc"@]
}

pub open spec fn initial_assets() -> Seq<Seq<char>> {
    seq![
        "BTC"@,
        "ETH"@,
        "NEAR"@,
        "USDC"@,
        "USDT"@,
        "DAI"@,
        "WETH"@,
        "WBTC"@,
        "LINK"@,
        "UNI"@,
        "AAVE"@,
        "COMP"@,
    ]
}

pub open spec fn initial_prices() -> Map<Seq<char>, Seq<char>> {
    Map::empty().insert("BTC"@, "42000.0"@).insert("ETH"@, "2800.0"@).insert("NEAR"@, "2.5"@).insert(
        "USDC"@,
        "1.0"@,
    ).insert("USDT"@, "1.0"@)
}

/// The bookkeeping of a new contract.
pub open spec fn initial_book() -> BookView {
    BookView {
        greeting: "AI Portfolio Rebalancer v3.0 - Production Ready with MPC & TEE"@,
        users: Set::empty(),
        user_portfolios: Map::empty(),
        user_preferences: Map::empty(),
        user_health: Map::empty(),
        intents: Map::empty(),
        next_intent_id: 1,
        user_intents: Map::empty(),
        trades: Map::empty(),
        next_trade_id: 1,
        active_rebalances: Set::empty(),
        market_analysis: "{}"@,
        supported_chains: initial_chains(),
        supported_assets: initial_assets(),
        asset_prices: initial_prices(),
        total_volume_usd: "0.0"@,
        total_users: 0,
        total_intents: 0,
        total_trades: 0,
        total_gas_saved: "0.0"@,
        success_rate: INITIAL_CONTRACT_SUCCESS_RATE,
    }
}

/// The preferences a newly registered user starts with.
pub open spec fn is_default_preferences(p: UserPreferences) -> bool {
    &&& p.risk_tolerance@ == "medium"@
    &&& p.investment_horizon@ == "medium"@
    &&& texts_view(p.preferred_chains@) == seq!["ethereum"@, "near"@]
    &&& p.excluded_assets@.len() == 0
    &&& p.rebalance_threshold@ == "5.0"@
    &&& !p.auto_rebalance
}

/// The bookkeeping once `user` is known: a new user is counted and gets an
/// empty portfolio, no intents and the preferences `defaults`.
pub open spec fn with_user(b: BookView, user: Seq<char>, defaults: UserPreferences) -> BookView {
    if b.users.contains(user) {
        b
    } else {
        BookView {
            users: b.users.insert(user),
            total_users: (b.total_users + 1) as u64,
            user_portfolios: b.user_portfolios.insert(user, Seq::empty()),
            user_intents: b.user_intents.insert(user, Seq::empty()),
            user_preferences: b.user_preferences.insert(user, defaults),
            ..b
        }
    }
}

/// The answer to a registration.
pub open spec fn registration_message(b: BookView, user: Seq<char>) -> Seq<char> {
    if b.users.contains(user) {
        "User "@ + user + " already registered"@
    } else {
        "User "@ + user + " registered successfully. Total users: "@ + decimal(
            (b.total_users + 1) as nat,
        )
    }
}

/// The contract summary line.
pub open spec fn contract_info(owner: Seq<char>, b: BookView) -> Seq<char> {
    "AI Portfolio Rebalancer v3.0 | Owner: "@ + owner + " | Users: "@ + decimal(b.total_users as nat)
        + " | Intents: "@ + decimal(b.total_intents as nat) + " | Trades: "@ + decimal(
        b.total_trades as nat,
    ) + " | Volume: $"@ + b.total_volume_usd
}

/// The result of an owner-only bookkeeping operation.
pub open spec fn owner_gate(owner: Seq<char>, caller: Seq<char>) -> Result<(), PortfolioError> {
    if caller == owner {
        Ok(())
    } else {
        Err(PortfolioError::Unauthorized)
    }
}

/// The ids of `user`'s intents so far (none if unknown).
pub open spec fn intents_of(b: BookView, user: Seq<char>) -> Seq<u64> {
    if b.user_intents.contains_key(user) {
        b.user_intents[user]
    } else {
        Seq::empty()
    }
}

/// `it` is the record of a newly submitted intent.
pub open spec fn is_new_intent(
    it: RebalanceIntent,
    id: u64,
    user: Seq<char>,
    text: Seq<char>,
    now: u64,
) -> bool {
    &&& it.id == id
    &&& it.user_id@ == user
    &&& it.intent_text@ == text
    &&& it.timestamp == now
    &&& it.classification@ == "analyzing"@
    &&& it.confidence_score == 0
    &&& it.target_allocations@.len() == 0
    &&& it.status@ == "analyzing"@
    &&& it.ai_analysis@ == "Processing intent with AI..."@
    &&& it.estimated_gas_cost@ == "0.0"@
    &&& it.execution_steps@.len() == 0
}

/// `it` is `prior` once analysed under strategy `s`, and ready to execute.
pub open spec fn is_analyzed_intent(it: RebalanceIntent, prior: RebalanceIntent, s: Strategy) -> bool {
    &&& it.id == prior.id
    &&& it.user_id == prior.user_id
    &&& it.intent_text == prior.intent_text
    &&& it.timestamp == prior.timestamp
    &&& it.classification@ == strategy_label(s)
    &&& it.confidence_score == strategy_confidence(s)
    &&& it.ai_analysis@ == strategy_reasoning(s)
    &&& assets_view(it.target_allocations@) == target_allocations(s)
    &&& it.estimated_gas_cost@ == gas_estimate_text(target_allocations(s).len())
    &&& texts_view(it.execution_steps@) == execution_steps(target_allocations(s))
    &&& it.status@ == "ready"@
}

/// `t` is `data` recorded as trade `id` of intent `intent_id` at `now`,
/// pending.
pub open spec fn is_recorded_trade(t: Trade, data: Trade, id: u64, intent_id: u64, now: u64) -> bool {
    &&& t.id == id
    &&& t.intent_id == intent_id
    &&& t.timestamp == now
    &&& t.status@ == "pending"@
    &&& t.from_asset == data.from_asset
    &&& t.to_asset == data.to_asset
    &&& t.from_chain == data.from_chain
    &&& t.to_chain == data.to_chain
    &&& t.amount == data.amount
    &&& t.expected_output == data.expected_output
    &&& t.actual_output == data.actual_output
    &&& t.tx_hash == data.tx_hash
    &&& t.gas_used == data.gas_used
}

/// `t` is trade `id` of a rebalance of intent `intent_id`, towards target `a`.
pub open spec fn is_rebalance_trade(t: Trade, id: u64, intent_id: u64, a: AssetView, now: u64) -> bool {
    &&& t.id == id
    &&& t.intent_id == intent_id
    &&& t.from_asset@ == "CURRENT"@
    &&& t.to_asset@ == a.token_symbol
    &&& t.from_chain@ == "ethereum"@
    &&& t.to_chain@ == a.chain
    &&& t.amount@ == a.balance
    &&& t.expected_output@ == a.value_usd
    &&& t.actual_output@ == "0.0"@
    &&& t.status@ == "pending"@
    &&& t.tx_hash@ == ""@
    &&& t.timestamp == now
    &&& t.gas_used@ == "0.0"@
}

/// `trades` is `prior` with one new trade per target of `targets`, numbered
/// from `first`.
pub open spec fn adds_rebalance_trades(
    trades: Map<u64, Trade>,
    prior: Map<u64, Trade>,
    first: u64,
    intent_id: u64,
    targets: Seq<AssetView>,
    now: u64,
) -> bool {
    &&& forall|k: int|
        0 <= k < targets.len() ==> #[trigger] trades.contains_key((first + k) as u64)
            && is_rebalance_trade(trades[(first + k) as u64], (first + k) as u64, intent_id, targets[k], now)
    &&& forall|t: u64|
        #[trigger] trades.contains_key(t) <==> (prior.contains_key(t) || (first <= t < first
            + targets.len()))
    &&& forall|t: u64|
        prior.contains_key(t) && !(first <= t < first + targets.len()) ==> #[trigger] trades[t]
            == prior[t]
}

/// What executing intent `intent_id` on behalf of `caller` comes to:
/// `Ok(true)` executes it, `Ok(false)` finds it not ready. A rebalance with
/// targets records its trades through the owner-only trade path, so anyone
/// else is refused then.
pub open spec fn rebalance_check(
    g: GatewayView,
    b: BookView,
    caller: Seq<char>,
    intent_id: u64,
) -> Result<bool, PortfolioError> {
    if !b.intents.contains_key(intent_id) {
        Err(PortfolioError::IntentNotFound)
    } else if caller != g.owner && caller != b.intents[intent_id].user_id@ {
        Err(PortfolioError::NotIntentParty)
    } else if b.intents[intent_id].status@ != "ready"@ {
        Ok(false)
    } else if caller != g.owner && b.intents[intent_id].target_allocations@.len() > 0 {
        Err(PortfolioError::Unauthorized)
    } else {
        Ok(true)
    }
}

/// The stored summary of a market analysis.
pub open spec fn market_analysis_json(a: MarketAnalysis) -> Seq<char> {
    "{\"timestamp\":"@ + decimal(a.timestamp as nat) + ",\"sentiment\":\""@ + a.sentiment@
        + "\",\"volatility\":\""@ + a.volatility@ + "\",\"confidence\":"@ + decimal(
        a.confidence as nat,
    ) + "}"@
}

/// The analysis reported while one is stored.
pub open spec fn is_reported_analysis(m: MarketAnalysis, now: u64) -> bool {
    &&& m.timestamp == now
    &&& m.sentiment@ == "bullish"@
    &&& m.volatility@ == "medium"@
    &&& m.confidence == 75
    &&& texts_view(m.key_metrics@) == seq!["Market looking positive"@]
    &&& texts_view(m.recommendations@) == seq!["Hold current positions"@]
    &&& m.market_cap_trend@ == "up"@
    &&& m.fear_greed_index == 60
}

/// The insights listed for the stored analysis.
pub open spec fn market_insights(stored: Seq<char>) -> Seq<Seq<char>> {
    if stored.len() == 0 {
        seq!["No recent market analysis available"@]
    } else {
        seq![
            "Market Sentiment: bullish (75% confidence)"@,
            "Volatility: medium"@,
            "Fear & Greed Index: 60"@,
            "Hold current positions"@,
        ]
    }
}

/// The analytics summary line.
pub open spec fn analytics_line(b: BookView) -> Seq<char> {
    "Portfolio Rebalancer Analytics | Users: "@ + decimal(b.total_users as nat) + " | Intents: "@
        + decimal(b.total_intents as nat) + " | Trades: "@ + decimal(b.total_trades as nat)
        + " | Volume: $"@ + b.total_volume_usd + " | Success Rate: "@ + decimal(
        b.success_rate as nat,
    ) + "% | Gas Saved: $"@ + b.total_gas_saved
}

/// The statistics line of a user.
pub open spec fn user_statistics(b: BookView, user: Seq<char>) -> Seq<char> {
    "User Statistics for "@ + user + " | Intents: "@ + decimal(intents_of(b, user).len())
        + " | Portfolio Assets: "@ + decimal(
        if b.user_portfolios.contains_key(user) {
            b.user_portfolios[user].len()
        } else {
            0
        },
    ) + " | Health Grade: "@ + (if b.user_health.contains_key(user) {
        b.user_health[user].grade
    } else {
        "Not analyzed"@
    })
}

/// `list` with `item` added at the end, unless already there.
pub open spec fn with_item(list: Seq<Seq<char>>, item: Seq<char>) -> Seq<Seq<char>> {
    if list.contains(item) {
        list
    } else {
        list.push(item)
    }
}

fn contains_text(list: &Vec<String>, item: &String) -> (r: bool)
    ensures
        r == texts_view(list@).contains(item@),
{
    let mut i: usize = 0;
    while i < list.len()
        invariant
            i <= list@.len(),
            forall|j: int| 0 <= j < i ==> list@[j]@ != item@,
        decreases list.len() - i,
    {
        if list[i] == *item {
            assert(texts_view(list@)[i as int] == item@);
            return true;
        }
        i = i + 1;
    }
    assert forall|j: int| 0 <= j < texts_view(list@).len() implies texts_view(list@)[j] != item@ by {
        assert(list@[j]@ != item@);
    }
    false
}

fn copy_ids(ids: &Vec<u64>) -> (r: Vec<u64>)
    ensures
        r@ == ids@,
{
    let mut r: Vec<u64> = Vec::new();
    let mut i: usize = 0;
    while i < ids.len()
        invariant
            i <= ids@.len(),
            r@ == ids@.subrange(0, i as int),
        decreases ids.len() - i,
    {
        r.push(ids[i]);
        assert(r@ =~= ids@.subrange(0, i + 1));
        i = i + 1;
    }
    assert(ids@.subrange(0, i as int) =~= ids@);
    r
}

fn default_preferences() -> (r: UserPreferences)
    ensures
        is_default_preferences(r),
{
    let mut preferred_chains: Vec<String> = Vec::new();
    preferred_chains.push(String::from_str("ethereum"));
    preferred_chains.push(String::from_str("near"));
    assert(texts_view(preferred_chains@) =~= seq!["ethereum"@, "near"@]);
    UserPreferences {
        risk_tolerance: String::from_str("medium"),
        investment_horizon: String::from_str("medium"),
        preferred_chains,
        excluded_assets: Vec::new(),
        rebalance_threshold: String::from_str("5.0"),
        auto_rebalance: false,
    }
}

/// Text of a counter.
fn count_text(n: u64) -> (r: String)
    ensures
        r@ == decimal(n as nat),
{
    decimal_text(n as u128)
}

impl AIPortfolioRebalancer {
    /// The bookkeeping part of the state.
    pub open spec fn book(&self) -> BookView {
        BookView {
            greeting: self.greeting@,
            users: self.users@,
            user_portfolios: self.user_portfolios@.map_values(
                |p: Vec<PortfolioAsset>| assets_view(p@),
            ),
            user_preferences: self.user_preferences@,
            user_health: self.user_health@.map_values(|h: PortfolioHealth| h@),
            intents: self.intents@,
            next_intent_id: self.next_intent_id,
            user_intents: self.user_intents@.map_values(|ids: Vec<u64>| ids@),
            trades: self.trades@,
            next_trade_id: self.next_trade_id,
            active_rebalances: self.active_rebalances@,
            market_analysis: self.latest_market_analysis_json@,
            supported_chains: texts_view(self.supported_chains@),
            supported_assets: texts_view(self.supported_assets@),
            asset_prices: self.asset_prices@.map_values(|p: String| p@),
            total_volume_usd: self.total_volume_usd@,
            total_users: self.total_users,
            total_intents: self.total_intents,
            total_trades: self.total_trades,
            total_gas_saved: self.total_gas_saved@,
            success_rate: self.success_rate,
        }
    }

    /// A contract owned by `owner_id`: an empty allowlist, no workers, no
    /// users, the initial chains, assets and prices. Fails if `owner_id` is
    /// not a valid account name.
    pub fn new(owner_id: String) -> (r: Result<Self, PortfolioError>)
        ensures
            r is Err <==> !is_valid_account_id(owner_id@),
            r is Err ==> r == Err::<Self, PortfolioError>(PortfolioError::InvalidAccountId),
            r is Ok ==> r->Ok_0@ == (GatewayView {
                owner: owner_id@,
                allowlist: Set::empty(),
                workers: Map::empty(),
            }),
            r is Ok ==> r->Ok_0.book() == initial_book(),
    {
        if !is_account_id(owner_id.as_str()) {
            return Err(PortfolioError::InvalidAccountId);
        }
        let mut supported_chains: Vec<String> = Vec::new();
        supported_chains.push(String::from_str("ethereum"));
        supported_chains.push(String::from_str("near"));
        supported_chains.push(String::from_str("polygon"));
        supported_chains.push(String::from_str("arbitrum"));
        supported_chains.push(String::from_str("optimism"));
        supported_chains.push(String::from_str("avalanche"));
        supported_chains.push(String::from_str("bsc"));
        assert(texts_view(supported_chains@) =~= initial_chains());
        let mut supported_assets: Vec<String> = Vec::new();
        supported_assets.push(String::from_str("BTC"));
        supported_assets.push(String::from_str("ETH"));
        supported_assets.push(String::from_str("NEAR"));
        supported_assets.push(String::from_str("USDC"));
        supported_assets.push(String::from_str("USDT"));
        supported_assets.push(String::from_str("DAI"));
        supported_assets.push(String::from_str("WETH"));
        supported_assets.push(String::from_str("WBTC"));
        supported_assets.push(String::from_str("LINK"));
        supported_assets.push(String::from_str("UNI"));
        supported_assets.push(String::from_str("AAVE"));
        supported_assets.push(String::from_str("COMP"));
        assert(texts_view(supported_assets@) =~= initial_assets());
        let mut asset_prices: StringHashMap<String> = StringHashMap::new();
        asset_prices.insert(String::from_str("BTC"), String::from_str("42000.0"));
        asset_prices.insert(String::from_str("ETH"), String::from_str("2800.0"));
        asset_prices.insert(String::from_str("NEAR"), String::from_str("2.5"));
        asset_prices.insert(String::from_str("USDC"), String::from_str("1.0"));
        asset_prices.insert(String::from_str("USDT"), String::from_str("1.0"));
        assert(asset_prices@.map_values(|p: String| p@) =~= initial_prices());
        let r = AIPortfolioRebalancer {
            owner_id,
            greeting: String::from_str("AI Portfolio Rebalancer v3.0 - Production Ready with MPC & TEE"),
            users: StringHashSet::new(),
            user_portfolios: StringHashMap::new(),
            user_preferences: StringHashMap::new(),
            user_health: StringHashMap::new(),
            intents: HashMapWithView::new(),
            next_intent_id: 1,
            user_intents: StringHashMap::new(),
            trades: HashMapWithView::new(),
            next_trade_id: 1,
            active_rebalances: HashSetWithView::new(),
            approved_codehashes: StringHashSet::new(),
            worker_by_account_id: StringHashMap::new(),
            latest_market_analysis_json: String::from_str("{}"),
            supported_chains,
            supported_assets,
            asset_prices,
            total_volume_usd: String::from_str("0.0"),
            total_users: 0,
            total_intents: 0,
            total_trades: 0,
            total_gas_saved: String::from_str("0.0"),
            success_rate: INITIAL_CONTRACT_SUCCESS_RATE,
        };
        assert(r@.workers =~= Map::empty());
        assert(r.book().user_portfolios =~= Map::empty());
        assert(r.book().user_health =~= Map::empty());
        assert(r.book().user_intents =~= Map::empty());
        Ok(r)
    }

    pub fn get_greeting(&self) -> (r: String)
        ensures
            r@ == self.book().greeting,
    {
        self.greeting.clone()
    }

    /// Replaces the greeting; only the owner may.
    pub fn set_greeting(&mut self, caller: &String, greeting: String) -> (r: Result<
        (),
        PortfolioError,
    >)
        ensures
            r == owner_gate(old(self)@.owner, caller@),
            final(self)@ == old(self)@,
            final(self).book() == (if r is Ok {
                BookView { greeting: greeting@, ..old(self).book() }
            } else {
                old(self).book()
            }),
    {
        if *caller != self.owner_id {
            return Err(PortfolioError::Unauthorized);
        }
        self.greeting = greeting;
        Ok(())
    }

    /// A one-line summary of the owner and the counters.
    pub fn get_contract_info(&self) -> (r: String)
        ensures
            r@ == contract_info(self@.owner, self.book()),
    {
        String::from_str("AI Portfolio Rebalancer v3.0 | Owner: ").concat(self.owner_id.as_str()).concat(
            " | Users: ",
        ).concat(count_text(self.total_users).as_str()).concat(" | Intents: ").concat(
            count_text(self.total_intents).as_str(),
        ).concat(" | Trades: ").concat(count_text(self.total_trades).as_str()).concat(
            " | Volume: $",
        ).concat(self.total_volume_usd.as_str())
    }

    /// Registers `caller` as a user, unless it already is one.
    pub fn register_user(&mut self, caller: &String) -> (r: String)
        requires
            old(self).total_users < u64::MAX,
        ensures
            r@ == registration_message(old(self).book(), caller@),
            final(self)@ == old(self)@,
            final(self).book() == with_user(
                old(self).book(),
                caller@,
                final(self).book().user_preferences[caller@],
            ),
            !old(self).book().users.contains(caller@) ==> is_default_preferences(
                final(self).book().user_preferences[caller@],
            ),
    {
        if self.users.contains(caller.as_str()) {
            return String::from_str("User ").concat(caller.as_str()).concat(" already registered");
        }
        let ghost before = self.book();
        self.users.insert(caller.clone());
        self.total_users = self.total_users + 1;
        let empty_portfolio: Vec<PortfolioAsset> = Vec::new();
        assert(assets_view(empty_portfolio@) =~= Seq::empty());
        self.user_portfolios.insert(caller.clone(), empty_portfolio);
        let empty_intents: Vec<u64> = Vec::new();
        self.user_intents.insert(caller.clone(), empty_intents);
        let defaults = default_preferences();
        self.user_preferences.insert(caller.clone(), defaults);
        assert(self.book().user_portfolios =~= before.user_portfolios.insert(caller@, Seq::empty()));
        assert(self.book().user_intents =~= before.user_intents.insert(caller@, Seq::empty()));
        String::from_str("User ").concat(caller.as_str()).concat(
            " registered successfully. Total users: ",
        ).concat(count_text(self.total_users).as_str())
    }

    /// Sets `caller`'s preferences, registering `caller` first if needed.
    pub fn set_user_preferences(&mut self, caller: &String, preferences: UserPreferences) -> (r:
        String)
        requires
            old(self).total_users < u64::MAX,
        ensures
            r@ == "User preferences updated successfully"@,
            final(self)@ == old(self)@,
            final(self).book() == ({
                let b = with_user(old(self).book(), caller@, preferences);
                BookView { user_preferences: b.user_preferences.insert(caller@, preferences), ..b }
            }),
    {
        let ghost start = self.book();
        if !self.users.contains(caller.as_str()) {
            self.register_user(caller);
        }
        self.user_preferences.insert(caller.clone(), preferences);
        assert(self.book().user_preferences =~= with_user(
            start,
            caller@,
            preferences,
        ).user_preferences.insert(caller@, preferences));
        String::from_str("User preferences updated successfully")
    }

    pub fn get_user_preferences(&self, user_id: &str) -> (r: Option<&UserPreferences>)
        ensures
            match r {
                Some(p) => self.book().user_preferences.contains_key(user_id@) && *p
                    == self.book().user_preferences[user_id@],
                None => !self.book().user_preferences.contains_key(user_id@),
            },
    {
        self.user_preferences.get(user_id)
    }

    /// Sets `caller`'s portfolio, registering `caller` first if needed, and
    /// reassesses its health with the given risk and concentration scores.
    pub fn set_user_portfolio(
        &mut self,
        caller: &String,
        portfolio: Vec<PortfolioAsset>,
        risk_score: u8,
        concentration_risk: u8,
        now: u64,
    ) -> (r: String)
        requires
            old(self).total_users < u64::MAX,
            concentration_risk <= 100,
        ensures
            r@ == "Portfolio updated successfully"@,
            final(self)@ == old(self)@,
            final(self).book() == ({
                let b = with_user(
                    old(self).book(),
                    caller@,
                    final(self).book().user_preferences[caller@],
                );
                BookView {
                    user_portfolios: b.user_portfolios.insert(caller@, assets_view(portfolio@)),
                    user_health: b.user_health.insert(
                        caller@,
                        final(self).book().user_health[caller@],
                    ),
                    ..b
                }
            }),
            !old(self).book().users.contains(caller@) ==> is_default_preferences(
                final(self).book().user_preferences[caller@],
            ),
            is_health_of(
                final(self).book().user_health[caller@],
                assets_view(portfolio@),
                caller@,
                risk_score,
                concentration_risk,
                now,
            ),
    {
        if !self.users.contains(caller.as_str()) {
            self.register_user(caller);
        }
        let ghost registered = self.book();
        let health = calculate_portfolio_health(
            portfolio.as_slice(),
            caller.as_str(),
            risk_score,
            concentration_risk,
            now,
        );
        self.user_portfolios.insert(caller.clone(), portfolio);
        self.user_health.insert(caller.clone(), health);
        assert(self.book().user_portfolios =~= registered.user_portfolios.insert(
            caller@,
            assets_view(portfolio@),
        ));
        assert(self.book().user_health =~= registered.user_health.insert(
            caller@,
            self.book().user_health[caller@],
        ));
        String::from_str("Portfolio updated successfully")
    }

    pub fn get_user_portfolio(&self, user_id: &str) -> (r: Option<&Vec<PortfolioAsset>>)
        ensures
            match r {
                Some(p) => self.book().user_portfolios.contains_key(user_id@) && assets_view(p@)
                    == self.book().user_portfolios[user_id@],
                None => !self.book().user_portfolios.contains_key(user_id@),
            },
    {
        self.user_portfolios.get(user_id)
    }

    /// Reassesses the health of `user_id`'s stored portfolio (empty if none)
    /// with the given risk and concentration scores, records it and returns it.
    pub fn analyze_portfolio_health(
        &mut self,
        user_id: &String,
        risk_score: u8,
        concentration_risk: u8,
        now: u64,
    ) -> (r: PortfolioHealth)
        requires
            concentration_risk <= 100,
        ensures
            is_health_of(
                r@,
                if old(self).book().user_portfolios.contains_key(user_id@) {
                    old(self).book().user_portfolios[user_id@]
                } else {
                    Seq::empty()
                },
                user_id@,
                risk_score,
                concentration_risk,
                now,
            ),
            final(self)@ == old(self)@,
            final(self).book() == (BookView {
                user_health: old(self).book().user_health.insert(user_id@, r@),
                ..old(self).book()
            }),
    {
        let health = match self.user_portfolios.get(user_id.as_str()) {
            Some(portfolio) => calculate_portfolio_health(
                portfolio.as_slice(),
                user_id.as_str(),
                risk_score,
                concentration_risk,
                now,
            ),
            None => {
                let empty: Vec<PortfolioAsset> = Vec::new();
                assert(assets_view(empty@) =~= Seq::empty());
                calculate_portfolio_health(
                    empty.as_slice(),
                    user_id.as_str(),
                    risk_score,
                    concentration_risk,
                    now,
                )
            },
        };
        let ghost before = self.book();
        self.user_health.insert(user_id.clone(), health.copied());
        assert(self.book().user_health =~= before.user_health.insert(user_id@, health@));
        health
    }

    pub fn get_portfolio_health(&self, user_id: &str) -> (r: Option<&PortfolioHealth>)
        ensures
            match r {
                Some(h) => self.book().user_health.contains_key(user_id@) && h@
                    == self.book().user_health[user_id@],
                None => !self.book().user_health.contains_key(user_id@),
            },
    {
        self.user_health.get(user_id)
    }

    /// Records a new intent of `caller` with text `intent_text`, registering
    /// `caller` first if needed, and returns its id.
    pub fn submit_intent(&mut self, caller: &String, intent_text: String, now: u64) -> (r: u64)
        requires
            old(self).total_users < u64::MAX,
            old(self).next_intent_id < u64::MAX,
            old(self).total_intents < u64::MAX,
        ensures
            r == old(self).next_intent_id,
            final(self)@ == old(self)@,
            final(self).book() == ({
                let b = with_user(
                    old(self).book(),
                    caller@,
                    final(self).book().user_preferences[caller@],
                );
                BookView {
                    intents: b.intents.insert(r, final(self).book().intents[r]),
                    next_intent_id: (r + 1) as u64,
                    total_intents: (b.total_intents + 1) as u64,
                    user_intents: b.user_intents.insert(caller@, intents_of(b, caller@).push(r)),
                    ..b
                }
            }),
            is_new_intent(final(self).book().intents[r], r, caller@, intent_text@, now),
            !old(self).book().users.contains(caller@) ==> is_default_preferences(
                final(self).book().user_preferences[caller@],
            ),
    {
        if !self.users.contains(caller.as_str()) {
            self.register_user(caller);
        }
        let ghost b = self.book();
        let intent_id = self.next_intent_id;
        self.next_intent_id = intent_id + 1;
        self.total_intents = self.total_intents + 1;
        let intent = RebalanceIntent {
            id: intent_id,
            user_id: caller.clone(),
            intent_text,
            timestamp: now,
            classification: String::from_str("analyzing"),
            confidence_score: 0,
            target_allocations: Vec::new(),
            status: String::from_str("analyzing"),
            ai_analysis: String::from_str("Processing intent with AI..."),
            estimated_gas_cost: String::from_str("0.0"),
            execution_steps: Vec::new(),
        };
        self.intents.insert(intent_id, intent);
        let mut ids = match self.user_intents.get(caller.as_str()) {
            Some(ids) => copy_ids(ids),
            None => Vec::new(),
        };
        assert(ids@ == intents_of(b, caller@));
        ids.push(intent_id);
        self.user_intents.insert(caller.clone(), ids);
        assert(self.book().user_intents =~= b.user_intents.insert(
            caller@,
            intents_of(b, caller@).push(intent_id),
        ));
        intent_id
    }

    /// Analyses intent `intent_id`: records the strategy its text asks for,
    /// with the allocation, gas estimate and plan that follow, marks it ready
    /// and returns the reasoning. `None`, with nothing changed, if there is no
    /// such intent.
    pub fn analyze_intent(&mut self, intent_id: u64) -> (r: Option<String>)
        ensures
            final(self)@ == old(self)@,
            !old(self).book().intents.contains_key(intent_id) ==> r is None && final(self).book()
                == old(self).book(),
            old(self).book().intents.contains_key(intent_id) ==> ({
                let prior = old(self).book().intents[intent_id];
                let s = intent_strategy(prior.intent_text@);
                &&& r is Some
                &&& r->Some_0@ == strategy_reasoning(s)
                &&& final(self).book() == (BookView {
                    intents: old(self).book().intents.insert(
                        intent_id,
                        final(self).book().intents[intent_id],
                    ),
                    ..old(self).book()
                })
                &&& is_analyzed_intent(final(self).book().intents[intent_id], prior, s)
            }),
    {
        let ghost b = self.book();
        let mut intent = match self.intents.remove(&intent_id) {
            Some(intent) => intent,
            None => return None,
        };
        let analysis = perform_ai_analysis(intent.intent_text.as_str());
        let reasoning = analysis.reasoning.clone();
        intent.classification = analysis.classification;
        intent.confidence_score = analysis.confidence_score;
        intent.ai_analysis = analysis.reasoning;
        intent.target_allocations = analysis.target_allocations;
        intent.estimated_gas_cost = analysis.estimated_gas_cost;
        intent.execution_steps = analysis.execution_steps;
        intent.status = String::from_str("ready");
        self.intents.insert(intent_id, intent);
        assert(self.book().intents =~= b.intents.insert(intent_id, self.book().intents[intent_id]));
        Some(reasoning)
    }

    pub fn get_intent(&self, intent_id: u64) -> (r: Option<&RebalanceIntent>)
        ensures
            match r {
                Some(it) => self.book().intents.contains_key(intent_id) && *it == self.book().intents[intent_id],
                None => !self.book().intents.contains_key(intent_id),
            },
    {
        self.intents.get(&intent_id)
    }

    /// The ids of `user_id`'s intents, oldest first (none if unknown).
    pub fn get_user_intents(&self, user_id: &str) -> (r: Vec<u64>)
        ensures
            r@ == intents_of(self.book(), user_id@),
    {
        match self.user_intents.get(user_id) {
            Some(ids) => copy_ids(ids),
            None => Vec::new(),
        }
    }

    /// Records `data` as the next trade of intent `intent_id`, pending, at `now`.
    fn record_trade(&mut self, intent_id: u64, data: Trade, now: u64) -> (r: u64)
        requires
            old(self).next_trade_id < u64::MAX,
            old(self).total_trades < u64::MAX,
        ensures
            r == old(self).next_trade_id,
            final(self)@ == old(self)@,
            final(self).book() == (BookView {
                trades: old(self).book().trades.insert(r, final(self).book().trades[r]),
                next_trade_id: (r + 1) as u64,
                total_trades: (old(self).total_trades + 1) as u64,
                ..old(self).book()
            }),
            is_recorded_trade(final(self).book().trades[r], data, r, intent_id, now),
    {
        let trade_id = self.next_trade_id;
        self.next_trade_id = trade_id + 1;
        self.total_trades = self.total_trades + 1;
        let mut trade = data;
        trade.id = trade_id;
        trade.intent_id = intent_id;
        trade.timestamp = now;
        trade.status = String::from_str("pending");
        self.trades.insert(trade_id, trade);
        trade_id
    }

    /// Records `trade_data` as the next trade of intent `intent_id`, pending,
    /// at `now`, and returns its id; only the owner may.
    pub fn create_trade(&mut self, caller: &String, intent_id: u64, trade_data: Trade, now: u64) -> (r:
        Result<u64, PortfolioError>)
        requires
            old(self).next_trade_id < u64::MAX,
            old(self).total_trades < u64::MAX,
        ensures
            final(self)@ == old(self)@,
            caller@ != old(self)@.owner ==> r == Err::<u64, PortfolioError>(PortfolioError::Unauthorized)
                && final(self).book() == old(self).book(),
            caller@ == old(self)@.owner ==> r == Ok::<u64, PortfolioError>(old(self).next_trade_id)
                && final(self).book() == (BookView {
                trades: old(self).book().trades.insert(
                    old(self).next_trade_id,
                    final(self).book().trades[old(self).next_trade_id],
                ),
                next_trade_id: (old(self).next_trade_id + 1) as u64,
                total_trades: (old(self).total_trades + 1) as u64,
                ..old(self).book()
            }) && is_recorded_trade(
                final(self).book().trades[old(self).next_trade_id],
                trade_data,
                old(self).next_trade_id,
                intent_id,
                now,
            ),
    {
        if *caller != self.owner_id {
            return Err(PortfolioError::Unauthorized);
        }
        Ok(self.record_trade(intent_id, trade_data, now))
    }

    /// Records the outcome of trade `trade_id`; only the owner may.
    pub fn update_trade_status(
        &mut self,
        caller: &String,
        trade_id: u64,
        status: String,
        tx_hash: String,
        actual_output: String,
    ) -> (r: Result<String, PortfolioError>)
        ensures
            final(self)@ == old(self)@,
            caller@ != old(self)@.owner ==> r == Err::<String, PortfolioError>(PortfolioError::Unauthorized)
                && final(self).book() == old(self).book(),
            caller@ == old(self)@.owner && !old(self).book().trades.contains_key(trade_id) ==> r
                == Err::<String, PortfolioError>(PortfolioError::TradeNotFound) && final(self).book()
                == old(self).book(),
            caller@ == old(self)@.owner && old(self).book().trades.contains_key(trade_id) ==> r is Ok
                && r->Ok_0@ == "Trade status updated successfully"@ && final(self).book() == (BookView {
                trades: old(self).book().trades.insert(
                    trade_id,
                    Trade { status, tx_hash, actual_output, ..old(self).book().trades[trade_id] },
                ),
                ..old(self).book()
            }),
    {
        if *caller != self.owner_id {
            return Err(PortfolioError::Unauthorized);
        }
        let ghost b = self.book();
        let mut trade = match self.trades.remove(&trade_id) {
            Some(trade) => trade,
            None => return Err(PortfolioError::TradeNotFound),
        };
        trade.status = status;
        trade.tx_hash = tx_hash;
        trade.actual_output = actual_output;
        self.trades.insert(trade_id, trade);
        assert(self.book().trades =~= b.trades.insert(trade_id, trade));
        Ok(String::from_str("Trade status updated successfully"))
    }

    pub fn get_trade(&self, trade_id: u64) -> (r: Option<&Trade>)
        ensures
            match r {
                Some(t) => self.book().trades.contains_key(trade_id) && *t == self.book().trades[trade_id],
                None => !self.book().trades.contains_key(trade_id),
            },
    {
        self.trades.get(&trade_id)
    }

    /// Records one pending trade per target of intent `intent_id`.
    fn generate_trades_from_intent(&mut self, intent_id: u64, targets: &Vec<PortfolioAsset>, now: u64)
        requires
            old(self).next_trade_id + targets@.len() <= u64::MAX,
            old(self).total_trades + targets@.len() <= u64::MAX,
        ensures
            final(self)@ == old(self)@,
            final(self).book() == (BookView {
                trades: final(self).book().trades,
                next_trade_id: (old(self).next_trade_id + targets@.len()) as u64,
                total_trades: (old(self).total_trades + targets@.len()) as u64,
                ..old(self).book()
            }),
            adds_rebalance_trades(
                final(self).book().trades,
                old(self).book().trades,
                old(self).next_trade_id,
                intent_id,
                assets_view(targets@),
                now,
            ),
    {
        let ghost b = self.book();
        let ghost g = self@;
        let ghost first = self.next_trade_id;
        let ghost all = assets_view(targets@);
        let mut k: usize = 0;
        while k < targets.len()
            invariant
                k <= targets@.len(),
                all == assets_view(targets@),
                self@ == g,
                first == b.next_trade_id,
                self.next_trade_id == first + k,
                self.total_trades == b.total_trades + k,
                first + targets@.len() <= u64::MAX,
                b.total_trades + targets@.len() <= u64::MAX,
                self.book() == (BookView {
                    trades: self.book().trades,
                    next_trade_id: self.next_trade_id,
                    total_trades: self.total_trades,
                    ..b
                }),
                adds_rebalance_trades(
                    self.book().trades,
                    b.trades,
                    first,
                    intent_id,
                    all.subrange(0, k as int),
                    now,
                ),
            decreases targets.len() - k,
        {
            let a = &targets[k];
            let data = Trade {
                id: 0,
                intent_id,
                from_asset: String::from_str("CURRENT"),
                to_asset: a.token_symbol.clone(),
                from_chain: String::from_str("ethereum"),
                to_chain: a.chain.clone(),
                amount: a.balance.clone(),
                expected_output: a.value_usd.clone(),
                actual_output: String::from_str("0.0"),
                status: String::from_str("pending"),
                tx_hash: String::from_str(""),
                timestamp: 0,
                gas_used: String::from_str("0.0"),
            };
            let ghost before = self.book().trades;
            let trade_id = self.record_trade(intent_id, data, now);
            proof {
                let done = all.subrange(0, k as int);
                let next = all.subrange(0, k + 1);
                assert(all[k as int] == a@);
                assert forall|j: int| 0 <= j < next.len() implies #[trigger] self.book().trades.contains_key(
                    (first + j) as u64,
                ) && is_rebalance_trade(
                    self.book().trades[(first + j) as u64],
                    (first + j) as u64,
                    intent_id,
                    next[j],
                    now,
                ) by {
                    if j < k {
                        assert(next[j] == done[j]);
                        assert(before.contains_key((first + j) as u64));
                    } else {
                        assert((first + j) as u64 == trade_id);
                        assert(next[j] == a@);
                    }
                }
                assert forall|t: u64|
                    #[trigger] self.book().trades.contains_key(t) <==> (b.trades.contains_key(t) || (first
                        <= t < first + next.len())) by {
                    if t == trade_id {
                    } else {
                        assert(self.book().trades.contains_key(t) == before.contains_key(t));
                    }
                }
            }
            k = k + 1;
        }
        assert(all.subrange(0, k as int) =~= all);
    }

    /// Starts the rebalance of intent `intent_id` for `caller`: marks the
    /// intent executing, lists it as an active rebalance and records one
    /// pending trade per target allocation.
    pub fn execute_rebalance(&mut self, caller: &String, intent_id: u64, now: u64) -> (r: Result<
        String,
        PortfolioError,
    >)
        requires
            old(self).book().intents.contains_key(intent_id) ==> old(self).next_trade_id
                + old(self).book().intents[intent_id].target_allocations@.len() <= u64::MAX,
            old(self).book().intents.contains_key(intent_id) ==> old(self).total_trades
                + old(self).book().intents[intent_id].target_allocations@.len() <= u64::MAX,
        ensures
            final(self)@ == old(self)@,
            match rebalance_check(old(self)@, old(self).book(), caller@, intent_id) {
                Err(e) => r == Err::<String, PortfolioError>(e)
                    && final(self).book() == old(self).book(),
                Ok(false) => r is Ok && r->Ok_0@ == "Intent not ready for execution"@
                    && final(self).book() == old(self).book(),
                Ok(true) => ({
                    let prior = old(self).book().intents[intent_id];
                    let n = prior.target_allocations@.len();
                    &&& r is Ok
                    &&& r->Ok_0@ == "Rebalance execution initiated for intent "@ + decimal(
                        intent_id as nat,
                    ) + ". Trades will be processed automatically."@
                    &&& final(self).book() == (BookView {
                        intents: old(self).book().intents.insert(
                            intent_id,
                            RebalanceIntent {
                                status: final(self).book().intents[intent_id].status,
                                ..prior
                            },
                        ),
                        active_rebalances: old(self).book().active_rebalances.insert(intent_id),
                        trades: final(self).book().trades,
                        next_trade_id: (old(self).next_trade_id + n) as u64,
                        total_trades: (old(self).total_trades + n) as u64,
                        ..old(self).book()
                    })
                    &&& final(self).book().intents[intent_id].status@ == "executing"@
                    &&& adds_rebalance_trades(
                        final(self).book().trades,
                        old(self).book().trades,
                        old(self).next_trade_id,
                        intent_id,
                        assets_view(prior.target_allocations@),
                        now,
                    )
                }),
            },
    {
        let ghost b = self.book();
        let (is_party, is_ready, has_targets) = match self.intents.get(&intent_id) {
            Some(intent) => (
                *caller == self.owner_id || *caller == intent.user_id,
                intent.status == String::from_str("ready"),
                intent.target_allocations.len() > 0,
            ),
            None => return Err(PortfolioError::IntentNotFound),
        };
        if !is_party {
            return Err(PortfolioError::NotIntentParty);
        }
        if !is_ready {
            return Ok(String::from_str("Intent not ready for execution"));
        }
        if *caller != self.owner_id && has_targets {
            return Err(PortfolioError::Unauthorized);
        }
        let mut intent = match self.intents.remove(&intent_id) {
            Some(intent) => intent,
            None => return Err(PortfolioError::IntentNotFound),
        };
        let ghost removed = self.book();
        self.generate_trades_from_intent(intent_id, &intent.target_allocations, now);
        intent.status = String::from_str("executing");
        self.intents.insert(intent_id, intent);
        self.active_rebalances.insert(intent_id);
        assert(self.book().intents =~= b.intents.insert(intent_id, intent));
        Ok(
            String::from_str("Rebalance execution initiated for intent ").concat(
                count_text(intent_id).as_str(),
            ).concat(". Trades will be processed automatically."),
        )
    }

    /// Stores a summary of `analysis`; only the owner may.
    pub fn store_market_analysis(&mut self, caller: &String, analysis: MarketAnalysis) -> (r: Result<
        String,
        PortfolioError,
    >)
        ensures
            final(self)@ == old(self)@,
            caller@ != old(self)@.owner ==> r == Err::<String, PortfolioError>(PortfolioError::Unauthorized)
                && final(self).book() == old(self).book(),
            caller@ == old(self)@.owner ==> r is Ok && r->Ok_0@ == "Market analysis stored successfully"@
                && final(self).book() == (BookView {
                market_analysis: market_analysis_json(analysis),
                ..old(self).book()
            }),
    {
        if *caller != self.owner_id {
            return Err(PortfolioError::Unauthorized);
        }
        self.latest_market_analysis_json = String::from_str("{\"timestamp\":").concat(
            decimal_text(analysis.timestamp as u128).as_str(),
        ).concat(",\"sentiment\":\"").concat(analysis.sentiment.as_str()).concat(
            "\",\"volatility\":\"",
        ).concat(analysis.volatility.as_str()).concat("\",\"confidence\":").concat(
            decimal_text(analysis.confidence as u128).as_str(),
        ).concat("}");
        Ok(String::from_str("Market analysis stored successfully"))
    }

    /// The latest market analysis, stamped `now`, while one is stored.
    pub fn get_latest_market_analysis(&self, now: u64) -> (r: Option<MarketAnalysis>)
        ensures
            r is None <==> self.book().market_analysis.len() == 0,
            r is Some ==> is_reported_analysis(r->Some_0, now),
    {
        if self.latest_market_analysis_json.as_str().is_empty() {
            return None;
        }
        let mut key_metrics: Vec<String> = Vec::new();
        key_metrics.push(String::from_str("Market looking positive"));
        let mut recommendations: Vec<String> = Vec::new();
        recommendations.push(String::from_str("Hold current positions"));
        assert(texts_view(key_metrics@) =~= seq!["Market looking positive"@]);
        assert(texts_view(recommendations@) =~= seq!["Hold current positions"@]);
        Some(
            MarketAnalysis {
                timestamp: now,
                sentiment: String::from_str("bullish"),
                volatility: String::from_str("medium"),
                confidence: 75,
                key_metrics,
                recommendations,
                market_cap_trend: String::from_str("up"),
                fear_greed_index: 60,
            },
        )
    }

    pub fn get_market_insights(&self) -> (r: Vec<String>)
        ensures
            texts_view(r@) == market_insights(self.book().market_analysis),
    {
        let mut insights: Vec<String> = Vec::new();
        if !self.latest_market_analysis_json.as_str().is_empty() {
            insights.push(String::from_str("Market Sentiment: bullish (75% confidence)"));
            insights.push(String::from_str("Volatility: medium"));
            insights.push(String::from_str("Fear & Greed Index: 60"));
            insights.push(String::from_str("Hold current positions"));
        } else {
            insights.push(String::from_str("No recent market analysis available"));
        }
        assert(texts_view(insights@) =~= market_insights(self.book().market_analysis));
        insights
    }

    /// Sets the price of `asset_symbol`; only the owner may.
    pub fn update_asset_price(&mut self, caller: &String, asset_symbol: String, price_usd: String) -> (r:
        Result<(), PortfolioError>)
        ensures
            r == owner_gate(old(self)@.owner, caller@),
            final(self)@ == old(self)@,
            final(self).book() == (if r is Ok {
                BookView {
                    asset_prices: old(self).book().asset_prices.insert(asset_symbol@, price_usd@),
                    ..old(self).book()
                }
            } else {
                old(self).book()
            }),
    {
        if *caller != self.owner_id {
            return Err(PortfolioError::Unauthorized);
        }
        let ghost b = self.book();
        self.asset_prices.insert(asset_symbol, price_usd);
        assert(self.book().asset_prices =~= b.asset_prices.insert(asset_symbol@, price_usd@));
        Ok(())
    }

    pub fn get_asset_price(&self, asset_symbol: &str) -> (r: Option<String>)
        ensures
            match r {
                Some(p) => self.book().asset_prices.contains_key(asset_symbol@) && p@
                    == self.book().asset_prices[asset_symbol@],
                None => !self.book().asset_prices.contains_key(asset_symbol@),
            },
    {
        match self.asset_prices.get(asset_symbol) {
            Some(price) => Some(price.clone()),
            None => None,
        }
    }

    /// The supported assets, in the order they were added.
    pub fn get_supported_assets(&self) -> (r: Vec<String>)
        ensures
            texts_view(r@) == self.book().supported_assets,
    {
        copy_texts(&self.supported_assets)
    }

    /// The supported chains, in the order they were added.
    pub fn get_supported_chains(&self) -> (r: Vec<String>)
        ensures
            texts_view(r@) == self.book().supported_chains,
    {
        copy_texts(&self.supported_chains)
    }

    pub fn get_analytics(&self) -> (r: String)
        ensures
            r@ == analytics_line(self.book()),
    {
        String::from_str("Portfolio Rebalancer Analytics | Users: ").concat(
            count_text(self.total_users).as_str(),
        ).concat(" | Intents: ").concat(count_text(self.total_intents).as_str()).concat(
            " | Trades: ",
        ).concat(count_text(self.total_trades).as_str()).concat(" | Volume: $").concat(
            self.total_volume_usd.as_str(),
        ).concat(" | Success Rate: ").concat(decimal_text(self.success_rate as u128).as_str()).concat(
            "% | Gas Saved: $",
        ).concat(self.total_gas_saved.as_str())
    }

    pub fn get_user_statistics(&self, user_id: &str) -> (r: String)
        ensures
            r@ == user_statistics(self.book(), user_id@),
    {
        let intents: usize = match self.user_intents.get(user_id) {
            Some(ids) => ids.len(),
            None => 0,
        };
        let assets: usize = match self.user_portfolios.get(user_id) {
            Some(portfolio) => portfolio.len(),
            None => 0,
        };
        let grade = match self.user_health.get(user_id) {
            Some(health) => health.grade.clone(),
            None => String::from_str("Not analyzed"),
        };
        String::from_str("User Statistics for ").concat(user_id).concat(" | Intents: ").concat(
            decimal_text(intents as u128).as_str(),
        ).concat(" | Portfolio Assets: ").concat(decimal_text(assets as u128).as_str()).concat(
            " | Health Grade: ",
        ).concat(grade.as_str())
    }

    /// Adds `chain` to the supported chains, if not already there; only the
    /// owner may.
    pub fn add_supported_chain(&mut self, caller: &String, chain: String) -> (r: Result<
        String,
        PortfolioError,
    >)
        ensures
            final(self)@ == old(self)@,
            caller@ != old(self)@.owner ==> r == Err::<String, PortfolioError>(PortfolioError::Unauthorized)
                && final(self).book() == old(self).book(),
            caller@ == old(self)@.owner ==> r is Ok && r->Ok_0@ == "Chain "@ + chain@
                + " added to supported chains"@ && final(self).book() == (BookView {
                supported_chains: with_item(old(self).book().supported_chains, chain@),
                ..old(self).book()
            }),
    {
        if *caller != self.owner_id {
            return Err(PortfolioError::Unauthorized);
        }
        let message = String::from_str("Chain ").concat(chain.as_str()).concat(
            " added to supported chains",
        );
        if !contains_text(&self.supported_chains, &chain) {
            let ghost before = self.supported_chains@;
            self.supported_chains.push(chain);
            assert(texts_view(self.supported_chains@) =~= texts_view(before).push(chain@));
        }
        Ok(message)
    }

    /// Adds `asset` to the supported assets, if not already there; only the
    /// owner may.
    pub fn add_supported_asset(&mut self, caller: &String, asset: String) -> (r: Result<
        String,
        PortfolioError,
    >)
        ensures
            final(self)@ == old(self)@,
            caller@ != old(self)@.owner ==> r == Err::<String, PortfolioError>(PortfolioError::Unauthorized)
                && final(self).book() == old(self).book(),
            caller@ == old(self)@.owner ==> r is Ok && r->Ok_0@ == "Asset "@ + asset@
                + " added to supported assets"@ && final(self).book() == (BookView {
                supported_assets: with_item(old(self).book().supported_assets, asset@),
                ..old(self).book()
            }),
    {
        if *caller != self.owner_id {
            return Err(PortfolioError::Unauthorized);
        }
        let message = String::from_str("Asset ").concat(asset.as_str()).concat(
            " added to supported assets",
        );
        if !contains_text(&self.supported_assets, &asset) {
            let ghost before = self.supported_assets@;
            self.supported_assets.push(asset);
            assert(texts_view(self.supported_assets@) =~= texts_view(before).push(asset@));
        }
        Ok(message)
    }

    /// Sets the reported success rate; only the owner may.
    pub fn update_success_rate(&mut self, caller: &String, rate: u8) -> (r: Result<(), PortfolioError>)
        ensures
            r == owner_gate(old(self)@.owner, caller@),
            final(self)@ == old(self)@,
            final(self).book() == (if r is Ok {
                BookView { success_rate: rate, ..old(self).book() }
            } else {
                old(self).book()
            }),
    {
        if *caller != self.owner_id {
            return Err(PortfolioError::Unauthorized);
        }
        self.success_rate = rate;
        Ok(())
    }

    /// Sets the reported total volume; only the owner may.
    pub fn update_total_volume(&mut self, caller: &String, volume: String) -> (r: Result<
        (),
        PortfolioError,
    >)
        ensures
            r == owner_gate(old(self)@.owner, caller@),
            final(self)@ == old(self)@,
            final(self).book() == (if r is Ok {
                BookView { total_volume_usd: volume@, ..old(self).book() }
            } else {
                old(self).book()
            }),
    {
        if *caller != self.owner_id {
            return Err(PortfolioError::Unauthorized);
        }
        self.total_volume_usd = volume;
        Ok(())
    }
}

} // verus!
