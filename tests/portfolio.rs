use tee_gateway::account::is_account_id;
use tee_gateway::analysis::{
    analysis_for, classify_intent, classify_lowered, contains_slice, estimate_gas_costs,
    generate_execution_steps, generate_target_allocations, perform_ai_analysis, Strategy,
};
use tee_gateway::error::PortfolioError;
use tee_gateway::gateway::AIPortfolioRebalancer;
use tee_gateway::health::{
    calculate_diversification_score, calculate_portfolio_health, count_distinct_chains,
    generate_health_recommendations, grade_for, overall_health_score,
};
use tee_gateway::records::{MarketAnalysis, PortfolioAsset, Trade, UserPreferences};

const OWNER: &str = "owner.near";

fn asset(symbol: &str, chain: &str, value: &str) -> PortfolioAsset {
    PortfolioAsset {
        token_symbol: symbol.to_string(),
        token_address: format!("{}.token", symbol.to_lowercase()),
        balance: "1.0".to_string(),
        chain: chain.to_string(),
        value_usd: value.to_string(),
        percentage: "10.0".to_string(),
    }
}

fn contract() -> AIPortfolioRebalancer {
    AIPortfolioRebalancer::new(OWNER.to_string()).unwrap()
}

fn owner() -> String {
    OWNER.to_string()
}

#[test]
fn account_names_follow_near_rules() {
    assert!(is_account_id("owner.near"));
    assert!(is_account_id("a-b_c.d9"));
    assert!(is_account_id("ab"));
    assert!(!is_account_id("a"));
    assert!(!is_account_id("Owner.near"));
    assert!(!is_account_id(".near"));
    assert!(!is_account_id("near."));
    assert!(!is_account_id("a..b"));
    assert!(!is_account_id("a-_b"));
    assert!(!is_account_id(&"a".repeat(65)));
    assert!(is_account_id(&"a".repeat(64)));
}

#[test]
fn new_refuses_an_invalid_owner() {
    assert_eq!(AIPortfolioRebalancer::new("Not Valid".to_string()).err(), Some(PortfolioError::InvalidAccountId));
}

#[test]
fn new_contract_starts_with_defaults() {
    let c = contract();
    assert_eq!(c.get_greeting(), "AI Portfolio Rebalancer v3.0 - Production Ready with MPC & TEE");
    assert_eq!(c.get_supported_chains(), vec!["ethereum", "near", "polygon", "arbitrum", "optimism", "avalanche", "bsc"]);
    assert_eq!(c.get_supported_assets().len(), 12);
    assert_eq!(c.get_supported_assets()[11], "COMP");
    assert_eq!(c.get_asset_price("BTC"), Some("42000.0".to_string()));
    assert_eq!(c.get_asset_price("DAI"), None);
    assert_eq!(c.get_contract_info(), "AI Portfolio Rebalancer v3.0 | Owner: owner.near | Users: 0 | Intents: 0 | Trades: 0 | Volume: $0.0");
    assert_eq!(c.get_analytics(), "Portfolio Rebalancer Analytics | Users: 0 | Intents: 0 | Trades: 0 | Volume: $0.0 | Success Rate: 95% | Gas Saved: $0.0");
}

#[test]
fn classification_follows_keyword_priority() {
    assert_eq!(classify_intent("Keep it SAFE please"), Strategy::Conservative);
    assert_eq!(classify_intent("CONSERVATIVE"), Strategy::Conservative);
    assert_eq!(classify_intent("go Aggressive"), Strategy::Aggressive);
    assert_eq!(classify_intent("risky but safe"), Strategy::Conservative);
    assert_eq!(classify_intent("more DeFi yield"), Strategy::DefiFocused);
    assert_eq!(classify_intent("Cross-Chain moves"), Strategy::CrossChain);
    assert_eq!(classify_intent("rebalance my stuff"), Strategy::Balanced);
    assert_eq!(classify_intent(""), Strategy::Balanced);
    assert_eq!(classify_lowered("SAFE"), Strategy::Balanced);
}

#[test]
fn byte_search_finds_runs() {
    assert!(contains_slice(b"hello", b"ell"));
    assert!(contains_slice(b"hello", b""));
    assert!(contains_slice(b"hello", b"hello"));
    assert!(!contains_slice(b"hello", b"hellos"));
    assert!(!contains_slice(b"hello", b"lol"));
    assert!(!contains_slice(b"", b"a"));
}

#[test]
fn allocations_per_strategy() {
    let c = generate_target_allocations(Strategy::Conservative);
    assert_eq!(c.len(), 3);
    assert_eq!(c[0].token_symbol, "USDC");
    assert_eq!(c[0].percentage, "50.0");
    assert_eq!(c[2].balance, "0.05");
    let a = generate_target_allocations(Strategy::Aggressive);
    assert_eq!(a[1].token_symbol, "NEAR");
    assert_eq!(a[1].chain, "near");
    assert_eq!(a[2].token_address, "uni.token");
    let d = generate_target_allocations(Strategy::DefiFocused);
    assert_eq!(d[0].balance, "1.5");
    assert_eq!(d[2].value_usd, "4000.0");
}

#[test]
fn gas_estimate_is_fixed_plus_per_trade() {
    assert_eq!(estimate_gas_costs(&[]), "15.00");
    let three = generate_target_allocations(Strategy::Balanced);
    assert_eq!(estimate_gas_costs(&three), "39.00");
}

#[test]
fn execution_plan_lists_fixed_steps_then_trades() {
    let allocations = generate_target_allocations(Strategy::Conservative);
    let steps = generate_execution_steps(&allocations);
    assert_eq!(steps.len(), 10);
    assert_eq!(steps[0], "1. Analyze current portfolio positions");
    assert_eq!(steps[6], "7. Update user portfolio and health metrics");
    assert_eq!(steps[7], "Trade to achieve 50.0% allocation in USDC");
    assert_eq!(steps[9], "Trade to achieve 22.0% allocation in BTC");
}

#[test]
fn analysis_combines_the_parts() {
    let r = perform_ai_analysis("Cross chain please");
    assert_eq!(r.classification, "cross_chain");
    assert_eq!(r.confidence_score, 90);
    assert_eq!(r.reasoning, "Cross-chain strategy detected. Recommending multi-chain diversification approach.");
    assert_eq!(r.target_allocations[0].balance, "1.5");
    assert_eq!(r.estimated_gas_cost, "39.00");
    assert_eq!(r.execution_steps.len(), 10);
    assert_eq!(analysis_for(Strategy::DefiFocused).confidence_score, 85);
    assert_eq!(analysis_for(Strategy::Aggressive).classification, "aggressive");
}

#[test]
fn diversification_counts_assets_and_chains() {
    let p = vec![asset("ETH", "ethereum", "10"), asset("USDC", "ethereum", "10"), asset("NEAR", "near", "10")];
    assert_eq!(count_distinct_chains(&p), 2);
    assert_eq!(calculate_diversification_score(&p), 60);
    let wide: Vec<PortfolioAsset> = ["a", "b", "c", "d", "e", "a"].iter().map(|c| asset("X", c, "1")).collect();
    assert_eq!(count_distinct_chains(&wide), 5);
    assert_eq!(calculate_diversification_score(&wide), 100);
    assert_eq!(calculate_diversification_score(&[]), 0);
}

#[test]
fn overall_score_and_grades() {
    assert_eq!(overall_health_score(60, 30, 100), 30);
    assert_eq!(overall_health_score(100, 100, 10), 96);
    assert_eq!(overall_health_score(0, 30, 0), 43);
    assert_eq!(grade_for(100), "A");
    assert_eq!(grade_for(90), "A");
    assert_eq!(grade_for(89), "B");
    assert_eq!(grade_for(75), "C");
    assert_eq!(grade_for(60), "D");
    assert_eq!(grade_for(59), "F");
    assert_eq!(grade_for(101), "F");
}

#[test]
fn recommendations_follow_score_and_spread() {
    let one = vec![asset("ETH", "ethereum", "10")];
    assert_eq!(
        generate_health_recommendations(&one, 50),
        vec![
            "Consider diversifying across more asset classes",
            "Reduce concentration in single assets",
            "URGENT: Portfolio requires immediate rebalancing",
            "Consider increasing stablecoin allocation",
            "Add more assets to improve diversification",
            "Consider cross-chain diversification",
        ]
    );
    let spread = vec![asset("ETH", "ethereum", "1"), asset("NEAR", "near", "1"), asset("DAI", "polygon", "1")];
    assert!(generate_health_recommendations(&spread, 85).is_empty());
    assert_eq!(generate_health_recommendations(&spread, 65).len(), 2);
}

#[test]
fn health_assessment_fills_every_field() {
    let p = vec![asset("ETH", "ethereum", "10"), asset("USDC", "ethereum", "10"), asset("NEAR", "near", "10")];
    let h = calculate_portfolio_health(&p, "u.near", 63, 33, 5);
    assert_eq!(h.user_id, "u.near");
    assert_eq!(h.diversification_score, 60);
    assert_eq!(h.score, 63);
    assert_eq!(h.grade, "D");
    assert_eq!(h.recommendations, vec!["Consider diversifying across more asset classes", "Reduce concentration in single assets"]);
    assert_eq!(h.last_updated, 5);
}

#[test]
fn users_register_once() {
    let mut c = contract();
    let alice = "alice.near".to_string();
    assert_eq!(c.register_user(&alice), "User alice.near registered successfully. Total users: 1");
    assert_eq!(c.register_user(&alice), "User alice.near already registered");
    let prefs = c.get_user_preferences("alice.near").unwrap();
    assert_eq!(prefs.risk_tolerance, "medium");
    assert_eq!(prefs.preferred_chains, vec!["ethereum", "near"]);
    assert!(!prefs.auto_rebalance);
    assert_eq!(c.get_user_portfolio("alice.near").unwrap().len(), 0);
    assert_eq!(c.total_users, 1);
}

#[test]
fn preferences_and_portfolio_register_the_user() {
    let mut c = contract();
    let bob = "bob.near".to_string();
    let prefs = UserPreferences {
        risk_tolerance: "high".to_string(),
        investment_horizon: "long".to_string(),
        preferred_chains: vec![],
        excluded_assets: vec!["DOGE".to_string()],
        rebalance_threshold: "2.5".to_string(),
        auto_rebalance: true,
    };
    assert_eq!(c.set_user_preferences(&bob, prefs), "User preferences updated successfully");
    assert_eq!(c.get_user_preferences("bob.near").unwrap().risk_tolerance, "high");
    assert_eq!(c.total_users, 1);
    let p = vec![asset("ETH", "ethereum", "10")];
    assert_eq!(c.set_user_portfolio(&bob, p, 30, 100, 9), "Portfolio updated successfully");
    assert_eq!(c.get_user_portfolio("bob.near").unwrap()[0].token_symbol, "ETH");
    let h = c.get_portfolio_health("bob.near").unwrap();
    assert_eq!(h.score, 18);
    assert_eq!(h.grade, "F");
    assert_eq!(c.total_users, 1);
    assert_eq!(c.get_user_statistics("bob.near"), "User Statistics for bob.near | Intents: 0 | Portfolio Assets: 1 | Health Grade: F");
    assert_eq!(c.get_user_statistics("nobody.near"), "User Statistics for nobody.near | Intents: 0 | Portfolio Assets: 0 | Health Grade: Not analyzed");
}

#[test]
fn health_of_a_user_without_portfolio() {
    let mut c = contract();
    let h = c.analyze_portfolio_health(&"carol.near".to_string(), 30, 0, 4);
    assert_eq!(h.score, 43);
    assert_eq!(c.get_portfolio_health("carol.near").unwrap().score, 43);
}

#[test]
fn intent_lifecycle() {
    let mut c = contract();
    let dave = "dave.near".to_string();
    assert_eq!(c.submit_intent(&dave, "Make it safe".to_string(), 100), 1);
    assert_eq!(c.submit_intent(&dave, "go risky".to_string(), 101), 2);
    assert_eq!(c.get_user_intents("dave.near"), vec![1, 2]);
    assert_eq!(c.get_user_intents("nobody.near"), Vec::<u64>::new());
    let it = c.get_intent(1).unwrap();
    assert_eq!(it.status, "analyzing");
    assert_eq!(it.timestamp, 100);
    assert_eq!(c.analyze_intent(1).unwrap(), "Conservative strategy detected. Recommending increased allocation to stablecoins and established assets.");
    assert_eq!(c.analyze_intent(9), None);
    let it = c.get_intent(1).unwrap();
    assert_eq!(it.status, "ready");
    assert_eq!(it.confidence_score, 88);
    assert_eq!(it.intent_text, "Make it safe");
    assert_eq!(c.execute_rebalance(&dave, 2, 7), Ok("Intent not ready for execution".to_string()));
    assert_eq!(c.execute_rebalance(&"eve.near".to_string(), 1, 7), Err(PortfolioError::NotIntentParty));
    assert_eq!(c.execute_rebalance(&dave, 1, 7), Err(PortfolioError::Unauthorized));
    assert_eq!(c.execute_rebalance(&owner(), 5, 7), Err(PortfolioError::IntentNotFound));
    assert_eq!(
        c.execute_rebalance(&owner(), 1, 7),
        Ok("Rebalance execution initiated for intent 1. Trades will be processed automatically.".to_string())
    );
    assert_eq!(c.get_intent(1).unwrap().status, "executing");
    assert_eq!(c.total_trades, 3);
    let t = c.get_trade(1).unwrap();
    assert_eq!(t.to_asset, "USDC");
    assert_eq!(t.from_asset, "CURRENT");
    assert_eq!(t.intent_id, 1);
    assert_eq!(t.status, "pending");
    assert_eq!(t.timestamp, 7);
    assert_eq!(c.get_trade(3).unwrap().to_asset, "BTC");
    assert!(c.get_trade(4).is_none());
}

#[test]
fn trades_are_owner_managed() {
    let mut c = contract();
    let data = Trade {
        id: 99,
        intent_id: 99,
        from_asset: "ETH".to_string(),
        to_asset: "USDC".to_string(),
        from_chain: "ethereum".to_string(),
        to_chain: "ethereum".to_string(),
        amount: "1".to_string(),
        expected_output: "2800".to_string(),
        actual_output: "0".to_string(),
        status: "done".to_string(),
        tx_hash: "".to_string(),
        timestamp: 0,
        gas_used: "0".to_string(),
    };
    assert_eq!(c.create_trade(&"x.near".to_string(), 4, data.clone(), 3), Err(PortfolioError::Unauthorized));
    assert_eq!(c.create_trade(&owner(), 4, data, 3), Ok(1));
    let t = c.get_trade(1).unwrap();
    assert_eq!((t.id, t.intent_id, t.timestamp), (1, 4, 3));
    assert_eq!(t.status, "pending");
    assert_eq!(t.amount, "1");
    assert_eq!(
        c.update_trade_status(&owner(), 1, "confirmed".to_string(), "0xabc".to_string(), "2790".to_string()),
        Ok("Trade status updated successfully".to_string())
    );
    let t = c.get_trade(1).unwrap();
    assert_eq!(t.status, "confirmed");
    assert_eq!(t.tx_hash, "0xabc");
    assert_eq!(t.actual_output, "2790");
    assert_eq!(
        c.update_trade_status(&owner(), 2, "x".to_string(), "x".to_string(), "x".to_string()),
        Err(PortfolioError::TradeNotFound)
    );
    assert_eq!(
        c.update_trade_status(&"x.near".to_string(), 1, "x".to_string(), "x".to_string(), "x".to_string()),
        Err(PortfolioError::Unauthorized)
    );
}

#[test]
fn market_analysis_summary() {
    let mut c = contract();
    assert_eq!(c.get_market_insights().len(), 4);
    let a = MarketAnalysis {
        timestamp: 1700,
        sentiment: "bearish".to_string(),
        volatility: "high".to_string(),
        confidence: 40,
        key_metrics: vec![],
        recommendations: vec![],
        market_cap_trend: "down".to_string(),
        fear_greed_index: 20,
    };
    assert_eq!(c.store_market_analysis(&"x.near".to_string(), a.clone()), Err(PortfolioError::Unauthorized));
    assert_eq!(c.store_market_analysis(&owner(), a), Ok("Market analysis stored successfully".to_string()));
    assert_eq!(c.latest_market_analysis_json, "{\"timestamp\":1700,\"sentiment\":\"bearish\",\"volatility\":\"high\",\"confidence\":40}");
    let m = c.get_latest_market_analysis(55).unwrap();
    assert_eq!(m.timestamp, 55);
    assert_eq!(m.sentiment, "bullish");
    assert_eq!(m.fear_greed_index, 60);
    c.latest_market_analysis_json = String::new();
    assert!(c.get_latest_market_analysis(55).is_none());
    assert_eq!(c.get_market_insights(), vec!["No recent market analysis available"]);
}

#[test]
fn admin_settings_are_owner_only() {
    let mut c = contract();
    let x = "x.near".to_string();
    assert_eq!(c.set_greeting(&x, "hi".to_string()), Err(PortfolioError::Unauthorized));
    assert_eq!(c.set_greeting(&owner(), "hi".to_string()), Ok(()));
    assert_eq!(c.get_greeting(), "hi");
    assert_eq!(c.add_supported_chain(&owner(), "base".to_string()), Ok("Chain base added to supported chains".to_string()));
    assert_eq!(c.add_supported_chain(&owner(), "near".to_string()), Ok("Chain near added to supported chains".to_string()));
    assert_eq!(c.get_supported_chains().len(), 8);
    assert_eq!(c.get_supported_chains()[7], "base");
    assert_eq!(c.add_supported_asset(&x, "PEPE".to_string()), Err(PortfolioError::Unauthorized));
    assert_eq!(c.add_supported_asset(&owner(), "PEPE".to_string()), Ok("Asset PEPE added to supported assets".to_string()));
    assert_eq!(c.get_supported_assets().len(), 13);
    assert_eq!(c.update_asset_price(&owner(), "DAI".to_string(), "1.0".to_string()), Ok(()));
    assert_eq!(c.get_asset_price("DAI"), Some("1.0".to_string()));
    assert_eq!(c.update_success_rate(&x, 1), Err(PortfolioError::Unauthorized));
    assert_eq!(c.update_success_rate(&owner(), 80), Ok(()));
    assert_eq!(c.update_total_volume(&owner(), "12.5".to_string()), Ok(()));
    assert_eq!(c.get_analytics(), "Portfolio Rebalancer Analytics | Users: 0 | Intents: 0 | Trades: 0 | Volume: $12.5 | Success Rate: 80% | Gas Saved: $0.0");
}
