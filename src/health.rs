//! Portfolio health: diversification, overall score, grade and
//! recommendations. The risk and concentration scores, which come from the
//! assets' dollar values, are inputs here.
use crate::records::{assets_view, texts_view, AssetView, HealthView, PortfolioAsset, PortfolioHealth};
use vstd::prelude::*;

verus! {

/// The chains that a list of assets sits on, in order, repeats included.
pub open spec fn chains_of(assets: Seq<AssetView>) -> Seq<Seq<char>> {
    assets.map_values(|a: AssetView| a.chain)
}

/// How many different chains a list of assets sits on.
pub open spec fn distinct_chain_count(assets: Seq<AssetView>) -> nat {
    chains_of(assets).to_set().len()
}

pub open spec fn min_int(a: int, b: int) -> int {
    if a < b {
        a
    } else {
        b
    }
}

/// Ten points per asset and fifteen per chain, each part capped at fifty.
pub open spec fn diversification_score(assets: Seq<AssetView>) -> int {
    min_int(10 * assets.len() as int, 50) + min_int(15 * distinct_chain_count(assets) as int, 50)
}

/// The overall score: the mean of diversification, risk and the complement
/// of concentration, rounded down.
pub open spec fn overall_score(diversification: u8, risk: u8, concentration: u8) -> int {
    (diversification + risk + (100 - concentration)) / 3
}

/// The letter grade of an overall score.
pub open spec fn health_grade(score: u8) -> Seq<char> {
    if 90 <= score <= 100 {
        "A"@
    } else if 80 <= score <= 89 {
        "B"@
    } else if 70 <= score <= 79 {
        "C"@
    } else if 60 <= score <= 69 {
        "D"@
    } else {
        "F"@
    }
}

/// The advice given for a portfolio with an overall score.
pub open spec fn health_recommendations(assets: Seq<AssetView>, score: u8) -> Seq<Seq<char>> {
    (if score < 70 {
        seq![
            "Consider diversifying across more asset classes"@,
            "Reduce concentration in single assets"@,
        ]
    } else {
        seq![]
    }) + (if score < 60 {
        seq![
            "URGENT: Portfolio requires immediate rebalancing"@,
            "Consider increasing stablecoin allocation"@,
        ]
    } else {
        seq![]
    }) + (if assets.len() < 3 {
        seq!["Add more assets to improve diversification"@]
    } else {
        seq![]
    }) + (if distinct_chain_count(assets) < 2 {
        seq!["Consider cross-chain diversification"@]
    } else {
        seq![]
    })
}

/// `h` is the health of a portfolio of `assets` held by `user_id`, assessed
/// at `now` with the given risk and concentration scores.
pub open spec fn is_health_of(
    h: HealthView,
    assets: Seq<AssetView>,
    user_id: Seq<char>,
    risk_score: u8,
    concentration_risk: u8,
    now: u64,
) -> bool {
    &&& h.user_id == user_id
    &&& h.diversification_score == diversification_score(assets)
    &&& h.risk_score == risk_score
    &&& h.concentration_risk == concentration_risk
    &&& h.score == overall_score(h.diversification_score, risk_score, concentration_risk)
    &&& h.grade == health_grade(h.score)
    &&& h.recommendations == health_recommendations(assets, h.score)
    &&& h.last_updated == now
}

/// Counts the different chains that `portfolio` sits on.
pub fn count_distinct_chains(portfolio: &[PortfolioAsset]) -> (r: usize)
    ensures
        r == distinct_chain_count(assets_view(portfolio@)),
{
    let ghost chains = chains_of(assets_view(portfolio@));
    let mut seen: Vec<String> = Vec::new();
    let mut i: usize = 0;
    while i < portfolio.len()
        invariant
            i <= portfolio@.len(),
            chains == chains_of(assets_view(portfolio@)),
            texts_view(seen@).no_duplicates(),
            forall|c: Seq<char>|
                #[trigger] texts_view(seen@).contains(c) <==> chains.subrange(0, i as int).contains(
                    c,
                ),
        decreases portfolio.len() - i,
    {
        let chain = &portfolio[i].chain;
        let mut found = false;
        let mut j: usize = 0;
        while j < seen.len()
            invariant
                j <= seen@.len(),
                found <==> exists|k: int| 0 <= k < j && #[trigger] seen@[k]@ == chain@,
            decreases seen.len() - j,
        {
            if seen[j] == *chain {
                found = true;
            }
            j = j + 1;
        }
        assert(chains[i as int] == chain@);
        assert(chains.subrange(0, i + 1) =~= chains.subrange(0, i as int).push(chain@));
        let ghost prefix = chains.subrange(0, i as int);
        assert(forall|c: Seq<char>|
            #[trigger] prefix.push(chain@).contains(c) <==> (prefix.contains(c) || c == chain@)) by {
            assert forall|c: Seq<char>|
                #[trigger] prefix.push(chain@).contains(c) <==> (prefix.contains(c) || c == chain@) by {
                if prefix.contains(c) {
                    let k = choose|k: int| 0 <= k < prefix.len() && prefix[k] == c;
                    assert(prefix.push(chain@)[k] == c);
                }
                if c == chain@ {
                    assert(prefix.push(chain@)[prefix.len() as int] == c);
                }
                if prefix.push(chain@).contains(c) {
                    let k = choose|k: int| 0 <= k < prefix.len() + 1 && prefix.push(chain@)[k] == c;
                    if k < prefix.len() {
                        assert(prefix[k] == c);
                    }
                }
            }
        }
        if !found {
            let ghost before = seen@;
            seen.push(chain.clone());
            assert(texts_view(seen@) =~= texts_view(before).push(chain@));
            assert forall|c: Seq<char>|
                #[trigger] texts_view(before).push(chain@).contains(c) <==> (texts_view(
                    before,
                ).contains(c) || c == chain@) by {
                let tv = texts_view(before);
                if tv.contains(c) {
                    let k = choose|k: int| 0 <= k < tv.len() && tv[k] == c;
                    assert(tv.push(chain@)[k] == c);
                }
                if c == chain@ {
                    assert(tv.push(chain@)[tv.len() as int] == c);
                }
                if tv.push(chain@).contains(c) {
                    let k = choose|k: int| 0 <= k < tv.len() + 1 && tv.push(chain@)[k] == c;
                    if k < tv.len() {
                        assert(tv[k] == c);
                    }
                }
            }
            assert(!texts_view(before).contains(chain@)) by {
                if texts_view(before).contains(chain@) {
                    let k = choose|k: int| 0 <= k < before.len() && texts_view(before)[k] == chain@;
                    assert(seen@[k]@ == chain@);
                }
            }
        } else {
            proof {
                let k = choose|k: int| 0 <= k < seen@.len() && seen@[k]@ == chain@;
                assert(texts_view(seen@)[k] == chain@);
            }
        }
        i = i + 1;
    }
    proof {
        texts_view(seen@).unique_seq_to_set();
        assert(chains.subrange(0, i as int) =~= chains);
        assert(texts_view(seen@).to_set() =~= chains.to_set());
    }
    seen.len()
}

/// Scores how widely `portfolio` is spread over assets and chains.
pub fn calculate_diversification_score(portfolio: &[PortfolioAsset]) -> (r: u8)
    ensures
        r == diversification_score(assets_view(portfolio@)),
{
    let assets = portfolio.len();
    let chains = count_distinct_chains(portfolio);
    let asset_diversity: u8 = if assets >= 5 {
        50
    } else {
        (assets * 10) as u8
    };
    let chain_diversity: u8 = if chains >= 4 {
        50
    } else {
        (chains * 15) as u8
    };
    asset_diversity + chain_diversity
}

/// The overall health score from its three parts.
pub fn overall_health_score(diversification: u8, risk: u8, concentration: u8) -> (r: u8)
    requires
        concentration <= 100,
    ensures
        r == overall_score(diversification, risk, concentration),
{
    let sum: u16 = diversification as u16 + risk as u16 + (100 - concentration) as u16;
    (sum / 3) as u8
}

/// The letter grade of an overall score.
pub fn grade_for(score: u8) -> (r: String)
    ensures
        r@ == health_grade(score),
{
    if 90 <= score && score <= 100 {
        String::from_str("A")
    } else if 80 <= score && score <= 89 {
        String::from_str("B")
    } else if 70 <= score && score <= 79 {
        String::from_str("C")
    } else if 60 <= score && score <= 69 {
        String::from_str("D")
    } else {
        String::from_str("F")
    }
}

/// The advice for `portfolio`, given its overall score.
pub fn generate_health_recommendations(portfolio: &[PortfolioAsset], score: u8) -> (r: Vec<String>)
    ensures
        texts_view(r@) == health_recommendations(assets_view(portfolio@), score),
{
    let ghost assets = assets_view(portfolio@);
    let mut recommendations: Vec<String> = Vec::new();
    if score < 70 {
        recommendations.push(String::from_str("Consider diversifying across more asset classes"));
        recommendations.push(String::from_str("Reduce concentration in single assets"));
    }
    if score < 60 {
        recommendations.push(String::from_str("URGENT: Portfolio requires immediate rebalancing"));
        recommendations.push(String::from_str("Consider increasing stablecoin allocation"));
    }
    let ghost scored = texts_view(recommendations@);
    if portfolio.len() < 3 {
        recommendations.push(String::from_str("Add more assets to improve diversification"));
    }
    let ghost sized = texts_view(recommendations@);
    assert(sized =~= scored + (if assets.len() < 3 {
        seq!["Add more assets to improve diversification"@]
    } else {
        seq![]
    }));
    if count_distinct_chains(portfolio) < 2 {
        recommendations.push(String::from_str("Consider cross-chain diversification"));
    }
    assert(texts_view(recommendations@) =~= health_recommendations(assets, score));
    recommendations
}

/// The health of `portfolio` for `user_id` at time `now`, given its risk and
/// concentration scores.
pub fn calculate_portfolio_health(
    portfolio: &[PortfolioAsset],
    user_id: &str,
    risk_score: u8,
    concentration_risk: u8,
    now: u64,
) -> (r: PortfolioHealth)
    requires
        concentration_risk <= 100,
    ensures
        is_health_of(r@, assets_view(portfolio@), user_id@, risk_score, concentration_risk, now),
{
    let diversification_score = calculate_diversification_score(portfolio);
    let score = overall_health_score(diversification_score, risk_score, concentration_risk);
    PortfolioHealth {
        user_id: String::from_str(user_id),
        grade: grade_for(score),
        score,
        diversification_score,
        risk_score,
        concentration_risk,
        recommendations: generate_health_recommendations(portfolio, score),
        last_updated: now,
    }
}

} // verus!
