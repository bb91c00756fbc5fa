use predictify_hybrid::{
    community_tally, count_votes, final_outcome_of, oracle_outcome, price_outcome, Error, Market, OracleConfig, OracleInterface,
    OracleProvider, PredictifyHybrid, PythOracle, DISPUTE_EXTENSION, MIN_DISPUTE_STAKE,
    PYTH_FIXED_PRICE,
};

fn s(x: &str) -> String {
    x.to_string()
}

fn config(provider: OracleProvider, threshold: i128, comparison: &str) -> OracleConfig {
    OracleConfig {
        provider,
        feed_id: s("BTC/USD"),
        threshold,
        comparison: s(comparison),
    }
}

fn market_with(end_time: u64, cfg: OracleConfig) -> Market {
    let mut engine = PredictifyHybrid::new();
    engine.initialize(s("admin")).unwrap();
    engine
        .create_market(
            s("admin"),
            s("Will BTC close above 26000?"),
            vec![s("yes"), s("no")],
            end_time,
            cfg,
        )
        .unwrap()
}

fn btc_market(end_time: u64) -> Market {
    market_with(end_time, config(OracleProvider::Pyth, 2_600_000, "gt"))
}

fn pyth() -> PythOracle {
    PythOracle { contract_id: s("pyth") }
}

#[test]
fn create_market_requires_configured_admin() {
    let engine = PredictifyHybrid::new();
    let r = engine.create_market(s("admin"), s("q"), vec![s("yes")], 10, config(OracleProvider::Pyth, 1, "gt"));
    assert_eq!(r.unwrap_err(), Error::Unauthorized);

    let mut engine = PredictifyHybrid::new();
    engine.initialize(s("admin")).unwrap();
    let r = engine.create_market(s("mallory"), s("q"), vec![s("yes")], 10, config(OracleProvider::Pyth, 1, "gt"));
    assert_eq!(r.unwrap_err(), Error::Unauthorized);
}

#[test]
fn create_market_starts_empty() {
    let m = btc_market(100);
    assert_eq!(m.admin, "admin");
    assert_eq!(m.end_time, 100);
    assert!(m.oracle_result.is_none());
    assert!(m.votes.is_empty());
    assert!(m.dispute_stakes.is_empty());
    assert_eq!(m.total_staked, 0);
    assert!(!m.resolved);
}

#[test]
fn vote_after_end_time_is_closed() {
    let mut m = btc_market(100);
    assert_eq!(PredictifyHybrid::vote(&mut m, s("alice"), s("yes"), 10, 100), Err(Error::MarketClosed));
    assert_eq!(PredictifyHybrid::vote(&mut m, s("alice"), s("maybe"), 10, 150), Err(Error::MarketClosed));
    assert!(m.votes.is_empty());
    assert_eq!(m.total_staked, 0);
}

#[test]
fn vote_rejects_unknown_outcome_and_bad_stake() {
    let mut m = btc_market(100);
    assert_eq!(PredictifyHybrid::vote(&mut m, s("alice"), s("maybe"), 10, 5), Err(Error::InvalidOutcome));
    assert_eq!(PredictifyHybrid::vote(&mut m, s("alice"), s("yes"), 0, 5), Err(Error::InvalidStake));
    assert_eq!(PredictifyHybrid::vote(&mut m, s("alice"), s("yes"), -3, 5), Err(Error::InvalidStake));
    assert!(m.votes.is_empty());
}

#[test]
fn vote_overwrites_and_adds_stake() {
    let mut m = btc_market(100);
    PredictifyHybrid::vote(&mut m, s("alice"), s("yes"), 10, 5).unwrap();
    PredictifyHybrid::vote(&mut m, s("bob"), s("no"), 7, 6).unwrap();
    PredictifyHybrid::vote(&mut m, s("alice"), s("no"), 3, 7).unwrap();
    assert_eq!(m.votes, vec![(s("alice"), s("no")), (s("bob"), s("no"))]);
    assert_eq!(m.total_staked, 20);
}

#[test]
fn total_staked_is_exact_sum_and_fails_closed() {
    let mut m = btc_market(100);
    let stakes: [i128; 5] = [1, 999_999_937, 12_345, i128::MAX / 4, 77];
    let mut sum: i128 = 0;
    for (k, st) in stakes.iter().enumerate() {
        PredictifyHybrid::vote(&mut m, format!("user{}", k), s("yes"), *st, 1).unwrap();
        sum += *st;
        assert_eq!(m.total_staked, sum);
    }
    let room = i128::MAX - sum;
    let before = m.clone();
    assert_eq!(PredictifyHybrid::vote(&mut m, s("late"), s("no"), room + 1, 2), Err(Error::Overflow));
    assert_eq!(m.total_staked, before.total_staked);
    assert_eq!(m.votes, before.votes);
    PredictifyHybrid::vote(&mut m, s("last"), s("no"), room, 2).unwrap();
    assert_eq!(m.total_staked, i128::MAX);
}

#[test]
fn oracle_outcome_compares_with_threshold() {
    let gt = config(OracleProvider::Pyth, 2_600_000, "gt");
    assert_eq!(oracle_outcome(&gt, 2_600_000), Ok(s("no")));
    assert_eq!(oracle_outcome(&gt, 2_600_001), Ok(s("yes")));
    let lt = config(OracleProvider::Pyth, 2_600_000, "lt");
    assert_eq!(oracle_outcome(&lt, 2_599_999), Ok(s("yes")));
    assert_eq!(oracle_outcome(&lt, 2_600_000), Ok(s("no")));
    let eq = config(OracleProvider::Pyth, 2_600_000, "eq");
    assert_eq!(oracle_outcome(&eq, 2_600_000), Ok(s("yes")));
    assert_eq!(oracle_outcome(&eq, 1), Ok(s("no")));
    let bad = config(OracleProvider::Pyth, 2_600_000, "gte");
    assert_eq!(oracle_outcome(&bad, 2_600_000), Err(Error::InvalidOracleConfig));
}

#[test]
fn fetch_twice_is_already_resolved() {
    let mut m = btc_market(100);
    assert_eq!(PredictifyHybrid::fetch_oracle_result(&mut m, &pyth(), 100), Ok(s("no")));
    assert_eq!(m.oracle_result, Some(s("no")));
    assert_eq!(
        PredictifyHybrid::fetch_oracle_result(&mut m, &pyth(), 200),
        Err(Error::MarketAlreadyResolved)
    );
    assert_eq!(m.oracle_result, Some(s("no")));
}

#[test]
fn fetch_before_end_and_with_wrong_provider() {
    let mut m = btc_market(100);
    assert_eq!(PredictifyHybrid::fetch_oracle_result(&mut m, &pyth(), 99), Err(Error::MarketClosed));
    let mut band = market_with(100, config(OracleProvider::BandProtocol, 2_600_000, "gt"));
    assert_eq!(
        PredictifyHybrid::fetch_oracle_result(&mut band, &pyth(), 100),
        Err(Error::InvalidOracleConfig)
    );
    let mut odd = market_with(100, config(OracleProvider::Pyth, 2_600_000, "between"));
    assert_eq!(
        PredictifyHybrid::fetch_oracle_result(&mut odd, &pyth(), 100),
        Err(Error::InvalidOracleConfig)
    );
    assert!(m.oracle_result.is_none() && band.oracle_result.is_none() && odd.oracle_result.is_none());
}

#[test]
fn adapter_error_comes_back_unchanged() {
    let gt = config(OracleProvider::Pyth, 2_600_000, "gt");
    assert_eq!(price_outcome(&gt, Err(Error::OracleUnavailable)), Err(Error::OracleUnavailable));
    assert_eq!(price_outcome(&gt, Err(Error::MarketClosed)), Err(Error::MarketClosed));
    assert_eq!(price_outcome(&gt, Ok(2_600_001)), Ok(s("yes")));
    assert_eq!(price_outcome(&gt, Ok(2_600_000)), Ok(s("no")));
    let bad = config(OracleProvider::Pyth, 2_600_000, "ge");
    assert_eq!(price_outcome(&bad, Ok(1)), Err(Error::InvalidOracleConfig));
    assert_eq!(price_outcome(&bad, Err(Error::OracleUnavailable)), Err(Error::OracleUnavailable));
}

#[test]
fn pyth_adapter_reports_fixed_price() {
    let o = pyth();
    assert_eq!(o.provider(), OracleProvider::Pyth);
    assert_eq!(o.get_price(&s("BTC/USD")), Ok(2_600_000));
    assert_eq!(o.get_price(&s("ETH/USD")), Ok(PYTH_FIXED_PRICE));
}

#[test]
fn unimplemented_providers_fail_closed() {
    for p in [OracleProvider::BandProtocol, OracleProvider::DIA, OracleProvider::Reflector] {
        let mut m = market_with(100, config(p, 2_600_000, "gt"));
        let before = m.clone();
        assert_eq!(
            PredictifyHybrid::fetch_oracle_result(&mut m, &pyth(), 100),
            Err(Error::InvalidOracleConfig)
        );
        assert!(m.oracle_result.is_none());
        assert_eq!(m.end_time, before.end_time);
    }
}

#[test]
fn initialize_only_once() {
    let mut engine = PredictifyHybrid::new();
    assert_eq!(engine.initialize(s("admin")), Ok(()));
    assert_eq!(engine.initialize(s("mallory")), Err(Error::AlreadyInitialized));
    assert_eq!(engine.admin, Some(s("admin")));
}

#[test]
fn well_formedness_check() {
    let mut m = btc_market(100);
    assert!(m.is_well_formed());
    PredictifyHybrid::vote(&mut m, s("alice"), s("yes"), 10, 5).unwrap();
    assert!(m.is_well_formed());
    let mut dup = m.clone();
    dup.votes.push((s("alice"), s("no")));
    assert!(!dup.is_well_formed());
    let mut stray = m.clone();
    stray.votes.push((s("bob"), s("maybe")));
    assert!(!stray.is_well_formed());
    let mut neg = m.clone();
    neg.dispute_stakes.push((s("carol"), 0));
    assert!(!neg.is_well_formed());
    let mut early = m.clone();
    early.resolved = true;
    assert!(!early.is_well_formed());
    let mut owed = m.clone();
    owed.total_staked = -1;
    assert!(!owed.is_well_formed());
}

#[test]
fn fetch_with_lower_threshold_says_yes() {
    let mut m = market_with(100, config(OracleProvider::Pyth, 2_000_000, "gt"));
    assert_eq!(PredictifyHybrid::fetch_oracle_result(&mut m, &pyth(), 150), Ok(s("yes")));
}

#[test]
fn dispute_before_end_is_too_early() {
    let mut m = btc_market(100);
    assert_eq!(
        PredictifyHybrid::dispute_result(&mut m, s("carol"), MIN_DISPUTE_STAKE, 99),
        Err(Error::DisputeTooEarly)
    );
}

#[test]
fn small_dispute_is_insufficient_and_changes_nothing() {
    let mut m = btc_market(100);
    PredictifyHybrid::dispute_result(&mut m, s("carol"), MIN_DISPUTE_STAKE, 100).unwrap();
    let before = m.clone();
    assert_eq!(
        PredictifyHybrid::dispute_result(&mut m, s("carol"), MIN_DISPUTE_STAKE - 1, 86_500),
        Err(Error::InsufficientStake)
    );
    assert_eq!(
        PredictifyHybrid::dispute_result(&mut m, s("dave"), 0, 90_000),
        Err(Error::InsufficientStake)
    );
    assert_eq!(m.dispute_stakes, before.dispute_stakes);
    assert_eq!(m.end_time, before.end_time);
}

#[test]
fn disputes_accumulate_and_extend_deadline() {
    let mut m = btc_market(100);
    PredictifyHybrid::dispute_result(&mut m, s("carol"), 100_000_000, 100).unwrap();
    assert_eq!(m.end_time, 100 + DISPUTE_EXTENSION);
    assert_eq!(m.end_time, 86_500);
    PredictifyHybrid::dispute_result(&mut m, s("dave"), 150_000_000, 86_500).unwrap();
    assert_eq!(m.end_time, 86_500 + 86_400);
    // a dispute inside the extended window comes too early
    assert_eq!(
        PredictifyHybrid::dispute_result(&mut m, s("carol"), 200_000_000, 90_000),
        Err(Error::DisputeTooEarly)
    );
    PredictifyHybrid::dispute_result(&mut m, s("carol"), 200_000_000, 172_900).unwrap();
    assert_eq!(m.dispute_stakes, vec![(s("carol"), 300_000_000), (s("dave"), 150_000_000)]);
    assert_eq!(m.end_time, 259_300);
}

#[test]
fn deadline_never_moves_earlier() {
    let mut m = btc_market(1_000_000);
    let mut last = m.end_time;
    let times: [u64; 6] = [1_000_000, 999_999, 1_050_000, 1_000_001, 2_000_000, 1_200_000];
    let stakes: [i128; 6] = [MIN_DISPUTE_STAKE, MIN_DISPUTE_STAKE, 5, MIN_DISPUTE_STAKE * 2, MIN_DISPUTE_STAKE, MIN_DISPUTE_STAKE];
    for k in 0..6 {
        let _ = PredictifyHybrid::dispute_result(&mut m, s("erin"), stakes[k], times[k]);
        assert!(m.end_time >= last);
        last = m.end_time;
    }
    assert_eq!(m.end_time, 2_086_400);
}

#[test]
fn dispute_stake_overflow_fails_closed() {
    let mut m = btc_market(0);
    PredictifyHybrid::dispute_result(&mut m, s("carol"), i128::MAX - 5, 0).unwrap();
    assert_eq!(
        PredictifyHybrid::dispute_result(&mut m, s("carol"), MIN_DISPUTE_STAKE, 86_400),
        Err(Error::Overflow)
    );
    assert_eq!(m.dispute_stakes, vec![(s("carol"), i128::MAX - 5)]);
}

#[test]
fn resolve_needs_close_and_signal() {
    let mut m = btc_market(100);
    assert_eq!(PredictifyHybrid::resolve_market(&mut m, 99, 0), Err(Error::MarketClosed));
    assert_eq!(PredictifyHybrid::resolve_market(&mut m, 100, 0), Err(Error::OracleUnavailable));
}

#[test]
fn resolve_without_votes_keeps_signal() {
    let mut m = btc_market(100);
    PredictifyHybrid::fetch_oracle_result(&mut m, &pyth(), 100).unwrap();
    assert_eq!(PredictifyHybrid::resolve_market(&mut m, 110, 5), Ok(s("no")));
    assert_eq!(m.oracle_result, Some(s("no")));
    assert!(m.resolved);
}

#[test]
fn resolve_twice_is_refused() {
    let mut m = btc_market(100);
    PredictifyHybrid::fetch_oracle_result(&mut m, &pyth(), 100).unwrap();
    PredictifyHybrid::resolve_market(&mut m, 110, 5).unwrap();
    assert_eq!(PredictifyHybrid::resolve_market(&mut m, 120, 5), Err(Error::MarketAlreadyResolved));
}

fn voted_market(yes: usize, no: usize) -> Market {
    let mut m = btc_market(100);
    for k in 0..yes {
        PredictifyHybrid::vote(&mut m, format!("y{}", k), s("yes"), 10, 1).unwrap();
    }
    for k in 0..no {
        PredictifyHybrid::vote(&mut m, format!("n{}", k), s("no"), 10, 1).unwrap();
    }
    assert_eq!(PredictifyHybrid::fetch_oracle_result(&mut m, &pyth(), 100), Ok(s("no")));
    m
}

#[test]
fn qualified_majority_wins_on_low_draw() {
    let mut m = voted_market(3, 2);
    // 1_000 + 29 = 1_029, and 1_029 % 100 = 29 < 30
    assert_eq!(PredictifyHybrid::resolve_market(&mut m, 1_000, 29), Ok(s("yes")));
    assert_eq!(m.oracle_result, Some(s("yes")));
}

#[test]
fn qualified_majority_loses_on_high_draw() {
    let mut m = voted_market(3, 2);
    // 1_000 + 30 = 1_030, and 1_030 % 100 = 30
    assert_eq!(PredictifyHybrid::resolve_market(&mut m, 1_000, 30), Ok(s("no")));
    assert_eq!(m.oracle_result, Some(s("no")));
}

#[test]
fn single_vote_is_not_qualified() {
    let mut m = voted_market(1, 0);
    assert_eq!(PredictifyHybrid::resolve_market(&mut m, 1_000, 0), Ok(s("no")));
}

#[test]
fn four_votes_are_not_qualified() {
    let mut m = voted_market(4, 0);
    assert_eq!(PredictifyHybrid::resolve_market(&mut m, 1_000, 0), Ok(s("no")));
}

#[test]
fn even_split_is_not_a_majority() {
    let outcomes = vec![s("yes"), s("no"), s("maybe")];
    let mut votes = Vec::new();
    for k in 0..3 {
        votes.push((format!("y{}", k), s("yes")));
        votes.push((format!("m{}", k), s("maybe")));
    }
    assert_eq!(final_outcome_of(&outcomes, &votes, &s("no"), 0, 0), "no");
}

#[test]
fn tie_goes_to_first_declared_outcome() {
    let outcomes = vec![s("low"), s("mid"), s("high")];
    let mut votes = Vec::new();
    for k in 0..3 {
        votes.push((format!("h{}", k), s("high")));
        votes.push((format!("m{}", k), s("mid")));
    }
    votes.push((s("l0"), s("low")));
    // mid and high tie at 3 of 7: not a majority, signal stands
    assert_eq!(final_outcome_of(&outcomes, &votes, &s("low"), 0, 0), "low");
    votes.push((s("m9"), s("mid")));
    votes.push((s("m10"), s("mid")));
    // mid has 5 of 9
    assert_eq!(final_outcome_of(&outcomes, &votes, &s("low"), 0, 10), "mid");
    assert_eq!(final_outcome_of(&outcomes, &votes, &s("low"), 0, 50), "low");
}

#[test]
fn community_agreeing_with_signal_keeps_it() {
    let outcomes = vec![s("yes"), s("no")];
    let votes: Vec<(String, String)> = (0..6).map(|k| (format!("u{}", k), s("no"))).collect();
    assert_eq!(final_outcome_of(&outcomes, &votes, &s("no"), 0, 0), "no");
}

#[test]
fn draw_sums_time_and_sequence_without_wrapping() {
    let outcomes = vec![s("yes"), s("no")];
    let votes: Vec<(String, String)> = (0..5).map(|k| (format!("u{}", k), s("yes"))).collect();
    // u64::MAX + u32::MAX = 18446744078004518910, which ends in 10
    assert_eq!(final_outcome_of(&outcomes, &votes, &s("no"), u64::MAX, u32::MAX), "yes");
    // u64::MAX + 20 = 18446744073709551635, which ends in 35
    assert_eq!(final_outcome_of(&outcomes, &votes, &s("no"), u64::MAX, 20), "no");
}

#[test]
fn tally_counts_and_picks_first_leader() {
    let outcomes = vec![s("a"), s("b"), s("c")];
    let votes = vec![
        (s("u1"), s("c")),
        (s("u2"), s("b")),
        (s("u3"), s("c")),
        (s("u4"), s("b")),
        (s("u5"), s("a")),
    ];
    assert_eq!(count_votes(&votes, &s("a")), 1);
    assert_eq!(count_votes(&votes, &s("b")), 2);
    assert_eq!(count_votes(&votes, &s("c")), 2);
    assert_eq!(count_votes(&votes, &s("d")), 0);
    assert_eq!(community_tally(&outcomes, &votes), (Some(1), 2));
    assert_eq!(community_tally(&outcomes, &Vec::new()), (None, 0));
}
