use solvalmon::handlers::set_identity::IdentityVariant;
use solvalmon::handlers::status::Status;
use solvalmon::sentry::config::SentryChecks;
use solvalmon::sentry::sentry::{delinquency_threshold_ms, round, startup, Reading, SanityCheckResult, SentryAction, SentryState};

fn status(host: &str, slot: u64, identity: &str) -> Status {
    Status {
        hostname: host.to_string(),
        slot,
        identity: identity.to_string(),
        version: "v".to_string(),
        identity_balance: 0,
        genesis_hash: "g".to_string(),
        uptime_ms: 0,
    }
}

fn checks() -> SentryChecks {
    SentryChecks { identity_balance: 1_000_000_000, unhealthy_threshold: 10 }
}

fn reading(now_ms: u128, statuses: Vec<Status>, balance: u64, ref_slot: u64, last_vote: u64) -> Reading {
    Reading {
        now_ms,
        statuses,
        identity: "VOTER".to_string(),
        identity_balance: balance,
        balance_sol: "0.500000000".to_string(),
        ref_slot,
        last_vote_slot: last_vote,
        local_hostname: "sentry-box".to_string(),
    }
}

fn nodes(a: u64, b: u64) -> Vec<Status> {
    vec![status("https://a", a, "VOTER"), status("https://b", b, "OTHER")]
}

fn notices(actions: &[SentryAction]) -> Vec<String> {
    actions.iter().filter_map(|a| match a { SentryAction::Notify(m) => Some(m.clone()), _ => None }).collect()
}

#[test]
fn threshold_of_delinquency() {
    assert_eq!(delinquency_threshold_ms(10), 56000);
    assert_eq!(delinquency_threshold_ms(150), 0);
    assert_eq!(delinquency_threshold_ms(200), 0);
    assert_eq!(delinquency_threshold_ms(0), 60000);
}

#[test]
fn startup_actions() {
    let a = startup(&checks(), &"VOTER".to_string());
    assert_eq!(a.len(), 2);
    match &a[0] { SentryAction::Print(t) => assert_eq!(t, "Delinquency threshold: 56000ms\n"), _ => panic!() }
    match &a[1] { SentryAction::Notify(t) => assert_eq!(t, "\u{2139}\u{fe0f} VOTER: Sentry is up and running!"), _ => panic!() }
}

#[test]
fn healthy_round_does_nothing() {
    let mut s = SentryState::new();
    let a = round(&mut s, &checks(), &reading(1_000_000, nodes(100, 100), 5_000_000_000, 100, 99));
    assert!(a.is_empty());
    assert!(!s.sanity.node_unhealthy);
    assert_eq!(s.sanity.primary_node, "https://a");
    assert_eq!(s.sanity.node_slot, 100);
    assert_eq!(s.sanity.current_slot, 100);
    assert_eq!(s.sanity.healthy_node_count, 2);
    assert_eq!(s.sanity.total_node_count, 2);
    assert_eq!(s.sanity.delinquent_since_ms, 0);
}

#[test]
fn delinquency_alert_and_failover() {
    let mut s = SentryState::new();
    let c = checks();
    // votes start lagging: the clock starts, nothing else yet
    let a = round(&mut s, &c, &reading(1_000_000, nodes(100, 120), 5_000_000_000, 120, 100));
    assert!(s.sanity.node_unhealthy);
    assert_eq!(s.sanity.delinquent_since_ms, 1_000_000);
    assert!(a.is_empty());
    // 56 s later: delinquent for too long, alert and fail over to the highest node
    let a = round(&mut s, &c, &reading(1_056_000, nodes(100, 120), 5_000_000_000, 120, 100));
    assert!(s.delinquent_triggered);
    assert_eq!(s.sanity.failover_triggered_ms, 1_056_000);
    assert_eq!(a.len(), 7);
    match &a[0] { SentryAction::Notify(m) => assert_eq!(m, "\u{1f6a8} VOTER: Node is delinquent"), _ => panic!() }
    match &a[1] { SentryAction::Print(t) => assert_eq!(t, "Delinquent for 56000ms, triggering failover\n"), _ => panic!() }
    match &a[2] { SentryAction::Print(t) => assert_eq!(t, "Setting primary node to secondary identity\n"), _ => panic!() }
    match &a[3] { SentryAction::SetIdentity(h, v) => { assert_eq!(h, "https://a"); assert_eq!(*v, IdentityVariant::Secondary); } _ => panic!() }
    match &a[4] { SentryAction::Print(t) => assert_eq!(t, "Failing over to https://b\n"), _ => panic!() }
    match &a[5] { SentryAction::SetIdentity(h, v) => { assert_eq!(h, "https://b"); assert_eq!(*v, IdentityVariant::Primary); } _ => panic!() }
    match &a[6] { SentryAction::Notify(m) => assert_eq!(m, "\u{2139}\u{fe0f} VOTER: Automatically failed over to https://b"), _ => panic!() }
    // 5 s later, still delinquent: no second alert, no second failover
    let a = round(&mut s, &c, &reading(1_061_000, nodes(100, 120), 5_000_000_000, 120, 100));
    assert!(a.is_empty());
    // votes catch up: the alert is cleared
    let a = round(&mut s, &c, &reading(1_070_000, nodes(121, 121), 5_000_000_000, 121, 121));
    assert_eq!(notices(&a), vec!["\u{2705} VOTER: Node is no longer delinquent".to_string()]);
    assert_eq!(s.sanity.delinquent_since_ms, 0);
    assert!(!s.delinquent_triggered);
}

#[test]
fn no_failover_when_identity_depleted() {
    let mut s = SentryState::new();
    let c = checks();
    round(&mut s, &c, &reading(1_000_000, nodes(100, 120), 800_000, 120, 100));
    let a = round(&mut s, &c, &reading(1_100_000, nodes(100, 120), 800_000, 120, 100));
    assert!(a.iter().all(|x| !matches!(x, SentryAction::SetIdentity(_, _))));
    assert_eq!(s.sanity.failover_triggered_ms, 0);
}

#[test]
fn balance_alert_once_then_cleared() {
    let mut s = SentryState::new();
    let c = checks();
    let a = round(&mut s, &c, &reading(1_000, nodes(100, 100), 500_000_000, 100, 100));
    assert_eq!(notices(&a), vec!["\u{26a0}\u{fe0f} VOTER: Identity balance is low - \u{25ce}0.500000000".to_string()]);
    assert_eq!(s.sanity.identity_balance_low_since_ms, 1_000);
    let a = round(&mut s, &c, &reading(3_000, nodes(100, 100), 500_000_000, 100, 100));
    assert!(a.is_empty());
    assert_eq!(s.sanity.identity_balance_low_since_ms, 1_000);
    let a = round(&mut s, &c, &reading(5_000, nodes(100, 100), 2_000_000_000, 100, 100));
    assert_eq!(notices(&a), vec!["\u{2705} VOTER: Identity balance is ok".to_string()]);
    assert_eq!(s.sanity.identity_balance_low_since_ms, 0);
}

#[test]
fn rpc_lag_alert() {
    let mut s = SentryState::new();
    let a = round(&mut s, &checks(), &reading(1_000, nodes(150, 140), 5_000_000_000, 120, 120));
    assert!(s.sanity.rpc_unhealthy);
    assert_eq!(notices(&a), vec!["\u{26a0}\u{fe0f} VOTER: RPC is unhealthy - 30 slots behind".to_string()]);
    let a = round(&mut s, &checks(), &reading(2_000, nodes(150, 140), 5_000_000_000, 150, 150));
    assert_eq!(notices(&a), vec!["\u{2705} VOTER: RPC is healthy".to_string()]);
}

#[test]
fn nobody_voting_fails_over_without_demoting_placeholder() {
    let mut s = SentryState::new();
    let c = checks();
    let statuses = || vec![status("https://a", 120, "(unreachable)"), status("https://b", 120, "OTHER")];
    round(&mut s, &c, &reading(10_000_000, statuses(), 5_000_000_000, 120, 100));
    let a = round(&mut s, &c, &reading(10_005_000, statuses(), 5_000_000_000, 120, 100));
    // no node reports the voting identity: nobody is demoted, not even this machine
    assert_eq!(a.len(), 4);
    assert!(a.iter().all(|x| !matches!(x, SentryAction::SetIdentity(_, IdentityVariant::Secondary))));
    match &a[1] { SentryAction::Print(t) => assert_eq!(t, "Failing over to https://b\n"), _ => panic!() }
    // the last of the highest nodes is promoted
    match &a[2] { SentryAction::SetIdentity(h, v) => { assert_eq!(h, "https://b"); assert_eq!(*v, IdentityVariant::Primary); } _ => panic!() }
    assert_eq!(notices(&a), vec!["\u{2139}\u{fe0f} VOTER: Automatically failed over to https://b".to_string()]);
}

#[test]
fn primary_with_marker_host_not_demoted() {
    let mut s = SentryState::new();
    let c = checks();
    let statuses = || vec![status("(odd)", 100, "VOTER"), status("https://b", 120, "OTHER")];
    round(&mut s, &c, &reading(10_000_000, statuses(), 5_000_000_000, 120, 100));
    let a = round(&mut s, &c, &reading(10_060_000, statuses(), 5_000_000_000, 120, 100));
    assert!(a.iter().all(|x| !matches!(x, SentryAction::SetIdentity(_, IdentityVariant::Secondary))));
    assert!(a.iter().any(|x| matches!(x, SentryAction::SetIdentity(h, IdentityVariant::Primary) if h == "https://b")));
}

#[test]
fn delinquency_notices_alternate_over_a_run() {
    let mut s = SentryState::new();
    let c = checks();
    let mut sent: Vec<String> = Vec::new();
    // delinquent from 1_000_000 on, recovered, delinquent again, recovered
    let plan: Vec<(u128, u64)> = vec![
        (1_000_000, 100), (1_030_000, 100), (1_057_000, 100), (1_059_000, 100),
        (1_061_000, 150), (1_063_000, 150), (1_065_000, 100), (1_125_000, 100), (1_127_000, 150),
    ];
    for (now, vote) in plan {
        let a = round(&mut s, &c, &reading(now, nodes(150, 140), 5_000_000_000, 150, vote));
        sent.extend(notices(&a).into_iter().filter(|m| m.contains("delinquent")));
    }
    assert_eq!(sent, vec![
        "\u{1f6a8} VOTER: Node is delinquent".to_string(),
        "\u{2705} VOTER: Node is no longer delinquent".to_string(),
        "\u{1f6a8} VOTER: Node is delinquent".to_string(),
        "\u{2705} VOTER: Node is no longer delinquent".to_string(),
    ]);
}

#[test]
fn placeholder_host_not_demoted() {
    let mut s = SentryState::new();
    let c = checks();
    let mut r = reading(10_000_000, nodes(100, 120), 5_000_000_000, 120, 100);
    r.identity = "NOBODY".to_string();
    r.local_hostname = "(local)".to_string();
    round(&mut s, &c, &r);
    let mut r2 = reading(10_060_000, nodes(100, 120), 5_000_000_000, 120, 100);
    r2.identity = "NOBODY".to_string();
    r2.local_hostname = "(local)".to_string();
    let a = round(&mut s, &c, &r2);
    assert!(a.iter().all(|x| !matches!(x, SentryAction::SetIdentity(_, IdentityVariant::Secondary))));
    assert!(a.iter().any(|x| matches!(x, SentryAction::SetIdentity(_, IdentityVariant::Primary))));
}

#[test]
fn report_text() {
    let mut r = SanityCheckResult::new();
    r.primary_node = "https://a".to_string();
    r.node_slot = 5;
    r.ref_slot = 4;
    r.current_slot = 5;
    r.node_unhealthy = true;
    r.delinquent_since_ms = 77;
    r.healthy_node_count = 1;
    r.total_node_count = 2;
    assert_eq!(
        r.describe(),
        "SanityCheckResult {\n identity_balance_ok: true,\n rpc_health_ok: true,\n node_health_ok: false,\n primary_node: https://a,\n slot: 5 / 4 / 5,\n vote_distance: 0, node_count: 1 / 2\n delinquent_since_ms: 77\n}"
    );
}
