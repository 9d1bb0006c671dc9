use solvalmon::failover::failover::{plan, FailoverStep};
use solvalmon::handlers::set_identity::IdentityVariant;
use solvalmon::handlers::status::Status;
use solvalmon::monitor::netmon::netmon_step;
use solvalmon::sentry::client::SentryClient;
use solvalmon::sentry::config::{SentryChecks, SentryConfig, SentryConfigInner, PkiConfig};
use solvalmon::summary::summary::{format_ms, report_lines, table_headers};
use solvalmon::text::{decimal, same_text};
use solvalmon::webhook::discord::Discord;
use solvalmon::webhook::telegram::Telegram;
use solvalmon::webhook::{delivery_outcome, DeliveryReply, RequestBody, Webhook};

fn status(host: &str, slot: u64, identity: &str) -> Status {
    Status {
        hostname: host.to_string(),
        slot,
        identity: identity.to_string(),
        version: "1.18".to_string(),
        identity_balance: 0,
        genesis_hash: String::new(),
        uptime_ms: 3_723_000,
    }
}

#[test]
fn clock_format() {
    assert_eq!(format_ms(0), "00:00:00");
    assert_eq!(format_ms(3_723_000), "01:02:03");
    assert_eq!(format_ms(59_999), "00:00:59");
    assert_eq!(format_ms(360_000_000), "100:00:00");
}

#[test]
fn table_row_and_headers() {
    let s = status("h", 77, "ID");
    assert_eq!(s.table_fields(), vec!["h", "77", "ID", "1.18", "01:02:03"]);
    assert_eq!(table_headers(), vec!["Hostname", "Slot", "Identity", "Version", "Uptime"]);
}

#[test]
fn summary_lines() {
    assert_eq!(
        report_lines(500, 1_500_000_000, 480),
        vec!["Ref slot: 500", "Identity balance: 1.500000000", "Vote diff: 20"]
    );
    assert_eq!(report_lines(5, 7, 9), vec!["Ref slot: 5", "Identity balance: 0.000000007", "Vote diff: 0"]);
}

#[test]
fn decimals_and_text() {
    assert_eq!(decimal(0), "0");
    assert_eq!(decimal(1234567890123), "1234567890123");
    assert!(same_text("abc", "abc"));
    assert!(!same_text("abc", "abd"));
    assert!(!same_text("abc", "ab"));
}

#[test]
fn connectivity_checks() {
    let (c, switch) = netmon_step(0, false);
    assert_eq!((c, switch), (1, false));
    let (c, switch) = netmon_step(c, false);
    assert_eq!((c, switch), (2, false));
    let (c, switch) = netmon_step(c, false);
    assert_eq!((c, switch), (3, true));
    let (c, switch) = netmon_step(c, false);
    assert_eq!((c, switch), (4, true));
    let (c, switch) = netmon_step(c, true);
    assert_eq!((c, switch), (0, false));
}

#[test]
fn manual_failover_plans() {
    let statuses = vec![status("https://a", 1, "ID"), status("https://b", 2, "X")];
    let steps = plan(&statuses, &"ID".to_string(), "https://b");
    assert_eq!(steps.len(), 9);
    match &steps[1] { FailoverStep::FetchTower(h) => assert_eq!(h, "https://a"), _ => panic!() }
    match &steps[3] { FailoverStep::SetIdentity(h, v) => { assert_eq!(h, "https://a"); assert_eq!(*v, IdentityVariant::Secondary); } _ => panic!() }
    match &steps[5] { FailoverStep::PostTower(h) => assert_eq!(h, "https://b"), _ => panic!() }
    match &steps[7] { FailoverStep::SetIdentity(h, v) => { assert_eq!(h, "https://b"); assert_eq!(*v, IdentityVariant::Primary); } _ => panic!() }
    match &steps[8] { FailoverStep::Print(t) => assert_eq!(t, "Done!"), _ => panic!() }
    let steps = plan(&statuses, &"ID".to_string(), "https://a");
    assert_eq!(steps.len(), 1);
    match &steps[0] { FailoverStep::Print(t) => assert_eq!(t, "Primary is already set to https://a"), _ => panic!() }
    let steps = plan(&statuses, &"NONE".to_string(), "https://a");
    match &steps[0] { FailoverStep::Print(t) => assert_eq!(t, "Primary not found!"), _ => panic!() }
}

#[test]
fn webhook_requests() {
    let d = Discord::new("https://discord/hook".to_string());
    let r = d.message_request(&"hi".to_string());
    assert_eq!(r.url, "https://discord/hook");
    match r.body { RequestBody::Json(b) => assert_eq!(b, "{\"content\": \"hi\"}"), _ => panic!() }
    let t = Telegram::new("TOKEN".to_string(), "42".to_string());
    let r = t.message_request(&"hi".to_string());
    assert_eq!(r.url, "https://api.telegram.org/botTOKEN/sendMessage");
    match r.body {
        RequestBody::Form(f) => assert_eq!(f, vec![("chat_id".to_string(), "42".to_string()), ("text".to_string(), "hi".to_string())]),
        _ => panic!(),
    }
}

#[test]
fn webhook_outcomes() {
    assert_eq!(delivery_outcome(DeliveryReply::Answered { success: true, status: "200 OK".to_string() }), Ok(()));
    assert_eq!(
        delivery_outcome(DeliveryReply::Answered { success: false, status: "404 Not Found".to_string() }),
        Err("Failed to send message: 404 Not Found".to_string())
    );
    assert_eq!(delivery_outcome(DeliveryReply::Failed("timeout".to_string())), Err("Error sending message: timeout".to_string()));
}

#[test]
fn sentry_config_targets() {
    let inner = SentryConfigInner {
        nodes: vec!["https://a".to_string()],
        auth: PkiConfig { cert: "c".to_string(), key: "k".to_string() },
        external_rpc: "https://rpc".to_string(),
        vote_id: "V".to_string(),
        checks: SentryChecks { identity_balance: 1, unhealthy_threshold: 2 },
        discord: Some(Discord::new("https://d".to_string())),
        telegram: Some(Telegram::new("T".to_string(), "C".to_string())),
    };
    let c = SentryConfig::new(inner);
    assert_eq!(c.nodes, vec!["https://a"]);
    let r = c.webhook_requests(&"msg".to_string());
    assert_eq!(r.len(), 2);
    assert_eq!(r[0].url, "https://d");
    assert_eq!(r[1].url, "https://api.telegram.org/botT/sendMessage");
    assert_eq!(SentryConfig::log_line(1700000000, &"msg".to_string()), "[1700000000] msg");
    assert_eq!(SentryConfig::log_line(-5, &"m".to_string()), "[-5] m");
}

#[test]
fn sentry_client_requests() {
    let c = SentryClient::new("https://node:8888".to_string());
    assert_eq!(c.host(), "https://node:8888");
    assert_eq!(c.status_url(), "https://node:8888/status");
    assert_eq!(c.tower_url(), "https://node:8888/tower");
    let p = c.post_tower("abc".to_string());
    assert_eq!(p.url, "https://node:8888/tower");
    assert_eq!(p.body, "{\"tower\":\"abc\"}");
    let p = c.set_identity(IdentityVariant::Primary);
    assert_eq!(p.url, "https://node:8888/set_identity");
    assert_eq!(p.body, "{\"identity\":\"Primary\"}");
    let s = c.get_status(Some(status("elsewhere", 9, "ID"))).unwrap();
    assert_eq!(s.hostname, "https://node:8888");
    assert_eq!(s.slot, 9);
    if let Some(s) = c.get_status(None) {
        assert_eq!(s.hostname, "https://node:8888");
        assert_eq!(s.identity, "(unreachable)");
    }
}
