use solvalmon::config::{rpc_url, Config, ConfigInner, KeysConfig};
use solvalmon::handlers::stats::{get, get_current_credits, median_credits, VoteAccountInfo};
use solvalmon::handlers::tower::{self, PostTower};
use solvalmon::keys::same_key;

fn pubkey_to_string(k: &[u8; 32]) -> String {
    solana_pubkey::Pubkey::new_from_array(*k).to_string()
}

fn keys() -> KeysConfig {
    KeysConfig { primary: "p.json".to_string(), secondary: "s.json".to_string() }
}

fn config(vote: [u8; 32]) -> Config {
    Config { primary_id: [1u8; 32], vote_id: vote, admin: [2u8; 32], ledger_dir: "/ledger".to_string(), keys: keys() }
}

fn account(key: &str, ec: Vec<(u64, u64, u64)>) -> VoteAccountInfo {
    VoteAccountInfo { vote_pubkey: key.to_string(), epoch_credits: ec }
}

#[test]
fn credits_of_latest_epoch() {
    let a = account("x", vec![(3, 100, 50), (5, 300, 200), (4, 150, 100)]);
    assert_eq!(get_current_credits(&a), 100);
    let single = account("x", vec![(1, 7, 7)]);
    assert_eq!(get_current_credits(&single), 0);
}

#[test]
fn credits_first_of_equal_epochs() {
    let a = account("x", vec![(5, 300, 200), (5, 1000, 0)]);
    assert_eq!(get_current_credits(&a), 100);
}

#[test]
fn median_odd_and_even() {
    assert_eq!(median_credits(&vec![5, 1, 3]), 3);
    assert_eq!(median_credits(&vec![4, 1, 3, 10]), 3);
    assert_eq!(median_credits(&vec![7]), 7);
    assert_eq!(median_credits(&vec![2, 2, 9, 9]), 5);
}

#[test]
fn stats_for_own_account() {
    let vote = [9u8; 32];
    let me = pubkey_to_string(&vote);
    let accounts = vec![
        account("other", vec![(1, 10, 0)]),
        account(&me, vec![(1, 40, 0)]),
        account("third", vec![(1, 20, 0)]),
    ];
    let r = get(&config(vote), &accounts);
    assert!(r.success);
    assert_eq!(r.field_name, "stats");
    assert_eq!(r.inner.as_ref().map(|o| o.render()).as_deref(), Some("{\"median_credits\":20,\"my_credits\":40}"));
}

#[test]
fn stats_without_own_account() {
    let accounts = vec![account("a", vec![(1, 10, 0)]), account("b", vec![(1, 20, 0)])];
    let r = get(&config([9u8; 32]), &accounts);
    assert_eq!(r.inner.as_ref().map(|o| o.render()).as_deref(), Some("{\"median_credits\":15,\"my_credits\":0}"));
}

#[test]
fn pubkey_text_round_trip() {
    let k = [7u8; 32];
    assert!(same_key(&k, &k));
    assert!(!same_key(&k, &[8u8; 32]));
}

#[test]
fn config_from_file_contents() {
    let vote = pubkey_to_string(&[3u8; 32]);
    let admin = pubkey_to_string(&[4u8; 32]);
    let inner = ConfigInner { rpc_port: 8899, vote_account: vote, ledger_dir: "/l".to_string(), keys: keys(), admin };
    let c = Config::new(inner, [1u8; 32]).unwrap();
    assert_eq!(c.vote_id, [3u8; 32]);
    assert_eq!(c.admin, [4u8; 32]);
    assert_eq!(c.ledger_dir, "/l");
    let bad = ConfigInner { rpc_port: 1, vote_account: "bad".to_string(), ledger_dir: "/l".to_string(), keys: keys(), admin: "x".to_string() };
    assert!(Config::new(bad, [1u8; 32]).is_none());
    assert_eq!(rpc_url(8899), "http://127.0.0.1:8899");
    assert_eq!(rpc_url(0), "http://127.0.0.1:0");
}

#[test]
fn tower_path_and_get() {
    let c = config([9u8; 32]);
    let id = pubkey_to_string(&[1u8; 32]);
    assert_eq!(tower::tower_path(&c), format!("/ledger/tower-1_9-{}.bin", id));
    let r = tower::get(&vec![104, 105]);
    assert_eq!(r.field_name, "tower");
    assert_eq!(r.inner.as_ref().map(|o| o.render()).as_deref(), Some("{\"tower\":\"aGk\"}"));
}

#[test]
fn tower_round_trip() {
    let bytes: Vec<u8> = vec![0, 1, 2, 250, 251, 252, 253];
    let served = tower::get(&bytes);
    let inner: serde_json::Value = serde_json::from_str(&served.inner.as_ref().unwrap().render()).unwrap();
    let text = inner["tower"].as_str().unwrap().to_string();
    let c = config([9u8; 32]);
    match tower::post(&c, &[5u8; 32], &PostTower::new(text)) {
        Ok(w) => {
            assert_eq!(w.bytes, bytes);
            assert_eq!(w.path, tower::tower_path(&c));
            assert!(w.reply.success);
            assert_eq!(w.reply.field_name, "");
            assert_eq!(w.reply.body(), "{\"success\":true}");
        }
        Err(_) => panic!("tower refused"),
    }
}

#[test]
fn tower_refusals() {
    let c = config([9u8; 32]);
    match tower::post(&c, &[1u8; 32], &PostTower::new("aGk".to_string())) {
        Err(a) => {
            assert_eq!(a.message.as_deref(), Some("Refused to override my own tower"));
            assert_eq!(a.field_name, "error");
        }
        Ok(_) => panic!("own tower overwritten"),
    }
    match tower::post(&c, &[5u8; 32], &PostTower::new("!!!".to_string())) {
        Err(a) => {
            assert_eq!(a.message.as_deref(), Some("Invalid base64"));
            assert_eq!(a.field_name, "error");
        }
        Ok(_) => panic!("invalid base64 accepted"),
    }
}

#[test]
fn post_tower_body() {
    let t = PostTower::new("abc".to_string());
    assert_eq!(t.tower(), "abc");
    assert_eq!(t.to_json(), "{\"tower\":\"abc\"}");
}
