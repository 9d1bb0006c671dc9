use solvalmon::handlers::set_identity::{
    after_admin_switch, after_kill, after_wait, fdctl_args, heaviest_fdctl_pid, identity_path, kill_args, post,
    spawn_failed, victim_line, ChildWait, FdctlStep, IdentitySwitch, IdentityVariant, SetIdentity,
};
use solvalmon::monitor::config::{rpc_url, FiredancerConfig, KeysConfig, ValidatorConfig, ValidatorConfigInner};
fn pubkey_to_string(k: &[u8; 32]) -> String {
    solana_pubkey::Pubkey::new_from_array(*k).to_string()
}

const PS: &str = "USER PID %CPU %MEM VSZ RSS TTY STAT START TIME COMMAND\n\
root 10 0.0 0.1 1000 500 ? S 10:00 0:00 /usr/bin/fdctl run\n\
root 11 0.0 0.1 1000 900 ? S 10:00 0:00 /usr/bin/fdctl run --config x\n\
root 12 0.0 0.1 1000 99999 ? S 10:00 0:00 /usr/bin/other\n\
root 13 0.0 0.1 1000 700 ? S 10:00 0:00 fdctl\n";

fn keys() -> KeysConfig {
    KeysConfig { primary: "/keys/primary.json".to_string(), secondary: "/keys/secondary.json".to_string() }
}

#[test]
fn heaviest_fdctl_process() {
    assert_eq!(heaviest_fdctl_pid(PS), Some(11));
    assert_eq!(heaviest_fdctl_pid(""), Some(0));
    assert_eq!(heaviest_fdctl_pid("header only"), Some(0));
    // the header line is skipped even when it would match
    let header_match = "a 5 c d e 9999 g h i j fdctl\n";
    assert_eq!(heaviest_fdctl_pid(header_match), Some(0));
    // carriage returns and tabs as separators, no final line feed
    let crlf = "H\r\nroot\t42 0 0 0 300 ? S x y fdctl-x\r\nroot 43 0 0 0 200 ? S x y fdctl";
    assert_eq!(heaviest_fdctl_pid(crlf), Some(42));
    // memory column that is not a number is passed over
    let bad_mem = "H\nroot 7 0 0 0 lots ? S x y fdctl\n";
    assert_eq!(heaviest_fdctl_pid(bad_mem), Some(0));
    // a leading plus sign is read as part of the number
    let plus = "H\nroot +8 0 0 0 +5 ? S x y fdctl\n";
    assert_eq!(heaviest_fdctl_pid(plus), Some(8));
}

#[test]
fn heaviest_fdctl_unreadable_pid() {
    let bad_pid = "H\nroot pid 0 0 0 100 ? S x y fdctl\n";
    assert_eq!(heaviest_fdctl_pid(bad_pid), None);
    // an unreadable pid is harmless when the memory is not the heaviest
    let later = "H\nroot 5 0 0 0 100 ? S x y fdctl\nroot pid 0 0 0 50 ? S x y fdctl\n";
    assert_eq!(heaviest_fdctl_pid(later), Some(5));
}

#[test]
fn fdctl_switch_plan() {
    let fd = FiredancerConfig { fdctl: "/opt/fdctl".to_string(), config_path: "/etc/fd.toml".to_string() };
    let config = ValidatorConfig { primary_id: [1u8; 32], vote_id: [2u8; 32], ledger_dir: "/l".to_string(), keys: keys(), firedancer: Some(fd) };
    match post(&config, &SetIdentity { identity: IdentityVariant::Secondary }) {
        IdentitySwitch::Fdctl { program, args } => {
            assert_eq!(program, "/opt/fdctl");
            assert_eq!(args, vec!["set-identity", "/keys/secondary.json", "--config", "/etc/fd.toml", "--force"]);
        }
        _ => panic!("expected fdctl"),
    }
    let config = ValidatorConfig { primary_id: [1u8; 32], vote_id: [2u8; 32], ledger_dir: "/l".to_string(), keys: keys(), firedancer: None };
    match post(&config, &SetIdentity { identity: IdentityVariant::Primary }) {
        IdentitySwitch::Admin { identity_path } => assert_eq!(identity_path, "/keys/primary.json"),
        _ => panic!("expected admin"),
    }
    assert_eq!(identity_path(&keys(), IdentityVariant::Primary), "/keys/primary.json");
    assert_eq!(fdctl_args(&"a".to_string(), &"b".to_string()).len(), 5);
}

#[test]
fn fdctl_wait_outcomes() {
    match after_wait(ChildWait::Finished { success: true, code: Some(0), stderr: None }) {
        FdctlStep::Reply(r) => assert!(r.success),
        FdctlStep::Kill => panic!(),
    }
    match after_wait(ChildWait::Finished { success: false, code: Some(3), stderr: Some(b"bad key".to_vec()) }) {
        FdctlStep::Reply(r) => {
            assert!(!r.success);
            assert_eq!(r.message.as_deref(), Some("Failed to execute fdctl command: bad key (3)"));
        }
        FdctlStep::Kill => panic!(),
    }
    match after_wait(ChildWait::Finished { success: false, code: None, stderr: Some(vec![0xff, b'x']) }) {
        FdctlStep::Reply(r) => assert_eq!(r.message.as_deref(), Some("Failed to execute fdctl command: \u{fffd}x (-1)")),
        FdctlStep::Kill => panic!(),
    }
    assert!(matches!(after_wait(ChildWait::Unfinished), FdctlStep::Kill));
    assert_eq!(spawn_failed().message.as_deref(), Some("cannot spawn child process"));
}

#[test]
fn kill_outcomes() {
    let p = after_kill(Err("no such process".to_string()), Some(PS)).unwrap();
    assert_eq!(p.reply.message.as_deref(), Some("Process timed out and can't be killed no such process"));
    assert_eq!(p.victim, None);
    let p = after_kill(Ok(()), Some(PS)).unwrap();
    assert_eq!(p.reply.message.as_deref(), Some("Process timed out and killed"));
    assert_eq!(p.victim, Some(11));
    let p = after_kill(Ok(()), None).unwrap();
    assert_eq!(p.victim, None);
    let p = after_kill(Ok(()), Some("H\n")).unwrap();
    assert_eq!(p.victim, None);
    assert!(after_kill(Ok(()), Some("H\nroot pid 0 0 0 100 ? S x y fdctl\n")).is_none());
    assert_eq!(victim_line(11), "fdctl process using the most memory - killing: 11");
    assert_eq!(kill_args(11), vec!["-9", "11"]);
}

#[test]
fn admin_switch_outcomes() {
    assert!(after_admin_switch(Ok(())).success);
    let r = after_admin_switch(Err("admin down".to_string()));
    assert_eq!(r.message.as_deref(), Some("admin down"));
}

#[test]
fn identity_request_body() {
    assert_eq!(SetIdentity { identity: IdentityVariant::Primary }.to_json(), "{\"identity\":\"Primary\"}");
    assert_eq!(SetIdentity { identity: IdentityVariant::Secondary }.to_json(), "{\"identity\":\"Secondary\"}");
}

#[test]
fn validator_config() {
    let inner = ValidatorConfigInner {
        vote_account: pubkey_to_string(&[6u8; 32]),
        ledger_dir: "/ledger".to_string(),
        keys: keys(),
        firedancer: None,
    };
    let c = ValidatorConfig::new(inner, [1u8; 32]).unwrap();
    assert_eq!(c.vote_id, [6u8; 32]);
    assert_eq!(c.primary_id, [1u8; 32]);
    let bad = ValidatorConfigInner { vote_account: "0".to_string(), ledger_dir: "/l".to_string(), keys: keys(), firedancer: None };
    assert!(ValidatorConfig::new(bad, [1u8; 32]).is_none());
    assert_eq!(rpc_url("127.0.0.1:8899"), "http://127.0.0.1:8899");
}

#[test]
fn reply_field_names() {
    let r = after_admin_switch(Err("admin down".to_string()));
    assert_eq!(r.field_name, "error");
    assert_eq!(r.body(), "{\"message\":\"admin down\",\"success\":false}");
    let r = after_admin_switch(Ok(()));
    assert_eq!(r.field_name, "");
    assert_eq!(r.body(), "{\"success\":true}");
    assert_eq!(spawn_failed().field_name, "error");
    match after_wait(ChildWait::Finished { success: false, code: Some(3), stderr: None }) {
        FdctlStep::Reply(a) => assert_eq!(a.field_name, "error"),
        _ => panic!(),
    }
    match after_wait(ChildWait::Finished { success: true, code: Some(0), stderr: None }) {
        FdctlStep::Reply(a) => assert_eq!(a.field_name, ""),
        _ => panic!(),
    }
    assert_eq!(after_kill(Ok(()), None).unwrap().reply.field_name, "error");
    assert_eq!(after_kill(Err("e".to_string()), None).unwrap().reply.field_name, "error");
}
