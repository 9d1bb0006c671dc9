//! The `/set_identity` endpoint: switching the validator between its primary
//! (voting) identity and its secondary one.

use vstd::prelude::*;
use crate::json::{JsonObject, Member, insert_member, object_text, json_quoted};
use crate::monitor::config::{KeysConfig, ValidatorConfig};
use crate::responder::{ApiResponder, is_error_reply, is_empty_success};
use crate::scan::{
    segments, strip_cr, ended_lines, lines, words, has_substring, parse_u64, views,
    words_of, contains, parse_u64_chars,
};
use crate::text::{chars_of, push_str, push_char, push_dec, push_dec_signed, dec, dec_signed};

verus! {

/// Which of the validator's two identities to take.
#[derive(Clone, Copy, PartialEq, Eq, Structural, Debug)]
pub enum IdentityVariant {
    Primary,
    Secondary,
}

/// The body of a request to `/set_identity`.
pub struct SetIdentity {
    pub identity: IdentityVariant,
}

/// The name of a variant as it is written in JSON.
pub open spec fn variant_name(v: IdentityVariant) -> Seq<char> {
    match v {
        IdentityVariant::Primary => "Primary"@,
        IdentityVariant::Secondary => "Secondary"@,
    }
}

impl SetIdentity {
    /// The JSON text of the request body: `{"identity":"Primary"}` or
    /// `{"identity":"Secondary"}`.
    pub fn to_json(&self) -> (r: String)
        ensures
            r@ == object_text(insert_member(Seq::empty(), "identity"@, json_quoted(variant_name(self.identity)))),
    {
        let mut o = JsonObject::new();
        match self.identity {
            IdentityVariant::Primary => o.insert_str("identity", "Primary"),
            IdentityVariant::Secondary => o.insert_str("identity", "Secondary"),
        }
        o.render()
    }
}

/// The key file of the identity `v`.
pub fn identity_path(keys: &KeysConfig, v: IdentityVariant) -> (r: &String)
    ensures
        r == match v {
            IdentityVariant::Primary => &keys.primary,
            IdentityVariant::Secondary => &keys.secondary,
        },
{
    match v {
        IdentityVariant::Primary => &keys.primary,
        IdentityVariant::Secondary => &keys.secondary,
    }
}

/// The arguments of the `fdctl` command that switches a Firedancer validator
/// to the identity in `identity_path`, with its configuration file
/// `config_path`.
pub fn fdctl_args(identity_path: &String, config_path: &String) -> (r: Vec<String>)
    ensures
        r@.len() == 5,
        r@[0]@ == "set-identity"@,
        r@[1]@ == identity_path@,
        r@[2]@ == "--config"@,
        r@[3]@ == config_path@,
        r@[4]@ == "--force"@,
{
    let mut r: Vec<String> = Vec::new();
    r.push("set-identity".to_owned());
    r.push(identity_path.clone());
    r.push("--config".to_owned());
    r.push(config_path.clone());
    r.push("--force".to_owned());
    r
}

/// The text of bytes read as UTF-8, with each invalid sequence replaced by
/// the replacement character.
pub uninterp spec fn lossy_utf8(b: Seq<u8>) -> Seq<char>;

/// Reads bytes as UTF-8, replacing what is invalid.
///
/// Calls `String::from_utf8_lossy`; the contract names the result
/// (`lossy_utf8`).
#[verifier::external_body]
fn utf8_lossy(b: &[u8]) -> (r: String)
    ensures
        r@ == lossy_utf8(b@),
{
    String::from_utf8_lossy(b).into_owned()
}

/// The answer when the `fdctl` command could not be started.
pub fn spawn_failed() -> (r: ApiResponder)
    ensures
        is_error_reply(r, "cannot spawn child process"@),
{
    ApiResponder::error("cannot spawn child process".to_owned())
}

/// How the `fdctl` command stood after the wait: finished, with whether it
/// succeeded, its exit code if it has one, and what was read from its error
/// output if it was captured and could be read; or still running.
pub enum ChildWait {
    Finished { success: bool, code: Option<i32>, stderr: Option<Vec<u8>> },
    Unfinished,
}

/// What to do after the wait: answer, or kill the command that hangs.
pub enum FdctlStep {
    Reply(ApiResponder),
    Kill,
}

/// The error answered when `fdctl` failed, with its error output and its
/// exit code (-1 when it has none).
pub open spec fn fdctl_failure_text(stderr: Option<Vec<u8>>, code: Option<i32>) -> Seq<char> {
    let err = match stderr {
        Some(b) => lossy_utf8(b@),
        None => Seq::empty(),
    };
    let c = match code {
        Some(c) => c as int,
        None => -1,
    };
    "Failed to execute fdctl command: "@ + err + " ("@ + dec_signed(c) + ")"@
}

/// What to do after waiting for `fdctl`: a success when it finished well, the
/// failure with its error output and code when it finished badly, and a kill
/// when it has not finished.
pub fn after_wait(w: ChildWait) -> (r: FdctlStep)
    ensures
        match w {
            ChildWait::Finished { success: true, .. } => r matches FdctlStep::Reply(a)
                && is_empty_success(a),
            ChildWait::Finished { success: false, code, stderr } => r matches FdctlStep::Reply(a)
                && is_error_reply(a, fdctl_failure_text(stderr, code)),
            ChildWait::Unfinished => r is Kill,
        },
{
    match w {
        ChildWait::Finished { success, code, stderr } => {
            if success {
                FdctlStep::Reply(ApiResponder::success_empty())
            } else {
                let err = match &stderr {
                    Some(b) => utf8_lossy(b.as_slice()),
                    None => String::new(),
                };
                let c: i64 = match code {
                    Some(c) => c as i64,
                    None => -1,
                };
                let mut m = "Failed to execute fdctl command: ".to_owned();
                push_str(&mut m, err.as_str());
                push_str(&mut m, " (");
                push_dec_signed(&mut m, c);
                push_str(&mut m, ")");
                assert(m@ =~= fdctl_failure_text(stderr, code));
                FdctlStep::Reply(ApiResponder::error(m))
            }
        },
        ChildWait::Unfinished => FdctlStep::Kill,
    }
}

// ---------------------------------------------------------------------------
// Finding the Firedancer process to kill in the output of `ps aux`.

/// A line of `ps aux` updates the heaviest `fdctl` process seen so far (its
/// resident memory and its process id): a line whose command (the eleventh
/// column) contains `fdctl` and whose memory (the sixth) is a number greater
/// than the heaviest's replaces it, with the process id of the second column.
/// `None` when that process id is not a number.
pub open spec fn scan_line(st: (u64, u64), line: Seq<char>) -> Option<(u64, u64)> {
    let cols = words(line);
    if cols.len() > 10 && has_substring(cols[10], "fdctl"@) {
        match parse_u64(cols[5]) {
            Some(mem) => if mem > st.0 {
                match parse_u64(cols[1]) {
                    Some(pid) => Some((mem, pid)),
                    None => None,
                }
            } else {
                Some(st)
            },
            None => Some(st),
        }
    } else {
        Some(st)
    }
}

/// The lines read in order from no process (memory 0, process id 0).
pub open spec fn scan_lines(ls: Seq<Seq<char>>) -> Option<(u64, u64)>
    decreases ls.len(),
{
    if ls.len() == 0 {
        Some((0, 0))
    } else {
        match scan_lines(ls.drop_last()) {
            Some(st) => scan_line(st, ls.last()),
            None => None,
        }
    }
}

/// The lines after the header line.
pub open spec fn after_header(ls: Seq<Seq<char>>) -> Seq<Seq<char>> {
    if ls.len() == 0 { ls } else { ls.drop_first() }
}

/// The process id of the `fdctl` process with the most resident memory in
/// the output of `ps aux` (0 when there is none); `None` when a process id
/// that had to be read is not a number.
pub open spec fn heaviest_fdctl(ps: Seq<char>) -> Option<u64> {
    match scan_lines(after_header(lines(ps))) {
        Some(st) => Some(st.1),
        None => None,
    }
}

/// Reads one line of `ps aux`.
fn scan_line_exec(st: (u64, u64), line: &Vec<char>, fdctl: &Vec<char>) -> (r: Option<(u64, u64)>)
    requires
        fdctl@ == "fdctl"@,
    ensures
        r == scan_line(st, line@),
{
    let cols = words_of(line);
    assert(views(cols@) == words(line@));
    if cols.len() > 10 {
        assert(views(cols@)[10] == cols@[10]@);
        if contains(&cols[10], fdctl) {
            assert(views(cols@)[5] == cols@[5]@);
            assert(views(cols@)[1] == cols@[1]@);
            match parse_u64_chars(&cols[5]) {
                Some(mem) => {
                    if mem > st.0 {
                        match parse_u64_chars(&cols[1]) {
                            Some(pid) => Some((mem, pid)),
                            None => None,
                        }
                    } else {
                        Some(st)
                    }
                },
                None => Some(st),
            }
        } else {
            Some(st)
        }
    } else {
        Some(st)
    }
}

/// Reading one more line.
fn scan_more(st: Option<(u64, u64)>, line: &Vec<char>, fdctl: &Vec<char>) -> (r: Option<(u64, u64)>)
    requires
        fdctl@ == "fdctl"@,
    ensures
        r == match st {
            Some(s) => scan_line(s, line@),
            None => None,
        },
{
    match st {
        Some(s) => scan_line_exec(s, line, fdctl),
        None => None,
    }
}

proof fn lemma_segments_len(s: Seq<char>)
    ensures
        segments(s).len() >= 1,
    decreases s.len(),
{
    if s.len() > 0 {
        lemma_segments_len(s.drop_last());
    }
}

/// How the lines ended so far grow by one character.
proof fn lemma_ended_step(s: Seq<char>, i: int)
    requires
        0 <= i < s.len(),
    ensures
        segments(s.take(i + 1)) == if s[i] == '\n' {
            segments(s.take(i)).push(Seq::empty())
        } else {
            segments(s.take(i)).update(segments(s.take(i)).len() - 1, segments(s.take(i)).last().push(s[i]))
        },
        ended_lines(s.take(i + 1)) == if s[i] == '\n' {
            ended_lines(s.take(i)).push(strip_cr(segments(s.take(i)).last()))
        } else {
            ended_lines(s.take(i))
        },
        s[i] != '\n' ==> segments(s.take(i + 1)).last() == segments(s.take(i)).last().push(s[i]),
        s[i] == '\n' ==> segments(s.take(i + 1)).last() == Seq::<char>::empty(),
{
    let p = s.take(i);
    let q = s.take(i + 1);
    assert(q.drop_last() =~= p);
    assert(q.last() == s[i]);
    lemma_segments_len(p);
    let g = segments(p);
    if s[i] == '\n' {
        assert(segments(q).drop_last() =~= g);
        assert(ended_lines(q) =~= ended_lines(p).push(strip_cr(g.last())));
    } else {
        assert(segments(q).drop_last() =~= g.drop_last());
        assert(ended_lines(q) =~= ended_lines(p));
    }
}

/// The lines after the header grow with the lines.
proof fn lemma_after_header_push(ls: Seq<Seq<char>>, x: Seq<char>)
    ensures
        after_header(ls.push(x)) == if ls.len() == 0 { Seq::<Seq<char>>::empty() } else { after_header(ls).push(x) },
{
    if ls.len() == 0 {
        assert(ls.push(x).drop_first() =~= Seq::<Seq<char>>::empty());
    } else {
        assert(ls.push(x).drop_first() =~= ls.drop_first().push(x));
    }
}

/// Reading lines one more.
proof fn lemma_scan_push(ls: Seq<Seq<char>>, x: Seq<char>)
    ensures
        scan_lines(ls.push(x)) == match scan_lines(ls) {
            Some(st) => scan_line(st, x),
            None => None,
        },
{
    assert(ls.push(x).drop_last() =~= ls);
}

/// The process id of the heaviest `fdctl` process in the output of `ps aux`
/// (0 when there is none); `None` when a process id that had to be read is
/// not a number.
pub fn heaviest_fdctl_pid(ps: &str) -> (r: Option<u64>)
    ensures
        r == heaviest_fdctl(ps@),
{
    let cs = chars_of(ps);
    let fdctl = chars_of("fdctl");
    let mut cur: Vec<char> = Vec::new();
    let mut ended: usize = 0;
    let mut st: Option<(u64, u64)> = Some((0, 0));
    let mut i: usize = 0;
    assert(cs@.take(0) =~= Seq::<char>::empty());
    assert(ended_lines(Seq::<char>::empty()) =~= Seq::<Seq<char>>::empty());
    while i < cs.len()
        invariant
            cs@ == ps@,
            fdctl@ == "fdctl"@,
            i <= cs@.len(),
            ended <= i,
            cur@ == segments(cs@.take(i as int)).last(),
            ended == ended_lines(cs@.take(i as int)).len(),
            st == scan_lines(after_header(ended_lines(cs@.take(i as int)))),
        decreases cs@.len() - i,
    {
        let c = cs[i];
        proof {
            lemma_ended_step(cs@, i as int);
        }
        let ghost before = ended_lines(cs@.take(i as int));
        if c == '\n' {
            let mut line = cur;
            if line.len() > 0 && line[line.len() - 1] == '\r' {
                line.pop();
            }
            assert(line@ =~= strip_cr(segments(cs@.take(i as int)).last()));
            proof {
                lemma_after_header_push(before, line@);
                lemma_scan_push(after_header(before), line@);
                if before.len() == 0 {
                    assert(scan_lines(Seq::<Seq<char>>::empty()) == Some((0u64, 0u64)));
                }
            }
            if ended >= 1 {
                st = scan_more(st, &line, &fdctl);
            }
            ended = ended + 1;
            cur = Vec::new();
        } else {
            cur.push(c);
        }
        i = i + 1;
    }
    assert(cs@.take(cs@.len() as int) =~= cs@);
    proof {
        lemma_segments_len(cs@);
    }
    let ghost done = ended_lines(cs@);
    if cur.len() > 0 {
        proof {
            lemma_after_header_push(done, cur@);
            lemma_scan_push(after_header(done), cur@);
        }
        if ended >= 1 {
            st = scan_more(st, &cur, &fdctl);
        } else {
            assert(after_header(done.push(cur@)) =~= Seq::<Seq<char>>::empty());
            st = Some((0, 0));
        }
    }
    match st {
        Some(s) => Some(s.1),
        None => None,
    }
}

/// What to do after killing the command that hung: the answer, and the
/// process to kill with it, if any.
pub struct KillPlan {
    pub reply: ApiResponder,
    pub victim: Option<u64>,
}

/// After the hung `fdctl` was killed (or the kill failed, with the error as
/// text), and `ps aux` answered (or not, or not in UTF-8): when the kill
/// failed, the error; otherwise the heaviest `fdctl` process, if any, is to
/// be killed too, and the answer is that the command timed out. `None` when
/// a process id that had to be read is not a number.
pub fn after_kill(kill: Result<(), String>, ps_output: Option<&str>) -> (r: Option<KillPlan>)
    ensures
        match kill {
            Err(e) => r matches Some(p) && p.victim is None
                && is_error_reply(p.reply, "Process timed out and can't be killed "@ + e@),
            Ok(()) => match ps_output {
                None => r matches Some(p) && p.victim is None
                    && is_error_reply(p.reply, "Process timed out and killed"@),
                Some(ps) => match heaviest_fdctl(ps@) {
                    None => r is None,
                    Some(pid) => r matches Some(p)
                        && is_error_reply(p.reply, "Process timed out and killed"@)
                        && p.victim == if pid == 0 { None } else { Some(pid) },
                },
            },
        },
{
    match kill {
        Err(e) => {
            let mut m = "Process timed out and can't be killed ".to_owned();
            push_str(&mut m, e.as_str());
            Some(KillPlan { reply: ApiResponder::error(m), victim: None })
        },
        Ok(()) => {
            let victim = match ps_output {
                None => None,
                Some(ps) => match heaviest_fdctl_pid(ps) {
                    None => {
                        return None;
                    },
                    Some(pid) => if pid == 0 { None } else { Some(pid) },
                },
            };
            Some(KillPlan {
                reply: ApiResponder::error("Process timed out and killed".to_owned()),
                victim,
            })
        },
    }
}

/// The console line printed before the process `pid` is killed.
pub fn victim_line(pid: u64) -> (r: String)
    ensures
        r@ == "fdctl process using the most memory - killing: "@ + dec(pid as nat),
{
    let mut m = "fdctl process using the most memory - killing: ".to_owned();
    push_dec(&mut m, pid as u128);
    m
}

/// The arguments of the `kill` command that ends the process `pid` at once.
pub fn kill_args(pid: u64) -> (r: Vec<String>)
    ensures
        r@.len() == 2,
        r@[0]@ == "-9"@,
        r@[1]@ == dec(pid as nat),
{
    let mut r: Vec<String> = Vec::new();
    r.push("-9".to_owned());
    let mut p = String::new();
    push_dec(&mut p, pid as u128);
    assert(p@ =~= dec(pid as nat));
    r.push(p);
    r
}

/// The answer after the validator's admin service was asked to switch
/// identity: a success, or its error as text.
pub fn after_admin_switch(result: Result<(), String>) -> (r: ApiResponder)
    ensures
        match result {
            Ok(()) => is_empty_success(r),
            Err(e) => is_error_reply(r, e@) && r.message == Some(e),
        },
{
    match result {
        Ok(()) => ApiResponder::success_empty(),
        Err(e) => ApiResponder::error(e),
    }
}

/// How to switch the validator's identity.
pub enum IdentitySwitch {
    /// Run the program with the arguments (a Firedancer validator).
    Fdctl { program: String, args: Vec<String> },
    /// Ask the validator's admin service to take the identity in the key
    /// file.
    Admin { identity_path: String },
}

/// How `/set_identity` switches the validator to the requested identity: with
/// `fdctl set-identity` when the validator is Firedancer, else through the
/// admin service.
pub fn post(config: &ValidatorConfig, request: &SetIdentity) -> (r: IdentitySwitch)
    ensures
        ({
            let path = match request.identity {
                IdentityVariant::Primary => config.keys.primary@,
                IdentityVariant::Secondary => config.keys.secondary@,
            };
            match config.firedancer {
                Some(fd) => r matches IdentitySwitch::Fdctl { program, args } && program@ == fd.fdctl@
                    && args@.len() == 5 && args@[0]@ == "set-identity"@ && args@[1]@ == path
                    && args@[2]@ == "--config"@ && args@[3]@ == fd.config_path@ && args@[4]@ == "--force"@,
                None => r matches IdentitySwitch::Admin { identity_path } && identity_path@ == path,
            }
        }),
{
    let path = identity_path(&config.keys, request.identity);
    match &config.firedancer {
        Some(fd) => IdentitySwitch::Fdctl { program: fd.fdctl.clone(), args: fdctl_args(path, &fd.config_path) },
        None => IdentitySwitch::Admin { identity_path: path.clone() },
    }
}

} // verus!
