//! The sentry's rounds: from what it reads about the nodes and the vote
//! account, the health checks, the alerts it raises and clears, and when it
//! fails the voting identity over to another node.

use vstd::prelude::*;
use crate::text::{dec, push_char, push_str, push_dec};
use crate::handlers::status::Status;
use crate::handlers::set_identity::IdentityVariant;
use super::config::SentryChecks;

verus! {

/// The marks that begin the sentry's notifications.
#[derive(Clone, Copy, PartialEq, Eq, Structural, Debug)]
pub enum Emoji {
    Info,
    Warning,
    Error,
    Success,
}

/// The characters of a mark.
pub open spec fn emoji_text(e: Emoji) -> Seq<char> {
    match e {
        Emoji::Info => seq!['\u{2139}', '\u{fe0f}'],
        Emoji::Warning => seq!['\u{26a0}', '\u{fe0f}'],
        Emoji::Error => seq!['\u{1f6a8}'],
        Emoji::Success => seq!['\u{2705}'],
    }
}

/// A notification about the validator `identity`: the mark, the identity and
/// the text.
pub open spec fn notice_text(e: Emoji, identity: Seq<char>, text: Seq<char>) -> Seq<char> {
    emoji_text(e) + seq![' '] + identity + seq![':', ' '] + text
}

/// Writes a notification about the validator `identity`.
pub fn notice(e: Emoji, identity: &str, text: &str) -> (r: String)
    ensures
        r@ == notice_text(e, identity@, text@),
{
    let mut s = String::new();
    match e {
        Emoji::Info => {
            push_char(&mut s, '\u{2139}');
            push_char(&mut s, '\u{fe0f}');
        },
        Emoji::Warning => {
            push_char(&mut s, '\u{26a0}');
            push_char(&mut s, '\u{fe0f}');
        },
        Emoji::Error => push_char(&mut s, '\u{1f6a8}'),
        Emoji::Success => push_char(&mut s, '\u{2705}'),
    }
    push_char(&mut s, ' ');
    push_str(&mut s, identity);
    push_char(&mut s, ':');
    push_char(&mut s, ' ');
    push_str(&mut s, text);
    assert(s@ =~= notice_text(e, identity@, text@));
    s
}

/// The outcome of the latest round of checks, and since when each problem
/// has lasted (0 when it is not present).
pub struct SanityCheckResult {
    pub identity_balance_low: bool,
    pub rpc_unhealthy: bool,
    pub node_unhealthy: bool,
    pub primary_node: String,
    pub node_slot: u64,
    pub ref_slot: u64,
    pub current_slot: u64,
    pub vote_distance: u64,
    pub healthy_node_count: u8,
    pub total_node_count: u8,
    pub identity_balance_low_since_ms: u128,
    pub delinquent_since_ms: u128,
    pub rpc_unhealthy_since_ms: u128,
    pub failover_triggered_ms: u128,
}

/// No checks made yet: every flag off, every number 0, no primary node.
pub open spec fn no_checks_yet(r: SanityCheckResult) -> bool {
    &&& !r.identity_balance_low && !r.rpc_unhealthy && !r.node_unhealthy
    &&& r.primary_node@ == Seq::<char>::empty()
    &&& r.node_slot == 0 && r.ref_slot == 0 && r.current_slot == 0 && r.vote_distance == 0
    &&& r.healthy_node_count == 0 && r.total_node_count == 0
    &&& r.identity_balance_low_since_ms == 0 && r.delinquent_since_ms == 0
    &&& r.rpc_unhealthy_since_ms == 0 && r.failover_triggered_ms == 0
}

impl SanityCheckResult {
    /// No checks made yet: every flag off, every number 0, no primary node.
    pub fn new() -> (r: Self)
        ensures
            no_checks_yet(r),
    {
        SanityCheckResult {
            identity_balance_low: false,
            rpc_unhealthy: false,
            node_unhealthy: false,
            primary_node: String::new(),
            node_slot: 0,
            ref_slot: 0,
            current_slot: 0,
            vote_distance: 0,
            healthy_node_count: 0,
            total_node_count: 0,
            identity_balance_low_since_ms: 0,
            delinquent_since_ms: 0,
            rpc_unhealthy_since_ms: 0,
            failover_triggered_ms: 0,
        }
    }
}

/// The text of a truth value.
pub open spec fn bool_word(b: bool) -> Seq<char> {
    if b { "true"@ } else { "false"@ }
}

/// The first lines of the report of a round of checks: whether each check
/// is fine, the primary node, the slots and the node counts.
pub open spec fn report_head(r: SanityCheckResult) -> Seq<char> {
    report_flags(r) + report_counts(r)
}

/// The lines of the report on the checks and the primary node.
pub open spec fn report_flags(r: SanityCheckResult) -> Seq<char> {
    "SanityCheckResult {\n identity_balance_ok: "@ + bool_word(!r.identity_balance_low)
        + ",\n rpc_health_ok: "@ + bool_word(!r.rpc_unhealthy)
        + ",\n node_health_ok: "@ + bool_word(!r.node_unhealthy)
        + ",\n primary_node: "@ + r.primary_node@
}

/// The lines of the report on the slots and the node counts.
pub open spec fn report_counts(r: SanityCheckResult) -> Seq<char> {
    ",\n slot: "@ + dec(r.node_slot as nat) + " / "@ + dec(r.ref_slot as nat) + " / "@ + dec(r.current_slot as nat)
        + ",\n vote_distance: "@ + dec(r.vote_distance as nat)
        + ", node_count: "@ + dec(r.healthy_node_count as nat) + " / "@ + dec(r.total_node_count as nat) + "\n"@
}

/// The line telling since when a present problem lasts.
pub open spec fn since_line(present: bool, label: Seq<char>, since: u128) -> Seq<char> {
    if present {
        seq![' '] + label + ": "@ + dec(since as nat) + "\n"@
    } else {
        Seq::empty()
    }
}

/// The report of a round of checks, as the sentry prints it.
pub open spec fn report_text(r: SanityCheckResult) -> Seq<char> {
    report_head(r)
        + since_line(r.identity_balance_low, "identity_balance_low_since_ms"@, r.identity_balance_low_since_ms)
        + since_line(r.node_unhealthy, "delinquent_since_ms"@, r.delinquent_since_ms)
        + since_line(r.rpc_unhealthy, "rpc_unhealthy_since_ms"@, r.rpc_unhealthy_since_ms)
        + "}"@
}

/// Appends the text of a truth value.
fn push_bool(s: &mut String, b: bool)
    ensures
        final(s)@ == old(s)@ + bool_word(b),
{
    if b {
        push_str(s, "true");
    } else {
        push_str(s, "false");
    }
}

/// Appends the line telling since when a present problem lasts.
fn push_since(s: &mut String, present: bool, label: &str, since: u128)
    ensures
        final(s)@ == old(s)@ + since_line(present, label@, since),
{
    if present {
        push_char(s, ' ');
        push_str(s, label);
        push_str(s, ": ");
        push_dec(s, since);
        push_str(s, "\n");
        assert(final(s)@ =~= old(s)@ + since_line(present, label@, since));
    } else {
        assert(final(s)@ =~= old(s)@ + since_line(present, label@, since));
    }
}

impl SanityCheckResult {
    /// Appends the first lines of the report.
    fn push_head(&self, s: &mut String)
        ensures
            final(s)@ == old(s)@ + report_head(*self),
    {
        self.push_flags(s);
        self.push_counts(s);
        assert(final(s)@ =~= old(s)@ + report_head(*self));
    }

    /// Appends the lines on the checks and the primary node.
    fn push_flags(&self, s: &mut String)
        ensures
            final(s)@ == old(s)@ + report_flags(*self),
    {
        push_str(s, "SanityCheckResult {\n identity_balance_ok: ");
        push_bool(s, !self.identity_balance_low);
        push_str(s, ",\n rpc_health_ok: ");
        push_bool(s, !self.rpc_unhealthy);
        push_str(s, ",\n node_health_ok: ");
        push_bool(s, !self.node_unhealthy);
        push_str(s, ",\n primary_node: ");
        push_str(s, self.primary_node.as_str());
        assert(final(s)@ =~= old(s)@ + report_flags(*self));
    }

    /// Appends the lines on the slots and the node counts.
    fn push_counts(&self, s: &mut String)
        ensures
            final(s)@ == old(s)@ + report_counts(*self),
    {
        push_str(s, ",\n slot: ");
        push_dec(s, self.node_slot as u128);
        push_str(s, " / ");
        push_dec(s, self.ref_slot as u128);
        push_str(s, " / ");
        push_dec(s, self.current_slot as u128);
        push_str(s, ",\n vote_distance: ");
        push_dec(s, self.vote_distance as u128);
        push_str(s, ", node_count: ");
        push_dec(s, self.healthy_node_count as u128);
        push_str(s, " / ");
        push_dec(s, self.total_node_count as u128);
        push_str(s, "\n");
        assert(final(s)@ =~= old(s)@ + report_counts(*self));
    }

    /// The report of the checks: whether each is fine, the primary node,
    /// the slots and node counts, and since when each present problem lasts.
    pub fn describe(&self) -> (r: String)
        ensures
            r@ == report_text(*self),
    {
        let mut s = String::new();
        self.push_head(&mut s);
        push_since(&mut s, self.identity_balance_low, "identity_balance_low_since_ms", self.identity_balance_low_since_ms);
        push_since(&mut s, self.node_unhealthy, "delinquent_since_ms", self.delinquent_since_ms);
        push_since(&mut s, self.rpc_unhealthy, "rpc_unhealthy_since_ms", self.rpc_unhealthy_since_ms);
        push_str(&mut s, "}");
        assert(s@ =~= report_text(*self));
        s
    }
}

/// What the sentry carries from one round to the next: the latest checks and
/// which alerts are raised.
pub struct SentryState {
    pub sanity: SanityCheckResult,
    pub delinquent_triggered: bool,
    pub identity_balance_triggered: bool,
    pub rpc_unhealthy_triggered: bool,
}

impl SentryState {
    /// The state before the first round: no checks, no alerts.
    pub fn new() -> (r: Self)
        ensures
            no_checks_yet(r.sanity),
            !r.delinquent_triggered && !r.identity_balance_triggered && !r.rpc_unhealthy_triggered,
    {
        SentryState {
            sanity: SanityCheckResult::new(),
            delinquent_triggered: false,
            identity_balance_triggered: false,
            rpc_unhealthy_triggered: false,
        }
    }
}

/// What one round reads: the time (milliseconds since the epoch), the nodes'
/// statuses, the vote account's authorized voter and its balance (lamports,
/// and in SOL as the notifications print it), the outside RPC service's slot,
/// the slot of the account's latest vote, and the sentry machine's name.
pub struct Reading {
    pub now_ms: u128,
    pub statuses: Vec<Status>,
    pub identity: String,
    pub identity_balance: u64,
    pub balance_sol: String,
    pub ref_slot: u64,
    pub last_vote_slot: u64,
    pub local_hostname: String,
}

/// What the sentry does after a round, in order.
pub enum SentryAction {
    /// Log and send the notification.
    Notify(String),
    /// Print the text on the console.
    Print(String),
    /// Ask the monitor at the host to take the identity.
    SetIdentity(String, IdentityVariant),
}

/// An action, with its texts as character sequences.
pub enum ActionView {
    Notify(Seq<char>),
    Print(Seq<char>),
    SetIdentity(Seq<char>, IdentityVariant),
}

impl View for SentryAction {
    type V = ActionView;

    open spec fn view(&self) -> ActionView {
        match self {
            SentryAction::Notify(m) => ActionView::Notify(m@),
            SentryAction::Print(t) => ActionView::Print(t@),
            SentryAction::SetIdentity(h, v) => ActionView::SetIdentity(h@, *v),
        }
    }
}

/// The actions of a list, viewed.
pub open spec fn actions_view(v: Seq<SentryAction>) -> Seq<ActionView> {
    v.map_values(|a: SentryAction| a@)
}

// ---------------------------------------------------------------------------
// The checks of a round.

/// The highest slot among the statuses (0 for none).
pub open spec fn max_slot(s: Seq<Status>) -> u64
    decreases s.len(),
{
    if s.len() == 0 {
        0
    } else if s.len() == 1 {
        s[0].slot
    } else {
        let m = max_slot(s.drop_last());
        if s.last().slot > m { s.last().slot } else { m }
    }
}

/// The position of the last status with the highest slot.
pub open spec fn last_max_index(s: Seq<Status>) -> int
    decreases s.len(),
{
    if s.len() <= 1 {
        0
    } else {
        let j = last_max_index(s.drop_last());
        if s.last().slot >= s[j].slot { s.len() - 1 } else { j }
    }
}

/// The number of statuses whose slot is at least `bound`.
pub open spec fn count_at_least(s: Seq<Status>, bound: int) -> nat
    decreases s.len(),
{
    if s.len() == 0 {
        0
    } else {
        count_at_least(s.drop_last(), bound) + if s.last().slot >= bound { 1nat } else { 0nat }
    }
}

/// `i` is the first position of a status with the identity `id`.
pub open spec fn is_first_with_identity(s: Seq<Status>, id: Seq<char>, i: int) -> bool {
    &&& 0 <= i < s.len()
    &&& s[i].identity@ == id
    &&& forall|j: int| 0 <= j < i ==> s[j].identity@ != id
}

/// The host of the first node that reports the identity `id`; `fallback`
/// when none does.
pub open spec fn primary_hostname(s: Seq<Status>, id: Seq<char>, fallback: Seq<char>) -> Seq<char> {
    if exists|i: int| 0 <= i < s.len() && s[i].identity@ == id {
        s[choose|i: int| is_first_with_identity(s, id, i)].hostname@
    } else {
        fallback
    }
}

/// How long delinquency may last before a failover, for the lag threshold
/// `t`: 60 s less 400 ms per slot of threshold, and no less than 0.
pub open spec fn delinquency_threshold(t: u64) -> u128 {
    if 400 * t >= 60000 { 0 } else { (60000 - 400 * t) as u128 }
}

/// The balance (lamports) below which the identity cannot pay for its votes,
/// and no failover is tried.
pub open spec fn depletion_limit() -> u64 {
    895880
}

/// The highest slot a node reports.
pub open spec fn node_slot(r: Reading) -> u64 {
    max_slot(r.statuses@)
}

/// The identity's balance is below the configured threshold.
pub open spec fn balance_low(c: SentryChecks, r: Reading) -> bool {
    r.identity_balance < c.identity_balance
}

/// The outside RPC service lags the nodes by more than the threshold.
pub open spec fn rpc_unhealthy(c: SentryChecks, r: Reading) -> bool {
    r.ref_slot < node_slot(r) - c.unhealthy_threshold && node_slot(r) > 0
}

/// The best guess of the cluster's slot: the higher of the RPC service's and
/// the nodes'.
pub open spec fn current_slot(r: Reading) -> u64 {
    if r.ref_slot >= node_slot(r) { r.ref_slot } else { node_slot(r) }
}

/// How many slots the latest vote lags the RPC service's slot (0 when it
/// does not lag).
pub open spec fn vote_distance(r: Reading) -> u64 {
    if r.ref_slot >= r.last_vote_slot { (r.ref_slot - r.last_vote_slot) as u64 } else { 0 }
}

/// The latest vote lags by more than the threshold.
pub open spec fn node_unhealthy(c: SentryChecks, r: Reading) -> bool {
    vote_distance(r) > c.unhealthy_threshold
}

/// The number of nodes within the threshold of the current slot, kept in a
/// byte.
pub open spec fn healthy_count(c: SentryChecks, r: Reading) -> u8 {
    count_at_least(r.statuses@, current_slot(r) - c.unhealthy_threshold) as u8
}

/// The number of nodes, kept in a byte.
pub open spec fn total_count(r: Reading) -> u8 {
    r.statuses@.len() as u8
}

/// Since when a problem lasts, given whether it is present now and since when
/// it lasted before: kept while it lasts, set to now when it starts, 0 when
/// it is absent.
pub open spec fn since(present: bool, before: u128, now: u128) -> u128 {
    if present {
        if before == 0 { now } else { before }
    } else {
        0
    }
}

/// Since when the node is delinquent after the round.
pub open spec fn delinquent_since(s: SentryState, c: SentryChecks, r: Reading) -> u128 {
    since(node_unhealthy(c, r), s.sanity.delinquent_since_ms, r.now_ms)
}

/// How long the node has been delinquent at the round's time.
pub open spec fn delinquent_for(s: SentryState, c: SentryChecks, r: Reading) -> int {
    r.now_ms - delinquent_since(s, c, r)
}

/// The node has been delinquent for longer than the threshold allows.
pub open spec fn delinquent_too_long(s: SentryState, c: SentryChecks, r: Reading) -> bool {
    delinquent_since(s, c, r) > 0 && delinquent_for(s, c, r) >= delinquency_threshold(c.unhealthy_threshold)
}

/// Every node is healthy, yet the votes lag, and have for 5 s.
pub open spec fn nobody_voting(s: SentryState, c: SentryChecks, r: Reading) -> bool {
    &&& healthy_count(c, r) == total_count(r)
    &&& node_unhealthy(c, r)
    &&& delinquent_for(s, c, r) >= 5000
}

/// The identity cannot pay for its votes.
pub open spec fn identity_depleted(r: Reading) -> bool {
    r.identity_balance < depletion_limit()
}

/// The last failover was at least 10 s ago.
pub open spec fn no_failover_recently(s: SentryState, r: Reading) -> bool {
    r.now_ms - s.sanity.failover_triggered_ms >= 10000
}

/// The round fails the identity over.
pub open spec fn failover_due(s: SentryState, c: SentryChecks, r: Reading) -> bool {
    &&& !identity_depleted(r)
    &&& delinquent_too_long(s, c, r) || nobody_voting(s, c, r)
    &&& no_failover_recently(s, r)
}

/// Some polled node reports the identity that votes: the primary node is
/// among the statuses.
pub open spec fn primary_found(r: Reading) -> bool {
    exists|i: int| 0 <= i < r.statuses@.len() && r.statuses@[i].identity@ == r.identity@
}

/// The host of the node that votes now, as far as the statuses tell; this
/// machine's name when no status reports the voting identity (the name the
/// checks report as the primary node then).
pub open spec fn primary_host(r: Reading) -> Seq<char> {
    primary_hostname(r.statuses@, r.identity@, r.local_hostname@)
}

/// The host of the node that takes over: the last one with the highest slot.
pub open spec fn new_primary_host(r: Reading) -> Seq<char> {
    r.statuses@[last_max_index(r.statuses@)].hostname@
}

/// A round can be made from the state `s` with the reading `r`: there is at
/// least one node, the nodes' highest slot is no lower than the threshold,
/// the threshold's delinquency allowance can be computed, and the time is
/// not before the last failover nor, when the node is delinquent, before the
/// delinquency began.
pub open spec fn round_defined(s: SentryState, c: SentryChecks, r: Reading) -> bool {
    &&& r.statuses@.len() > 0
    &&& node_slot(r) >= c.unhealthy_threshold
    &&& 400 * c.unhealthy_threshold <= u64::MAX
    &&& r.now_ms >= s.sanity.failover_triggered_ms
    &&& node_unhealthy(c, r) ==> r.now_ms >= s.sanity.delinquent_since_ms
}

// ---------------------------------------------------------------------------
// What a round does.

/// The notification of an alert that is raised or cleared: `raise` when the
/// condition holds now and the alert was not raised, `clear` when it no
/// longer holds and the alert was raised, nothing otherwise.
pub open spec fn alert(raised: bool, holds: bool, raise: Seq<char>, clear: Seq<char>) -> Seq<ActionView> {
    if holds && !raised {
        seq![ActionView::Notify(raise)]
    } else if !holds && raised {
        seq![ActionView::Notify(clear)]
    } else {
        Seq::empty()
    }
}

/// The text of the delinquency notice.
pub open spec fn delinquent_text() -> Seq<char> {
    "Node is delinquent"@
}

/// The text of the notice that delinquency is over.
pub open spec fn recovered_text() -> Seq<char> {
    "Node is no longer delinquent"@
}

/// The text of the low balance notice, with the balance in SOL.
pub open spec fn balance_low_text(sol: Seq<char>) -> Seq<char> {
    "Identity balance is low - \u{25ce}"@ + sol
}

/// The text of the notice that the balance is back.
pub open spec fn balance_ok_text() -> Seq<char> {
    "Identity balance is ok"@
}

/// The text of the notice that the RPC service lags by `lag` slots.
pub open spec fn rpc_lag_text(lag: nat) -> Seq<char> {
    "RPC is unhealthy - "@ + dec(lag) + " slots behind"@
}

/// The text of the notice that the RPC service is back.
pub open spec fn rpc_ok_text() -> Seq<char> {
    "RPC is healthy"@
}

/// The delinquency notice of a round, raised or cleared.
pub open spec fn delinquency_alert(s: SentryState, c: SentryChecks, r: Reading) -> Seq<ActionView> {
    alert(
        s.delinquent_triggered,
        delinquent_too_long(s, c, r),
        notice_text(Emoji::Error, r.identity@, delinquent_text()),
        notice_text(Emoji::Success, r.identity@, recovered_text()),
    )
}

/// The low balance notice of a round, raised or cleared.
pub open spec fn balance_alert(s: SentryState, c: SentryChecks, r: Reading) -> Seq<ActionView> {
    alert(
        s.identity_balance_triggered,
        balance_low(c, r),
        notice_text(Emoji::Warning, r.identity@, balance_low_text(r.balance_sol@)),
        notice_text(Emoji::Success, r.identity@, balance_ok_text()),
    )
}

/// The RPC service notice of a round, raised or cleared.
pub open spec fn rpc_alert(s: SentryState, c: SentryChecks, r: Reading) -> Seq<ActionView> {
    alert(
        s.rpc_unhealthy_triggered,
        rpc_unhealthy(c, r),
        notice_text(Emoji::Warning, r.identity@, rpc_lag_text((node_slot(r) - r.ref_slot) as nat)),
        notice_text(Emoji::Success, r.identity@, rpc_ok_text()),
    )
}

/// The alerts raised or cleared in a round, in order: delinquency, balance,
/// RPC service.
pub open spec fn alert_actions(s: SentryState, c: SentryChecks, r: Reading) -> Seq<ActionView> {
    delinquency_alert(s, c, r) + balance_alert(s, c, r) + rpc_alert(s, c, r)
}

/// The host name does not begin with a parenthesis, the form of the markers
/// (such as `(unreachable)`) that stand in for what a node could not tell.
pub open spec fn names_a_node(host: Seq<char>) -> bool {
    !(host.len() > 0 && host[0] == '(')
}

/// The console line that announces a failover after `ms` of delinquency.
pub open spec fn failover_line(ms: nat) -> Seq<char> {
    "Delinquent for "@ + dec(ms) + "ms, triggering failover\n"@
}

/// The console line before the current primary is demoted.
pub open spec fn demote_line() -> Seq<char> {
    "Setting primary node to secondary identity\n"@
}

/// The console line before `host` is promoted.
pub open spec fn promote_line(host: Seq<char>) -> Seq<char> {
    "Failing over to "@ + host + "\n"@
}

/// The text of the notice that the identity went to `host`.
pub open spec fn failed_over_text(host: Seq<char>) -> Seq<char> {
    "Automatically failed over to "@ + host
}

/// The current primary is demoted in a failover: a polled node reports the
/// voting identity, and its host name is not a marker.
pub open spec fn demotes_primary(r: Reading) -> bool {
    primary_found(r) && names_a_node(primary_host(r))
}

/// A failover: announce it, demote the current primary when one was found,
/// promote the node with the highest slot, and notify.
pub open spec fn failover_actions(s: SentryState, c: SentryChecks, r: Reading) -> Seq<ActionView> {
    if failover_due(s, c, r) {
        let old_host = primary_host(r);
        let new_host = new_primary_host(r);
        seq![ActionView::Print(failover_line(delinquent_for(s, c, r) as nat))] + (if demotes_primary(r) {
            seq![
                ActionView::Print(demote_line()),
                ActionView::SetIdentity(old_host, IdentityVariant::Secondary),
            ]
        } else {
            Seq::empty()
        }) + seq![
            ActionView::Print(promote_line(new_host)),
            ActionView::SetIdentity(new_host, IdentityVariant::Primary),
            ActionView::Notify(notice_text(Emoji::Info, r.identity@, failed_over_text(new_host))),
        ]
    } else {
        Seq::empty()
    }
}

/// Everything a round does, in order.
pub open spec fn round_actions(s: SentryState, c: SentryChecks, r: Reading) -> Seq<ActionView> {
    alert_actions(s, c, r) + failover_actions(s, c, r)
}

/// `t` is the state after a round from `s` with the reading `r`.
pub open spec fn next_state(s: SentryState, c: SentryChecks, r: Reading, t: SentryState) -> bool {
    &&& t.sanity.identity_balance_low == balance_low(c, r)
    &&& t.sanity.rpc_unhealthy == rpc_unhealthy(c, r)
    &&& t.sanity.node_unhealthy == node_unhealthy(c, r)
    &&& t.sanity.primary_node@ == primary_host(r)
    &&& t.sanity.node_slot == node_slot(r)
    &&& t.sanity.ref_slot == r.ref_slot
    &&& t.sanity.current_slot == current_slot(r)
    &&& t.sanity.vote_distance == vote_distance(r)
    &&& t.sanity.healthy_node_count == healthy_count(c, r)
    &&& t.sanity.total_node_count == total_count(r)
    &&& t.sanity.identity_balance_low_since_ms
        == since(balance_low(c, r), s.sanity.identity_balance_low_since_ms, r.now_ms)
    &&& t.sanity.delinquent_since_ms == delinquent_since(s, c, r)
    &&& t.sanity.rpc_unhealthy_since_ms
        == since(rpc_unhealthy(c, r), s.sanity.rpc_unhealthy_since_ms, r.now_ms)
    &&& t.sanity.failover_triggered_ms == if failover_due(s, c, r) {
        r.now_ms
    } else {
        s.sanity.failover_triggered_ms
    }
    &&& t.delinquent_triggered == delinquent_too_long(s, c, r)
    &&& t.identity_balance_triggered == balance_low(c, r)
    &&& t.rpc_unhealthy_triggered == rpc_unhealthy(c, r)
}


// ---------------------------------------------------------------------------
// Making a round.

/// The highest slot among the statuses.
fn highest_slot(s: &Vec<Status>) -> (m: u64)
    requires
        s@.len() > 0,
    ensures
        m == max_slot(s@),
{
    let mut m = s[0].slot;
    let mut i: usize = 1;
    assert(s@.take(1).drop_last().len() == 0);
    while i < s.len()
        invariant
            1 <= i <= s@.len(),
            m == max_slot(s@.take(i as int)),
        decreases s@.len() - i,
    {
        assert(s@.take(i + 1).drop_last() =~= s@.take(i as int));
        if s[i].slot > m {
            m = s[i].slot;
        }
        i = i + 1;
    }
    assert(s@.take(s@.len() as int) =~= s@);
    m
}

/// The position of the last status with the highest slot.
fn last_highest_index(s: &Vec<Status>) -> (j: usize)
    requires
        s@.len() > 0,
    ensures
        j == last_max_index(s@),
        j < s@.len(),
{
    let mut j: usize = 0;
    let mut i: usize = 1;
    while i < s.len()
        invariant
            1 <= i <= s@.len(),
            j < i,
            j == last_max_index(s@.take(i as int)),
        decreases s@.len() - i,
    {
        assert(s@.take(i + 1).drop_last() =~= s@.take(i as int));
        if s[i].slot >= s[j].slot {
            j = i;
        }
        i = i + 1;
    }
    assert(s@.take(s@.len() as int) =~= s@);
    j
}

/// The number of statuses whose slot is at least `bound`.
fn count_healthy(s: &Vec<Status>, bound: u64) -> (n: usize)
    ensures
        n == count_at_least(s@, bound as int),
{
    let mut n: usize = 0;
    let mut i: usize = 0;
    while i < s.len()
        invariant
            i <= s@.len(),
            n <= i,
            n == count_at_least(s@.take(i as int), bound as int),
        decreases s@.len() - i,
    {
        assert(s@.take(i + 1).drop_last() =~= s@.take(i as int));
        if s[i].slot >= bound {
            n = n + 1;
        }
        i = i + 1;
    }
    assert(s@.take(s@.len() as int) =~= s@);
    n
}

/// Whether some status reports the identity `id`.
fn reports_identity(s: &Vec<Status>, id: &String) -> (b: bool)
    ensures
        b == exists|i: int| 0 <= i < s@.len() && s@[i].identity@ == id@,
{
    let mut i: usize = 0;
    while i < s.len()
        invariant
            i <= s@.len(),
            forall|j: int| 0 <= j < i ==> s@[j].identity@ != id@,
        decreases s@.len() - i,
    {
        if s[i].identity == *id {
            return true;
        }
        i = i + 1;
    }
    false
}

/// The host of the first node that reports the identity `id`; `fallback`
/// when none does.
fn primary_of(s: &Vec<Status>, id: &String, fallback: &String) -> (h: String)
    ensures
        h@ == primary_hostname(s@, id@, fallback@),
{
    let mut i: usize = 0;
    while i < s.len()
        invariant
            i <= s@.len(),
            forall|j: int| 0 <= j < i ==> s@[j].identity@ != id@,
        decreases s@.len() - i,
    {
        if s[i].identity == *id {
            proof {
                assert(is_first_with_identity(s@, id@, i as int));
                let c = choose|k: int| is_first_with_identity(s@, id@, k);
                assert(is_first_with_identity(s@, id@, c));
                if c < i {
                    assert(s@[c].identity@ != id@);
                } else if c > i {
                    assert(s@[i as int].identity@ != id@);
                }
            }
            return s[i].hostname.clone();
        }
        i = i + 1;
    }
    fallback.clone()
}

/// Since when a problem lasts after a round.
fn since_now(present: bool, before: u128, now: u128) -> (r: u128)
    ensures
        r == since(present, before, now),
{
    if present {
        if before == 0 { now } else { before }
    } else {
        0
    }
}

/// How long delinquency may last before a failover, for the lag threshold `t`.
pub fn delinquency_threshold_ms(t: u64) -> (r: u128)
    requires
        400 * t <= u64::MAX,
    ensures
        r == delinquency_threshold(t),
{
    60000u64.saturating_sub(400 * t) as u128
}

/// Appends an action.
fn push_action(v: &mut Vec<SentryAction>, a: SentryAction)
    ensures
        actions_view(final(v)@) == actions_view(old(v)@).push(a@),
{
    v.push(a);
    assert(actions_view(final(v)@) =~= actions_view(old(v)@).push(a@));
}

/// Raises or clears an alert.
fn push_alert(v: &mut Vec<SentryAction>, raised: bool, holds: bool, raise: String, clear: String)
    ensures
        actions_view(final(v)@) == actions_view(old(v)@) + alert(raised, holds, raise@, clear@),
{
    if holds {
        if !raised {
            push_action(v, SentryAction::Notify(raise));
        }
    } else if raised {
        push_action(v, SentryAction::Notify(clear));
    }
    assert(actions_view(final(v)@) =~= actions_view(old(v)@) + alert(raised, holds, raise@, clear@));
}

/// The outcome of the checks of a round.
pub struct Assessment {
    pub node_slot: u64,
    pub identity_balance_low: bool,
    pub rpc_unhealthy: bool,
    pub current_slot: u64,
    pub vote_distance: u64,
    pub node_unhealthy: bool,
    pub primary: String,
    pub primary_found: bool,
    pub healthy: u8,
    pub total: u8,
    pub balance_since: u128,
    pub delinquent_since: u128,
    pub rpc_since: u128,
    pub delinquent_for: u128,
    pub too_long: bool,
    pub failover: bool,
}

/// `a` holds the checks of a round from `s` with the reading `r`.
pub open spec fn assessed(s: SentryState, c: SentryChecks, r: Reading, a: Assessment) -> bool {
    &&& a.node_slot == node_slot(r)
    &&& a.identity_balance_low == balance_low(c, r)
    &&& a.rpc_unhealthy == rpc_unhealthy(c, r)
    &&& a.current_slot == current_slot(r)
    &&& a.vote_distance == vote_distance(r)
    &&& a.node_unhealthy == node_unhealthy(c, r)
    &&& a.primary@ == primary_host(r)
    &&& a.primary_found == primary_found(r)
    &&& a.healthy == healthy_count(c, r)
    &&& a.total == total_count(r)
    &&& a.balance_since == since(balance_low(c, r), s.sanity.identity_balance_low_since_ms, r.now_ms)
    &&& a.delinquent_since == delinquent_since(s, c, r)
    &&& a.rpc_since == since(rpc_unhealthy(c, r), s.sanity.rpc_unhealthy_since_ms, r.now_ms)
    &&& a.delinquent_for == delinquent_for(s, c, r)
    &&& a.too_long == delinquent_too_long(s, c, r)
    &&& a.failover == failover_due(s, c, r)
}

/// The checks of a round.
fn assess(state: &SentryState, checks: &SentryChecks, reading: &Reading) -> (a: Assessment)
    requires
        round_defined(*state, *checks, *reading),
    ensures
        assessed(*state, *checks, *reading, a),
{
    let t = checks.unhealthy_threshold;
    let now = reading.now_ms;
    let statuses = &reading.statuses;

    let node_slot = highest_slot(statuses);
    let identity_balance_low = reading.identity_balance < checks.identity_balance;
    let rpc_unhealthy = reading.ref_slot < node_slot - t && node_slot > 0;
    let current_slot = if reading.ref_slot >= node_slot { reading.ref_slot } else { node_slot };
    let vote_distance = reading.ref_slot.saturating_sub(reading.last_vote_slot);
    let node_unhealthy = vote_distance > t;
    let primary = primary_of(statuses, &reading.identity, &reading.local_hostname);
    let primary_found = reports_identity(statuses, &reading.identity);
    let healthy = count_healthy(statuses, current_slot - t) as u8;
    let total = statuses.len() as u8;

    let balance_since = since_now(identity_balance_low, state.sanity.identity_balance_low_since_ms, now);
    let delinquent_since = since_now(node_unhealthy, state.sanity.delinquent_since_ms, now);
    let rpc_since = since_now(rpc_unhealthy, state.sanity.rpc_unhealthy_since_ms, now);

    let delinquent_for = now - delinquent_since;
    let too_long = delinquent_since > 0 && delinquent_for >= delinquency_threshold_ms(t);
    let nobody_voting = healthy == total && node_unhealthy && delinquent_for >= 5000;
    let depleted = reading.identity_balance < 895880;
    let calm = now - state.sanity.failover_triggered_ms >= 10000;
    let failover = !depleted && (too_long || nobody_voting) && calm;
    Assessment {
        node_slot,
        identity_balance_low,
        rpc_unhealthy,
        current_slot,
        vote_distance,
        node_unhealthy,
        primary,
        primary_found,
        healthy,
        total,
        balance_since,
        delinquent_since,
        rpc_since,
        delinquent_for,
        too_long,
        failover,
    }
}

/// The alerts of a round, raised and cleared.
fn alert_steps(state: &SentryState, checks: &SentryChecks, reading: &Reading, a: &Assessment) -> (actions: Vec<SentryAction>)
    requires
        round_defined(*state, *checks, *reading),
        assessed(*state, *checks, *reading, *a),
    ensures
        actions_view(actions@) == alert_actions(*state, *checks, *reading),
{
    let id = reading.identity.as_str();
    let mut actions: Vec<SentryAction> = Vec::new();
    assert(actions_view(actions@) =~= Seq::<ActionView>::empty());
    push_alert(
        &mut actions,
        state.delinquent_triggered,
        a.too_long,
        notice(Emoji::Error, id, "Node is delinquent"),
        notice(Emoji::Success, id, "Node is no longer delinquent"),
    );
    let mut low = "Identity balance is low - \u{25ce}".to_owned();
    push_str(&mut low, reading.balance_sol.as_str());
    push_alert(
        &mut actions,
        state.identity_balance_triggered,
        a.identity_balance_low,
        notice(Emoji::Warning, id, low.as_str()),
        notice(Emoji::Success, id, "Identity balance is ok"),
    );
    let mut lag = "RPC is unhealthy - ".to_owned();
    if a.rpc_unhealthy {
        push_dec(&mut lag, (a.node_slot - reading.ref_slot) as u128);
    }
    push_str(&mut lag, " slots behind");
    assert(a.rpc_unhealthy ==> lag@ =~= rpc_lag_text((node_slot(*reading) - reading.ref_slot) as nat));
    let lag_notice = notice(Emoji::Warning, id, lag.as_str());
    push_alert(
        &mut actions,
        state.rpc_unhealthy_triggered,
        a.rpc_unhealthy,
        lag_notice,
        notice(Emoji::Success, id, "RPC is healthy"),
    );
    assert(actions_view(actions@) =~= alert_actions(*state, *checks, *reading));
    actions
}

/// The steps of a failover, when one is due.
fn failover_steps(actions: &mut Vec<SentryAction>, checks: &SentryChecks, reading: &Reading, a: &Assessment)
    requires
        reading.statuses@.len() > 0,
        a.primary@ == primary_host(*reading),
        a.primary_found == primary_found(*reading),
    ensures
        a.failover ==> actions_view(final(actions)@) == actions_view(old(actions)@) + seq![
            ActionView::Print(failover_line(a.delinquent_for as nat))] + (if demotes_primary(*reading) {
                seq![
                    ActionView::Print(demote_line()),
                    ActionView::SetIdentity(primary_host(*reading), IdentityVariant::Secondary),
                ]
            } else {
                Seq::empty()
            }) + seq![
                ActionView::Print(promote_line(new_primary_host(*reading))),
                ActionView::SetIdentity(new_primary_host(*reading), IdentityVariant::Primary),
                ActionView::Notify(notice_text(Emoji::Info, reading.identity@, failed_over_text(new_primary_host(*reading)))),
            ],
        !a.failover ==> final(actions)@ == old(actions)@,
{
    if a.failover {
        let ghost start = actions_view(actions@);
        let id = reading.identity.as_str();
        let statuses = &reading.statuses;
        let mut line = "Delinquent for ".to_owned();
        push_dec(&mut line, a.delinquent_for);
        push_str(&mut line, "ms, triggering failover\n");
        assert(line@ =~= failover_line(a.delinquent_for as nat));
        push_action(actions, SentryAction::Print(line));
        let ghost after_line = actions_view(actions@);
        let pv = crate::text::chars_of(a.primary.as_str());
        if a.primary_found && !(pv.len() > 0 && pv[0] == '(') {
            push_action(actions, SentryAction::Print("Setting primary node to secondary identity\n".to_owned()));
            push_action(actions, SentryAction::SetIdentity(a.primary.clone(), IdentityVariant::Secondary));
        }
        let ghost after_demote = actions_view(actions@);
        let j = last_highest_index(statuses);
        let new_host = statuses[j].hostname.clone();
        let mut promote = "Failing over to ".to_owned();
        push_str(&mut promote, new_host.as_str());
        push_str(&mut promote, "\n");
        push_action(actions, SentryAction::Print(promote));
        push_action(actions, SentryAction::SetIdentity(new_host.clone(), IdentityVariant::Primary));
        let mut done = "Automatically failed over to ".to_owned();
        push_str(&mut done, new_host.as_str());
        push_action(actions, SentryAction::Notify(notice(Emoji::Info, id, done.as_str())));
        assert(actions_view(actions@) =~= start + seq![
            ActionView::Print(failover_line(a.delinquent_for as nat))] + (if demotes_primary(*reading) {
                seq![
                    ActionView::Print(demote_line()),
                    ActionView::SetIdentity(primary_host(*reading), IdentityVariant::Secondary),
                ]
            } else {
                Seq::empty()
            }) + seq![
                ActionView::Print(promote_line(new_primary_host(*reading))),
                ActionView::SetIdentity(new_primary_host(*reading), IdentityVariant::Primary),
                ActionView::Notify(notice_text(Emoji::Info, reading.identity@, failed_over_text(new_primary_host(*reading)))),
            ]);
    }
}

/// A round, when it can be made: `None`, with the state unchanged, when it
/// cannot (no node, the nodes' highest slot below the lag threshold, a
/// threshold too large for its delinquency allowance, or a time before the
/// last failover or before the delinquency began).
pub fn try_round(state: &mut SentryState, checks: &SentryChecks, reading: &Reading) -> (r: Option<Vec<SentryAction>>)
    ensures
        r is Some <==> round_defined(*old(state), *checks, *reading),
        r matches Some(actions) ==> next_state(*old(state), *checks, *reading, *final(state))
            && actions_view(actions@) == round_actions(*old(state), *checks, *reading),
        r matches Some(actions) ==> (!primary_found(*reading) ==> forall|h: Seq<char>|
            !(#[trigger] actions_view(actions@).contains(ActionView::SetIdentity(h, IdentityVariant::Secondary)))),
        r is None ==> *final(state) == *old(state),
{
    if reading.statuses.len() == 0 {
        return None;
    }
    let node_slot = highest_slot(&reading.statuses);
    let t = checks.unhealthy_threshold;
    if node_slot < t || t > u64::MAX / 400 || reading.now_ms < state.sanity.failover_triggered_ms {
        return None;
    }
    let vote_distance = reading.ref_slot.saturating_sub(reading.last_vote_slot);
    if vote_distance > t && reading.now_ms < state.sanity.delinquent_since_ms {
        return None;
    }
    Some(round(state, checks, reading))
}

/// One round of the sentry: the checks on the reading, the alerts raised and
/// cleared, and the failover when one is due. The state carries the outcome
/// to the next round; the actions are to be performed in order.
pub fn round(state: &mut SentryState, checks: &SentryChecks, reading: &Reading) -> (actions: Vec<SentryAction>)
    requires
        round_defined(*old(state), *checks, *reading),
    ensures
        next_state(*old(state), *checks, *reading, *final(state)),
        actions_view(actions@) == round_actions(*old(state), *checks, *reading),
        !primary_found(*reading) ==> forall|h: Seq<char>|
            !(#[trigger] actions_view(actions@).contains(ActionView::SetIdentity(h, IdentityVariant::Secondary))),
{
    proof {
        if !primary_found(*reading) {
            assert forall|h: Seq<char>| !round_actions(*old(state), *checks, *reading).contains(
                ActionView::SetIdentity(h, IdentityVariant::Secondary)) by {
                law_no_demotion_without_primary(*old(state), *checks, *reading, h);
            }
        }
    }
    let a = assess(state, checks, reading);
    let mut actions = alert_steps(state, checks, reading, &a);
    failover_steps(&mut actions, checks, reading, &a);
    assert(actions_view(actions@) =~= round_actions(*old(state), *checks, *reading));

    let failover_triggered_ms = if a.failover { reading.now_ms } else { state.sanity.failover_triggered_ms };
    state.sanity = SanityCheckResult {
        identity_balance_low: a.identity_balance_low,
        rpc_unhealthy: a.rpc_unhealthy,
        node_unhealthy: a.node_unhealthy,
        primary_node: a.primary,
        node_slot: a.node_slot,
        ref_slot: reading.ref_slot,
        current_slot: a.current_slot,
        vote_distance: a.vote_distance,
        healthy_node_count: a.healthy,
        total_node_count: a.total,
        identity_balance_low_since_ms: a.balance_since,
        delinquent_since_ms: a.delinquent_since,
        rpc_unhealthy_since_ms: a.rpc_since,
        failover_triggered_ms,
    };
    state.delinquent_triggered = a.too_long;
    state.identity_balance_triggered = a.identity_balance_low;
    state.rpc_unhealthy_triggered = a.rpc_unhealthy;
    actions
}

/// The line printed when the sentry starts.
pub open spec fn threshold_line(ms: nat) -> Seq<char> {
    "Delinquency threshold: "@ + dec(ms) + "ms\n"@
}

/// The text of the notice that the sentry has started.
pub open spec fn started_text() -> Seq<char> {
    "Sentry is up and running!"@
}

/// What the sentry does when it starts: print the delinquency allowance and
/// notify that it is running.
pub fn startup(checks: &SentryChecks, identity: &String) -> (actions: Vec<SentryAction>)
    requires
        400 * checks.unhealthy_threshold <= u64::MAX,
    ensures
        actions_view(actions@) == seq![
            ActionView::Print(threshold_line(delinquency_threshold(checks.unhealthy_threshold) as nat)),
            ActionView::Notify(notice_text(Emoji::Info, identity@, started_text())),
        ],
{
    let mut actions: Vec<SentryAction> = Vec::new();
    let mut line = "Delinquency threshold: ".to_owned();
    push_dec(&mut line, delinquency_threshold_ms(checks.unhealthy_threshold));
    push_str(&mut line, "ms\n");
    push_action(&mut actions, SentryAction::Print(line));
    push_action(&mut actions, SentryAction::Notify(notice(Emoji::Info, identity.as_str(), "Sentry is up and running!")));
    assert(actions_view(actions@) =~= seq![
        ActionView::Print(threshold_line(delinquency_threshold(checks.unhealthy_threshold) as nat)),
        ActionView::Notify(notice_text(Emoji::Info, identity@, started_text())),
    ]);
    actions
}

// ---------------------------------------------------------------------------
// Laws of the rounds.

/// An alert is sent once per episode: when a round has raised the delinquency
/// alert and the next round finds the node still delinquent for too long, the
/// next round sends no delinquency notice.
pub proof fn law_alert_sent_once(s0: SentryState, s1: SentryState, c: SentryChecks, r1: Reading, r2: Reading)
    requires
        next_state(s0, c, r1, s1),
        delinquent_too_long(s0, c, r1),
        delinquent_too_long(s1, c, r2),
    ensures
        s1.delinquent_triggered,
        alert(
            s1.delinquent_triggered,
            delinquent_too_long(s1, c, r2),
            notice_text(Emoji::Error, r2.identity@, delinquent_text()),
            notice_text(Emoji::Success, r2.identity@, recovered_text()),
        ) == Seq::<ActionView>::empty(),
{
}

/// After a round, each alert is raised exactly when its condition held in
/// that round.
pub proof fn law_alerts_follow_conditions(s0: SentryState, s1: SentryState, c: SentryChecks, r: Reading)
    requires
        next_state(s0, c, r, s1),
    ensures
        s1.delinquent_triggered == delinquent_too_long(s0, c, r),
        s1.identity_balance_triggered == (r.identity_balance < c.identity_balance),
        s1.rpc_unhealthy_triggered == rpc_unhealthy(c, r),
{
}

/// Failovers are at least 10 s apart: after a round that failed over, a round
/// less than 10 s later does not fail over.
pub proof fn law_failovers_spaced(s0: SentryState, s1: SentryState, c: SentryChecks, r1: Reading, r2: Reading)
    requires
        next_state(s0, c, r1, s1),
        failover_due(s0, c, r1),
        r1.now_ms <= r2.now_ms < r1.now_ms + 10000,
    ensures
        !failover_due(s1, c, r2),
        failover_actions(s1, c, r2) == Seq::<ActionView>::empty(),
{
}

/// No failover is tried while the identity cannot pay for its votes.
pub proof fn law_no_failover_when_depleted(s: SentryState, c: SentryChecks, r: Reading)
    requires
        r.identity_balance < 895880,
    ensures
        !failover_due(s, c, r),
        failover_actions(s, c, r) == Seq::<ActionView>::empty(),
{
}

/// The delinquency clock: it stands at 0 while the votes keep up, starts at
/// the round's time when they begin to lag, and keeps its start while they
/// go on lagging.
pub proof fn law_delinquency_clock(s0: SentryState, s1: SentryState, c: SentryChecks, r: Reading)
    requires
        next_state(s0, c, r, s1),
    ensures
        !node_unhealthy(c, r) ==> s1.sanity.delinquent_since_ms == 0,
        node_unhealthy(c, r) && s0.sanity.delinquent_since_ms == 0 ==> s1.sanity.delinquent_since_ms == r.now_ms,
        node_unhealthy(c, r) && s0.sanity.delinquent_since_ms != 0
            ==> s1.sanity.delinquent_since_ms == s0.sanity.delinquent_since_ms,
{
}

/// The slot facts of the last highest position: its slot is the highest,
/// every slot is at most it, and every later slot is lower.
proof fn lemma_last_max_index(s: Seq<Status>)
    requires
        s.len() > 0,
    ensures
        0 <= last_max_index(s) < s.len(),
        s[last_max_index(s)].slot == max_slot(s),
        forall|i: int| 0 <= i < s.len() ==> s[i].slot <= max_slot(s),
        forall|i: int| last_max_index(s) < i < s.len() ==> s[i].slot < max_slot(s),
    decreases s.len(),
{
    if s.len() > 1 {
        let p = s.drop_last();
        lemma_last_max_index(p);
        assert forall|i: int| 0 <= i < p.len() implies p[i] == s[i] by {}
    }
}

/// A failover hands the identity to the last node with the highest slot: no
/// node is ahead of it, and every node after it is behind.
pub proof fn law_failover_promotes_highest(s: SentryState, c: SentryChecks, r: Reading)
    requires
        round_defined(s, c, r),
        failover_due(s, c, r),
    ensures
        exists|j: int| #![trigger r.statuses@[j]]
            0 <= j < r.statuses@.len()
            && r.statuses@[j].hostname@ == new_primary_host(r)
            && (forall|i: int| 0 <= i < r.statuses@.len() ==> r.statuses@[i].slot <= r.statuses@[j].slot)
            && (forall|i: int| j < i < r.statuses@.len() ==> r.statuses@[i].slot < r.statuses@[j].slot),
        failover_actions(s, c, r).contains(ActionView::SetIdentity(new_primary_host(r), IdentityVariant::Primary)),
{
    lemma_last_max_index(r.statuses@);
    let j = last_max_index(r.statuses@);
    assert(r.statuses@[j].hostname@ == new_primary_host(r));
    let a = failover_actions(s, c, r);
    let tail = seq![
        ActionView::Print(promote_line(new_primary_host(r))),
        ActionView::SetIdentity(new_primary_host(r), IdentityVariant::Primary),
        ActionView::Notify(notice_text(Emoji::Info, r.identity@, failed_over_text(new_primary_host(r)))),
    ];
    assert(a[a.len() - 2] == tail[1]);
}

/// Only the node that votes is demoted: a failover asks a host to take the
/// secondary identity only when a polled node reports the voting identity,
/// and that host is the first such node's, and is not a marker.
pub proof fn law_demotes_only_the_primary(s: SentryState, c: SentryChecks, r: Reading, host: Seq<char>)
    requires
        failover_actions(s, c, r).contains(ActionView::SetIdentity(host, IdentityVariant::Secondary)),
    ensures
        primary_found(r),
        host == primary_host(r),
        names_a_node(host),
        exists|i: int| is_first_with_identity(r.statuses@, r.identity@, i) && r.statuses@[i].hostname@ == host,
{
    let a = failover_actions(s, c, r);
    let k = choose|k: int| 0 <= k < a.len() && a[k] == ActionView::SetIdentity(host, IdentityVariant::Secondary);
    if demotes_primary(r) {
        assert(a.len() == 6);
        lemma_first_with_identity(r.statuses@, r.identity@);
    } else {
        assert(a.len() == 4);
    }
}

/// When some status reports the identity, there is a first one.
proof fn lemma_first_with_identity(s: Seq<Status>, id: Seq<char>)
    requires
        exists|i: int| 0 <= i < s.len() && s[i].identity@ == id,
    ensures
        exists|i: int| is_first_with_identity(s, id, i),
    decreases s.len(),
{
    let w = choose|i: int| 0 <= i < s.len() && s[i].identity@ == id;
    if s[0].identity@ == id {
        assert(is_first_with_identity(s, id, 0));
    } else {
        let t = s.drop_first();
        assert(t[w - 1] == s[w]);
        lemma_first_with_identity(t, id);
        let k = choose|k: int| is_first_with_identity(t, id, k);
        assert forall|j: int| 0 <= j < k + 1 implies s[j].identity@ != id by {
            if j > 0 {
                assert(s[j] == t[j - 1]);
            }
        }
        assert(is_first_with_identity(s, id, k + 1));
    }
}

/// The alerts of a round only notify.
proof fn lemma_alerts_only_notify(s: SentryState, c: SentryChecks, r: Reading)
    ensures
        forall|i: int| 0 <= i < alert_actions(s, c, r).len() ==> (#[trigger] alert_actions(s, c, r)[i]) is Notify,
{
}

/// No host is demoted when the voting node is not found: when no polled
/// status reports the voting identity, no action of the round asks a host to
/// take the secondary identity.
pub proof fn law_no_demotion_without_primary(s: SentryState, c: SentryChecks, r: Reading, host: Seq<char>)
    requires
        !primary_found(r),
    ensures
        !round_actions(s, c, r).contains(ActionView::SetIdentity(host, IdentityVariant::Secondary)),
{
    lemma_alerts_only_notify(s, c, r);
    let al = alert_actions(s, c, r);
    let fo = failover_actions(s, c, r);
    let all = round_actions(s, c, r);
    if all.contains(ActionView::SetIdentity(host, IdentityVariant::Secondary)) {
        let k = choose|k: int| 0 <= k < all.len() && all[k] == ActionView::SetIdentity(host, IdentityVariant::Secondary);
        if k < al.len() {
            assert(all[k] == al[k]);
        } else {
            assert(all[k] == fo[k - al.len()]);
            if failover_due(s, c, r) {
                assert(fo.len() == 4);
            }
        }
    }
}

// ---------------------------------------------------------------------------
// Laws over a run of rounds.

/// `states` and `readings` make a run of rounds: `states[k + 1]` is the state
/// after round `k`, made from `states[k]` with the reading `readings[k]`.
pub open spec fn is_run(states: Seq<SentryState>, c: SentryChecks, readings: Seq<Reading>) -> bool {
    &&& states.len() == readings.len() + 1
    &&& forall|k: int| #![trigger readings[k]]
        0 <= k < readings.len() ==> next_state(states[k], c, readings[k], states[k + 1])
}

/// An alert over a run: `raised[k]` tells whether the alert stands before
/// round `k`, `holds[k]` whether its condition holds in round `k`; it stands
/// after a round exactly when its condition held there, and not at first.
pub open spec fn alert_run(raised: Seq<bool>, holds: Seq<bool>) -> bool {
    &&& raised.len() == holds.len() + 1
    &&& !raised[0]
    &&& forall|k: int| #![trigger holds[k]] 0 <= k < holds.len() ==> raised[k + 1] == holds[k]
}

/// In round `k` the alert turns to `v`: raised when `v` is true (its notice
/// is sent), cleared when `v` is false (its end is notified).
pub open spec fn turns(raised: Seq<bool>, holds: Seq<bool>, k: int, v: bool) -> bool {
    raised[k] != v && holds[k] == v
}

/// While the alert never turns to `w`, it stays as it was, the opposite of
/// `w`.
proof fn lemma_alert_stays(raised: Seq<bool>, holds: Seq<bool>, from: int, to: int, w: bool)
    requires
        alert_run(raised, holds),
        0 <= from <= to <= holds.len(),
        raised[from] != w,
        forall|k: int| from <= k < to ==> !#[trigger] turns(raised, holds, k, w),
    ensures
        raised[to] != w,
    decreases to - from,
{
    if from < to {
        assert(!turns(raised, holds, from, w));
        assert(raised[from + 1] == holds[from]);
        lemma_alert_stays(raised, holds, from + 1, to, w);
    }
}

/// An alert's notices alternate: between two rounds that raise it, one
/// clears it; between two rounds that clear it, one raises it; and a round
/// that clears it follows one that raised it.
proof fn lemma_alert_alternates(raised: Seq<bool>, holds: Seq<bool>, i: int, j: int)
    requires
        alert_run(raised, holds),
        0 <= i < j < holds.len(),
    ensures
        turns(raised, holds, i, true) && turns(raised, holds, j, true)
            ==> exists|k: int| i < k < j && #[trigger] turns(raised, holds, k, false),
        turns(raised, holds, i, false) && turns(raised, holds, j, false)
            ==> exists|k: int| i < k < j && #[trigger] turns(raised, holds, k, true),
        turns(raised, holds, j, false) ==> exists|k: int| 0 <= k < j && #[trigger] turns(raised, holds, k, true),
{
    assert(raised[i + 1] == holds[i]);
    if turns(raised, holds, i, true) && turns(raised, holds, j, true) {
        if !exists|k: int| i < k < j && #[trigger] turns(raised, holds, k, false) {
            lemma_alert_stays(raised, holds, i + 1, j, false);
        }
    }
    if turns(raised, holds, i, false) && turns(raised, holds, j, false) {
        if !exists|k: int| i < k < j && #[trigger] turns(raised, holds, k, true) {
            lemma_alert_stays(raised, holds, i + 1, j, true);
        }
    }
    if turns(raised, holds, j, false) {
        if !exists|k: int| 0 <= k < j && #[trigger] turns(raised, holds, k, true) {
            lemma_alert_stays(raised, holds, 0, j, true);
        }
    }
}

/// Whether the delinquency alert stands before each round of the run.
pub open spec fn delinquency_raised(states: Seq<SentryState>) -> Seq<bool> {
    Seq::new(states.len(), |k: int| states[k].delinquent_triggered)
}

/// Whether the node is delinquent for too long in each round of the run.
pub open spec fn delinquency_holds(states: Seq<SentryState>, c: SentryChecks, readings: Seq<Reading>) -> Seq<bool> {
    Seq::new(readings.len(), |k: int| delinquent_too_long(states[k], c, readings[k]))
}

/// Whether the low balance alert stands before each round of the run.
pub open spec fn balance_raised(states: Seq<SentryState>) -> Seq<bool> {
    Seq::new(states.len(), |k: int| states[k].identity_balance_triggered)
}

/// Whether the balance is low in each round of the run.
pub open spec fn balance_holds(c: SentryChecks, readings: Seq<Reading>) -> Seq<bool> {
    Seq::new(readings.len(), |k: int| balance_low(c, readings[k]))
}

/// Whether the RPC service alert stands before each round of the run.
pub open spec fn rpc_raised(states: Seq<SentryState>) -> Seq<bool> {
    Seq::new(states.len(), |k: int| states[k].rpc_unhealthy_triggered)
}

/// Whether the RPC service lags in each round of the run.
pub open spec fn rpc_holds(c: SentryChecks, readings: Seq<Reading>) -> Seq<bool> {
    Seq::new(readings.len(), |k: int| rpc_unhealthy(c, readings[k]))
}

/// The delinquency notices of a run alternate, the delinquency notice first:
/// round `k` notifies that the node is delinquent exactly when it is
/// delinquent for too long there and was not in the round before (no round
/// before the first), and that it no longer is in the opposite case; between
/// two notices of the same kind lies one of the other kind, and a notice that
/// delinquency ended follows one that it began.
pub proof fn law_delinquency_notices_alternate(states: Seq<SentryState>, c: SentryChecks, readings: Seq<Reading>, i: int, j: int)
    requires
        is_run(states, c, readings),
        !states[0].delinquent_triggered,
        0 <= i < j < readings.len(),
    ensures
        forall|k: int| 0 <= k < readings.len() ==> #[trigger] delinquency_alert(states[k], c, readings[k]) == if turns(
            delinquency_raised(states), delinquency_holds(states, c, readings), k, true) {
            seq![ActionView::Notify(notice_text(Emoji::Error, readings[k].identity@, delinquent_text()))]
        } else if turns(delinquency_raised(states), delinquency_holds(states, c, readings), k, false) {
            seq![ActionView::Notify(notice_text(Emoji::Success, readings[k].identity@, recovered_text()))]
        } else {
            Seq::empty()
        },
        forall|k: int| 0 < k <= readings.len() ==> #[trigger] states[k].delinquent_triggered
            == delinquent_too_long(states[k - 1], c, readings[k - 1]),
        turns(delinquency_raised(states), delinquency_holds(states, c, readings), i, true)
            && turns(delinquency_raised(states), delinquency_holds(states, c, readings), j, true)
            ==> exists|k: int| i < k < j
                && #[trigger] turns(delinquency_raised(states), delinquency_holds(states, c, readings), k, false),
        turns(delinquency_raised(states), delinquency_holds(states, c, readings), i, false)
            && turns(delinquency_raised(states), delinquency_holds(states, c, readings), j, false)
            ==> exists|k: int| i < k < j
                && #[trigger] turns(delinquency_raised(states), delinquency_holds(states, c, readings), k, true),
        turns(delinquency_raised(states), delinquency_holds(states, c, readings), j, false)
            ==> exists|k: int| 0 <= k < j
                && #[trigger] turns(delinquency_raised(states), delinquency_holds(states, c, readings), k, true),
{
    let raised = delinquency_raised(states);
    let holds = delinquency_holds(states, c, readings);
    assert forall|k: int| #![trigger holds[k]] 0 <= k < holds.len() implies raised[k + 1] == holds[k] by {
        assert(next_state(states[k], c, readings[k], states[k + 1]));
    }
    assert forall|k: int| 0 < k <= readings.len() implies #[trigger] states[k].delinquent_triggered
        == delinquent_too_long(states[k - 1], c, readings[k - 1]) by {
        assert(next_state(states[k - 1], c, readings[k - 1], states[k]));
    }
    lemma_alert_alternates(raised, holds, i, j);
}

/// The low balance notices of a run alternate, the low balance notice first:
/// round `k` notifies that the balance is low exactly when it is low there
/// and was not in the round before (no round before the first), and that it
/// is ok in the opposite case; between two notices of the same kind lies one
/// of the other kind, and an ok notice follows a low one.
pub proof fn law_balance_notices_alternate(states: Seq<SentryState>, c: SentryChecks, readings: Seq<Reading>, i: int, j: int)
    requires
        is_run(states, c, readings),
        !states[0].identity_balance_triggered,
        0 <= i < j < readings.len(),
    ensures
        forall|k: int| 0 <= k < readings.len() ==> #[trigger] balance_alert(states[k], c, readings[k]) == if turns(
            balance_raised(states), balance_holds(c, readings), k, true) {
            seq![ActionView::Notify(notice_text(Emoji::Warning, readings[k].identity@, balance_low_text(readings[k].balance_sol@)))]
        } else if turns(balance_raised(states), balance_holds(c, readings), k, false) {
            seq![ActionView::Notify(notice_text(Emoji::Success, readings[k].identity@, balance_ok_text()))]
        } else {
            Seq::empty()
        },
        forall|k: int| 0 < k <= readings.len() ==> #[trigger] states[k].identity_balance_triggered
            == balance_low(c, readings[k - 1]),
        turns(balance_raised(states), balance_holds(c, readings), i, true)
            && turns(balance_raised(states), balance_holds(c, readings), j, true)
            ==> exists|k: int| i < k < j && #[trigger] turns(balance_raised(states), balance_holds(c, readings), k, false),
        turns(balance_raised(states), balance_holds(c, readings), i, false)
            && turns(balance_raised(states), balance_holds(c, readings), j, false)
            ==> exists|k: int| i < k < j && #[trigger] turns(balance_raised(states), balance_holds(c, readings), k, true),
        turns(balance_raised(states), balance_holds(c, readings), j, false)
            ==> exists|k: int| 0 <= k < j && #[trigger] turns(balance_raised(states), balance_holds(c, readings), k, true),
{
    let raised = balance_raised(states);
    let holds = balance_holds(c, readings);
    assert forall|k: int| #![trigger holds[k]] 0 <= k < holds.len() implies raised[k + 1] == holds[k] by {
        assert(next_state(states[k], c, readings[k], states[k + 1]));
    }
    assert forall|k: int| 0 < k <= readings.len() implies #[trigger] states[k].identity_balance_triggered
        == balance_low(c, readings[k - 1]) by {
        assert(next_state(states[k - 1], c, readings[k - 1], states[k]));
    }
    lemma_alert_alternates(raised, holds, i, j);
}

/// The RPC service notices of a run alternate, the lag notice first: round
/// `k` notifies that the RPC service lags exactly when it lags there and did
/// not in the round before (no round before the first), and that it is
/// healthy in the opposite case; between two notices of the same kind lies
/// one of the other kind, and a healthy notice follows a lag notice.
pub proof fn law_rpc_notices_alternate(states: Seq<SentryState>, c: SentryChecks, readings: Seq<Reading>, i: int, j: int)
    requires
        is_run(states, c, readings),
        !states[0].rpc_unhealthy_triggered,
        0 <= i < j < readings.len(),
    ensures
        forall|k: int| 0 <= k < readings.len() ==> #[trigger] rpc_alert(states[k], c, readings[k]) == if turns(
            rpc_raised(states), rpc_holds(c, readings), k, true) {
            seq![ActionView::Notify(notice_text(Emoji::Warning, readings[k].identity@,
                rpc_lag_text((node_slot(readings[k]) - readings[k].ref_slot) as nat)))]
        } else if turns(rpc_raised(states), rpc_holds(c, readings), k, false) {
            seq![ActionView::Notify(notice_text(Emoji::Success, readings[k].identity@, rpc_ok_text()))]
        } else {
            Seq::empty()
        },
        forall|k: int| 0 < k <= readings.len() ==> #[trigger] states[k].rpc_unhealthy_triggered
            == rpc_unhealthy(c, readings[k - 1]),
        turns(rpc_raised(states), rpc_holds(c, readings), i, true)
            && turns(rpc_raised(states), rpc_holds(c, readings), j, true)
            ==> exists|k: int| i < k < j && #[trigger] turns(rpc_raised(states), rpc_holds(c, readings), k, false),
        turns(rpc_raised(states), rpc_holds(c, readings), i, false)
            && turns(rpc_raised(states), rpc_holds(c, readings), j, false)
            ==> exists|k: int| i < k < j && #[trigger] turns(rpc_raised(states), rpc_holds(c, readings), k, true),
        turns(rpc_raised(states), rpc_holds(c, readings), j, false)
            ==> exists|k: int| 0 <= k < j && #[trigger] turns(rpc_raised(states), rpc_holds(c, readings), k, true),
{
    let raised = rpc_raised(states);
    let holds = rpc_holds(c, readings);
    assert forall|k: int| #![trigger holds[k]] 0 <= k < holds.len() implies raised[k + 1] == holds[k] by {
        assert(next_state(states[k], c, readings[k], states[k + 1]));
    }
    assert forall|k: int| 0 < k <= readings.len() implies #[trigger] states[k].rpc_unhealthy_triggered
        == rpc_unhealthy(c, readings[k - 1]) by {
        assert(next_state(states[k - 1], c, readings[k - 1], states[k]));
    }
    lemma_alert_alternates(raised, holds, i, j);
}

/// After a round of a run that failed over, the time of the last failover
/// that the state carries is no earlier than that round's.
proof fn lemma_failover_time_carried(states: Seq<SentryState>, c: SentryChecks, readings: Seq<Reading>, i: int, m: int)
    requires
        is_run(states, c, readings),
        0 <= i < m <= readings.len(),
        failover_due(states[i], c, readings[i]),
    ensures
        states[m].sanity.failover_triggered_ms >= readings[i].now_ms,
    decreases m,
{
    assert(next_state(states[m - 1], c, readings[m - 1], states[m]));
    if m > i + 1 {
        lemma_failover_time_carried(states, c, readings, i, m - 1);
    }
}

/// Failovers are at least 10 s apart over a whole run: of any two rounds
/// that fail over, the later one is at least 10 s after the earlier.
pub proof fn law_failovers_spaced_in_run(states: Seq<SentryState>, c: SentryChecks, readings: Seq<Reading>, i: int, j: int)
    requires
        is_run(states, c, readings),
        0 <= i < j < readings.len(),
        failover_due(states[i], c, readings[i]),
        failover_due(states[j], c, readings[j]),
    ensures
        readings[j].now_ms >= readings[i].now_ms + 10000,
{
    lemma_failover_time_carried(states, c, readings, i, j);
}


/// The vote lag is measured against the outside RPC service's slot alone:
/// after a round, the recorded lag is how far the latest vote is behind the
/// RPC service's slot (0 when it is not behind), and the node is unhealthy
/// exactly when that lag exceeds the threshold.
pub proof fn law_vote_lag_against_rpc(s0: SentryState, s1: SentryState, c: SentryChecks, r: Reading)
    requires
        next_state(s0, c, r, s1),
    ensures
        s1.sanity.vote_distance as int == if r.ref_slot >= r.last_vote_slot {
            r.ref_slot - r.last_vote_slot
        } else {
            0
        },
        s1.sanity.node_unhealthy == (s1.sanity.vote_distance > c.unhealthy_threshold),
{
}

/// What the nodes report does not move the delinquency checks: two readings
/// with the same time, RPC slot and latest vote give the same vote lag, the
/// same health verdict, and the same delinquency clock, whatever the
/// statuses of the nodes.
pub proof fn law_delinquency_ignores_node_statuses(s: SentryState, c: SentryChecks, r1: Reading, r2: Reading)
    requires
        r1.now_ms == r2.now_ms,
        r1.ref_slot == r2.ref_slot,
        r1.last_vote_slot == r2.last_vote_slot,
    ensures
        vote_distance(r1) == vote_distance(r2),
        node_unhealthy(c, r1) == node_unhealthy(c, r2),
        delinquent_since(s, c, r1) == delinquent_since(s, c, r2),
        delinquent_too_long(s, c, r1) == delinquent_too_long(s, c, r2),
{
}

/// A failover before the delinquency threshold is reached happens only when
/// nobody votes although every node is within the lag threshold of the
/// current slot: the votes lag, they have for at least 5 s, and every node
/// counts as healthy.
pub proof fn law_early_failover_needs_all_nodes_healthy(s: SentryState, c: SentryChecks, r: Reading)
    requires
        failover_due(s, c, r),
        !delinquent_too_long(s, c, r),
    ensures
        healthy_count(c, r) == total_count(r),
        node_unhealthy(c, r),
        delinquent_for(s, c, r) >= 5000,
        r.identity_balance >= 895880,
        r.now_ms - s.sanity.failover_triggered_ms >= 10000,
{
}

} // verus!
