//! The `/stats` endpoint: the vote credits this validator earned in the
//! current epoch, beside the cluster's median.

use vstd::prelude::*;
use vstd::relations::{sorted_by, total_ordering};
use crate::config::Config;
use crate::json::{JsonObject, Member, insert_member, number_text};
use crate::keys::{pubkey_to_string, pubkey_base58};
use crate::responder::ApiResponder;

verus! {

/// A vote account as the cluster reports it: its key, and for each epoch it
/// voted in, the epoch, the credits it had at the epoch's end and those it
/// had at its start.
pub struct VoteAccountInfo {
    pub vote_pubkey: String,
    pub epoch_credits: Vec<(u64, u64, u64)>,
}

/// The first position of the latest epoch among the entries.
pub open spec fn latest_index(ec: Seq<(u64, u64, u64)>) -> int
    decreases ec.len(),
{
    if ec.len() <= 1 {
        0
    } else {
        let j = latest_index(ec.drop_last());
        if ec.last().0 > ec[j].0 { ec.len() - 1 } else { j }
    }
}

/// The credits earned in the latest epoch can be counted: there is an entry,
/// and its credits did not go down in that epoch.
pub open spec fn credits_defined(ec: Seq<(u64, u64, u64)>) -> bool {
    &&& ec.len() > 0
    &&& ec[latest_index(ec)].1 >= ec[latest_index(ec)].2
}

/// The credits earned in the latest epoch.
pub open spec fn current_credits(ec: Seq<(u64, u64, u64)>) -> u64 {
    (ec[latest_index(ec)].1 - ec[latest_index(ec)].2) as u64
}

proof fn lemma_latest_index(ec: Seq<(u64, u64, u64)>)
    requires
        ec.len() > 0,
    ensures
        0 <= latest_index(ec) < ec.len(),
        forall|i: int| 0 <= i < ec.len() ==> #[trigger] ec[i].0 <= ec[latest_index(ec)].0,
        forall|i: int| 0 <= i < latest_index(ec) ==> #[trigger] ec[i].0 < ec[latest_index(ec)].0,
    decreases ec.len(),
{
    if ec.len() > 1 {
        let p = ec.drop_last();
        lemma_latest_index(p);
        assert forall|i: int| 0 <= i < p.len() implies p[i] == ec[i] by {}
    }
}

/// The credits `vote_account` earned in its latest epoch.
pub fn get_current_credits(vote_account: &VoteAccountInfo) -> (r: u64)
    requires
        credits_defined(vote_account.epoch_credits@),
    ensures
        r == current_credits(vote_account.epoch_credits@),
{
    let ec = &vote_account.epoch_credits;
    let mut j: usize = 0;
    let mut i: usize = 1;
    while i < ec.len()
        invariant
            1 <= i <= ec@.len(),
            j < i,
            j == latest_index(ec@.take(i as int)),
        decreases ec@.len() - i,
    {
        assert(ec@.take(i + 1).drop_last() =~= ec@.take(i as int));
        if ec[i].0 > ec[j].0 {
            j = i;
        }
        i = i + 1;
    }
    assert(ec@.take(ec@.len() as int) =~= ec@);
    ec[j].1 - ec[j].2
}

/// The credits of a validator are those of an entry of the latest epoch, the
/// first such entry.
pub proof fn law_credits_of_latest_epoch(ec: Seq<(u64, u64, u64)>)
    requires
        credits_defined(ec),
    ensures
        exists|j: int| #![trigger ec[j]]
            0 <= j < ec.len()
            && current_credits(ec) == ec[j].1 - ec[j].2
            && (forall|i: int| 0 <= i < ec.len() ==> ec[i].0 <= ec[j].0)
            && (forall|i: int| 0 <= i < j ==> ec[i].0 < ec[j].0),
{
    lemma_latest_index(ec);
    let j = latest_index(ec);
    assert(current_credits(ec) == ec[j].1 - ec[j].2);
}

/// The order of credit counts.
pub open spec fn credit_leq() -> spec_fn(u64, u64) -> bool {
    |a: u64, b: u64| a <= b
}

proof fn lemma_credit_leq_total()
    ensures
        total_ordering(credit_leq()),
{
    let r = credit_leq();
    assert(vstd::relations::reflexive(r));
    assert(vstd::relations::antisymmetric(r));
    assert(vstd::relations::transitive(r));
    assert(vstd::relations::strongly_connected(r));
}

/// The median of a list of credit counts: the middle one in sorted order, or
/// the mean (rounded down) of the two middle ones when there is an even
/// number of them.
pub open spec fn median(s: Seq<u64>) -> int {
    let t = s.sort_by(credit_leq());
    let n = t.len() as int;
    if n % 2 == 0 {
        (t[n / 2 - 1] + t[n / 2]) / 2
    } else {
        t[n / 2] as int
    }
}

/// The median can be computed: there are counts, and the two middle ones
/// of an even number of them add up without overflow.
pub open spec fn median_defined(s: Seq<u64>) -> bool {
    let t = s.sort_by(credit_leq());
    let n = t.len() as int;
    &&& s.len() > 0
    &&& n % 2 == 0 ==> t[n / 2 - 1] + t[n / 2] <= u64::MAX
}

/// The counts of `v` in ascending order.
fn sorted(v: &Vec<u64>) -> (r: Vec<u64>)
    ensures
        r@ == v@.sort_by(credit_leq()),
{
    broadcast use vstd::seq_lib::group_to_multiset_ensures;
    let mut out: Vec<u64> = Vec::new();
    let mut i: usize = 0;
    assert(v@.take(0) =~= Seq::<u64>::empty());
    while i < v.len()
        invariant
            i <= v@.len(),
            sorted_by(out@, credit_leq()),
            out@.to_multiset() == v@.take(i as int).to_multiset(),
        decreases v@.len() - i,
    {
        let x = v[i];
        let mut p: usize = 0;
        while p < out.len() && out[p] <= x
            invariant
                p <= out@.len(),
                forall|k: int| 0 <= k < p ==> out@[k] <= x,
            decreases out@.len() - p,
        {
            p = p + 1;
        }
        let ghost before = out@;
        out.insert(p, x);
        proof {
            vstd::seq_lib::to_multiset_insert(before, p as int, x);
            assert(v@.take(i + 1) =~= v@.take(i as int).push(x));
            vstd::seq_lib::to_multiset_build(v@.take(i as int), x);
            assert forall|a: int, b: int| 0 <= a < b < out@.len() implies #[trigger] (credit_leq())(out@[a], out@[b]) by {
                if b < p {
                } else if b == p {
                    assert(out@[a] == before[a]);
                } else if a < p {
                    assert(out@[b] == before[b - 1]);
                    if p < before.len() {
                        assert(before[p as int] > x);
                        assert((credit_leq())(before[p as int], before[b - 1]) || p == b - 1);
                    }
                } else if a == p {
                    assert(out@[b] == before[b - 1]);
                    assert(p < before.len());
                    assert(before[p as int] > x);
                    assert((credit_leq())(before[p as int], before[b - 1]) || p == b - 1);
                } else {
                    assert(out@[a] == before[a - 1]);
                    assert(out@[b] == before[b - 1]);
                }
            }
        }
        i = i + 1;
    }
    proof {
        assert(v@.take(v@.len() as int) =~= v@);
        lemma_credit_leq_total();
        v@.lemma_sort_by_ensures(credit_leq());
        vstd::seq_lib::lemma_sorted_unique(out@, v@.sort_by(credit_leq()), credit_leq());
    }
    out
}

/// The median of the counts.
pub fn median_credits(v: &Vec<u64>) -> (r: u64)
    requires
        median_defined(v@),
    ensures
        r == median(v@),
{
    let t = sorted(v);
    proof {
        lemma_credit_leq_total();
        v@.lemma_sort_by_ensures(credit_leq());
        vstd::seq_lib::lemma_multiset_commutative(v@, v@);
    }
    proof {
        vstd::seq_lib::to_multiset_len(v@);
        vstd::seq_lib::to_multiset_len(t@);
    }
    let len = t.len();
    if len % 2 == 0 {
        (t[len / 2 - 1] + t[len / 2]) / 2
    } else {
        t[len / 2]
    }
}

/// The median lies between the lowest and the highest count.
pub proof fn law_median_between_extremes(s: Seq<u64>)
    requires
        median_defined(s),
    ensures
        exists|i: int, j: int| #![trigger s[i], s[j]]
            0 <= i < s.len() && 0 <= j < s.len() && s[i] <= median(s) <= s[j],
{
    broadcast use vstd::seq_lib::group_to_multiset_ensures;
    lemma_credit_leq_total();
    s.lemma_sort_by_ensures(credit_leq());
    let t = s.sort_by(credit_leq());
    let n = t.len() as int;
    vstd::seq_lib::to_multiset_len(s);
    vstd::seq_lib::to_multiset_len(t);
    assert(t.len() == s.len());
    let lo = t[0];
    let hi = t[n - 1];
    assert(t.contains(lo));
    assert(t.contains(hi));
    assert(s.contains(lo));
    assert(s.contains(hi));
    let i = choose|i: int| 0 <= i < s.len() && s[i] == lo;
    let j = choose|j: int| 0 <= j < s.len() && s[j] == hi;
    if n % 2 == 0 {
        assert((credit_leq())(t[0], t[n / 2 - 1]) || n / 2 - 1 == 0);
        assert((credit_leq())(t[n / 2], t[n - 1]) || n / 2 == n - 1);
        assert((credit_leq())(t[0], t[n / 2]));
        assert((credit_leq())(t[n / 2 - 1], t[n - 1]));
    } else {
        assert((credit_leq())(t[0], t[n / 2]) || n / 2 == 0);
        assert((credit_leq())(t[n / 2], t[n - 1]) || n / 2 == n - 1);
    }
    assert(s[i] <= median(s) <= s[j]);
}

/// One step of counting the counts no greater than `v`.
pub open spec fn le_step(v: int) -> spec_fn(nat, u64) -> nat {
    |acc: nat, x: u64| if x <= v { acc + 1 } else { acc }
}

/// One step of counting the counts no less than `v`.
pub open spec fn ge_step(v: int) -> spec_fn(nat, u64) -> nat {
    |acc: nat, x: u64| if x >= v { acc + 1 } else { acc }
}

/// How many of the counts are no greater than `v`.
pub open spec fn count_le(s: Seq<u64>, v: int) -> nat {
    s.fold_left(0nat, le_step(v))
}

/// How many of the counts are no less than `v`.
pub open spec fn count_ge(s: Seq<u64>, v: int) -> nat {
    s.fold_left(0nat, ge_step(v))
}

/// Counting does not depend on the order of the counts.
proof fn lemma_counts_permutation(a: Seq<u64>, b: Seq<u64>, v: int)
    requires
        a.to_multiset() == b.to_multiset(),
    ensures
        count_le(a, v) == count_le(b, v),
        count_ge(a, v) == count_ge(b, v),
{
    let f = le_step(v);
    let g = ge_step(v);
    assert(vstd::seq_lib::commutative_foldl(f)) by {
        assert forall|x: u64, y: u64, acc: nat| #[trigger] f(f(acc, x), y) == f(f(acc, y), x) by {}
    }
    assert(vstd::seq_lib::commutative_foldl(g)) by {
        assert forall|x: u64, y: u64, acc: nat| #[trigger] g(g(acc, x), y) == g(g(acc, y), x) by {}
    }
    vstd::seq_lib::lemma_fold_left_permutation(a, b, f, 0nat);
    vstd::seq_lib::lemma_fold_left_permutation(a, b, g, 0nat);
}

/// When the first `m` counts are no greater than `v`, at least `m` are.
proof fn lemma_count_le_prefix(t: Seq<u64>, v: int, m: int)
    requires
        0 <= m <= t.len(),
        forall|k: int| 0 <= k < m ==> t[k] <= v,
    ensures
        count_le(t, v) >= m,
    decreases t.len(),
{
    if t.len() > 0 {
        let p = t.drop_last();
        if m == t.len() {
            assert forall|k: int| 0 <= k < m - 1 implies p[k] <= v by {
                assert(p[k] == t[k]);
            }
            lemma_count_le_prefix(p, v, m - 1);
            assert(t.last() == t[m - 1]);
        } else {
            assert forall|k: int| 0 <= k < m implies p[k] <= v by {
                assert(p[k] == t[k]);
            }
            lemma_count_le_prefix(p, v, m);
        }
    }
}

/// When the counts from position `m` on are no less than `v`, at least as
/// many as there are from `m` on are.
proof fn lemma_count_ge_suffix(t: Seq<u64>, v: int, m: int)
    requires
        0 <= m <= t.len(),
        forall|k: int| m <= k < t.len() ==> t[k] >= v,
    ensures
        count_ge(t, v) >= t.len() - m,
    decreases t.len(),
{
    if t.len() > m {
        let p = t.drop_last();
        assert forall|k: int| m <= k < p.len() implies p[k] >= v by {
            assert(p[k] == t[k]);
        }
        lemma_count_ge_suffix(p, v, m);
        assert(t.last() == t[t.len() - 1]);
    }
}

/// The facts about position `m` of the sorted counts: at least `m + 1` counts
/// are no greater than it, at least `n - m` no less, and it is one of them.
proof fn lemma_rank(s: Seq<u64>, m: int)
    requires
        0 <= m < s.len(),
    ensures
        s.sort_by(credit_leq()).len() == s.len(),
        count_le(s, s.sort_by(credit_leq())[m] as int) >= m + 1,
        count_ge(s, s.sort_by(credit_leq())[m] as int) >= s.len() - m,
        s.contains(s.sort_by(credit_leq())[m]),
{
    broadcast use vstd::seq_lib::group_to_multiset_ensures;
    lemma_credit_leq_total();
    s.lemma_sort_by_ensures(credit_leq());
    let t = s.sort_by(credit_leq());
    vstd::seq_lib::to_multiset_len(s);
    vstd::seq_lib::to_multiset_len(t);
    let v = t[m] as int;
    assert forall|k: int| 0 <= k < m + 1 implies t[k] <= v by {
        if k < m {
            assert((credit_leq())(t[k], t[m]));
        }
    }
    assert forall|k: int| m <= k < t.len() implies t[k] >= v by {
        if k > m {
            assert((credit_leq())(t[m], t[k]));
        }
    }
    lemma_count_le_prefix(t, v, m + 1);
    lemma_count_ge_suffix(t, v, m);
    lemma_counts_permutation(s, t, v);
    assert(t.contains(t[m]));
}

/// The median is a middle count. Of an odd number `n` of counts it is one of
/// them, with at least half of them (rounded up) no greater and at least
/// half no less. Of an even number it is the mean, rounded down, of two of
/// them, `a` and `b`: at least `n / 2` counts are no greater than `a` and
/// `n / 2 + 1` no less, at least `n / 2 + 1` are no greater than `b` and
/// `n / 2` no less (`a` and `b` are the two middle counts in sorted order).
pub proof fn law_median_is_middle(s: Seq<u64>)
    requires
        median_defined(s),
    ensures
        s.len() % 2 == 1 ==> s.contains(median(s) as u64) && 0 <= median(s)
            && count_le(s, median(s)) >= (s.len() + 1) / 2
            && count_ge(s, median(s)) >= (s.len() + 1) / 2,
        s.len() % 2 == 0 ==> exists|a: u64, b: u64|
            #![trigger count_le(s, a as int), count_le(s, b as int)]
            s.contains(a) && s.contains(b) && median(s) == (a + b) / 2
            && count_le(s, a as int) >= s.len() / 2 && count_ge(s, a as int) >= s.len() / 2 + 1
            && count_le(s, b as int) >= s.len() / 2 + 1 && count_ge(s, b as int) >= s.len() / 2,
{
    let n = s.len() as int;
    let t = s.sort_by(credit_leq());
    if n % 2 == 1 {
        lemma_rank(s, n / 2);
    } else {
        lemma_rank(s, n / 2 - 1);
        lemma_rank(s, n / 2);
        let a = t[n / 2 - 1];
        let b = t[n / 2];
        assert(count_le(s, a as int) >= s.len() / 2 && count_le(s, b as int) >= s.len() / 2);
    }
}

/// The credits of the account `vote` among the accounts: those of the last
/// account with that key, 0 when none has it.
pub open spec fn own_credits(accounts: Seq<VoteAccountInfo>, vote: Seq<char>) -> u64
    decreases accounts.len(),
{
    if accounts.len() == 0 {
        0
    } else if accounts.last().vote_pubkey@ == vote {
        current_credits(accounts.last().epoch_credits@)
    } else {
        own_credits(accounts.drop_last(), vote)
    }
}

/// The credits of every account, in order.
pub open spec fn cluster_credits(accounts: Seq<VoteAccountInfo>) -> Seq<u64> {
    accounts.map_values(|a: VoteAccountInfo| current_credits(a.epoch_credits@))
}

/// The statistics can be computed: every account's credits can be counted,
/// and their median too.
pub open spec fn stats_defined(accounts: Seq<VoteAccountInfo>) -> bool {
    &&& forall|i: int| 0 <= i < accounts.len() ==> credits_defined(#[trigger] accounts[i].epoch_credits@)
    &&& median_defined(cluster_credits(accounts))
}

/// The members of the statistics object.
pub open spec fn stats_members(my_credits: u64, median_credits: u64) -> Seq<Member> {
    let m = insert_member(Seq::empty(), "my_credits"@, number_text(my_credits as nat));
    insert_member(m, "median_credits"@, number_text(median_credits as nat))
}

/// The answer to `/stats` for the validator of `config`, from the cluster's
/// current vote accounts: its credits in the latest epoch and the median of
/// all accounts' credits, under `stats`.
pub fn get(config: &Config, vote_accounts: &Vec<VoteAccountInfo>) -> (r: ApiResponder)
    requires
        stats_defined(vote_accounts@),
    ensures
        r.success,
        r.message is None,
        r.field_name@ == "stats"@,
        r.inner matches Some(t) && t@ == stats_members(
            own_credits(vote_accounts@, pubkey_base58(config.vote_id@)),
            median(cluster_credits(vote_accounts@)) as u64,
        ),
{
    let vote = pubkey_to_string(&config.vote_id);
    let mut cluster: Vec<u64> = Vec::new();
    let mut mine: u64 = 0;
    let mut i: usize = 0;
    while i < vote_accounts.len()
        invariant
            i <= vote_accounts@.len(),
            stats_defined(vote_accounts@),
            vote@ == pubkey_base58(config.vote_id@),
            cluster@ == cluster_credits(vote_accounts@.take(i as int)),
            mine == own_credits(vote_accounts@.take(i as int), vote@),
        decreases vote_accounts@.len() - i,
    {
        let a = &vote_accounts[i];
        assert(credits_defined(vote_accounts@[i as int].epoch_credits@));
        let c = get_current_credits(a);
        assert(vote_accounts@.take(i + 1).drop_last() =~= vote_accounts@.take(i as int));
        if a.vote_pubkey == vote {
            mine = c;
        }
        cluster.push(c);
        assert(cluster@ =~= cluster_credits(vote_accounts@.take(i + 1)));
        i = i + 1;
    }
    assert(vote_accounts@.take(vote_accounts@.len() as int) =~= vote_accounts@);
    let med = median_credits(&cluster);
    let mut o = JsonObject::new();
    o.insert_number("my_credits", mine);
    o.insert_number("median_credits", med);
    ApiResponder::success(Some(o), "stats".to_owned())
}

/// Whether the credits of `ec` in the latest epoch can be counted.
fn credits_countable(ec: &Vec<(u64, u64, u64)>) -> (r: bool)
    ensures
        r == credits_defined(ec@),
{
    if ec.len() == 0 {
        return false;
    }
    let mut j: usize = 0;
    let mut i: usize = 1;
    while i < ec.len()
        invariant
            1 <= i <= ec@.len(),
            j < i,
            j == latest_index(ec@.take(i as int)),
        decreases ec@.len() - i,
    {
        assert(ec@.take(i + 1).drop_last() =~= ec@.take(i as int));
        if ec[i].0 > ec[j].0 {
            j = i;
        }
        i = i + 1;
    }
    assert(ec@.take(ec@.len() as int) =~= ec@);
    ec[j].1 >= ec[j].2
}

/// The answer to `/stats`, as `get` gives it, when the statistics can be
/// computed; `None` when they cannot (an account has no credits to count,
/// or there are no accounts, or the median overflows).
pub fn try_get(config: &Config, vote_accounts: &Vec<VoteAccountInfo>) -> (r: Option<ApiResponder>)
    ensures
        r is Some <==> stats_defined(vote_accounts@),
        r matches Some(a) ==> a.success && a.message is None && a.field_name@ == "stats"@
            && (a.inner matches Some(t) && t@ == stats_members(
                own_credits(vote_accounts@, pubkey_base58(config.vote_id@)),
                median(cluster_credits(vote_accounts@)) as u64,
            )),
{
    let mut cluster: Vec<u64> = Vec::new();
    let mut i: usize = 0;
    while i < vote_accounts.len()
        invariant
            i <= vote_accounts@.len(),
            forall|k: int| 0 <= k < i ==> credits_defined(#[trigger] vote_accounts@[k].epoch_credits@),
            cluster@ == cluster_credits(vote_accounts@.take(i as int)),
        decreases vote_accounts@.len() - i,
    {
        if !credits_countable(&vote_accounts[i].epoch_credits) {
            return None;
        }
        let c = get_current_credits(&vote_accounts[i]);
        cluster.push(c);
        assert(cluster@ =~= cluster_credits(vote_accounts@.take(i + 1)));
        i = i + 1;
    }
    assert(vote_accounts@.take(vote_accounts@.len() as int) =~= vote_accounts@);
    if cluster.len() == 0 {
        return None;
    }
    let t = sorted(&cluster);
    proof {
        vstd::seq_lib::to_multiset_len(cluster@);
        lemma_credit_leq_total();
        cluster@.lemma_sort_by_ensures(credit_leq());
        vstd::seq_lib::to_multiset_len(t@);
    }
    let n = t.len();
    if n % 2 == 0 && t[n / 2 - 1] > u64::MAX - t[n / 2] {
        return None;
    }
    Some(get(config, vote_accounts))
}

} // verus!
