//! Moving the voting identity by hand: find the node that votes now, take
//! its tower, demote it, give the tower to the chosen node and promote it.

use vstd::prelude::*;
use crate::handlers::status::Status;
use crate::handlers::set_identity::IdentityVariant;
use crate::text::{push_str, same_text};

verus! {

/// A step of a manual failover.
pub enum FailoverStep {
    /// Print the text on the console.
    Print(String),
    /// Fetch the tower from the monitor at the host.
    FetchTower(String),
    /// Ask the monitor at the host to take the identity.
    SetIdentity(String, IdentityVariant),
    /// Post the fetched tower to the monitor at the host.
    PostTower(String),
}

/// A step, with its texts as character sequences.
pub enum StepView {
    Print(Seq<char>),
    FetchTower(Seq<char>),
    SetIdentity(Seq<char>, IdentityVariant),
    PostTower(Seq<char>),
}

impl View for FailoverStep {
    type V = StepView;

    open spec fn view(&self) -> StepView {
        match self {
            FailoverStep::Print(t) => StepView::Print(t@),
            FailoverStep::FetchTower(h) => StepView::FetchTower(h@),
            FailoverStep::SetIdentity(h, v) => StepView::SetIdentity(h@, *v),
            FailoverStep::PostTower(h) => StepView::PostTower(h@),
        }
    }
}

/// The steps of a list, viewed.
pub open spec fn steps_view(v: Seq<FailoverStep>) -> Seq<StepView> {
    v.map_values(|s: FailoverStep| s@)
}

/// `i` is the first position of a status with the identity `id`.
pub open spec fn first_voting(s: Seq<Status>, id: Seq<char>, i: int) -> bool {
    &&& 0 <= i < s.len()
    &&& s[i].identity@ == id
    &&& forall|j: int| 0 <= j < i ==> s[j].identity@ != id
}

/// Some node reports the identity `id`.
pub open spec fn has_voting(s: Seq<Status>, id: Seq<char>) -> bool {
    exists|i: int| 0 <= i < s.len() && s[i].identity@ == id
}

/// The host of the first node that reports the identity `id`.
pub open spec fn voting_host(s: Seq<Status>, id: Seq<char>) -> Seq<char> {
    s[choose|i: int| first_voting(s, id, i)].hostname@
}

/// The steps of a failover to `new_host` when the vote account's identity is
/// `id` and the nodes report the statuses `s`: nothing to do but say so when
/// no node votes or the new host already does; otherwise fetch the tower
/// from the voting node, demote it, post the tower to the new host and
/// promote it, saying what is being done at each step.
pub open spec fn failover_plan(s: Seq<Status>, id: Seq<char>, new_host: Seq<char>) -> Seq<StepView> {
    if !has_voting(s, id) {
        seq![StepView::Print("Primary not found!"@)]
    } else if voting_host(s, id) == new_host {
        seq![StepView::Print("Primary is already set to "@ + new_host)]
    } else {
        let old_host = voting_host(s, id);
        seq![
            StepView::Print("Getting tower from primary..."@),
            StepView::FetchTower(old_host),
            StepView::Print("Demoting current primary..."@),
            StepView::SetIdentity(old_host, IdentityVariant::Secondary),
            StepView::Print("Posting tower to new primary..."@),
            StepView::PostTower(new_host),
            StepView::Print("Promoting new primary..."@),
            StepView::SetIdentity(new_host, IdentityVariant::Primary),
            StepView::Print("Done!"@),
        ]
    }
}

fn push_step(v: &mut Vec<FailoverStep>, s: FailoverStep)
    ensures
        steps_view(final(v)@) == steps_view(old(v)@).push(s@),
{
    v.push(s);
    assert(steps_view(final(v)@) =~= steps_view(old(v)@).push(s@));
}

/// The steps of a failover to `new_host`, given the nodes' statuses and the
/// vote account's identity.
pub fn plan(statuses: &Vec<Status>, identity: &String, new_host: &str) -> (r: Vec<FailoverStep>)
    ensures
        steps_view(r@) == failover_plan(statuses@, identity@, new_host@),
{
    let mut steps: Vec<FailoverStep> = Vec::new();
    assert(steps_view(steps@) =~= Seq::<StepView>::empty());
    let mut i: usize = 0;
    while i < statuses.len()
        invariant
            i <= statuses@.len(),
            forall|j: int| 0 <= j < i ==> statuses@[j].identity@ != identity@,
            steps_view(steps@) == Seq::<StepView>::empty(),
        decreases statuses@.len() - i,
    {
        if statuses[i].identity == *identity {
            proof {
                assert(first_voting(statuses@, identity@, i as int));
                let c = choose|k: int| first_voting(statuses@, identity@, k);
                if c < i {
                    assert(statuses@[c].identity@ != identity@);
                } else if c > i {
                    assert(statuses@[i as int].identity@ != identity@);
                }
            }
            let host = &statuses[i].hostname;
            if same_text(host.as_str(), new_host) {
                let mut m = "Primary is already set to ".to_owned();
                push_str(&mut m, new_host);
                push_step(&mut steps, FailoverStep::Print(m));
            } else {
                push_step(&mut steps, FailoverStep::Print("Getting tower from primary...".to_owned()));
                push_step(&mut steps, FailoverStep::FetchTower(host.clone()));
                push_step(&mut steps, FailoverStep::Print("Demoting current primary...".to_owned()));
                push_step(&mut steps, FailoverStep::SetIdentity(host.clone(), IdentityVariant::Secondary));
                push_step(&mut steps, FailoverStep::Print("Posting tower to new primary...".to_owned()));
                push_step(&mut steps, FailoverStep::PostTower(new_host.to_owned()));
                push_step(&mut steps, FailoverStep::Print("Promoting new primary...".to_owned()));
                push_step(&mut steps, FailoverStep::SetIdentity(new_host.to_owned(), IdentityVariant::Primary));
                push_step(&mut steps, FailoverStep::Print("Done!".to_owned()));
            }
            assert(steps_view(steps@) =~= failover_plan(statuses@, identity@, new_host@));
            return steps;
        }
        i = i + 1;
    }
    push_step(&mut steps, FailoverStep::Print("Primary not found!".to_owned()));
    assert(steps_view(steps@) =~= failover_plan(statuses@, identity@, new_host@));
    steps
}

/// A manual failover demotes the voting node before it promotes the new one,
/// and hands the tower over in between: the tower is fetched from the node
/// that is demoted and posted to the node that is promoted.
pub proof fn law_demote_before_promote(s: Seq<Status>, id: Seq<char>, new_host: Seq<char>)
    requires
        has_voting(s, id),
        voting_host(s, id) != new_host,
    ensures
        ({
            let p = failover_plan(s, id, new_host);
            let old_host = voting_host(s, id);
            &&& p[1] == StepView::FetchTower(old_host)
            &&& p[3] == StepView::SetIdentity(old_host, IdentityVariant::Secondary)
            &&& p[5] == StepView::PostTower(new_host)
            &&& p[7] == StepView::SetIdentity(new_host, IdentityVariant::Primary)
        }),
{
}

/// A failover to the node that already votes changes nothing.
pub proof fn law_no_change_when_already_primary(s: Seq<Status>, id: Seq<char>, new_host: Seq<char>)
    requires
        has_voting(s, id),
        voting_host(s, id) == new_host,
    ensures
        forall|k: int| 0 <= k < failover_plan(s, id, new_host).len()
            ==> #[trigger] failover_plan(s, id, new_host)[k] is Print,
{
}


/// A manual failover works on the first node that reports the identity: when
/// the node at position `i` is the first to report it, the plan compares the
/// new host with that node's host; unless they are the same, it fetches the
/// tower from that host, demotes it, posts the tower to the new host and
/// promotes it, in nine steps; when they are the same, it only says so.
pub proof fn law_plan_acts_on_first_voting_node(s: Seq<Status>, id: Seq<char>, new_host: Seq<char>, i: int)
    requires
        0 <= i < s.len(),
        s[i].identity@ == id,
        forall|j: int| 0 <= j < i ==> s[j].identity@ != id,
    ensures
        voting_host(s, id) == s[i].hostname@,
        s[i].hostname@ != new_host ==> failover_plan(s, id, new_host).len() == 9
            && failover_plan(s, id, new_host)[1] == StepView::FetchTower(s[i].hostname@)
            && failover_plan(s, id, new_host)[3] == StepView::SetIdentity(s[i].hostname@, IdentityVariant::Secondary)
            && failover_plan(s, id, new_host)[5] == StepView::PostTower(new_host)
            && failover_plan(s, id, new_host)[7] == StepView::SetIdentity(new_host, IdentityVariant::Primary),
        s[i].hostname@ == new_host ==> failover_plan(s, id, new_host)
            == seq![StepView::Print("Primary is already set to "@ + new_host)],
{
    assert(first_voting(s, id, i));
    let c = choose|k: int| first_voting(s, id, k);
    assert(first_voting(s, id, c));
    if c < i {
        assert(s[c].identity@ != id);
    } else if c > i {
        assert(s[i].identity@ != id);
    }
    assert(has_voting(s, id));
}

/// A manual failover when no node reports the identity only says so.
pub proof fn law_plan_without_voting_node(s: Seq<Status>, id: Seq<char>, new_host: Seq<char>)
    requires
        forall|j: int| 0 <= j < s.len() ==> s[j].identity@ != id,
    ensures
        failover_plan(s, id, new_host) == seq![StepView::Print("Primary not found!"@)],
{
}

} // verus!
