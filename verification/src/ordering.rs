//! The order in which the events of one pass are dispatched.
//!
//! Only the leave family is ranked: an event of that family ranks below
//! every event of another name and level with events of its own name. All
//! other events are not ranked among themselves. A batch is therefore
//! dispatched in two runs, the events outside the leave family first and
//! those of the family after them, each run in the order of arrival.

use std::cmp::Ordering;
use vstd::prelude::*;
use crate::events::{is_leave_name, DomEvent, DomEventModel};

verus! {

/// How an event named `name` ranks against one named `other`.
pub open spec fn rank_of(name: Seq<char>, other: Seq<char>) -> Ordering {
    if is_leave_name(name) {
        if name == other {
            Ordering::Equal
        } else {
            Ordering::Less
        }
    } else {
        Ordering::Greater
    }
}

/// The models of a list of events.
pub open spec fn event_models(events: Seq<DomEvent>) -> Seq<DomEventModel> {
    Seq::new(events.len(), |i: int| events[i]@)
}

/// Those of the first `count` events that are of the leave family, or
/// those that are not, in their order.
pub open spec fn run_of(events: Seq<DomEventModel>, leave: bool, count: nat) -> Seq<
    DomEventModel,
>
    decreases count,
{
    if count == 0 || count > events.len() {
        Seq::empty()
    } else {
        let before = run_of(events, leave, (count - 1) as nat);
        if is_leave_name(events[count - 1].name) == leave {
            before.push(events[count - 1])
        } else {
            before
        }
    }
}

/// A batch in the order of its dispatch.
pub open spec fn dispatched(events: Seq<DomEventModel>) -> Seq<DomEventModel> {
    run_of(events, false, events.len()) + run_of(events, true, events.len())
}

/// Every event of a run is of the run's kind, and stood in the batch.
proof fn lemma_run_members(events: Seq<DomEventModel>, leave: bool, count: nat, index: int)
    requires
        0 <= index < run_of(events, leave, count).len(),
    ensures
        is_leave_name(run_of(events, leave, count)[index].name) == leave,
        events.contains(run_of(events, leave, count)[index]),
    decreases count,
{
    if count == 0 || count > events.len() {
    } else {
        let before = run_of(events, leave, (count - 1) as nat);
        if index < before.len() {
            lemma_run_members(events, leave, (count - 1) as nat, index);
        } else {
            assert(events[count - 1] == run_of(events, leave, count)[index]);
        }
    }
}

/// The two runs share out the batch: together they are as long as it is.
proof fn lemma_runs_share_out(events: Seq<DomEventModel>, count: nat)
    requires
        count <= events.len(),
    ensures
        run_of(events, false, count).len() + run_of(events, true, count).len() == count,
    decreases count,
{
    if count > 0 {
        lemma_runs_share_out(events, (count - 1) as nat);
    }
}

/// Every event of the batch is dispatched.
proof fn lemma_every_event_dispatched(events: Seq<DomEventModel>, count: nat, index: int)
    requires
        0 <= index < count <= events.len(),
    ensures
        run_of(events, is_leave_name(events[index].name), count).contains(events[index]),
    decreases count,
{
    let leave = is_leave_name(events[index].name);
    let before = run_of(events, leave, (count - 1) as nat);
    let run = run_of(events, leave, count);
    if index < count - 1 {
        lemma_every_event_dispatched(events, (count - 1) as nat, index);
        let at = choose|at: int| 0 <= at < before.len() && before[at] == events[index];
        assert(run[at] == events[index]);
    } else {
        assert(run[before.len() as int] == events[index]);
    }
}

/// The two runs of the first `count` events hold, between them, each of
/// these events as often as it stands among them.
proof fn lemma_runs_are_the_batch(events: Seq<DomEventModel>, count: nat)
    requires
        count <= events.len(),
    ensures
        run_of(events, false, count).to_multiset().add(run_of(events, true, count).to_multiset())
            == events.take(count as int).to_multiset(),
    decreases count,
{
    broadcast use vstd::multiset::group_multiset_axioms;

    if count == 0 {
        assert(events.take(0) =~= Seq::<DomEventModel>::empty());
        vstd::seq_lib::to_multiset_len(Seq::<DomEventModel>::empty());
        vstd::multiset::lemma_multiset_empty_len(Seq::<DomEventModel>::empty().to_multiset());
    } else {
        let before = (count - 1) as nat;
        lemma_runs_are_the_batch(events, before);
        let event = events[count - 1];
        assert(events.take(count as int) =~= events.take(before as int).push(event));
        vstd::seq_lib::to_multiset_build(events.take(before as int), event);
        vstd::seq_lib::to_multiset_build(run_of(events, false, before), event);
        vstd::seq_lib::to_multiset_build(run_of(events, true, before), event);
        assert(run_of(events, false, count).to_multiset().add(
            run_of(events, true, count).to_multiset(),
        ) =~= events.take(count as int).to_multiset());
    }
}

/// Nothing is lost and nothing is made: the dispatched batch holds each
/// event as often as the batch does.
pub proof fn lemma_dispatch_permutes(events: Seq<DomEventModel>)
    ensures
        dispatched(events).to_multiset() == events.to_multiset(),
{
    lemma_runs_are_the_batch(events, events.len());
    assert(events.take(events.len() as int) =~= events);
    vstd::seq_lib::lemma_multiset_commutative(
        run_of(events, false, events.len()),
        run_of(events, true, events.len()),
    );
}

/// Leave events go last: in the order of dispatch no event of the leave
/// family stands before an event of another name. The dispatched batch is
/// as long as the batch, and each of its events stood in the batch.
pub proof fn lemma_leave_events_last(events: Seq<DomEventModel>)
    ensures
        dispatched(events).len() == events.len(),
        forall|i: int, j: int|
            0 <= i < j < dispatched(events).len() && is_leave_name(
                (#[trigger] dispatched(events)[i]).name,
            ) ==> is_leave_name((#[trigger] dispatched(events)[j]).name),
        forall|i: int|
            0 <= i < dispatched(events).len() ==> events.contains(
                #[trigger] dispatched(events)[i],
            ),
        forall|i: int|
            0 <= i < events.len() ==> dispatched(events).contains(#[trigger] events[i]),
{
    let first = run_of(events, false, events.len());
    let last = run_of(events, true, events.len());
    let all = dispatched(events);
    lemma_runs_share_out(events, events.len());
    assert forall|i: int, j: int|
        0 <= i < j < all.len() && is_leave_name((#[trigger] all[i]).name) implies is_leave_name(
        (#[trigger] all[j]).name,
    ) by {
        if i < first.len() {
            lemma_run_members(events, false, events.len(), i);
        }
        lemma_run_members(events, true, events.len(), j - first.len());
    }
    assert forall|i: int| 0 <= i < all.len() implies events.contains(#[trigger] all[i]) by {
        if i < first.len() {
            lemma_run_members(events, false, events.len(), i);
        } else {
            lemma_run_members(events, true, events.len(), i - first.len());
        }
    }
    assert forall|i: int| 0 <= i < events.len() implies all.contains(#[trigger] events[i]) by {
        lemma_every_event_dispatched(events, events.len(), i);
        if is_leave_name(events[i].name) {
            let at = choose|at: int| 0 <= at < last.len() && last[at] == events[i];
            assert(all[first.len() + at] == events[i]);
        } else {
            let at = choose|at: int| 0 <= at < first.len() && first[at] == events[i];
            assert(all[at] == events[i]);
        }
    }
}

impl DomEvent {
    /// How this event ranks against another in the order of dispatch. An
    /// event of the leave family is level with an event of the same name
    /// and below every other; any other event is above whatever it is held
    /// against.
    pub fn cmp(&self, other: &DomEvent) -> (rank: Ordering)
        ensures
            rank == rank_of(self@.name, other@.name),
    {
        if self.is_leave() {
            if self.name == other.name {
                Ordering::Equal
            } else {
                Ordering::Less
            }
        } else {
            Ordering::Greater
        }
    }

    /// The rank of [`DomEvent::cmp`]; it is always defined.
    pub fn partial_cmp(&self, other: &DomEvent) -> (rank: Option<Ordering>)
        ensures
            rank == Some(rank_of(self@.name, other@.name)),
    {
        Some(self.cmp(other))
    }
}

/// Copies of those events of a batch that are of the leave family, or of
/// those that are not, appended to `out` in their order.
fn append_run(events: &Vec<DomEvent>, leave: bool, out: &mut Vec<DomEvent>)
    ensures
        event_models(final(out)@) == event_models(old(out)@) + run_of(
            event_models(events@),
            leave,
            events@.len(),
        ),
{
    let ghost start = event_models(out@);
    let ghost batch = event_models(events@);
    let mut i: usize = 0;
    while i < events.len()
        invariant
            i <= events.len(),
            batch == event_models(events@),
            event_models(out@) == start + run_of(batch, leave, i as nat),
        decreases events.len() - i,
    {
        if events[i].is_leave() == leave {
            let ghost before = event_models(out@);
            out.push(events[i].clone());
            assert(event_models(out@) =~= before.push(events[i as int]@));
            assert(event_models(out@) =~= start + run_of(batch, leave, (i + 1) as nat));
        }
        i += 1;
    }
}

/// The batch in the order of its dispatch: the events outside the leave
/// family in their order of arrival, then those of the leave family in
/// theirs.
pub fn dispatch_order(events: Vec<DomEvent>) -> (ordered: Vec<DomEvent>)
    ensures
        event_models(ordered@) == dispatched(event_models(events@)),
{
    let mut ordered: Vec<DomEvent> = Vec::new();
    assert(event_models(ordered@) =~= Seq::empty());
    append_run(&events, false, &mut ordered);
    append_run(&events, true, &mut ordered);
    assert(event_models(ordered@) =~= dispatched(event_models(events@)));
    ordered
}

} // verus!
