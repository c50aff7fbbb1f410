use vstd::prelude::*;

verus! {

/// An item joining or leaving the accordion.
pub enum ItemEvent {
    Register,
    Unregister,
}

/// The next id and the ids handed out, in order, after `events` starting from
/// the next id `next_id`: a registration receives the next id and moves it on
/// by one, a departure leaves it as it is.
pub open spec fn run_events(next_id: int, events: Seq<ItemEvent>) -> (int, Seq<int>)
    decreases events.len(),
{
    if events.len() == 0 {
        (next_id, Seq::empty())
    } else {
        let (next, ids) = run_events(next_id, events.drop_last());
        match events.last() {
            ItemEvent::Register => (next + 1, ids.push(next)),
            ItemEvent::Unregister => (next, ids),
        }
    }
}

/// The number of registrations among `events`.
pub open spec fn registrations(events: Seq<ItemEvent>) -> nat
    decreases events.len(),
{
    if events.len() == 0 {
        0
    } else {
        registrations(events.drop_last()) + match events.last() {
            ItemEvent::Register => 1nat,
            ItemEvent::Unregister => 0nat,
        }
    }
}

/// However registrations and departures interleave, each registration gets an
/// id of its own, greater than every id handed out before it: ids strictly
/// increase and a departed item's id is never handed out again.
pub proof fn lemma_ids_increase(next_id: int, events: Seq<ItemEvent>)
    ensures
        run_events(next_id, events).1.len() == registrations(events),
        run_events(next_id, events).0 == next_id + registrations(events),
        forall|i: int|
            0 <= i < run_events(next_id, events).1.len() ==> next_id <= #[trigger] run_events(
                next_id,
                events,
            ).1[i] < run_events(next_id, events).0,
        forall|i: int, j: int|
            0 <= i < j < run_events(next_id, events).1.len() ==> #[trigger] run_events(
                next_id,
                events,
            ).1[i] < #[trigger] run_events(next_id, events).1[j],
    decreases events.len(),
{
    if events.len() > 0 {
        lemma_ids_increase(next_id, events.drop_last());
    }
}

} // verus!
