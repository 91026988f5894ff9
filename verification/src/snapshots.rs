//! The snapshot stream: the backend sends one snapshot per tick, each
//! carrying the [`GameEvent`]s of its tick. A frontend that falls behind
//! takes only the newest snapshot, but must not lose the events of the
//! ones it skips: they are merged into the one it keeps.
use vstd::prelude::*;

use crate::protocol::GameEvent;
use vstd::seq_lib::lemma_flatten_concat;

verus! {

/// One snapshot taken off the stream: its state and the events it
/// carries.
#[derive(Debug)]
pub struct Drained<T> {
    pub state: T,
    pub events: Vec<GameEvent>,
}

/// The events of every drained snapshot, in stream order.
pub open spec fn all_events<T>(drained: Seq<Drained<T>>) -> Seq<GameEvent> {
    drained.map_values(|snapshot: Drained<T>| snapshot.events@).flatten()
}

/// Merges the snapshots drained from the stream, oldest first: the
/// newest state with the events of all of them, in order. `None` when
/// nothing was queued.
pub fn merge_drained<T>(drained: Vec<Drained<T>>) -> (merged: Option<Drained<T>>)
    ensures
        merged is None <==> drained@.len() == 0,
        merged matches Some(merged) ==> {
            &&& merged.state == drained@.last().state
            &&& merged.events@ == all_events(drained@)
        },
{
    let mut drained = drained;
    let mut events: Vec<GameEvent> = Vec::new();
    let mut i: usize = 0;
    while i < drained.len()
        invariant
            i <= drained@.len(),
            events@ == all_events(drained@.take(i as int)),
        decreases drained@.len() - i,
    {
        let ghost before = events@;
        let mut j: usize = 0;
        while j < drained[i].events.len()
            invariant
                i < drained@.len(),
                j <= drained@[i as int].events@.len(),
                events@ == before + drained@[i as int].events@.take(j as int),
            decreases drained@[i as int].events@.len() - j,
        {
            events.push(drained[i].events[j]);
            assert(drained@[i as int].events@.take(j + 1 as int) =~= drained@[i as int].events@.take(
                j as int,
            ).push(drained@[i as int].events@[j as int]));
            j = j + 1;
        }
        proof {
            let ghost views = drained@.take(i as int).map_values(
                |snapshot: Drained<T>| snapshot.events@,
            );
            let ghost one = seq![drained@[i as int].events@];
            assert(drained@.take(i + 1 as int).map_values(|snapshot: Drained<T>| snapshot.events@)
                =~= views + one);
            lemma_flatten_concat(views, one);
            one.lemma_flatten_one_element();
            assert(drained@[i as int].events@.take(j as int) =~= drained@[i as int].events@);
        }
        i = i + 1;
    }
    assert(drained@.take(drained@.len() as int) =~= drained@);
    match drained.pop() {
        Some(newest) => Some(Drained { state: newest.state, events }),
        None => None,
    }
}

} // verus!
