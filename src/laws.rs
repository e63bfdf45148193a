//! Properties that hold of every document and every room.
use vstd::prelude::*;

use crate::events::DocEvent;
use crate::ids::{action_id_of, object_id_of, room_id_of};
use crate::model::{EffectView, Object, ParseError, Room, RoomView};
use crate::pipeline::{document_room, resolution_of};
use crate::resolve::{ids_with_destination, ids_without_destination, resolve_affects, room_resolved};
use crate::room_machine::{room_machine_init, room_run, RoomState};

verus! {

/// The text of the text events of a run of events, concatenated in order.
pub open spec fn texts_of(events: Seq<DocEvent>) -> Seq<char>
    decreases events.len(),
{
    if events.len() == 0 {
        Seq::empty()
    } else {
        match events.last() {
            DocEvent::Text(t) => texts_of(events.drop_last()) + t@,
            _ => texts_of(events.drop_last()),
        }
    }
}

pub open spec fn is_heading_start(e: DocEvent, level: u8) -> bool {
    e matches DocEvent::HeadingStart(l) && l == level
}

pub open spec fn is_heading_end(e: DocEvent, level: u8) -> bool {
    e matches DocEvent::HeadingEnd(l) && l == level
}

/// `k` is the first level-1 heading start of `events`, and `e` the first
/// level-1 heading end after it (or the length, if there is none).
pub open spec fn title_bounds(events: Seq<DocEvent>, k: int, e: int) -> bool {
    &&& 0 <= k < e <= events.len()
    &&& is_heading_start(events[k], 1)
    &&& forall|q: int| 0 <= q < k ==> !is_heading_start(#[trigger] events[q], 1)
    &&& e == events.len() || is_heading_end(events[e], 1)
    &&& forall|q: int| k < q < e ==> !is_heading_end(#[trigger] events[q], 1)
}

proof fn lemma_title_prefix(room_id: u64, events: Seq<DocEvent>, k: int, e: int, n: int)
    requires
        title_bounds(events, k, e),
        0 <= n <= events.len(),
    ensures
        room_run(room_machine_init(room_id), events.take(n)) matches Ok(m) ==> {
            &&& n <= k ==> m.state == RoomState::Start && m.room.room_name == Seq::<char>::empty()
            &&& k < n <= e ==> m.state == RoomState::Title && m.room.room_name == texts_of(
                events.subrange(k + 1, n),
            )
            &&& e < n ==> m.state != RoomState::Start && m.state != RoomState::Title
                && m.room.room_name == texts_of(events.subrange(k + 1, e))
        },
    decreases n,
{
    let init = room_machine_init(room_id);
    if n > 0 {
        lemma_title_prefix(room_id, events, k, e, n - 1);
        assert(events.take(n).drop_last() =~= events.take(n - 1));
        assert(events.take(n).last() == events[n - 1]);
        if n - 1 > k {
            assert(events.subrange(k + 1, n).drop_last() =~= events.subrange(k + 1, n - 1));
            assert(events.subrange(k + 1, n).last() == events[n - 1]);
        }
        if n - 1 == k {
            assert(events.subrange(k + 1, n) =~= Seq::<DocEvent>::empty());
        }
        if n - 1 < k {
            assert(!is_heading_start(events[n - 1], 1));
        }
        if k < n - 1 && n - 1 < e {
            assert(!is_heading_end(events[n - 1], 1));
        }
    } else {
        assert(events.take(0) =~= Seq::<DocEvent>::empty());
    }
}

/// A room's name is the text of the events between the document's first
/// level-1 heading start and the end of that heading, in event order.
pub proof fn lemma_room_name_is_title(room_id: u64, events: Seq<DocEvent>, k: int, e: int)
    requires
        title_bounds(events, k, e),
    ensures
        document_room(room_id, events) matches Ok(room) ==> room.room_name == texts_of(
            events.subrange(k + 1, e),
        ),
{
    lemma_title_prefix(room_id, events, k, e, events.len() as int);
    assert(events.take(events.len() as int) =~= events);
}

proof fn lemma_without_destination_members(objs: Seq<Object>)
    ensures
        forall|x: u64|
            #[trigger] ids_without_destination(objs).contains(x) <==> exists|p: int|
                0 <= p < objs.len() && objs[p].destination is None && objs[p].obj_id == x,
    decreases objs.len(),
{
    if objs.len() > 0 {
        let rest = objs.drop_last();
        lemma_without_destination_members(rest);
        assert forall|x: u64|
            #[trigger] ids_without_destination(objs).contains(x) <==> exists|p: int|
                0 <= p < objs.len() && objs[p].destination is None && objs[p].obj_id == x by {
            if ids_without_destination(objs).contains(x) {
                if objs.last().destination is None && x == objs.last().obj_id {
                    assert(objs[objs.len() - 1].obj_id == x);
                } else {
                    assert(ids_without_destination(rest).contains(x)) by {
                        let s = ids_without_destination(rest);
                        if objs.last().destination is None {
                            let w = choose|w: int|
                                0 <= w < s.push(objs.last().obj_id).len() && s.push(
                                    objs.last().obj_id,
                                )[w] == x;
                            assert(s[w] == x);
                        }
                    }
                    let p = choose|p: int|
                        0 <= p < rest.len() && rest[p].destination is None && rest[p].obj_id == x;
                    assert(objs[p] == rest[p]);
                }
            }
            if exists|p: int|
                0 <= p < objs.len() && objs[p].destination is None && objs[p].obj_id == x {
                let p = choose|p: int|
                    0 <= p < objs.len() && objs[p].destination is None && objs[p].obj_id == x;
                let s = ids_without_destination(rest);
                if p == objs.len() - 1 {
                    assert(s.push(x)[s.len() as int] == x);
                } else {
                    assert(rest[p] == objs[p]);
                    assert(s.contains(x));
                    let w = choose|w: int| 0 <= w < s.len() && s[w] == x;
                    if objs.last().destination is None {
                        assert(s.push(objs.last().obj_id)[w] == x);
                    }
                }
            }
        }
    }
}

proof fn lemma_with_destination_members(objs: Seq<Object>)
    ensures
        forall|x: u64|
            #[trigger] ids_with_destination(objs).contains(x) <==> exists|p: int|
                0 <= p < objs.len() && objs[p].destination is Some && objs[p].obj_id == x,
    decreases objs.len(),
{
    if objs.len() > 0 {
        let rest = objs.drop_last();
        lemma_with_destination_members(rest);
        assert forall|x: u64|
            #[trigger] ids_with_destination(objs).contains(x) <==> exists|p: int|
                0 <= p < objs.len() && objs[p].destination is Some && objs[p].obj_id == x by {
            if ids_with_destination(objs).contains(x) {
                if objs.last().destination is Some && x == objs.last().obj_id {
                    assert(objs[objs.len() - 1].obj_id == x);
                } else {
                    assert(ids_with_destination(rest).contains(x)) by {
                        let s = ids_with_destination(rest);
                        if objs.last().destination is Some {
                            let w = choose|w: int|
                                0 <= w < s.push(objs.last().obj_id).len() && s.push(
                                    objs.last().obj_id,
                                )[w] == x;
                            assert(s[w] == x);
                        }
                    }
                    let p = choose|p: int|
                        0 <= p < rest.len() && rest[p].destination is Some && rest[p].obj_id == x;
                    assert(objs[p] == rest[p]);
                }
            }
            if exists|p: int|
                0 <= p < objs.len() && objs[p].destination is Some && objs[p].obj_id == x {
                let p = choose|p: int|
                    0 <= p < objs.len() && objs[p].destination is Some && objs[p].obj_id == x;
                let s = ids_with_destination(rest);
                if p == objs.len() - 1 {
                    assert(s.push(x)[s.len() as int] == x);
                } else {
                    assert(rest[p] == objs[p]);
                    assert(s.contains(x));
                    let w = choose|w: int| 0 <= w < s.len() && s[w] == x;
                    if objs.last().destination is Some {
                        assert(s.push(objs.last().obj_id)[w] == x);
                    }
                }
            }
        }
    }
}

/// The IDs of a room's objects.
pub open spec fn object_ids_of(objs: Seq<Object>) -> Set<u64> {
    objs.map_values(|o: Object| o.obj_id).to_set()
}

/// Together the two ID lists of a room hold exactly the IDs of its objects;
/// where no two objects share an ID, no ID is in both.
pub proof fn lemma_ids_partition(objs: Seq<Object>)
    ensures
        ids_without_destination(objs).to_set().union(ids_with_destination(objs).to_set())
            == object_ids_of(objs),
        (forall|p: int, q: int|
            0 <= p < q < objs.len() ==> objs[p].obj_id != objs[q].obj_id) ==> ids_without_destination(
            objs,
        ).to_set().disjoint(ids_with_destination(objs).to_set()),
{
    lemma_without_destination_members(objs);
    lemma_with_destination_members(objs);
    let all = objs.map_values(|o: Object| o.obj_id);
    assert forall|x: u64|
        ids_without_destination(objs).to_set().union(ids_with_destination(objs).to_set()).contains(
            x,
        ) <==> object_ids_of(objs).contains(x) by {
        if all.contains(x) {
            let p = choose|p: int| 0 <= p < all.len() && all[p] == x;
            assert(objs[p].obj_id == x);
        }
        if ids_without_destination(objs).contains(x) || ids_with_destination(objs).contains(x) {
            let p = choose|p: int| 0 <= p < objs.len() && objs[p].obj_id == x;
            assert(all[p] == x);
        }
    }
    assert(ids_without_destination(objs).to_set().union(ids_with_destination(objs).to_set())
        =~= object_ids_of(objs));
    if forall|p: int, q: int| 0 <= p < q < objs.len() ==> objs[p].obj_id != objs[q].obj_id {
        assert forall|x: u64|
            !(ids_without_destination(objs).to_set().contains(x) && ids_with_destination(
                objs,
            ).to_set().contains(x)) by {
            if ids_without_destination(objs).contains(x) && ids_with_destination(objs).contains(x) {
                let p = choose|p: int|
                    0 <= p < objs.len() && objs[p].destination is None && objs[p].obj_id == x;
                let q = choose|q: int|
                    0 <= q < objs.len() && objs[q].destination is Some && objs[q].obj_id == x;
                assert(p != q);
                if p < q {
                    assert(objs[p].obj_id != objs[q].obj_id);
                } else {
                    assert(objs[q].obj_id != objs[p].obj_id);
                }
            }
        }
    }
}

proof fn lemma_run_keeps_room_id(room_id: u64, events: Seq<DocEvent>)
    ensures
        room_run(room_machine_init(room_id), events) matches Ok(m) ==> m.room.room_id == room_id,
    decreases events.len(),
{
    if events.len() > 0 {
        lemma_run_keeps_room_id(room_id, events.drop_last());
    }
}

/// The same key always gives the same ID, for rooms, objects and actions.
pub proof fn lemma_ids_deterministic(path: Seq<char>, other_path: Seq<char>, parent: u64, other_parent: u64, index: u64, other_index: u64)
    ensures
        path == other_path ==> room_id_of(path) == room_id_of(other_path),
        parent == other_parent && index == other_index ==> object_id_of(parent, index)
            == object_id_of(other_parent, other_index) && action_id_of(parent, index)
            == action_id_of(other_parent, other_index),
{
}

/// A room's ID comes from its document's path alone: whatever events the
/// document holds, the room it yields carries the ID of that path.
pub proof fn lemma_room_id_from_path(path: Seq<char>, events: Seq<DocEvent>)
    ensures
        document_room(room_id_of(path), events) matches Ok(room) ==> room.room_id == room_id_of(
            path,
        ),
{
    lemma_run_keeps_room_id(room_id_of(path), events);
}

/// A cross-reference names no object by a position that the room lacks.
pub open spec fn object_position_exists(room: RoomView, eff: EffectView) -> bool {
    eff.object_id is None && eff.object_index is Some ==> (eff.object_index->0 as int)
        < room.objects.len()
}

/// A cross-reference that gives an explicit action ID resolves to that ID,
/// wherever the referencing action stands (unless it names an object by a
/// position that the room does not have).
pub proof fn lemma_explicit_action_id(room: RoomView, i: int, j: int, id: u64)
    requires
        0 <= i < room.objects.len(),
        0 <= j < room.objects[i].actions.len(),
        room.objects[i].actions[j].affects_action is Some,
        room.objects[i].actions[j].affects_action->0.action_id == Some(id),
        object_position_exists(room, room.objects[i].actions[j].affects_action->0),
    ensures
        resolve_affects(room, i, room.objects[i].actions[j]) == Ok::<Option<u64>, ParseError>(Some(id)),
{
}

/// A cross-reference that gives only the action position 0 resolves to the
/// first action of the referencing object.
pub proof fn lemma_first_action_of_own_object(room: RoomView, i: int, j: int)
    requires
        0 <= i < room.objects.len(),
        0 <= j < room.objects[i].actions.len(),
        room.objects[i].actions[j].affects_action == Some(
            EffectView {
                room: None,
                object_id: None,
                action_id: None,
                object_index: None,
                action_index: Some(0),
            },
        ),
    ensures
        resolve_affects(room, i, room.objects[i].actions[j]) == Ok::<Option<u64>, ParseError>(
            Some(room.objects[i].actions[0].action_id),
        ),
{
}

/// A cross-reference that names object `k` by position and gives the action
/// position 0 resolves to the first action of object `k`.
pub proof fn lemma_first_action_of_referenced_object(room: RoomView, i: int, j: int, k: u64)
    requires
        0 <= i < room.objects.len(),
        0 <= j < room.objects[i].actions.len(),
        (k as int) < room.objects.len(),
        room.objects[k as int].actions.len() > 0,
        room.objects[i].actions[j].affects_action matches Some(eff) && eff.object_id is None
            && eff.object_index == Some(k) && eff.action_id is None && eff.action_index == Some(
            0u64,
        ),
    ensures
        resolve_affects(room, i, room.objects[i].actions[j]) == Ok::<Option<u64>, ParseError>(
            Some(room.objects[k as int].actions[0].action_id),
        ),
{
}

/// The finished room of a document carries the title's text as its name.
pub proof fn lemma_finished_room_name(room_id: u64, events: Seq<DocEvent>, k: int, e: int, r: Result<Room, ParseError>)
    requires
        title_bounds(events, k, e),
        resolution_of(document_room(room_id, events), r),
    ensures
        r matches Ok(room) ==> room.room_name@ == texts_of(events.subrange(k + 1, e)),
{
    lemma_room_name_is_title(room_id, events, k, e);
}

/// In a finished room, `object_ids` and `dir_obj_ids` together hold exactly
/// the IDs of its objects, and where no two objects share an ID they share
/// none.
pub proof fn lemma_finished_room_partition(parsed: RoomView, room: Room)
    requires
        room_resolved(parsed, room),
    ensures
        room.object_ids@.to_set().union(room.dir_obj_ids@.to_set()) == object_ids_of(
            room.objects->0@,
        ),
        (forall|p: int, q: int|
            0 <= p < q < room.objects->0@.len() ==> room.objects->0@[p].obj_id
                != room.objects->0@[q].obj_id) ==> room.object_ids@.to_set().disjoint(
            room.dir_obj_ids@.to_set(),
        ),
{
    lemma_ids_partition(room.objects->0@);
}

} // verus!
