//! The second pass over a parsed room: every symbolic cross-reference becomes
//! the ID of the action it points at, and the objects' IDs are split by
//! whether the object leads elsewhere.
use vstd::prelude::*;

use crate::ids::{calculate_room_id, room_id_of};
use crate::model::{
    copy_opt_text, objects_view, opt_text, Action, ActionView, Effect, EffectView,
    IntermediaryAction, IntermediaryEffect, IntermediaryObject, IntermediaryRoom, Object,
    ObjectView, ParseError, Room, RoomView,
};

verus! {

/// The position of the first object of `objs` with the given ID.
pub open spec fn object_position(objs: Seq<ObjectView>, id: u64) -> Option<int>
    decreases objs.len(),
{
    if objs.len() == 0 {
        None
    } else {
        match object_position(objs.drop_last(), id) {
            Some(p) => Some(p),
            None => if objs.last().obj_id == id {
                Some(objs.len() - 1)
            } else {
                None
            },
        }
    }
}

/// The room a cross-reference points at: the named one, else its own room.
pub open spec fn target_room(room: RoomView, eff: EffectView) -> u64 {
    match eff.room {
        Some(name) => room_id_of(name),
        None => room.room_id,
    }
}

/// The object a cross-reference made from object `i` points at: its ID, and
/// its position in this room where it stands here. An explicit ID comes
/// first, then a position, then the referencing object itself.
pub open spec fn target_object(room: RoomView, i: int, eff: EffectView) -> Result<
    (u64, Option<int>),
    ParseError,
> {
    match eff.object_id {
        Some(id) => Ok((id, object_position(room.objects, id))),
        None => match eff.object_index {
            Some(k) => if (k as int) < room.objects.len() {
                Ok((room.objects[k as int].obj_id, Some(k as int)))
            } else {
                Err(ParseError::ReferenceOutOfRange)
            },
            None => Ok((room.objects[i].obj_id, Some(i))),
        },
    }
}

/// A cross-reference made from object `i`, resolved. The action is named by
/// an explicit ID, or else by its position among the target object's
/// actions; one of the two must be given.
pub open spec fn resolve_effect(room: RoomView, i: int, eff: EffectView) -> Result<
    Effect,
    ParseError,
> {
    match target_object(room, i, eff) {
        Err(x) => Err(x),
        Ok((object_id, position)) => {
            let room_id = target_room(room, eff);
            match eff.action_id {
                Some(action_id) => Ok(
                    Effect { room_id: Some(room_id), object_id: Some(object_id), action_id },
                ),
                None => match eff.action_index {
                    None => Err(ParseError::MissingActionReference),
                    Some(k) => match position {
                        Some(p) => if (k as int) < room.objects[p].actions.len() {
                            Ok(
                                Effect {
                                    room_id: Some(room_id),
                                    object_id: Some(object_id),
                                    action_id: room.objects[p].actions[k as int].action_id,
                                },
                            )
                        } else {
                            Err(ParseError::ReferenceOutOfRange)
                        },
                        None => Err(ParseError::ReferenceOutOfRange),
                    },
                },
            }
        },
    }
}

/// The action ID that an action of object `i` affects, if it names one.
pub open spec fn resolve_affects(room: RoomView, i: int, a: ActionView) -> Result<
    Option<u64>,
    ParseError,
> {
    match a.affects_action {
        None => Ok(None),
        Some(eff) => match resolve_effect(room, i, eff) {
            Ok(e) => Ok(Some(e.action_id)),
            Err(x) => Err(x),
        },
    }
}

/// Every cross-reference of the room resolves.
pub open spec fn references_resolve(room: RoomView) -> bool {
    forall|i: int, j: int|
        0 <= i < room.objects.len() && 0 <= j < room.objects[i].actions.len()
            ==> #[trigger] resolve_affects(room, i, room.objects[i].actions[j]) is Ok
}

/// Some cross-reference of the room fails with `x`.
pub open spec fn reference_fails_with(room: RoomView, x: ParseError) -> bool {
    exists|i: int, j: int|
        0 <= i < room.objects.len() && 0 <= j < room.objects[i].actions.len()
            && #[trigger] resolve_affects(room, i, room.objects[i].actions[j]) == Err::<
            Option<u64>,
            ParseError,
        >(x)
}

/// `out` is action `a` with its cross-reference resolved to `affects`.
pub open spec fn action_resolved(out: Action, a: ActionView, affects: Option<u64>) -> bool {
    &&& out.action_id == a.action_id
    &&& out.ttype@ == a.ttype
    &&& out.enabled == a.enabled
    &&& out.revertable == a.revertable
    &&& out.d_bit_text@ == a.d_bit_text
    &&& out.d_bit == a.d_bit
    &&& out.affects_action == affects
}

/// `out` is action `a` of object `i` of the room, its cross-reference resolved.
pub open spec fn action_of_room_resolved(room: RoomView, i: int, a: ActionView, out: Action) -> bool {
    match resolve_affects(room, i, a) {
        Ok(t) => action_resolved(out, a, t),
        Err(_) => false,
    }
}

/// `out` is object `i` of the room with its actions' cross-references resolved.
pub open spec fn object_resolved(room: RoomView, i: int, out: Object) -> bool {
    let o = room.objects[i];
    &&& out.obj_id == o.obj_id
    &&& out.ttype@ == o.ttype
    &&& out.material@ == o.material
    &&& out.obj_description@ == o.obj_description
    &&& opt_text(out.direction) == o.direction
    &&& opt_text(out.destination) == o.destination
    &&& out.actions is Some
    &&& out.actions->0@.len() == o.actions.len()
    &&& forall|j: int|
        0 <= j < o.actions.len() ==> action_of_room_resolved(
            room,
            i,
            o.actions[j],
            #[trigger] out.actions->0@[j],
        )
}

/// The IDs of the objects without a destination, in order.
pub open spec fn ids_without_destination(objs: Seq<Object>) -> Seq<u64>
    decreases objs.len(),
{
    if objs.len() == 0 {
        Seq::empty()
    } else if objs.last().destination is None {
        ids_without_destination(objs.drop_last()).push(objs.last().obj_id)
    } else {
        ids_without_destination(objs.drop_last())
    }
}

/// The IDs of the objects with a destination, in order.
pub open spec fn ids_with_destination(objs: Seq<Object>) -> Seq<u64>
    decreases objs.len(),
{
    if objs.len() == 0 {
        Seq::empty()
    } else if objs.last().destination is Some {
        ids_with_destination(objs.drop_last()).push(objs.last().obj_id)
    } else {
        ids_with_destination(objs.drop_last())
    }
}

/// `out` is the parsed room `room` with every cross-reference resolved and
/// its object IDs split by destination.
pub open spec fn room_resolved(room: RoomView, out: Room) -> bool {
    &&& out.room_id == room.room_id
    &&& out.room_name@ == room.room_name
    &&& out.room_description@ == room.room_description
    &&& out.room_type@ == room.room_type
    &&& out.biome_type@ == room.biome_type
    &&& out.objects is Some
    &&& out.objects->0@.len() == room.objects.len()
    &&& forall|i: int|
        0 <= i < room.objects.len() ==> object_resolved(room, i, #[trigger] out.objects->0@[i])
    &&& out.object_ids@ == ids_without_destination(out.objects->0@)
    &&& out.dir_obj_ids@ == ids_with_destination(out.objects->0@)
}

proof fn lemma_position_sticks(objs: Seq<ObjectView>, id: u64, k: int)
    requires
        0 <= k <= objs.len(),
        object_position(objs.take(k), id) is Some,
    ensures
        object_position(objs, id) == object_position(objs.take(k), id),
    decreases objs.len() - k,
{
    if k < objs.len() {
        assert(objs.take(k + 1).drop_last() =~= objs.take(k));
        lemma_position_sticks(objs, id, k + 1);
    } else {
        assert(objs.take(k) =~= objs);
    }
}

fn find_object(objs: &Vec<IntermediaryObject>, id: u64) -> (r: Option<usize>)
    ensures
        match r {
            Some(p) => p < objs@.len() && object_position(objects_view(objs@), id)
                == Some(p as int),
            None => object_position(objects_view(objs@), id) is None,
        },
{
    let ghost all = objects_view(objs@);
    let mut k: usize = 0;
    while k < objs.len()
        invariant
            all == objects_view(objs@),
            k <= objs@.len(),
            object_position(all.take(k as int), id) is None,
        decreases objs@.len() - k,
    {
        assert(all.take(k as int + 1).drop_last() =~= all.take(k as int));
        if objs[k].obj_id == id {
            proof {
                lemma_position_sticks(all, id, k as int + 1);
            }
            return Some(k);
        }
        k = k + 1;
    }
    assert(all.take(k as int) =~= all);
    None
}

fn resolve_reference(room: &IntermediaryRoom, i: usize, eff: &IntermediaryEffect) -> (r: Result<
    Effect,
    ParseError,
>)
    requires
        i < room.objects@.len(),
    ensures
        r == resolve_effect(room@, i as int, eff@),
{
    let room_id = match &eff.room {
        Some(name) => calculate_room_id(name.as_str()),
        None => room.room_id,
    };
    let (object_id, position) = match eff.object_id {
        Some(id) => (id, find_object(&room.objects, id)),
        None => match eff.object_index {
            Some(k) => {
                if k < room.objects.len() as u64 {
                    (room.objects[k as usize].obj_id, Some(k as usize))
                } else {
                    return Err(ParseError::ReferenceOutOfRange);
                }
            },
            None => (room.objects[i].obj_id, Some(i)),
        },
    };
    match eff.action_id {
        Some(action_id) => Ok(Effect { room_id: Some(room_id), object_id: Some(object_id), action_id }),
        None => match eff.action_index {
            None => Err(ParseError::MissingActionReference),
            Some(k) => match position {
                Some(p) => {
                    let actions = &room.objects[p].actions;
                    if k < actions.len() as u64 {
                        Ok(
                            Effect {
                                room_id: Some(room_id),
                                object_id: Some(object_id),
                                action_id: actions[k as usize].action_id,
                            },
                        )
                    } else {
                        Err(ParseError::ReferenceOutOfRange)
                    }
                },
                None => Err(ParseError::ReferenceOutOfRange),
            },
        },
    }
}

fn resolve_action(room: &IntermediaryRoom, i: usize, a: &IntermediaryAction) -> (r: Result<
    Action,
    ParseError,
>)
    requires
        i < room.objects@.len(),
    ensures
        match r {
            Ok(out) => match resolve_affects(room@, i as int, a@) {
                Ok(t) => action_resolved(out, a@, t),
                Err(_) => false,
            },
            Err(x) => resolve_affects(room@, i as int, a@) == Err::<Option<u64>, ParseError>(x),
        },
{
    let affects_action = match &a.affects_action {
        None => None,
        Some(eff) => {
            let effect = resolve_reference(room, i, eff)?;
            Some(effect.action_id)
        },
    };
    Ok(
        Action {
            action_id: a.action_id,
            ttype: a.ttype.clone(),
            enabled: a.enabled,
            revertable: a.revertable,
            d_bit_text: a.d_bit_text.clone(),
            d_bit: a.d_bit,
            affects_action,
        },
    )
}

fn resolve_object(room: &IntermediaryRoom, i: usize) -> (r: Result<Object, ParseError>)
    requires
        i < room.objects@.len(),
    ensures
        match r {
            Ok(out) => object_resolved(room@, i as int, out),
            Err(x) => exists|j: int|
                0 <= j < room@.objects[i as int].actions.len() && #[trigger] resolve_affects(
                    room@,
                    i as int,
                    room@.objects[i as int].actions[j],
                ) == Err::<Option<u64>, ParseError>(x),
        },
{
    let o = &room.objects[i];
    let ghost ov = o@;
    assert(room@.objects[i as int] == ov);
    let mut actions: Vec<Action> = Vec::new();
    let mut j: usize = 0;
    while j < o.actions.len()
        invariant
            i < room.objects@.len(),
            ov == o@,
            room@.objects[i as int] == ov,
            j <= o.actions@.len(),
            ov.actions.len() == o.actions@.len(),
            actions@.len() == j,
            forall|q: int|
                0 <= q < j ==> action_of_room_resolved(
                    room@,
                    i as int,
                    ov.actions[q],
                    #[trigger] actions@[q],
                ),
        decreases o.actions@.len() - j,
    {
        assert(ov.actions[j as int] == o.actions@[j as int]@);
        let out = resolve_action(room, i, &o.actions[j]);
        match out {
            Ok(a) => {
                let ghost before = actions@;
                let ghost added = a;
                actions.push(a);
                assert(actions@[j as int] == added);
                assert(forall|q: int| 0 <= q < j ==> actions@[q] == before[q]);
            },
            Err(x) => {
                assert(resolve_affects(room@, i as int, room@.objects[i as int].actions[j as int])
                    == Err::<Option<u64>, ParseError>(x));
                return Err(x);
            },
        }
        j = j + 1;
    }
    Ok(
        Object {
            obj_id: o.obj_id,
            ttype: o.ttype.clone(),
            material: o.material.clone(),
            obj_description: o.obj_description.clone(),
            direction: copy_opt_text(&o.direction),
            destination: copy_opt_text(&o.destination),
            actions: Some(actions),
        },
    )
}

/// Splits the objects' IDs into those without and those with a destination,
/// each in the objects' order.
pub fn partition_ids(objects: &Vec<Object>) -> (r: (Vec<u64>, Vec<u64>))
    ensures
        r.0@ == ids_without_destination(objects@),
        r.1@ == ids_with_destination(objects@),
{
    let mut object_ids: Vec<u64> = Vec::new();
    let mut dir_obj_ids: Vec<u64> = Vec::new();
    let mut k: usize = 0;
    while k < objects.len()
        invariant
            k <= objects@.len(),
            object_ids@ == ids_without_destination(objects@.take(k as int)),
            dir_obj_ids@ == ids_with_destination(objects@.take(k as int)),
        decreases objects@.len() - k,
    {
        assert(objects@.take(k as int + 1).drop_last() =~= objects@.take(k as int));
        if objects[k].destination.is_some() {
            dir_obj_ids.push(objects[k].obj_id);
        } else {
            object_ids.push(objects[k].obj_id);
        }
        k = k + 1;
    }
    assert(objects@.take(k as int) =~= objects@);
    (object_ids, dir_obj_ids)
}

/// Resolves every cross-reference of a parsed room and splits its object IDs
/// by destination.
pub fn resolve_room(room: &IntermediaryRoom) -> (r: Result<Room, ParseError>)
    ensures
        r is Ok <==> references_resolve(room@),
        match r {
            Ok(out) => room_resolved(room@, out),
            Err(x) => reference_fails_with(room@, x),
        },
{
    let mut objects: Vec<Object> = Vec::new();
    let mut i: usize = 0;
    while i < room.objects.len()
        invariant
            i <= room.objects@.len(),
            room@.objects.len() == room.objects@.len(),
            objects@.len() == i,
            forall|q: int| 0 <= q < i ==> object_resolved(room@, q, #[trigger] objects@[q]),
        decreases room.objects@.len() - i,
    {
        match resolve_object(room, i) {
            Ok(o) => {
                objects.push(o);
            },
            Err(x) => {
                return Err(x);
            },
        }
        i = i + 1;
    }
    let (object_ids, dir_obj_ids) = partition_ids(&objects);
    assert forall|a: int, b: int|
        0 <= a < room@.objects.len() && 0 <= b < room@.objects[a].actions.len() implies
        #[trigger] resolve_affects(room@, a, room@.objects[a].actions[b]) is Ok by {
        assert(object_resolved(room@, a, objects@[a]));
        let _ = objects@[a].actions->0@[b];
    }
    Ok(
        Room {
            room_id: room.room_id,
            room_name: room.room_name.clone(),
            room_description: room.room_description.clone(),
            room_type: room.room_type.clone(),
            biome_type: room.biome_type.clone(),
            objects: Some(objects),
            object_ids,
            dir_obj_ids,
        },
    )
}

} // verus!
