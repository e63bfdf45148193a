//! Extracts one room from the events of a document, handing each object
//! section to an object machine.
use vstd::prelude::*;
use vstd::string::*;

use crate::action_machine::ActionState;
use crate::events::{DocEvent, RecordKind};
use crate::ids::{calculate_object_id, object_id_of};
use crate::model::{objects_view, IntermediaryRoom, ParseError, RoomView};
use crate::object_machine::{
    object_finish, object_machine_init, object_machine_wf, object_step,
    ObjectMachineView, ObjectState, ObjectStateMachine,
};
use crate::text::{break_paragraph, paragraph_break};

verus! {

#[derive(Debug, Clone, Copy, PartialEq, Eq, Structural)]
pub enum RoomState {
    Start,
    Title,
    Description,
    YamlBlock,
    Objects,
}

/// The machine for one document; `current_object` is the machine of the
/// object section being read, if any.
#[derive(Debug)]
pub struct RoomStateMachine {
    pub state: RoomState,
    pub room: IntermediaryRoom,
    pub current_object: Option<ObjectStateMachine>,
}

pub struct RoomMachineView {
    pub state: RoomState,
    pub room: RoomView,
    pub current_object: Option<ObjectMachineView>,
}

impl View for RoomStateMachine {
    type V = RoomMachineView;

    open spec fn view(&self) -> RoomMachineView {
        RoomMachineView {
            state: self.state,
            room: self.room@,
            current_object: match self.current_object {
                Some(o) => Some(o@),
                None => None,
            },
        }
    }
}

/// An object machine runs only while the room reads its objects, and is
/// dropped as soon as it ends.
pub open spec fn room_machine_wf(m: RoomMachineView) -> bool {
    match m.current_object {
        Some(o) => m.state == RoomState::Objects && o.state != ObjectState::End
            && object_machine_wf(o),
        None => true,
    }
}

pub open spec fn room_machine_init(room_id: u64) -> RoomMachineView {
    RoomMachineView {
        state: RoomState::Start,
        room: RoomView {
            room_id,
            room_name: Seq::empty(),
            room_description: Seq::empty(),
            room_type: Seq::empty(),
            biome_type: Seq::empty(),
            objects: Seq::empty(),
        },
        current_object: None,
    }
}

/// What a level-2 heading does to a room reading its objects with no object
/// machine running: it starts an object.
pub open spec fn room_dispatch(m: RoomMachineView, e: DocEvent) -> RoomMachineView {
    match e {
        DocEvent::HeadingStart(level) => if level == 2 {
            RoomMachineView {
                current_object: Some(
                    object_machine_init(object_id_of(m.room.room_id, m.room.objects.len() as u64)),
                ),
                ..m
            }
        } else {
            m
        },
        _ => m,
    }
}

/// One transition of the room machine.
pub open spec fn room_step(m: RoomMachineView, e: DocEvent) -> Result<RoomMachineView, ParseError> {
    match m.state {
        RoomState::Start => match e {
            DocEvent::HeadingStart(level) => if level == 1 {
                Ok(RoomMachineView { state: RoomState::Title, ..m })
            } else {
                Ok(m)
            },
            _ => Ok(m),
        },
        RoomState::Title => match e {
            DocEvent::Text(t) => Ok(
                RoomMachineView {
                    room: RoomView { room_name: m.room.room_name + t@, ..m.room },
                    ..m
                },
            ),
            DocEvent::HeadingEnd(level) => if level == 1 {
                Ok(RoomMachineView { state: RoomState::Description, ..m })
            } else {
                Ok(m)
            },
            _ => Ok(m),
        },
        RoomState::Description => match e {
            DocEvent::ParagraphStart => Ok(
                RoomMachineView {
                    room: RoomView {
                        room_description: paragraph_break(m.room.room_description),
                        ..m.room
                    },
                    ..m
                },
            ),
            DocEvent::CodeBlockStart => Ok(RoomMachineView { state: RoomState::YamlBlock, ..m }),
            DocEvent::Text(t) => Ok(
                RoomMachineView {
                    room: RoomView { room_description: m.room.room_description + t@, ..m.room },
                    ..m
                },
            ),
            _ => Ok(m),
        },
        RoomState::YamlBlock => match e {
            DocEvent::RoomRecord(r) => Ok(
                RoomMachineView {
                    state: RoomState::Objects,
                    room: RoomView { room_type: r.room_type@, biome_type: r.biome_type@, ..m.room },
                    ..m
                },
            ),
            DocEvent::Text(_) => Err(ParseError::Record),
            _ => Ok(m),
        },
        RoomState::Objects => match m.current_object {
            Some(o) => match object_step(o, e) {
                Err(x) => Err(x),
                Ok(o2) => if o2.state == ObjectState::End {
                    Ok(
                        room_dispatch(
                            RoomMachineView {
                                room: RoomView { objects: m.room.objects.push(o2.object), ..m.room },
                                current_object: None,
                                ..m
                            },
                            e,
                        ),
                    )
                } else {
                    Ok(RoomMachineView { current_object: Some(o2), ..m })
                },
            },
            None => Ok(room_dispatch(m, e)),
        },
    }
}

/// The machine after a run of events, or the first error met.
pub open spec fn room_run(m: RoomMachineView, events: Seq<DocEvent>) -> Result<
    RoomMachineView,
    ParseError,
>
    decreases events.len(),
{
    if events.len() == 0 {
        Ok(m)
    } else {
        match room_run(m, events.drop_last()) {
            Ok(m1) => room_step(m1, events.last()),
            Err(x) => Err(x),
        }
    }
}

/// Once a run of events has failed, every longer run fails with the same error.
pub proof fn lemma_run_error_sticks(m: RoomMachineView, events: Seq<DocEvent>, k: int)
    requires
        0 <= k <= events.len(),
        room_run(m, events.take(k)) is Err,
    ensures
        room_run(m, events) == room_run(m, events.take(k)),
    decreases events.len() - k,
{
    if k < events.len() {
        assert(events.take(k + 1).drop_last() =~= events.take(k));
        lemma_run_error_sticks(m, events, k + 1);
    } else {
        assert(events.take(k) =~= events);
    }
}

/// The record that the next text event must be decoded into, if the section
/// being read is at its fenced code block.
pub open spec fn record_wanted(m: RoomMachineView) -> Option<RecordKind> {
    if m.state == RoomState::YamlBlock {
        Some(RecordKind::Room)
    } else {
        match m.current_object {
            Some(o) => if o.state == ObjectState::YamlBlock {
                Some(RecordKind::Object)
            } else {
                match o.current_action {
                    Some(a) => if a.state == ActionState::YamlBlock {
                        Some(RecordKind::Action)
                    } else {
                        None
                    },
                    None => None,
                }
            },
            None => None,
        }
    }
}

/// The room once its document has ended: an object still being read is
/// completed and kept.
pub open spec fn room_finish(m: RoomMachineView) -> Result<RoomView, ParseError> {
    match m.current_object {
        Some(o) => match object_finish(o) {
            Ok(ov) => Ok(RoomView { objects: m.room.objects.push(ov), ..m.room }),
            Err(x) => Err(x),
        },
        None => Ok(m.room),
    }
}

pub open spec fn room_outcome(r: Result<RoomStateMachine, ParseError>) -> Result<
    RoomMachineView,
    ParseError,
> {
    match r {
        Ok(m) => Ok(m@),
        Err(e) => Err(e),
    }
}

pub open spec fn room_result(r: Result<IntermediaryRoom, ParseError>) -> Result<
    RoomView,
    ParseError,
> {
    match r {
        Ok(o) => Ok(o@),
        Err(e) => Err(e),
    }
}

impl RoomStateMachine {
    pub fn new(room_id: u64) -> (r: RoomStateMachine)
        ensures
            r@ == room_machine_init(room_id),
            room_machine_wf(r@),
    {
        let objects = Vec::new();
        assert(objects_view(objects@) =~= Seq::empty());
        RoomStateMachine {
            state: RoomState::Start,
            room: IntermediaryRoom {
                room_id,
                room_name: String::new(),
                room_description: String::new(),
                room_type: String::new(),
                biome_type: String::new(),
                objects,
            },
            current_object: None,
        }
    }

    fn dispatch(self, event: &DocEvent) -> (r: RoomStateMachine)
        requires
            self.current_object is None,
        ensures
            r@ == room_dispatch(self@, *event),
    {
        let mut m = self;
        match event {
            DocEvent::HeadingStart(level) => {
                if *level == 2 {
                    let id = calculate_object_id(m.room.room_id, m.room.objects.len() as u64);
                    m.current_object = Some(ObjectStateMachine::new(id));
                }
            },
            _ => {},
        }
        m
    }

    /// The record that the next text event must be decoded into, if any.
    pub fn pending_record(&self) -> (r: Option<RecordKind>)
        ensures
            r == record_wanted(self@),
    {
        if self.state == RoomState::YamlBlock {
            return Some(RecordKind::Room);
        }
        match &self.current_object {
            Some(o) => {
                if o.state == ObjectState::YamlBlock {
                    Some(RecordKind::Object)
                } else {
                    match &o.current_action {
                        Some(a) => {
                            if a.state == ActionState::YamlBlock {
                                Some(RecordKind::Action)
                            } else {
                                None
                            }
                        },
                        None => None,
                    }
                }
            },
            None => None,
        }
    }

    /// Feeds one event to the machine.
    pub fn after_event(self, event: &DocEvent) -> (r: Result<RoomStateMachine, ParseError>)
        requires
            room_machine_wf(self@),
        ensures
            room_outcome(r) == room_step(self@, *event),
            r matches Ok(m) ==> room_machine_wf(m@),
    {
        let mut m = self;
        match m.state {
            RoomState::Start => {
                match event {
                    DocEvent::HeadingStart(level) => {
                        if *level == 1 {
                            m.state = RoomState::Title;
                        }
                    },
                    _ => {},
                }
                Ok(m)
            },
            RoomState::Title => {
                match event {
                    DocEvent::Text(t) => {
                        m.room.room_name.append(t.as_str());
                    },
                    DocEvent::HeadingEnd(level) => {
                        if *level == 1 {
                            m.state = RoomState::Description;
                        }
                    },
                    _ => {},
                }
                Ok(m)
            },
            RoomState::Description => {
                match event {
                    DocEvent::ParagraphStart => {
                        break_paragraph(&mut m.room.room_description);
                    },
                    DocEvent::CodeBlockStart => {
                        m.state = RoomState::YamlBlock;
                    },
                    DocEvent::Text(t) => {
                        m.room.room_description.append(t.as_str());
                    },
                    _ => {},
                }
                Ok(m)
            },
            RoomState::YamlBlock => {
                match event {
                    DocEvent::RoomRecord(rec) => {
                        m.room.room_type = rec.room_type.clone();
                        m.room.biome_type = rec.biome_type.clone();
                        m.state = RoomState::Objects;
                        Ok(m)
                    },
                    DocEvent::Text(_) => Err(ParseError::Record),
                    _ => Ok(m),
                }
            },
            RoomState::Objects => {
                let RoomStateMachine { state, room, current_object } = m;
                match current_object {
                    Some(o) => {
                        let o2 = o.after_event(event)?;
                        if o2.state == ObjectState::End {
                            let mut room = room;
                            let ghost before = room.objects@;
                            let ghost object_view = o2.object@;
                            room.objects.push(o2.object);
                            assert(objects_view(room.objects@) =~= objects_view(before).push(
                                object_view,
                            ));
                            let m2 = RoomStateMachine { state, room, current_object: None };
                            Ok(m2.dispatch(event))
                        } else {
                            Ok(RoomStateMachine { state, room, current_object: Some(o2) })
                        }
                    },
                    None => {
                        let m2 = RoomStateMachine { state, room, current_object: None };
                        Ok(m2.dispatch(event))
                    },
                }
            },
        }
    }

    /// Feeds a run of events to the machine, stopping at the first error.
    pub fn run_events(self, events: &Vec<DocEvent>) -> (r: Result<RoomStateMachine, ParseError>)
        requires
            room_machine_wf(self@),
        ensures
            room_outcome(r) == room_run(self@, events@),
            r matches Ok(m) ==> room_machine_wf(m@),
    {
        let ghost start = self@;
        let mut m = self;
        let mut i: usize = 0;
        while i < events.len()
            invariant
                start == self@,
                i <= events@.len(),
                room_machine_wf(m@),
                room_run(start, events@.take(i as int)) == Ok::<RoomMachineView, ParseError>(m@),
            decreases events@.len() - i,
        {
            assert(events@.take(i as int + 1).drop_last() =~= events@.take(i as int));
            assert(events@.take(i as int + 1).last() == events@[i as int]);
            let ghost before = m@;
            match m.after_event(&events[i]) {
                Ok(next) => {
                    m = next;
                },
                Err(x) => {
                    proof {
                        assert(room_step(before, events@[i as int]) == Err::<RoomMachineView, ParseError>(x));
                        assert(room_run(start, events@.take(i as int + 1)) == Err::<RoomMachineView, ParseError>(x));
                        lemma_run_error_sticks(start, events@, i as int + 1);
                    }
                    return Err(x);
                },
            }
            i = i + 1;
        }
        assert(events@.take(i as int) =~= events@);
        Ok(m)
    }

    /// The room read so far, with any object still being read completed.
    pub fn finish_parsing(self) -> (r: Result<IntermediaryRoom, ParseError>)
        ensures
            room_result(r) == room_finish(self@),
    {
        let RoomStateMachine { state: _, room, current_object } = self;
        match current_object {
            Some(o) => {
                let ov = o.finish()?;
                let mut room = room;
                let ghost before = room.objects@;
                let ghost object_view = ov@;
                room.objects.push(ov);
                assert(objects_view(room.objects@) =~= objects_view(before).push(object_view));
                Ok(room)
            },
            None => Ok(room),
        }
    }
}

} // verus!
