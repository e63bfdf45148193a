//! Extracts one object from the events of an object section, handing each of
//! its action sections to an action machine.
use vstd::prelude::*;
use vstd::string::*;

use crate::action_machine::{
    action_machine_init, action_step, ActionMachineView, ActionState, ActionStateMachine,
};
use crate::events::DocEvent;
use crate::ids::{action_id_of, calculate_action_id};
use crate::model::{
    actions_view, opt_text, IntermediaryObject, ObjectView, ObjectYaml, ParseError,
};
use crate::text::{break_paragraph, paragraph_break, same_text};

verus! {

#[derive(Debug, Clone, Copy, PartialEq, Eq, Structural)]
pub enum ObjectState {
    Description,
    YamlBlock,
    Actions,
    End,
}

/// The machine for one object section; `current_action` is the machine of the
/// action section being read, if any.
#[derive(Debug)]
pub struct ObjectStateMachine {
    pub state: ObjectState,
    pub object: IntermediaryObject,
    pub current_action: Option<ActionStateMachine>,
}

pub struct ObjectMachineView {
    pub state: ObjectState,
    pub object: ObjectView,
    pub current_action: Option<ActionMachineView>,
}

impl View for ObjectStateMachine {
    type V = ObjectMachineView;

    open spec fn view(&self) -> ObjectMachineView {
        ObjectMachineView {
            state: self.state,
            object: self.object@,
            current_action: match self.current_action {
                Some(a) => Some(a@),
                None => None,
            },
        }
    }
}

/// An action machine runs only while the object reads its actions, and is
/// dropped as soon as it ends.
pub open spec fn object_machine_wf(m: ObjectMachineView) -> bool {
    match m.current_action {
        Some(a) => m.state == ObjectState::Actions && a.state != ActionState::End,
        None => true,
    }
}

pub open spec fn object_machine_init(obj_id: u64) -> ObjectMachineView {
    ObjectMachineView {
        state: ObjectState::Description,
        object: ObjectView {
            obj_id,
            ttype: Seq::empty(),
            material: Seq::empty(),
            obj_description: Seq::empty(),
            direction: None,
            destination: None,
            actions: Seq::empty(),
        },
        current_action: None,
    }
}

/// The one-letter code of a long-form direction name.
pub open spec fn direction_code(d: Seq<char>) -> Option<Seq<char>> {
    if d == "North"@ {
        Some("N"@)
    } else if d == "East"@ {
        Some("E"@)
    } else if d == "South"@ {
        Some("S"@)
    } else if d == "West"@ {
        Some("W"@)
    } else if d == "Up"@ {
        Some("U"@)
    } else if d == "Down"@ {
        Some("D"@)
    } else {
        None
    }
}

/// An object's fields after its structured record.
pub open spec fn apply_object_record(o: ObjectView, r: ObjectYaml) -> Result<ObjectView, ParseError> {
    let o1 = ObjectView { ttype: r.ttype@, material: r.material@, ..o };
    match r.direction {
        None => Ok(o1),
        Some(d) => match direction_code(d@) {
            Some(c) => Ok(ObjectView { direction: Some(c), ..o1 }),
            None => Err(ParseError::InvalidDirection),
        },
    }
}

/// An object once one of its actions has ended: the action is appended, and
/// its destination, if any, becomes the object's only destination.
pub open spec fn complete_action(o: ObjectView, a: ActionMachineView) -> Result<ObjectView, ParseError> {
    let o1 = ObjectView { actions: o.actions.push(a.action), ..o };
    match a.destination {
        None => Ok(o1),
        Some(d) => if o.destination is Some {
            Err(ParseError::DuplicateDestination)
        } else {
            Ok(ObjectView { destination: Some(d), ..o1 })
        },
    }
}

/// What a heading does to an object reading its actions with no action
/// machine running: a level-4 heading starts an action, a level-2 heading
/// ends the object.
pub open spec fn object_dispatch(m: ObjectMachineView, e: DocEvent) -> ObjectMachineView {
    match e {
        DocEvent::HeadingStart(level) => if level == 4 {
            ObjectMachineView {
                current_action: Some(
                    action_machine_init(
                        action_id_of(m.object.obj_id, m.object.actions.len() as u64),
                    ),
                ),
                ..m
            }
        } else if level == 2 {
            ObjectMachineView { state: ObjectState::End, ..m }
        } else {
            m
        },
        _ => m,
    }
}

/// One transition of the object machine.
pub open spec fn object_step(m: ObjectMachineView, e: DocEvent) -> Result<
    ObjectMachineView,
    ParseError,
> {
    match m.state {
        ObjectState::Description => match e {
            DocEvent::ParagraphStart => Ok(
                ObjectMachineView {
                    object: ObjectView {
                        obj_description: paragraph_break(m.object.obj_description),
                        ..m.object
                    },
                    ..m
                },
            ),
            DocEvent::CodeBlockStart => Ok(ObjectMachineView { state: ObjectState::YamlBlock, ..m }),
            DocEvent::Text(t) => Ok(
                ObjectMachineView {
                    object: ObjectView {
                        obj_description: m.object.obj_description + t@,
                        ..m.object
                    },
                    ..m
                },
            ),
            _ => Ok(m),
        },
        ObjectState::YamlBlock => match e {
            DocEvent::ObjectRecord(r) => match apply_object_record(m.object, r) {
                Ok(o) => Ok(ObjectMachineView { state: ObjectState::Actions, object: o, ..m }),
                Err(x) => Err(x),
            },
            DocEvent::Text(_) => Err(ParseError::Record),
            _ => Ok(m),
        },
        ObjectState::Actions => match m.current_action {
            Some(a) => match action_step(a, e) {
                Err(x) => Err(x),
                Ok(a2) => if a2.state == ActionState::End {
                    match complete_action(m.object, a2) {
                        Err(x) => Err(x),
                        Ok(o) => Ok(
                            object_dispatch(
                                ObjectMachineView { object: o, current_action: None, ..m },
                                e,
                            ),
                        ),
                    }
                } else {
                    Ok(ObjectMachineView { current_action: Some(a2), ..m })
                },
            },
            None => Ok(object_dispatch(m, e)),
        },
        ObjectState::End => Ok(m),
    }
}

/// The object that a section yields when its document ends: an action still
/// being read is completed too.
pub open spec fn object_finish(m: ObjectMachineView) -> Result<ObjectView, ParseError> {
    match m.current_action {
        Some(a) => complete_action(m.object, a),
        None => Ok(m.object),
    }
}

pub open spec fn object_outcome(r: Result<ObjectStateMachine, ParseError>) -> Result<
    ObjectMachineView,
    ParseError,
> {
    match r {
        Ok(m) => Ok(m@),
        Err(e) => Err(e),
    }
}

pub open spec fn object_result(r: Result<IntermediaryObject, ParseError>) -> Result<
    ObjectView,
    ParseError,
> {
    match r {
        Ok(o) => Ok(o@),
        Err(e) => Err(e),
    }
}

fn normalize_direction(d: &String) -> (r: Option<String>)
    ensures
        opt_text(r) == direction_code(d@),
{
    let d = d.as_str();
    if same_text(d, "North") {
        Some(String::from_str("N"))
    } else if same_text(d, "East") {
        Some(String::from_str("E"))
    } else if same_text(d, "South") {
        Some(String::from_str("S"))
    } else if same_text(d, "West") {
        Some(String::from_str("W"))
    } else if same_text(d, "Up") {
        Some(String::from_str("U"))
    } else if same_text(d, "Down") {
        Some(String::from_str("D"))
    } else {
        None
    }
}

/// Appends a finished action to its object and takes over its destination.
fn complete(object: IntermediaryObject, a: ActionStateMachine) -> (r: Result<
    IntermediaryObject,
    ParseError,
>)
    ensures
        object_result(r) == complete_action(object@, a@),
{
    let mut o = object;
    let ActionStateMachine { state: _, action, destination } = a;
    let ghost action_view = action@;
    let had_destination = o.destination.is_some();
    o.actions.push(action);
    assert(actions_view(o.actions@) =~= actions_view(object.actions@).push(action_view));
    match destination {
        None => Ok(o),
        Some(d) => {
            if had_destination {
                Err(ParseError::DuplicateDestination)
            } else {
                o.destination = Some(d);
                Ok(o)
            }
        },
    }
}

impl ObjectStateMachine {
    pub fn new(object_id: u64) -> (r: ObjectStateMachine)
        ensures
            r@ == object_machine_init(object_id),
    {
        let actions = Vec::new();
        assert(actions_view(actions@) =~= Seq::empty());
        ObjectStateMachine {
            state: ObjectState::Description,
            object: IntermediaryObject {
                obj_id: object_id,
                actions,
                destination: None,
                direction: None,
                material: String::new(),
                obj_description: String::new(),
                ttype: String::new(),
            },
            current_action: None,
        }
    }

    fn dispatch(self, event: &DocEvent) -> (r: ObjectStateMachine)
        requires
            self.current_action is None,
        ensures
            r@ == object_dispatch(self@, *event),
    {
        let mut m = self;
        match event {
            DocEvent::HeadingStart(level) => {
                if *level == 4 {
                    let id = calculate_action_id(m.object.obj_id, m.object.actions.len() as u64);
                    m.current_action = Some(ActionStateMachine::new(id));
                } else if *level == 2 {
                    m.state = ObjectState::End;
                }
            },
            _ => {},
        }
        m
    }

    fn apply_record(self, rec: &ObjectYaml) -> (r: Result<ObjectStateMachine, ParseError>)
        ensures
            object_outcome(r) == (match apply_object_record(self@.object, *rec) {
                Ok(o) => Ok(ObjectMachineView { state: ObjectState::Actions, object: o, ..self@ }),
                Err(x) => Err(x),
            }),
    {
        let mut m = self;
        match &rec.direction {
            None => {},
            Some(d) => match normalize_direction(d) {
                Some(code) => {
                    m.object.direction = Some(code);
                },
                None => {
                    return Err(ParseError::InvalidDirection);
                },
            },
        }
        m.object.ttype = rec.ttype.clone();
        m.object.material = rec.material.clone();
        m.state = ObjectState::Actions;
        Ok(m)
    }

    /// Feeds one event to the machine. Events must stop once it has ended.
    pub fn after_event(self, event: &DocEvent) -> (r: Result<ObjectStateMachine, ParseError>)
        requires
            self.state != ObjectState::End,
            object_machine_wf(self@),
        ensures
            object_outcome(r) == object_step(self@, *event),
            r matches Ok(m) ==> object_machine_wf(m@),
    {
        let mut m = self;
        match m.state {
            ObjectState::Description => {
                match event {
                    DocEvent::ParagraphStart => {
                        break_paragraph(&mut m.object.obj_description);
                    },
                    DocEvent::CodeBlockStart => {
                        m.state = ObjectState::YamlBlock;
                    },
                    DocEvent::Text(t) => {
                        m.object.obj_description.append(t.as_str());
                    },
                    _ => {},
                }
                Ok(m)
            },
            ObjectState::YamlBlock => {
                match event {
                    DocEvent::ObjectRecord(rec) => m.apply_record(rec),
                    DocEvent::Text(_) => Err(ParseError::Record),
                    _ => Ok(m),
                }
            },
            _ => {
                let ObjectStateMachine { state, object, current_action } = m;
                match current_action {
                    Some(a) => {
                        let a2 = a.after_event(event)?;
                        if a2.state == ActionState::End {
                            let o = complete(object, a2)?;
                            let m2 = ObjectStateMachine { state, object: o, current_action: None };
                            Ok(m2.dispatch(event))
                        } else {
                            Ok(ObjectStateMachine { state, object, current_action: Some(a2) })
                        }
                    },
                    None => {
                        let m2 = ObjectStateMachine { state, object, current_action: None };
                        Ok(m2.dispatch(event))
                    },
                }
            },
        }
    }

    /// The object read so far, with any action still being read completed.
    pub fn finish(self) -> (r: Result<IntermediaryObject, ParseError>)
        ensures
            object_result(r) == object_finish(self@),
    {
        let ObjectStateMachine { state: _, object, current_action } = self;
        match current_action {
            Some(a) => complete(object, a),
            None => Ok(object),
        }
    }
}

} // verus!
