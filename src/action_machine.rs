//! Extracts one action from the events of an action section.
use vstd::prelude::*;
use vstd::string::*;

use crate::events::DocEvent;
use crate::model::{
    opt_effect, opt_text, ActionView, ActionYaml, IntermediaryAction, IntermediaryEffect,
    ParseError,
};
use crate::text::{break_paragraph, paragraph_break};

verus! {

#[derive(Debug, Clone, Copy, PartialEq, Eq, Structural)]
pub enum ActionState {
    EffectDescription,
    YamlBlock,
    End,
}

/// The machine for one action section. `destination` is the target of the
/// section's link, which the owning object takes over.
#[derive(Debug)]
pub struct ActionStateMachine {
    pub state: ActionState,
    pub action: IntermediaryAction,
    pub destination: Option<String>,
}

pub struct ActionMachineView {
    pub state: ActionState,
    pub action: ActionView,
    pub destination: Option<Seq<char>>,
}

impl View for ActionStateMachine {
    type V = ActionMachineView;

    open spec fn view(&self) -> ActionMachineView {
        ActionMachineView {
            state: self.state,
            action: self.action@,
            destination: opt_text(self.destination),
        }
    }
}

/// The type tag that a link gives an action.
pub open spec fn open_marker() -> Seq<char> {
    "Open"@
}

pub open spec fn action_machine_init(action_id: u64) -> ActionMachineView {
    ActionMachineView {
        state: ActionState::EffectDescription,
        action: ActionView {
            action_id,
            ttype: Seq::empty(),
            enabled: true,
            revertable: false,
            d_bit_text: Seq::empty(),
            d_bit: true,
            affects_action: None,
        },
        destination: None,
    }
}

/// An action's fields after its structured record; absent flags take their
/// defaults: enabled, not revertable, directional bit set.
pub open spec fn apply_action_record(a: ActionView, r: ActionYaml) -> ActionView {
    ActionView {
        ttype: r.ttype@,
        enabled: match r.enabled {
            Some(b) => b,
            None => true,
        },
        revertable: match r.revertable {
            Some(b) => b,
            None => false,
        },
        d_bit: match r.d_bit {
            Some(b) => b,
            None => true,
        },
        affects_action: opt_effect(r.affects),
        ..a
    }
}

/// One transition of the action machine.
pub open spec fn action_step(m: ActionMachineView, e: DocEvent) -> Result<
    ActionMachineView,
    ParseError,
> {
    match m.state {
        ActionState::EffectDescription => match e {
            DocEvent::ParagraphStart => Ok(
                ActionMachineView {
                    action: ActionView {
                        d_bit_text: paragraph_break(m.action.d_bit_text),
                        ..m.action
                    },
                    ..m
                },
            ),
            DocEvent::LinkStart(dest, title) => Ok(
                ActionMachineView {
                    action: ActionView { d_bit_text: title@, ttype: open_marker(), ..m.action },
                    destination: Some(dest@),
                    ..m
                },
            ),
            DocEvent::CodeBlockStart => Ok(ActionMachineView { state: ActionState::YamlBlock, ..m }),
            DocEvent::LinkEnd => Ok(ActionMachineView { state: ActionState::End, ..m }),
            DocEvent::CodeBlockEnd => Ok(ActionMachineView { state: ActionState::End, ..m }),
            DocEvent::Text(t) => Ok(
                ActionMachineView {
                    action: ActionView { d_bit_text: m.action.d_bit_text + t@, ..m.action },
                    ..m
                },
            ),
            _ => Ok(m),
        },
        ActionState::YamlBlock => match e {
            DocEvent::ActionRecord(r) => Ok(
                ActionMachineView {
                    state: ActionState::End,
                    action: apply_action_record(m.action, r),
                    ..m
                },
            ),
            DocEvent::Text(_) => Err(ParseError::Record),
            _ => Ok(m),
        },
        ActionState::End => Ok(m),
    }
}

pub open spec fn action_outcome(r: Result<ActionStateMachine, ParseError>) -> Result<
    ActionMachineView,
    ParseError,
> {
    match r {
        Ok(m) => Ok(m@),
        Err(e) => Err(e),
    }
}

fn copy_opt_effect(e: &Option<IntermediaryEffect>) -> (r: Option<IntermediaryEffect>)
    ensures
        opt_effect(r) == opt_effect(*e),
{
    match e {
        Some(x) => Some(x.copy()),
        None => None,
    }
}

impl ActionStateMachine {
    pub fn new(action_id: u64) -> (r: ActionStateMachine)
        ensures
            r@ == action_machine_init(action_id),
    {
        ActionStateMachine {
            state: ActionState::EffectDescription,
            action: IntermediaryAction {
                action_id,
                affects_action: None,
                d_bit: true,
                d_bit_text: String::new(),
                enabled: true,
                revertable: false,
                ttype: String::new(),
            },
            destination: None,
        }
    }

    /// Feeds one event to the machine. Events must stop once it has ended.
    pub fn after_event(self, event: &DocEvent) -> (r: Result<ActionStateMachine, ParseError>)
        requires
            self.state != ActionState::End,
        ensures
            action_outcome(r) == action_step(self@, *event),
    {
        let mut m = self;
        match m.state {
            ActionState::EffectDescription => {
                match event {
                    DocEvent::ParagraphStart => {
                        break_paragraph(&mut m.action.d_bit_text);
                    },
                    DocEvent::LinkStart(dest, title) => {
                        m.action.d_bit_text = title.clone();
                        m.destination = Some(dest.clone());
                        m.action.ttype = String::from_str("Open");
                    },
                    DocEvent::CodeBlockStart => {
                        m.state = ActionState::YamlBlock;
                    },
                    DocEvent::LinkEnd => {
                        m.state = ActionState::End;
                    },
                    DocEvent::CodeBlockEnd => {
                        m.state = ActionState::End;
                    },
                    DocEvent::Text(t) => {
                        m.action.d_bit_text.append(t.as_str());
                    },
                    _ => {},
                }
                Ok(m)
            },
            _ => {
                match event {
                    DocEvent::ActionRecord(rec) => {
                        m.action.ttype = rec.ttype.clone();
                        m.action.enabled = match rec.enabled {
                            Some(b) => b,
                            None => true,
                        };
                        m.action.revertable = match rec.revertable {
                            Some(b) => b,
                            None => false,
                        };
                        m.action.d_bit = match rec.d_bit {
                            Some(b) => b,
                            None => true,
                        };
                        m.action.affects_action = copy_opt_effect(&rec.affects);
                        m.state = ActionState::End;
                        Ok(m)
                    },
                    DocEvent::Text(_) => Err(ParseError::Record),
                    _ => Ok(m),
                }
            },
        }
    }
}

} // verus!
