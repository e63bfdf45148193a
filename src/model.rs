//! The records built while parsing, the structured records decoded from the
//! documents' fenced code blocks, and the final world description.
use vstd::prelude::*;

verus! {

/// Why a document could not be turned into a room.
#[derive(Debug, Clone, Copy, PartialEq, Eq, Structural)]
pub enum ParseError {
    /// A fenced code block did not hold the structured record that the
    /// current section expects.
    Record,
    /// An object's direction is not one of the six long-form names.
    InvalidDirection,
    /// A second destination was given to one object.
    DuplicateDestination,
    /// A cross-reference gives neither an action ID nor an action index.
    MissingActionReference,
    /// A cross-reference's position (or object ID) names nothing in the room.
    ReferenceOutOfRange,
}

/// A cross-reference as written in an action's `affects` record.
#[derive(Debug)]
pub struct IntermediaryEffect {
    pub room: Option<String>,
    pub object_id: Option<u64>,
    pub action_id: Option<u64>,
    pub object_index: Option<u64>,
    pub action_index: Option<u64>,
}

/// The structured record of a room section.
#[derive(Debug)]
pub struct RoomYaml {
    pub room_type: String,
    pub biome_type: String,
}

/// The structured record of an object section.
#[derive(Debug)]
pub struct ObjectYaml {
    pub direction: Option<String>,
    pub ttype: String,
    pub material: String,
}

/// The structured record of an action section.
#[derive(Debug)]
pub struct ActionYaml {
    pub ttype: String,
    pub enabled: Option<bool>,
    pub revertable: Option<bool>,
    pub d_bit: Option<bool>,
    pub affects: Option<IntermediaryEffect>,
}

/// An action while its room is being parsed; its cross-reference is still
/// symbolic.
#[derive(Debug)]
pub struct IntermediaryAction {
    pub action_id: u64,
    pub ttype: String,
    pub enabled: bool,
    pub revertable: bool,
    pub d_bit_text: String,
    pub d_bit: bool,
    pub affects_action: Option<IntermediaryEffect>,
}

/// An object while its room is being parsed.
#[derive(Debug)]
pub struct IntermediaryObject {
    pub obj_id: u64,
    pub ttype: String,
    pub material: String,
    pub obj_description: String,
    pub direction: Option<String>,
    pub destination: Option<String>,
    pub actions: Vec<IntermediaryAction>,
}

/// A room while its document is being parsed.
#[derive(Debug)]
pub struct IntermediaryRoom {
    pub room_id: u64,
    pub room_name: String,
    pub room_description: String,
    pub room_type: String,
    pub biome_type: String,
    pub objects: Vec<IntermediaryObject>,
}

/// A resolved cross-reference: the room, object and action it points at.
#[derive(Debug, Clone, Copy, PartialEq, Eq)]
pub struct Effect {
    pub room_id: Option<u64>,
    pub object_id: Option<u64>,
    pub action_id: u64,
}

/// An action of the world description.
#[derive(Debug)]
pub struct Action {
    pub action_id: u64,
    pub ttype: String,
    pub enabled: bool,
    pub revertable: bool,
    pub d_bit_text: String,
    pub d_bit: bool,
    pub affects_action: Option<u64>,
}

/// An object of the world description.
#[derive(Debug)]
pub struct Object {
    pub obj_id: u64,
    pub ttype: String,
    pub material: String,
    pub obj_description: String,
    pub direction: Option<String>,
    pub destination: Option<String>,
    pub actions: Option<Vec<Action>>,
}

/// A room of the world description. `object_ids` lists the objects without
/// a destination, `dir_obj_ids` those with one.
#[derive(Debug)]
pub struct Room {
    pub room_id: u64,
    pub room_name: String,
    pub room_description: String,
    pub room_type: String,
    pub biome_type: String,
    pub objects: Option<Vec<Object>>,
    pub object_ids: Vec<u64>,
    pub dir_obj_ids: Vec<u64>,
}

#[derive(Debug)]
pub struct Level {
    pub level_name: String,
    pub rooms: Vec<Room>,
}

#[derive(Debug)]
pub struct Config {
    pub levels: Vec<Level>,
}

/// The characters of an optional string.
pub open spec fn opt_text(s: Option<String>) -> Option<Seq<char>> {
    match s {
        Some(t) => Some(t@),
        None => None,
    }
}

pub struct EffectView {
    pub room: Option<Seq<char>>,
    pub object_id: Option<u64>,
    pub action_id: Option<u64>,
    pub object_index: Option<u64>,
    pub action_index: Option<u64>,
}

impl View for IntermediaryEffect {
    type V = EffectView;

    open spec fn view(&self) -> EffectView {
        EffectView {
            room: opt_text(self.room),
            object_id: self.object_id,
            action_id: self.action_id,
            object_index: self.object_index,
            action_index: self.action_index,
        }
    }
}

pub open spec fn opt_effect(e: Option<IntermediaryEffect>) -> Option<EffectView> {
    match e {
        Some(x) => Some(x@),
        None => None,
    }
}

pub struct ActionView {
    pub action_id: u64,
    pub ttype: Seq<char>,
    pub enabled: bool,
    pub revertable: bool,
    pub d_bit_text: Seq<char>,
    pub d_bit: bool,
    pub affects_action: Option<EffectView>,
}

impl View for IntermediaryAction {
    type V = ActionView;

    open spec fn view(&self) -> ActionView {
        ActionView {
            action_id: self.action_id,
            ttype: self.ttype@,
            enabled: self.enabled,
            revertable: self.revertable,
            d_bit_text: self.d_bit_text@,
            d_bit: self.d_bit,
            affects_action: opt_effect(self.affects_action),
        }
    }
}

pub open spec fn actions_view(v: Seq<IntermediaryAction>) -> Seq<ActionView> {
    v.map_values(|a: IntermediaryAction| a@)
}

pub struct ObjectView {
    pub obj_id: u64,
    pub ttype: Seq<char>,
    pub material: Seq<char>,
    pub obj_description: Seq<char>,
    pub direction: Option<Seq<char>>,
    pub destination: Option<Seq<char>>,
    pub actions: Seq<ActionView>,
}

impl View for IntermediaryObject {
    type V = ObjectView;

    open spec fn view(&self) -> ObjectView {
        ObjectView {
            obj_id: self.obj_id,
            ttype: self.ttype@,
            material: self.material@,
            obj_description: self.obj_description@,
            direction: opt_text(self.direction),
            destination: opt_text(self.destination),
            actions: actions_view(self.actions@),
        }
    }
}

pub open spec fn objects_view(v: Seq<IntermediaryObject>) -> Seq<ObjectView> {
    v.map_values(|o: IntermediaryObject| o@)
}

pub struct RoomView {
    pub room_id: u64,
    pub room_name: Seq<char>,
    pub room_description: Seq<char>,
    pub room_type: Seq<char>,
    pub biome_type: Seq<char>,
    pub objects: Seq<ObjectView>,
}

impl View for IntermediaryRoom {
    type V = RoomView;

    open spec fn view(&self) -> RoomView {
        RoomView {
            room_id: self.room_id,
            room_name: self.room_name@,
            room_description: self.room_description@,
            room_type: self.room_type@,
            biome_type: self.biome_type@,
            objects: objects_view(self.objects@),
        }
    }
}

/// A copy of an optional string.
pub fn copy_opt_text(s: &Option<String>) -> (r: Option<String>)
    ensures
        opt_text(r) == opt_text(*s),
{
    match s {
        Some(t) => Some(t.clone()),
        None => None,
    }
}

impl IntermediaryEffect {
    /// A copy of this cross-reference.
    pub fn copy(&self) -> (r: IntermediaryEffect)
        ensures
            r@ == self@,
    {
        IntermediaryEffect {
            room: copy_opt_text(&self.room),
            object_id: self.object_id,
            action_id: self.action_id,
            object_index: self.object_index,
            action_index: self.action_index,
        }
    }
}

} // verus!
