//! Turning a document's events into a finished room, and rooms into the
//! world description.
use vstd::prelude::*;

use crate::events::DocEvent;
use crate::model::{Config, Level, ParseError, Room, RoomView};
use crate::resolve::{reference_fails_with, references_resolve, resolve_room, room_resolved};
use crate::room_machine::{room_finish, room_machine_init, room_run, RoomStateMachine};

verus! {

/// The parsed room of a document with the given room ID and events, before
/// its cross-references are resolved.
pub open spec fn document_room(room_id: u64, events: Seq<DocEvent>) -> Result<RoomView, ParseError> {
    match room_run(room_machine_init(room_id), events) {
        Ok(m) => room_finish(m),
        Err(x) => Err(x),
    }
}

/// `r` is what resolving the parsed room `parsed` gives.
pub open spec fn resolution_of(parsed: Result<RoomView, ParseError>, r: Result<Room, ParseError>) -> bool {
    match parsed {
        Err(x) => r == Err::<Room, ParseError>(x),
        Ok(rv) => {
            &&& (r is Ok <==> references_resolve(rv))
            &&& match r {
                Ok(out) => room_resolved(rv, out),
                Err(x) => reference_fails_with(rv, x),
            }
        },
    }
}

impl RoomStateMachine {
    /// The finished room once the document has ended: an object still being
    /// read is kept, cross-references are resolved and object IDs split.
    pub fn finish(self) -> (r: Result<Room, ParseError>)
        ensures
            resolution_of(room_finish(self@), r),
    {
        let room = self.finish_parsing()?;
        resolve_room(&room)
    }
}

/// The finished room of one document, from its room ID and its events.
pub fn convert_events(room_id: u64, events: &Vec<DocEvent>) -> (r: Result<Room, ParseError>)
    ensures
        resolution_of(document_room(room_id, events@), r),
{
    let machine = RoomStateMachine::new(room_id);
    let machine = machine.run_events(events)?;
    machine.finish()
}

/// The world description: one level holding the rooms in the given order.
pub fn world_config(level_name: String, rooms: Vec<Room>) -> (r: Config)
    ensures
        r.levels@.len() == 1,
        r.levels@[0].level_name == level_name,
        r.levels@[0].rooms == rooms,
{
    let mut levels: Vec<Level> = Vec::new();
    levels.push(Level { level_name, rooms });
    Config { levels }
}

} // verus!
