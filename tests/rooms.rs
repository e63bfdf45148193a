use std::hash::{DefaultHasher, Hash, Hasher};

use markdown_to_world::events::{document_events, DocEvent, RecordKind};
use markdown_to_world::ids::{calculate_action_id, calculate_object_id, calculate_room_id};
use markdown_to_world::model::{
    ActionYaml, IntermediaryEffect, ObjectYaml, ParseError, Room, RoomYaml,
};
use markdown_to_world::pipeline::{convert_events, world_config};
use markdown_to_world::room_machine::RoomStateMachine;

fn text(s: &str) -> DocEvent {
    DocEvent::Text(s.to_string())
}

fn room_record() -> DocEvent {
    DocEvent::RoomRecord(RoomYaml {
        room_type: "Cave".to_string(),
        biome_type: "Mountains".to_string(),
    })
}

fn object_record(direction: Option<&str>) -> DocEvent {
    DocEvent::ObjectRecord(ObjectYaml {
        direction: direction.map(|d| d.to_string()),
        ttype: "Door".to_string(),
        material: "Wood".to_string(),
    })
}

fn action_record(ttype: &str, affects: Option<IntermediaryEffect>) -> DocEvent {
    DocEvent::ActionRecord(ActionYaml {
        ttype: ttype.to_string(),
        enabled: None,
        revertable: None,
        d_bit: None,
        affects,
    })
}

fn effect(
    object_id: Option<u64>,
    object_index: Option<u64>,
    action_id: Option<u64>,
    action_index: Option<u64>,
) -> IntermediaryEffect {
    IntermediaryEffect {
        room: None,
        object_id,
        action_id,
        object_index,
        action_index,
    }
}

/// The events of a title and a room record.
fn room_head(title: &str) -> Vec<DocEvent> {
    vec![
        DocEvent::HeadingStart(1),
        text(title),
        DocEvent::HeadingEnd(1),
        DocEvent::ParagraphStart,
        text("A room."),
        DocEvent::CodeBlockStart,
        room_record(),
        DocEvent::CodeBlockEnd,
    ]
}

/// The events of an object section with its record.
fn object_head(direction: Option<&str>) -> Vec<DocEvent> {
    vec![
        DocEvent::HeadingStart(2),
        text("Door"),
        DocEvent::HeadingEnd(2),
        DocEvent::ParagraphStart,
        text("An old door."),
        DocEvent::CodeBlockStart,
        object_record(direction),
        DocEvent::CodeBlockEnd,
    ]
}

/// The events of an action section ending in a code block.
fn action_section(name: &str, record: DocEvent) -> Vec<DocEvent> {
    vec![
        DocEvent::HeadingStart(4),
        text(name),
        DocEvent::HeadingEnd(4),
        DocEvent::CodeBlockStart,
        record,
        DocEvent::CodeBlockEnd,
    ]
}

/// The events of an action section holding a link.
fn link_section(dest: &str, title: &str) -> Vec<DocEvent> {
    vec![
        DocEvent::HeadingStart(4),
        DocEvent::LinkStart(dest.to_string(), title.to_string()),
        DocEvent::LinkEnd,
        DocEvent::HeadingEnd(4),
    ]
}

fn run(parts: Vec<Vec<DocEvent>>) -> Result<Room, ParseError> {
    let events: Vec<DocEvent> = parts.into_iter().flatten().collect();
    convert_events(7, &events)
}

#[test]
fn passage_object_is_listed_as_direction_object() {
    let mut first = object_head(None);
    first.extend(link_section("cave", "a dark passage"));
    first.extend(vec![
        DocEvent::CodeBlockStart,
        action_record("open", None),
        DocEvent::CodeBlockEnd,
    ]);
    let room = run(vec![room_head("Hall"), first, object_head(None)]).unwrap();
    let objects = room.objects.as_ref().unwrap();
    assert_eq!(objects.len(), 2);
    let passage = &objects[0];
    assert_eq!(passage.destination, Some("cave".to_string()));
    assert_eq!(room.dir_obj_ids, vec![passage.obj_id]);
    assert!(!room.object_ids.contains(&passage.obj_id));
    assert_eq!(room.object_ids, vec![objects[1].obj_id]);
    let actions = passage.actions.as_ref().unwrap();
    assert_eq!(actions.len(), 1);
    assert_eq!(actions[0].d_bit_text, "a dark passage");
    assert_eq!(actions[0].ttype, "Open");
}

#[test]
fn forward_reference_resolves_to_later_action() {
    let mut object = object_head(None);
    object.extend(action_section(
        "Pull lever",
        action_record("pull", Some(effect(None, None, None, Some(1)))),
    ));
    object.extend(action_section("Open gate", action_record("open", None)));
    let room = run(vec![room_head("Hall"), object]).unwrap();
    let objects = room.objects.unwrap();
    let actions = objects[0].actions.as_ref().unwrap();
    assert_eq!(actions.len(), 2);
    assert_eq!(actions[0].affects_action, Some(actions[1].action_id));
    assert_eq!(
        actions[1].action_id,
        calculate_action_id(objects[0].obj_id, 1)
    );
    assert_eq!(actions[1].affects_action, None);
}

#[test]
fn two_destinations_on_one_object_fail() {
    let mut object = object_head(None);
    object.extend(link_section("cave", "a dark passage"));
    object.extend(link_section("hall", "a bright passage"));
    let result = run(vec![room_head("Hall"), object]);
    assert_eq!(result.unwrap_err(), ParseError::DuplicateDestination);
}

#[test]
fn room_name_joins_title_texts() {
    let events = vec![
        DocEvent::ParagraphStart,
        text("before"),
        DocEvent::HeadingStart(1),
        text("Hello "),
        DocEvent::Other,
        text("World"),
        DocEvent::Other,
        DocEvent::HeadingEnd(1),
        text("after"),
    ];
    let room = convert_events(1, &events).unwrap();
    assert_eq!(room.room_name, "Hello World");
    assert_eq!(room.room_description, "after");
}

#[test]
fn id_lists_partition_objects() {
    let mut first = object_head(Some("North"));
    first.extend(link_section("north_room", ""));
    let room = run(vec![
        room_head("Hall"),
        object_head(None),
        first,
        object_head(Some("Down")),
    ])
    .unwrap();
    let objects = room.objects.as_ref().unwrap();
    assert_eq!(objects.len(), 3);
    assert_eq!(room.object_ids, vec![objects[0].obj_id, objects[2].obj_id]);
    assert_eq!(room.dir_obj_ids, vec![objects[1].obj_id]);
    assert_eq!(objects[1].direction, Some("N".to_string()));
    assert_eq!(objects[2].direction, Some("D".to_string()));
    assert_eq!(objects[0].direction, None);
    for (k, object) in objects.iter().enumerate() {
        assert_eq!(object.obj_id, calculate_object_id(7, k as u64));
    }
}

#[test]
fn ids_are_deterministic() {
    assert_eq!(calculate_room_id("rooms/hall.md"), calculate_room_id("rooms/hall.md"));
    assert_ne!(calculate_room_id("rooms/hall.md"), calculate_room_id("rooms/cave.md"));
    assert_eq!(calculate_object_id(3, 4), calculate_object_id(3, 4));
    assert_ne!(calculate_object_id(3, 4), calculate_object_id(3, 5));
    assert_eq!(calculate_action_id(9, 0), calculate_action_id(9, 0));
    let a = run(vec![room_head("Hall")]).unwrap();
    let b = run(vec![room_head("Another hall"), object_head(None)]).unwrap();
    assert_eq!(a.room_id, 7);
    assert_eq!(b.room_id, 7);
}

#[test]
fn ids_match_std_default_hasher() {
    let mut h = DefaultHasher::new();
    "rooms/hall.md".to_string().hash(&mut h);
    assert_eq!(calculate_room_id("rooms/hall.md"), h.finish());
    let mut h = DefaultHasher::new();
    5u64.hash(&mut h);
    2u64.hash(&mut h);
    assert_eq!(calculate_object_id(5, 2), h.finish());
    assert_eq!(calculate_action_id(5, 2), h.finish());
    assert_ne!(calculate_object_id(5, 2), 5);
}

#[test]
fn explicit_action_id_is_kept() {
    let mut object = object_head(None);
    object.extend(action_section("Open", action_record("open", None)));
    object.extend(action_section(
        "Ring",
        action_record("ring", Some(effect(Some(99), None, Some(42), None))),
    ));
    let room = run(vec![room_head("Hall"), object_head(None), object]).unwrap();
    let objects = room.objects.unwrap();
    let actions = objects[1].actions.as_ref().unwrap();
    assert_eq!(actions[1].affects_action, Some(42));
}

#[test]
fn action_index_zero_names_first_action() {
    let mut first = object_head(None);
    first.extend(action_section("Light", action_record("light", None)));
    let mut second = object_head(None);
    second.extend(action_section("Push", action_record("push", None)));
    second.extend(action_section(
        "Pull",
        action_record("pull", Some(effect(None, None, None, Some(0)))),
    ));
    second.extend(action_section(
        "Kick",
        action_record("kick", Some(effect(None, Some(0), None, Some(0)))),
    ));
    let room = run(vec![room_head("Hall"), first, second]).unwrap();
    let objects = room.objects.unwrap();
    let first_actions = objects[0].actions.as_ref().unwrap();
    let second_actions = objects[1].actions.as_ref().unwrap();
    assert_eq!(second_actions[1].affects_action, Some(second_actions[0].action_id));
    assert_eq!(second_actions[2].affects_action, Some(first_actions[0].action_id));
}

#[test]
fn explicit_object_id_names_that_objects_actions() {
    let mut first = object_head(None);
    first.extend(action_section("Light", action_record("light", None)));
    first.extend(action_section("Douse", action_record("douse", None)));
    let first_id = calculate_object_id(7, 0);
    let mut second = object_head(None);
    second.extend(action_section(
        "Pull",
        action_record("pull", Some(effect(Some(first_id), None, None, Some(1)))),
    ));
    let room = run(vec![room_head("Hall"), first, second]).unwrap();
    let objects = room.objects.unwrap();
    let first_actions = objects[0].actions.as_ref().unwrap();
    let second_actions = objects[1].actions.as_ref().unwrap();
    assert_eq!(second_actions[0].affects_action, Some(first_actions[1].action_id));
}

#[test]
fn missing_action_reference_fails() {
    let mut object = object_head(None);
    object.extend(action_section(
        "Pull",
        action_record("pull", Some(effect(None, Some(0), None, None))),
    ));
    let result = run(vec![room_head("Hall"), object]);
    assert_eq!(result.unwrap_err(), ParseError::MissingActionReference);
}

#[test]
fn out_of_range_positions_fail() {
    let mut object = object_head(None);
    object.extend(action_section(
        "Pull",
        action_record("pull", Some(effect(None, Some(3), Some(1), None))),
    ));
    let result = run(vec![room_head("Hall"), object]);
    assert_eq!(result.unwrap_err(), ParseError::ReferenceOutOfRange);

    let mut object = object_head(None);
    object.extend(action_section(
        "Pull",
        action_record("pull", Some(effect(None, None, None, Some(5)))),
    ));
    let result = run(vec![room_head("Hall"), object]);
    assert_eq!(result.unwrap_err(), ParseError::ReferenceOutOfRange);

    let mut object = object_head(None);
    object.extend(action_section(
        "Pull",
        action_record("pull", Some(effect(Some(12345), None, None, Some(0)))),
    ));
    let result = run(vec![room_head("Hall"), object]);
    assert_eq!(result.unwrap_err(), ParseError::ReferenceOutOfRange);
}

#[test]
fn invalid_direction_fails() {
    let result = run(vec![room_head("Hall"), object_head(Some("Northeast"))]);
    assert_eq!(result.unwrap_err(), ParseError::InvalidDirection);
}

#[test]
fn undecoded_record_fails() {
    let events = vec![
        DocEvent::HeadingStart(1),
        text("Hall"),
        DocEvent::HeadingEnd(1),
        DocEvent::CodeBlockStart,
        text("roomType: Cave"),
    ];
    assert_eq!(convert_events(1, &events).unwrap_err(), ParseError::Record);
}

#[test]
fn all_directions_are_normalized() {
    let names = ["North", "East", "South", "West", "Up", "Down"];
    let codes = ["N", "E", "S", "W", "U", "D"];
    for (name, code) in names.iter().zip(codes.iter()) {
        let room = run(vec![room_head("Hall"), object_head(Some(name))]).unwrap();
        let objects = room.objects.unwrap();
        assert_eq!(objects[0].direction, Some(code.to_string()));
        assert_eq!(objects[0].ttype, "Door");
        assert_eq!(objects[0].material, "Wood");
    }
}

#[test]
fn paragraphs_are_separated_by_one_line_break() {
    let events = vec![
        DocEvent::HeadingStart(1),
        text("Hall"),
        DocEvent::HeadingEnd(1),
        DocEvent::ParagraphStart,
        text("First."),
        DocEvent::ParagraphStart,
        text("Second.\n"),
        DocEvent::ParagraphStart,
        text("Third."),
        DocEvent::CodeBlockStart,
        room_record(),
    ];
    let room = convert_events(1, &events).unwrap();
    assert_eq!(room.room_description, "First.\nSecond.\nThird.");
    assert_eq!(room.room_type, "Cave");
    assert_eq!(room.biome_type, "Mountains");
}

#[test]
fn action_flags_take_defaults() {
    let mut object = object_head(None);
    object.extend(action_section("Look", action_record("look", None)));
    object.extend(action_section(
        "Lock",
        DocEvent::ActionRecord(ActionYaml {
            ttype: "lock".to_string(),
            enabled: Some(false),
            revertable: Some(true),
            d_bit: Some(false),
            affects: None,
        }),
    ));
    let room = run(vec![room_head("Hall"), object]).unwrap();
    let objects = room.objects.unwrap();
    let actions = objects[0].actions.as_ref().unwrap();
    assert_eq!(actions[0].ttype, "look");
    assert!(actions[0].enabled);
    assert!(!actions[0].revertable);
    assert!(actions[0].d_bit);
    assert_eq!(actions[0].d_bit_text, "Look");
    assert_eq!(actions[1].ttype, "lock");
    assert!(!actions[1].enabled);
    assert!(actions[1].revertable);
    assert!(!actions[1].d_bit);
}

#[test]
fn trailing_object_is_kept() {
    let mut object = object_head(None);
    object.extend(vec![DocEvent::HeadingStart(4), text("Wait")]);
    let room = run(vec![room_head("Hall"), object]).unwrap();
    let objects = room.objects.unwrap();
    assert_eq!(objects.len(), 1);
    let actions = objects[0].actions.as_ref().unwrap();
    assert_eq!(actions.len(), 1);
    assert_eq!(actions[0].d_bit_text, "Wait");
    assert_eq!(room.object_ids, vec![objects[0].obj_id]);
}

#[test]
fn document_without_title_gives_empty_room() {
    let room = convert_events(3, &vec![text("loose text")]).unwrap();
    assert_eq!(room.room_name, "");
    assert_eq!(room.room_description, "");
    assert_eq!(room.objects.unwrap().len(), 0);
    assert!(room.object_ids.is_empty());
    assert!(room.dir_obj_ids.is_empty());
}

#[test]
fn pending_record_follows_sections() {
    let mut machine = RoomStateMachine::new(1);
    let mut kinds = Vec::new();
    let mut events = room_head("Hall");
    events.truncate(6);
    let tail = vec![room_record(), DocEvent::CodeBlockEnd];
    let mut object = object_head(None);
    object.extend(action_section("Look", action_record("look", None)));
    for event in events.into_iter().chain(tail).chain(object) {
        kinds.push(machine.pending_record());
        machine = machine.after_event(&event).unwrap();
    }
    assert_eq!(kinds[6], Some(RecordKind::Room));
    assert_eq!(kinds[14], Some(RecordKind::Object));
    assert_eq!(kinds[20], Some(RecordKind::Action));
    assert_eq!(kinds.iter().filter(|k| k.is_some()).count(), 3);
    assert_eq!(machine.pending_record(), None);
}

#[test]
fn markdown_is_read_into_events() {
    let events = document_events("# Hall\n\nA [way](cave \"out\").\n");
    assert_eq!(events.len(), 10);
    assert!(matches!(events[0], DocEvent::HeadingStart(1)));
    assert!(matches!(&events[1], DocEvent::Text(t) if t == "Hall"));
    assert!(matches!(events[2], DocEvent::HeadingEnd(1)));
    assert!(matches!(events[3], DocEvent::ParagraphStart));
    assert!(matches!(&events[4], DocEvent::Text(t) if t == "A "));
    assert!(matches!(&events[5], DocEvent::LinkStart(d, t) if d == "cave" && t == "out"));
    assert!(matches!(&events[6], DocEvent::Text(t) if t == "way"));
    assert!(matches!(events[7], DocEvent::LinkEnd));
}

#[test]
fn markdown_document_converts() {
    let doc = "# Hall\n\nA big hall.\n\n```yaml\nroomType: Cave\n```\n\n## Door\n\nOld.\n\n```yaml\ntype: Door\n```\n\n#### Go\n\n[the way out](cave)\n";
    let mut machine = RoomStateMachine::new(5);
    for event in document_events(doc) {
        let event = match (machine.pending_record(), event) {
            (Some(RecordKind::Room), DocEvent::Text(_)) => room_record(),
            (Some(RecordKind::Object), DocEvent::Text(_)) => object_record(None),
            (_, event) => event,
        };
        machine = machine.after_event(&event).unwrap();
    }
    let room = machine.finish().unwrap();
    assert_eq!(room.room_name, "Hall");
    assert_eq!(room.room_description, "A big hall.");
    let objects = room.objects.as_ref().unwrap();
    assert_eq!(objects.len(), 1);
    assert_eq!(objects[0].obj_description, "Door\nOld.");
    assert_eq!(objects[0].destination, Some("cave".to_string()));
    let actions = objects[0].actions.as_ref().unwrap();
    assert_eq!(actions[0].d_bit_text, "the way out");
    assert_eq!(room.dir_obj_ids, vec![objects[0].obj_id]);
}

#[test]
fn config_wraps_rooms_in_one_level() {
    let room = run(vec![room_head("Hall")]).unwrap();
    let config = world_config("test".to_string(), vec![room]);
    assert_eq!(config.levels.len(), 1);
    assert_eq!(config.levels[0].level_name, "test");
    assert_eq!(config.levels[0].rooms.len(), 1);
    assert_eq!(config.levels[0].rooms[0].room_name, "Hall");
}
