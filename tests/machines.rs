use markdown_to_world::action_machine::{ActionState, ActionStateMachine};
use markdown_to_world::events::DocEvent;
use markdown_to_world::model::{ObjectYaml, ParseError};
use markdown_to_world::object_machine::{ObjectState, ObjectStateMachine};
use markdown_to_world::resolve::partition_ids;
use markdown_to_world::text::{replace_line_breaks, replace_text};
use markdown_to_world::model::Object;

#[test]
fn line_breaks_are_replaced() {
    assert_eq!(replace_line_breaks("a\r\nb\nc", "<br>"), "a<br>b<br>c");
    assert_eq!(replace_line_breaks("one\ntwo\n", "\\n"), "one\\ntwo\\n");
    assert_eq!(replace_line_breaks("", "<br>"), "");
    assert_eq!(replace_line_breaks("no breaks", "<br>"), "no breaks");
}

#[test]
fn replacement_is_left_to_right_without_overlap() {
    assert_eq!(replace_text("aaa", "aa", "b"), "ba");
    assert_eq!(replace_text("abcabc", "bc", ""), "aa");
    assert_eq!(replace_text("ab", "abc", "x"), "ab");
}

#[test]
fn action_machine_reads_link_and_ends() {
    let m = ActionStateMachine::new(11);
    assert_eq!(m.state, ActionState::EffectDescription);
    let m = m.after_event(&DocEvent::Text("Heading".to_string())).unwrap();
    let m = m.after_event(&DocEvent::ParagraphStart).unwrap();
    assert_eq!(m.action.d_bit_text, "Heading\n");
    let m = m
        .after_event(&DocEvent::LinkStart("cave".to_string(), "dark".to_string()))
        .unwrap();
    assert_eq!(m.action.d_bit_text, "dark");
    assert_eq!(m.action.ttype, "Open");
    assert_eq!(m.destination, Some("cave".to_string()));
    let m = m.after_event(&DocEvent::LinkEnd).unwrap();
    assert_eq!(m.state, ActionState::End);
    assert_eq!(m.action.action_id, 11);
}

#[test]
fn action_machine_rejects_undecoded_block() {
    let m = ActionStateMachine::new(1);
    let m = m.after_event(&DocEvent::CodeBlockStart).unwrap();
    assert_eq!(m.state, ActionState::YamlBlock);
    let r = m.after_event(&DocEvent::Text("type: open".to_string()));
    assert_eq!(r.unwrap_err(), ParseError::Record);
}

#[test]
fn object_machine_ends_at_next_object_heading() {
    let m = ObjectStateMachine::new(4);
    let m = m.after_event(&DocEvent::Text("Chest".to_string())).unwrap();
    let m = m.after_event(&DocEvent::CodeBlockStart).unwrap();
    let m = m
        .after_event(&DocEvent::ObjectRecord(ObjectYaml {
            direction: Some("West".to_string()),
            ttype: "Chest".to_string(),
            material: "Iron".to_string(),
        }))
        .unwrap();
    assert_eq!(m.state, ObjectState::Actions);
    assert_eq!(m.object.direction, Some("W".to_string()));
    let m = m.after_event(&DocEvent::HeadingStart(4)).unwrap();
    assert!(m.current_action.is_some());
    let m = m.after_event(&DocEvent::Text("Open".to_string())).unwrap();
    let m = m.after_event(&DocEvent::CodeBlockEnd).unwrap();
    assert!(m.current_action.is_none());
    assert_eq!(m.object.actions.len(), 1);
    let m = m.after_event(&DocEvent::HeadingStart(2)).unwrap();
    assert_eq!(m.state, ObjectState::End);
    let object = m.finish().unwrap();
    assert_eq!(object.obj_description, "Chest");
    assert_eq!(object.actions[0].d_bit_text, "Open");
}

fn object(id: u64, destination: Option<&str>) -> Object {
    Object {
        obj_id: id,
        ttype: String::new(),
        material: String::new(),
        obj_description: String::new(),
        direction: None,
        destination: destination.map(|d| d.to_string()),
        actions: None,
    }
}

#[test]
fn ids_are_split_by_destination_in_order() {
    let objects = vec![
        object(1, None),
        object(2, Some("a")),
        object(3, None),
        object(4, Some("b")),
    ];
    let (plain, passages) = partition_ids(&objects);
    assert_eq!(plain, vec![1, 3]);
    assert_eq!(passages, vec![2, 4]);
}
