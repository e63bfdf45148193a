//! The events that drive the state machines, and where they come from.
use pulldown_cmark::{Event, Parser, Tag, TagEnd, TextMergeStream};
use vstd::prelude::*;

use crate::model::{ActionYaml, ObjectYaml, RoomYaml};

verus! {

/// One structural event of a document, in document order.
///
/// The markdown reader yields every variant but the three records. A record
/// stands where the text of a fenced code block stood once that text has been
/// decoded into the record that the current section expects (see
/// `RoomStateMachine::pending_record`).
#[derive(Debug)]
pub enum DocEvent {
    /// The start of a heading of the given level (1 to 6).
    HeadingStart(u8),
    /// The end of a heading of the given level.
    HeadingEnd(u8),
    ParagraphStart,
    CodeBlockStart,
    CodeBlockEnd,
    /// The start of a link: its destination, then its title.
    LinkStart(String, String),
    LinkEnd,
    Text(String),
    RoomRecord(RoomYaml),
    ObjectRecord(ObjectYaml),
    ActionRecord(ActionYaml),
    /// Any other event; every state machine ignores it.
    Other,
}

/// Which structured record a fenced code block must hold.
#[derive(Debug, Clone, Copy, PartialEq, Eq, Structural)]
pub enum RecordKind {
    Room,
    Object,
    Action,
}

/// The events that pulldown_cmark reads from a document, neighbouring text
/// merged.
pub uninterp spec fn markdown_events_of(text: Seq<char>) -> Seq<DocEvent>;

/// Relies on pulldown_cmark's `Parser` behind `TextMergeStream`: the event
/// stream of a document is a function of its text.
#[verifier::external_body]
fn read_markdown(text: &str) -> (r: Vec<DocEvent>)
    ensures
        r@ == markdown_events_of(text@),
{
    TextMergeStream::new(Parser::new(text)).map(|event| match event {
        Event::Start(Tag::Heading { level, .. }) => DocEvent::HeadingStart(level as u8),
        Event::End(TagEnd::Heading(level)) => DocEvent::HeadingEnd(level as u8),
        Event::Start(Tag::Paragraph) => DocEvent::ParagraphStart,
        Event::Start(Tag::CodeBlock(_)) => DocEvent::CodeBlockStart,
        Event::End(TagEnd::CodeBlock) => DocEvent::CodeBlockEnd,
        Event::Start(Tag::Link { dest_url, title, .. }) => DocEvent::LinkStart(dest_url.to_string(), title.to_string()),
        Event::End(TagEnd::Link) => DocEvent::LinkEnd,
        Event::Text(t) => DocEvent::Text(t.to_string()),
        _ => DocEvent::Other,
    }).collect()
}

/// The events of a markdown document.
pub fn document_events(text: &str) -> (r: Vec<DocEvent>)
    ensures
        r@ == markdown_events_of(text@),
{
    read_markdown(text)
}

} // verus!
