//! Inbound frames: what a frame says once it has been parsed.

use vstd::prelude::*;
use crate::v1::json::{json_document, json_value, member, members, number, parse_document, text, Json};

verus! {

/// One entry of a measurement object: the name of a field, and its value
/// where the feed sent a number.
#[derive(Debug, PartialEq, Eq)]
pub struct Reading {
    pub name: String,
    /// The bit pattern of the value as a 64-bit float; `None` where the feed
    /// sent something that is no number.
    pub value: Option<u64>,
}

/// A `Reading` as the contracts see it.
pub struct ReadingView {
    pub name: Seq<char>,
    pub value: Option<u64>,
}

impl View for Reading {
    type V = ReadingView;

    open spec fn view(&self) -> ReadingView {
        ReadingView { name: self.name@, value: self.value }
    }
}

impl DeepView for Reading {
    type V = ReadingView;

    open spec fn deep_view(&self) -> ReadingView {
        self@
    }
}

/// A parsed inbound frame, by its shape.
#[derive(Debug, PartialEq, Eq)]
pub enum InboundMessage {
    /// The data shape: `payload.data.liveMeasurement` is an object, and these
    /// are its entries.
    Data(Vec<Reading>),
    /// No measurement, but a string under the top-level key `type`.
    Typed(String),
    /// Neither of the two.
    Unrecognized,
}

/// An `InboundMessage` as the contracts see it.
pub enum InboundMessageView {
    Data(Seq<ReadingView>),
    Typed(Seq<char>),
    Unrecognized,
}

impl View for InboundMessage {
    type V = InboundMessageView;

    open spec fn view(&self) -> InboundMessageView {
        match self {
            InboundMessage::Data(readings) => InboundMessageView::Data(readings.deep_view()),
            InboundMessage::Typed(kind) => InboundMessageView::Typed(kind@),
            InboundMessage::Unrecognized => InboundMessageView::Unrecognized,
        }
    }
}

/// The reading that a member of a measurement object stands for.
pub open spec fn reading_of(entry: (Seq<char>, Json)) -> ReadingView {
    ReadingView {
        name: entry.0,
        value: match entry.1 {
            Json::Number(bits) => Some(bits),
            _ => None,
        },
    }
}

/// The measurement object of a document: what stands under `payload`, then
/// `data`, then `liveMeasurement`.
pub open spec fn measurement_of(document: Json) -> Json {
    document.member("payload"@).member("data"@).member("liveMeasurement"@)
}

/// The shape of a parsed document. A measurement object decides; only
/// without one is the top-level `type` looked at.
pub open spec fn message_of(document: Json) -> InboundMessageView {
    match measurement_of(document) {
        Json::Object(entries) => InboundMessageView::Data(
            entries.map_values(|entry: (Seq<char>, Json)| reading_of(entry)),
        ),
        _ => match document.member("type"@) {
            Json::Text(kind) => InboundMessageView::Typed(kind),
            _ => InboundMessageView::Unrecognized,
        },
    }
}

/// What the frame `text` says: the shape of the document it parses to, or
/// `None` where it is no JSON document.
pub open spec fn frame_message(text: Seq<char>) -> Option<InboundMessageView> {
    match json_document(text) {
        Some(document) => Some(message_of(document)),
        None => None,
    }
}

/// Reads the shape off a parsed document.
pub fn read_message(document: &serde_json::Value) -> (message: InboundMessage)
    ensures
        message@ == message_of(json_value(*document)),
{
    let measurement = member(member(member(document, "payload"), "data"), "liveMeasurement");
    match members(measurement) {
        Some(entries) => {
            let ghost held = json_value(*measurement)->Object_0;
            let mut readings: Vec<Reading> = Vec::new();
            let mut i: usize = 0;
            while i < entries.len()
                invariant
                    i <= entries.len(),
                    entries.len() == held.len(),
                    forall|j: int|
                        0 <= j < held.len() ==> (#[trigger] entries[j]).0@ == held[j].0
                            && json_value(*entries[j].1) == held[j].1,
                    readings.len() == i,
                    forall|j: int| 0 <= j < i ==> (#[trigger] readings[j])@ == reading_of(held[j]),
                decreases entries.len() - i,
            {
                let name = entries[i].0.to_owned();
                let value = number(entries[i].1);
                readings.push(Reading { name, value });
                i = i + 1;
            }
            assert(readings.deep_view() =~= held.map_values(
                |entry: (Seq<char>, Json)| reading_of(entry),
            ));
            InboundMessage::Data(readings)
        },
        None => match text(member(document, "type")) {
            Some(kind) => InboundMessage::Typed(kind.to_owned()),
            None => InboundMessage::Unrecognized,
        },
    }
}

/// Parses a frame and reads its shape. `None` says that the frame is no JSON
/// document.
pub fn decode_frame(frame: &str) -> (message: Option<InboundMessage>)
    ensures
        match message {
            Some(read) => frame_message(frame@) == Some(read@),
            None => frame_message(frame@) is None,
        },
{
    match parse_document(frame) {
        Some(document) => Some(read_message(&document)),
        None => None,
    }
}

} // verus!
