//! The event codec: inbound frames become typed events, outbound commands
//! become frames.

use crate::api::session::{
    required_as, Session, SessionUpdateEvent, SessionUpdateEventView, SessionView,
};
use crate::audio::{base64_decoded, closing_silence, decode_base64, silence, SAMPLE_RATE};
use crate::error::DecodeError;
use crate::json::{
    add_member, entry, json_parsed, json_written, lemma_member_of_entry, lemma_member_of_joined,
    opt_view, parse_json, same_text, write_json, Json, JsonView,
};
use vstd::prelude::*;

verus! {

/// What an inbound frame tells the session.
#[derive(Clone, Debug, PartialEq, Eq)]
pub enum Event {
    /// A chunk of synthesized audio.
    Audio(Vec<u8>),
    /// The peer's description of the session.
    SessionCreated(Session),
    /// A further piece of the transcript.
    TranscriptDelta(String),
    /// The whole transcript.
    TranscriptDone(String),
    /// The peer heard speech begin.
    InputAudioBufferSpeechStarted,
    /// The peer has sent all audio of a response.
    AudioDone,
}

/// What a [`Event`] is, over sequences: the value that contracts speak of.
pub enum EventView {
    Audio(Seq<u8>),
    SessionCreated(SessionView),
    TranscriptDelta(Seq<char>),
    TranscriptDone(Seq<char>),
    InputAudioBufferSpeechStarted,
    AudioDone,
}

impl View for Event {
    type V = EventView;

    open spec fn view(&self) -> EventView {
        match self {
            Event::Audio(bytes) => EventView::Audio(bytes@),
            Event::SessionCreated(session) => EventView::SessionCreated(session@),
            Event::TranscriptDelta(text) => EventView::TranscriptDelta(text@),
            Event::TranscriptDone(text) => EventView::TranscriptDone(text@),
            Event::InputAudioBufferSpeechStarted => EventView::InputAudioBufferSpeechStarted,
            Event::AudioDone => EventView::AudioDone,
        }
    }
}

impl DeepView for Event {
    type V = EventView;

    open spec fn deep_view(&self) -> EventView {
        self@
    }
}

/// The events that a frame's JSON value stands for, in the order in which
/// they are to be applied. A `type` that is not known stands for none.
pub open spec fn events_of(value: JsonView) -> Result<Seq<EventView>, DecodeError> {
    match value.text_at("type"@) {
        None => Err(DecodeError::Envelope),
        Some(kind) => if kind == "session.created"@ {
            match required_as(value.get("session"@), |j: JsonView| Session::of_json(j)) {
                Some(session) => Ok(seq![EventView::SessionCreated(session)]),
                None => Err(DecodeError::Session),
            }
        } else if kind == "response.audio.delta"@ {
            match value.text_at("delta"@) {
                Some(text) => match base64_decoded(text) {
                    Some(bytes) => Ok(seq![EventView::Audio(bytes)]),
                    None => Err(DecodeError::Base64),
                },
                None => Err(DecodeError::Payload),
            }
        } else if kind == "response.audio_transcript.delta"@ {
            match value.text_at("delta"@) {
                Some(text) => Ok(seq![EventView::TranscriptDelta(text)]),
                None => Err(DecodeError::Payload),
            }
        } else if kind == "response.audio_transcript.done"@ {
            match value.text_at("transcript"@) {
                Some(text) => Ok(seq![EventView::TranscriptDone(text)]),
                None => Err(DecodeError::Payload),
            }
        } else if kind == "input_audio_buffer.speech_started"@ {
            Ok(seq![EventView::InputAudioBufferSpeechStarted])
        } else if kind == "response.audio.done"@ {
            Ok(seq![EventView::AudioDone, EventView::Audio(closing_silence())])
        } else {
            Ok(Seq::empty())
        },
    }
}

/// The events that a frame stands for.
pub open spec fn frame_events(frame: Seq<char>) -> Result<Seq<EventView>, DecodeError> {
    match json_parsed(frame) {
        Some(value) => events_of(value),
        None => Err(DecodeError::Syntax),
    }
}

/// Whether an event type is one that the codec gives a meaning.
pub open spec fn is_known_type(kind: Seq<char>) -> bool {
    kind == "session.created"@ || kind == "response.audio.delta"@ || kind
        == "response.audio_transcript.delta"@ || kind == "response.audio_transcript.done"@ || kind
        == "input_audio_buffer.speech_started"@ || kind == "response.audio.done"@
}

/// The outcome of decoding, seen through the views of the events.
pub open spec fn outcome_view(outcome: Result<Vec<Event>, DecodeError>) -> Result<
    Seq<EventView>,
    DecodeError,
> {
    match outcome {
        Ok(events) => Ok(events.deep_view()),
        Err(error) => Err(error),
    }
}

fn one(event: Event) -> (events: Vec<Event>)
    ensures
        events.deep_view() == seq![event@],
{
    let mut events: Vec<Event> = Vec::new();
    events.push(event);
    assert(events.deep_view() =~= seq![event@]);
    events
}

/// Decodes the JSON value of an inbound frame.
pub fn decode_value(value: &Json) -> (outcome: Result<Vec<Event>, DecodeError>)
    ensures
        outcome_view(outcome) == events_of(value@),
{
    let kind = match value.text_at("type") {
        Some(kind) => kind,
        None => return Err(DecodeError::Envelope),
    };
    let kind = kind.as_str();
    if same_text(kind, "session.created") {
        match value.get("session") {
            Some(described) => match Session::from_json(described) {
                Some(session) => Ok(one(Event::SessionCreated(session))),
                None => Err(DecodeError::Session),
            },
            None => Err(DecodeError::Session),
        }
    } else if same_text(kind, "response.audio.delta") {
        match value.text_at("delta") {
            Some(text) => match decode_base64(text.as_str()) {
                Some(bytes) => Ok(one(Event::Audio(bytes))),
                None => Err(DecodeError::Base64),
            },
            None => Err(DecodeError::Payload),
        }
    } else if same_text(kind, "response.audio_transcript.delta") {
        match value.text_at("delta") {
            Some(text) => Ok(one(Event::TranscriptDelta(text))),
            None => Err(DecodeError::Payload),
        }
    } else if same_text(kind, "response.audio_transcript.done") {
        match value.text_at("transcript") {
            Some(text) => Ok(one(Event::TranscriptDone(text))),
            None => Err(DecodeError::Payload),
        }
    } else if same_text(kind, "input_audio_buffer.speech_started") {
        Ok(one(Event::InputAudioBufferSpeechStarted))
    } else if same_text(kind, "response.audio.done") {
        let mut events: Vec<Event> = Vec::new();
        events.push(Event::AudioDone);
        events.push(Event::Audio(silence(SAMPLE_RATE)));
        assert(events.deep_view() =~= seq![EventView::AudioDone, EventView::Audio(closing_silence())]);
        Ok(events)
    } else {
        let events: Vec<Event> = Vec::new();
        assert(events.deep_view() =~= Seq::<EventView>::empty());
        Ok(events)
    }
}

/// Decodes an inbound frame.
pub fn decode(frame: &str) -> (outcome: Result<Vec<Event>, DecodeError>)
    ensures
        outcome_view(outcome) == frame_events(frame@),
{
    match parse_json(frame) {
        Some(value) => decode_value(&value),
        None => Err(DecodeError::Syntax),
    }
}

/// The six event types are told apart by their length.
proof fn lemma_types_differ()
    ensures
        "session.created"@.len() == 15,
        "response.audio.delta"@.len() == 20,
        "response.audio_transcript.delta"@.len() == 31,
        "response.audio_transcript.done"@.len() == 30,
        "input_audio_buffer.speech_started"@.len() == 33,
        "response.audio.done"@.len() == 19,
{
    reveal_strlit("session.created");
    reveal_strlit("response.audio.delta");
    reveal_strlit("response.audio_transcript.delta");
    reveal_strlit("response.audio_transcript.done");
    reveal_strlit("input_audio_buffer.speech_started");
    reveal_strlit("response.audio.done");
}

/// A frame of type `response.audio.delta` whose `delta` is base64 stands
/// for exactly one audio event, and that holds the decoded bytes.
pub proof fn lemma_audio_delta(frame: Seq<char>, value: JsonView, delta: Seq<char>, bytes: Seq<u8>)
    requires
        json_parsed(frame) == Some(value),
        value.text_at("type"@) == Some("response.audio.delta"@),
        value.text_at("delta"@) == Some(delta),
        base64_decoded(delta) == Some(bytes),
    ensures
        frame_events(frame) == Ok::<Seq<EventView>, DecodeError>(seq![EventView::Audio(bytes)]),
{
    lemma_types_differ();
}

/// A frame whose `type` is none of the known ones stands for no event, and
/// is no error.
pub proof fn lemma_unknown_type(frame: Seq<char>, value: JsonView, kind: Seq<char>)
    requires
        json_parsed(frame) == Some(value),
        value.text_at("type"@) == Some(kind),
        !is_known_type(kind),
    ensures
        frame_events(frame) == Ok::<Seq<EventView>, DecodeError>(Seq::empty()),
{
}

/// A frame of type `response.audio.done` stands for the end of the audio
/// and then one audio event of silence: one second of two-byte samples, each
/// byte zero.
pub proof fn lemma_audio_done(frame: Seq<char>, value: JsonView)
    requires
        json_parsed(frame) == Some(value),
        value.text_at("type"@) == Some("response.audio.done"@),
    ensures
        frame_events(frame) == Ok::<Seq<EventView>, DecodeError>(
            seq![EventView::AudioDone, EventView::Audio(closing_silence())],
        ),
        closing_silence().len() == 96_000,
        forall|i: int| 0 <= i < 96_000 ==> closing_silence()[i] == 0u8,
{
    lemma_types_differ();
}

/// Whether a character may stand in a correlation token.
pub open spec fn is_token_char(c: char) -> bool {
    c == '_' || c == '-' || ('0' <= c && c <= '9') || ('a' <= c && c <= 'z') || ('A' <= c && c
        <= 'Z')
}

/// Whether a text is a correlation token of `size` characters.
pub open spec fn is_token(text: Seq<char>, size: nat) -> bool {
    text.len() == size && forall|i: int| 0 <= i < text.len() ==> is_token_char(#[trigger] text[i])
}

/// Draws a token with `nanoid::format`, from the generator `nanoid::rngs::default`
/// and the alphabet `nanoid::alphabet::SAFE`. Two calls may differ; each gives
/// `size` characters of that alphabet: letters, digits, `_` and `-`.
#[verifier::external_body]
pub(crate) fn random_token(size: usize) -> (token: String)
    requires
        0 < size,
        8 * size <= usize::MAX,
    ensures
        is_token(token@, size as nat),
{
    nanoid::format(nanoid::rngs::default, &nanoid::alphabet::SAFE, size)
}

/// An outbound command in its envelope.
#[derive(Debug, PartialEq, Eq)]
pub struct EventMessage {
    /// A token that tells this command from others in a log. Nothing is
    /// matched against it.
    pub event_id: String,
    /// The name of the command.
    pub event_type: String,
    /// The command's own members.
    pub body: Json,
}

/// What a [`EventMessage`] is, over sequences: the value that contracts speak of.
pub struct EventMessageView {
    pub event_id: Seq<char>,
    pub event_type: Seq<char>,
    pub body: JsonView,
}

impl View for EventMessage {
    type V = EventMessageView;

    open spec fn view(&self) -> EventMessageView {
        EventMessageView {
            event_id: self.event_id@,
            event_type: self.event_type@,
            body: self.body@,
        }
    }
}

impl EventMessageView {
    /// The JSON object of the frame: `event_id`, `type`, and then the members
    /// of the body beside them. A body that is no object has no frame.
    pub open spec fn tree(self) -> Option<JsonView> {
        match self.body {
            JsonView::Object(members) => Some(
                JsonView::Object(
                    entry("event_id"@, Some(JsonView::Str(self.event_id))) + entry(
                        "type"@,
                        Some(JsonView::Str(self.event_type)),
                    ) + members,
                ),
            ),
            _ => None,
        }
    }

    /// The frame: the object written on a single line.
    pub open spec fn frame(self) -> Option<Seq<char>> {
        match self.tree() {
            Some(tree) => json_written(tree),
            None => None,
        }
    }
}

/// The number of characters of a command's token.
pub const EVENT_ID_LEN: usize = 21;

/// The body of a command: the one member `key`.
pub open spec fn command_body(key: Seq<char>, value: JsonView) -> JsonView {
    JsonView::Object(entry(key, Some(value)))
}

/// Makes the body of a command.
pub fn body_of(key: &str, value: Json) -> (body: Json)
    ensures
        body@ == command_body(key@, value@),
{
    let mut members: Vec<(String, Json)> = Vec::new();
    add_member(&mut members, key, value);
    assert(members.deep_view() =~= entry(key@, Some(value@)));
    Json::object(members)
}

impl EventMessage {
    /// Puts a body in an envelope with a fresh token.
    pub fn wrap(evt: &str, body: Json) -> (message: EventMessage)
        ensures
            message@.event_type == evt@,
            message@.body == body@,
            is_token(message@.event_id, 21),
    {
        EventMessage { event_id: random_token(EVENT_ID_LEN), event_type: evt.to_owned(), body }
    }

    /// The JSON object of the frame.
    pub fn to_json(&self) -> (tree: Option<Json>)
        ensures
            opt_view(tree) == self@.tree(),
    {
        match &self.body {
            Json::Object(members) => {
                let mut all: Vec<(String, Json)> = Vec::new();
                add_member(&mut all, "event_id", Json::text(self.event_id.as_str()));
                add_member(&mut all, "type", Json::text(self.event_type.as_str()));
                let ghost head = all.deep_view();
                let ghost rest = members.deep_view();
                assert(self.body@->Object_0 =~= rest);
                assert(head =~= entry("event_id"@, Some(JsonView::Str(self.event_id@))) + entry(
                    "type"@,
                    Some(JsonView::Str(self.event_type@)),
                ));
                let mut i: usize = 0;
                while i < members.len()
                    invariant
                        i <= members.len(),
                        rest == members.deep_view(),
                        all.deep_view() == head + rest.take(i as int),
                    decreases members.len() - i,
                {
                    add_member(&mut all, members[i].0.as_str(), members[i].1.clone());
                    assert(rest[i as int] == (members@[i as int].0@, members@[i as int].1@));
                    assert(rest.take(i + 1) =~= rest.take(i as int).push(rest[i as int]));
                    assert(all.deep_view() =~= head + rest.take(i + 1));
                    i += 1;
                }
                assert(rest.take(i as int) =~= rest);
                Some(Json::object(all))
            },
            _ => None,
        }
    }

    /// The frame of the message, where it has one.
    pub fn to_string(&self) -> (frame: Option<String>)
        ensures
            opt_view(frame) == self@.frame(),
    {
        match self.to_json() {
            Some(tree) => write_json(&tree),
            None => None,
        }
    }
}

/// The frame of a `session.update` command states the configuration it was
/// made of: its object holds the token as `event_id`, the command's name as
/// `type`, and under `session` an object that reads back as that same
/// configuration, value for value.
pub proof fn lemma_session_update_round_trip(id: Seq<char>, update: SessionUpdateEventView)
    ensures
        ({
            let message = EventMessageView {
                event_id: id,
                event_type: "session.update"@,
                body: command_body("session"@, update.json()),
            };
            &&& message.tree() matches Some(tree)
            &&& tree.text_at("event_id"@) == Some(id)
            &&& tree.text_at("type"@) == Some("session.update"@)
            &&& required_as(tree.get("session"@), |j: JsonView| SessionUpdateEvent::of_json(j))
                == Some(update)
        }),
{
    broadcast use {lemma_member_of_joined, lemma_member_of_entry};

    reveal_strlit("event_id");
    reveal_strlit("type");
    reveal_strlit("session");
    assert("event_id"@.len() == 8);
    assert("type"@.len() == 4);
    assert("session"@.len() == 7);
    SessionUpdateEvent::lemma_json_round_trip(update);
}

} // verus!
