//! Session configuration and the descriptor that the peer sends back.

use crate::api::model::Model;
use crate::api::voice::Voice;
use crate::json::{
    add_member, entry, lemma_member_of_entry, lemma_member_of_joined, opt_view, optional_as,
    put_member, same_text, Json, JsonView, Number, NumberView,
};
use vstd::prelude::*;

verus! {

/// How audio samples are laid out.
#[derive(Clone, Copy, Debug, PartialEq, Eq, Structural)]
pub enum AudioFormat {
    PCM16,
}

impl AudioFormat {
    /// The name that stands for it on the wire.
    pub open spec fn wire_name(self) -> Seq<char> {
        match self {
            AudioFormat::PCM16 => "pcm16"@,
        }
    }

    /// The one that a wire name stands for.
    pub open spec fn of_name(name: Seq<char>) -> Option<AudioFormat> {
        if name == "pcm16"@ {
            Some(AudioFormat::PCM16)
        } else {
            None
        }
    }

    /// The one that a JSON value names: a string holding a wire name.
    pub open spec fn of_json(value: JsonView) -> Option<AudioFormat> {
        match value {
            JsonView::Str(name) => AudioFormat::of_name(name),
            _ => None,
        }
    }

    /// The JSON value that names it.
    pub open spec fn json(self) -> JsonView {
        JsonView::Str(self.wire_name())
    }

    /// The name that stands for it on the wire.
    pub fn name(&self) -> (name: &'static str)
        ensures
            name@ == self.wire_name(),
    {
        match self {
            AudioFormat::PCM16 => "pcm16",
        }
    }

    /// The one that a wire name stands for, if it stands for any.
    pub fn from_name(name: &str) -> (found: Option<AudioFormat>)
        ensures
            found == AudioFormat::of_name(name@),
    {
        if same_text(name, "pcm16") {
            Some(AudioFormat::PCM16)
        } else {
            None
        }
    }

    /// States it as JSON.
    pub fn to_json(&self) -> (json: Json)
        ensures
            json@ == self.json(),
    {
        Json::text(self.name())
    }

    /// Reads it from JSON, where the value states one.
    pub fn from_json(json: &Json) -> (found: Option<AudioFormat>)
        ensures
            found == AudioFormat::of_json(json@),
    {
        match json {
            Json::Str(name) => AudioFormat::from_name(name.as_str()),
            _ => None,
        }
    }

    /// Reading the JSON value that names one gives that one back.
    pub proof fn lemma_json_round_trip(it: AudioFormat)
        ensures
            AudioFormat::of_json(it.json()) == Some(it),
    {
        reveal_strlit("pcm16");
        assert("pcm16"@.len() == 5 && "pcm16"@[0] == 'p');
    }
}

impl View for AudioFormat {
    type V = AudioFormat;

    open spec fn view(&self) -> AudioFormat {
        *self
    }
}

impl DeepView for AudioFormat {
    type V = AudioFormat;

    open spec fn deep_view(&self) -> AudioFormat {
        *self
    }
}

/// A channel of a response.
#[derive(Clone, Copy, Debug, PartialEq, Eq, Structural)]
pub enum Modality {
    Text,
    Audio,
}

impl Modality {
    /// The name that stands for it on the wire.
    pub open spec fn wire_name(self) -> Seq<char> {
        match self {
            Modality::Text => "text"@,
            Modality::Audio => "audio"@,
        }
    }

    /// The one that a wire name stands for.
    pub open spec fn of_name(name: Seq<char>) -> Option<Modality> {
        if name == "text"@ {
            Some(Modality::Text)
        } else if name == "audio"@ {
            Some(Modality::Audio)
        } else {
            None
        }
    }

    /// The one that a JSON value names: a string holding a wire name.
    pub open spec fn of_json(value: JsonView) -> Option<Modality> {
        match value {
            JsonView::Str(name) => Modality::of_name(name),
            _ => None,
        }
    }

    /// The JSON value that names it.
    pub open spec fn json(self) -> JsonView {
        JsonView::Str(self.wire_name())
    }

    /// The name that stands for it on the wire.
    pub fn name(&self) -> (name: &'static str)
        ensures
            name@ == self.wire_name(),
    {
        match self {
            Modality::Text => "text",
            Modality::Audio => "audio",
        }
    }

    /// The one that a wire name stands for, if it stands for any.
    pub fn from_name(name: &str) -> (found: Option<Modality>)
        ensures
            found == Modality::of_name(name@),
    {
        if same_text(name, "text") {
            Some(Modality::Text)
        } else if same_text(name, "audio") {
            Some(Modality::Audio)
        } else {
            None
        }
    }

    /// States it as JSON.
    pub fn to_json(&self) -> (json: Json)
        ensures
            json@ == self.json(),
    {
        Json::text(self.name())
    }

    /// Reads it from JSON, where the value states one.
    pub fn from_json(json: &Json) -> (found: Option<Modality>)
        ensures
            found == Modality::of_json(json@),
    {
        match json {
            Json::Str(name) => Modality::from_name(name.as_str()),
            _ => None,
        }
    }

    /// Reading the JSON value that names one gives that one back.
    pub proof fn lemma_json_round_trip(it: Modality)
        ensures
            Modality::of_json(it.json()) == Some(it),
    {
        reveal_strlit("text");
        reveal_strlit("audio");
        assert("text"@.len() == 4 && "text"@[0] == 't');
        assert("audio"@.len() == 5 && "audio"@[0] == 'a');
    }
}

impl View for Modality {
    type V = Modality;

    open spec fn view(&self) -> Modality {
        *self
    }
}

impl DeepView for Modality {
    type V = Modality;

    open spec fn deep_view(&self) -> Modality {
        *self
    }
}

/// How the peer picks tools.
#[derive(Clone, Copy, Debug, PartialEq, Eq, Structural)]
pub enum ToolChoice {
    Auto,
}

impl ToolChoice {
    /// The name that stands for it on the wire.
    pub open spec fn wire_name(self) -> Seq<char> {
        match self {
            ToolChoice::Auto => "auto"@,
        }
    }

    /// The one that a wire name stands for.
    pub open spec fn of_name(name: Seq<char>) -> Option<ToolChoice> {
        if name == "auto"@ {
            Some(ToolChoice::Auto)
        } else {
            None
        }
    }

    /// The one that a JSON value names: a string holding a wire name.
    pub open spec fn of_json(value: JsonView) -> Option<ToolChoice> {
        match value {
            JsonView::Str(name) => ToolChoice::of_name(name),
            _ => None,
        }
    }

    /// The JSON value that names it.
    pub open spec fn json(self) -> JsonView {
        JsonView::Str(self.wire_name())
    }

    /// The name that stands for it on the wire.
    pub fn name(&self) -> (name: &'static str)
        ensures
            name@ == self.wire_name(),
    {
        match self {
            ToolChoice::Auto => "auto",
        }
    }

    /// The one that a wire name stands for, if it stands for any.
    pub fn from_name(name: &str) -> (found: Option<ToolChoice>)
        ensures
            found == ToolChoice::of_name(name@),
    {
        if same_text(name, "auto") {
            Some(ToolChoice::Auto)
        } else {
            None
        }
    }

    /// States it as JSON.
    pub fn to_json(&self) -> (json: Json)
        ensures
            json@ == self.json(),
    {
        Json::text(self.name())
    }

    /// Reads it from JSON, where the value states one.
    pub fn from_json(json: &Json) -> (found: Option<ToolChoice>)
        ensures
            found == ToolChoice::of_json(json@),
    {
        match json {
            Json::Str(name) => ToolChoice::from_name(name.as_str()),
            _ => None,
        }
    }

    /// Reading the JSON value that names one gives that one back.
    pub proof fn lemma_json_round_trip(it: ToolChoice)
        ensures
            ToolChoice::of_json(it.json()) == Some(it),
    {
        reveal_strlit("auto");
        assert("auto"@.len() == 4 && "auto"@[0] == 'a');
    }
}

impl View for ToolChoice {
    type V = ToolChoice;

    open spec fn view(&self) -> ToolChoice {
        *self
    }
}

impl DeepView for ToolChoice {
    type V = ToolChoice;

    open spec fn deep_view(&self) -> ToolChoice {
        *self
    }
}

/// How the peer traces a session.
#[derive(Clone, Copy, Debug, PartialEq, Eq, Structural)]
pub enum Tracing {
    Auto,
}

impl Tracing {
    /// The name that stands for it on the wire.
    pub open spec fn wire_name(self) -> Seq<char> {
        match self {
            Tracing::Auto => "auto"@,
        }
    }

    /// The one that a wire name stands for.
    pub open spec fn of_name(name: Seq<char>) -> Option<Tracing> {
        if name == "auto"@ {
            Some(Tracing::Auto)
        } else {
            None
        }
    }

    /// The one that a JSON value names: a string holding a wire name.
    pub open spec fn of_json(value: JsonView) -> Option<Tracing> {
        match value {
            JsonView::Str(name) => Tracing::of_name(name),
            _ => None,
        }
    }

    /// The JSON value that names it.
    pub open spec fn json(self) -> JsonView {
        JsonView::Str(self.wire_name())
    }

    /// The name that stands for it on the wire.
    pub fn name(&self) -> (name: &'static str)
        ensures
            name@ == self.wire_name(),
    {
        match self {
            Tracing::Auto => "auto",
        }
    }

    /// The one that a wire name stands for, if it stands for any.
    pub fn from_name(name: &str) -> (found: Option<Tracing>)
        ensures
            found == Tracing::of_name(name@),
    {
        if same_text(name, "auto") {
            Some(Tracing::Auto)
        } else {
            None
        }
    }

    /// States it as JSON.
    pub fn to_json(&self) -> (json: Json)
        ensures
            json@ == self.json(),
    {
        Json::text(self.name())
    }

    /// Reads it from JSON, where the value states one.
    pub fn from_json(json: &Json) -> (found: Option<Tracing>)
        ensures
            found == Tracing::of_json(json@),
    {
        match json {
            Json::Str(name) => Tracing::from_name(name.as_str()),
            _ => None,
        }
    }

    /// Reading the JSON value that names one gives that one back.
    pub proof fn lemma_json_round_trip(it: Tracing)
        ensures
            Tracing::of_json(it.json()) == Some(it),
    {
        reveal_strlit("auto");
        assert("auto"@.len() == 4 && "auto"@[0] == 'a');
    }
}

impl View for Tracing {
    type V = Tracing;

    open spec fn view(&self) -> Tracing {
        *self
    }
}

impl DeepView for Tracing {
    type V = Tracing;

    open spec fn deep_view(&self) -> Tracing {
        *self
    }
}

/// The JSON list that names these modalities, in their order.
pub open spec fn modalities_json(modalities: Seq<Modality>) -> JsonView {
    JsonView::Array(Seq::new(modalities.len(), |i: int| modalities[i].json()))
}

/// The modalities that a JSON list names, where each item names one.
pub open spec fn modalities_of_json(value: JsonView) -> Option<Seq<Modality>> {
    match value {
        JsonView::Array(items) => if forall|i: int|
            0 <= i < items.len() ==> Modality::of_json(#[trigger] items[i]) is Some {
            Some(Seq::new(items.len(), |i: int| Modality::of_json(items[i]).unwrap()))
        } else {
            None
        },
        _ => None,
    }
}

/// States a list of modalities as JSON.
pub fn modalities_to_json(modalities: &Vec<Modality>) -> (json: Json)
    ensures
        json@ == modalities_json(modalities@),
{
    let mut items: Vec<Json> = Vec::new();
    let mut i: usize = 0;
    while i < modalities.len()
        invariant
            i <= modalities.len(),
            items.len() == i,
            forall|k: int| 0 <= k < i ==> items@[k]@ == modalities@[k].json(),
        decreases modalities.len() - i,
    {
        items.push(modalities[i].to_json());
        i += 1;
    }
    let json = Json::Array(items);
    assert(json@->Array_0 =~= modalities_json(modalities@)->Array_0);
    json
}

/// Reads a list of modalities from JSON.
pub fn modalities_from_json(json: &Json) -> (found: Option<Vec<Modality>>)
    ensures
        match found {
            Some(modalities) => modalities_of_json(json@) == Some(modalities@),
            None => modalities_of_json(json@) is None,
        },
{
    match json.as_array() {
        Some(items) => {
            let ghost views = json@->Array_0;
            let mut out: Vec<Modality> = Vec::new();
            let mut i: usize = 0;
            while i < items.len()
                invariant
                    i <= items.len(),
                    out.len() == i,
                    views == items.deep_view(),
                    json@ == JsonView::Array(views),
                    forall|k: int| 0 <= k < i ==> Modality::of_json(views[k]) == Some(out@[k]),
                decreases items.len() - i,
            {
                match Modality::from_json(&items[i]) {
                    Some(m) => out.push(m),
                    None => {
                        assert(Modality::of_json(views[i as int]) is None);
                        return None;
                    },
                }
                i += 1;
            }
            assert(out@ =~= modalities_of_json(json@).unwrap());
            Some(out)
        },
        None => None,
    }
}

/// Reading the JSON list that names some modalities gives them back.
pub proof fn lemma_modalities_round_trip(modalities: Seq<Modality>)
    ensures
        modalities_of_json(modalities_json(modalities)) == Some(modalities),
{
    let items = modalities_json(modalities)->Array_0;
    assert forall|i: int| 0 <= i < items.len() implies Modality::of_json(#[trigger] items[i])
        == Some(modalities[i]) by {
        Modality::lemma_json_round_trip(modalities[i]);
    }
    assert(modalities_of_json(modalities_json(modalities)).unwrap() =~= modalities);
}

/// Server-side voice-activity detection: when a spoken turn starts and ends,
/// and what the peer does then.
#[derive(Debug, PartialEq, Eq)]
pub struct TurnDetection {
    /// The detection mode.
    pub td_type: String,
    /// The energy above which sound counts as speech.
    pub threshold: Number,
    /// Audio kept from before speech was detected, in milliseconds.
    pub prefix_padding_ms: i64,
    /// Silence that ends a turn, in milliseconds.
    pub silence_duration_ms: i64,
    /// Whether the end of a turn starts a response.
    pub create_response: bool,
    /// Whether the start of a turn cuts a response short.
    pub interrupt_response: bool,
}

/// What a [`TurnDetection`] is, over sequences: the value that contracts speak of.
pub struct TurnDetectionView {
    pub td_type: Seq<char>,
    pub threshold: NumberView,
    pub prefix_padding_ms: i64,
    pub silence_duration_ms: i64,
    pub create_response: bool,
    pub interrupt_response: bool,
}

impl View for TurnDetection {
    type V = TurnDetectionView;

    open spec fn view(&self) -> TurnDetectionView {
        TurnDetectionView {
            td_type: self.td_type@,
            threshold: self.threshold@,
            prefix_padding_ms: self.prefix_padding_ms,
            silence_duration_ms: self.silence_duration_ms,
            create_response: self.create_response,
            interrupt_response: self.interrupt_response,
        }
    }
}

impl DeepView for TurnDetection {
    type V = TurnDetectionView;

    open spec fn deep_view(&self) -> TurnDetectionView {
        self@
    }
}

impl Clone for TurnDetection {
    fn clone(&self) -> (copy: TurnDetection)
        ensures
            copy@ == self@,
    {
        TurnDetection {
            td_type: self.td_type.clone(),
            threshold: self.threshold.clone(),
            prefix_padding_ms: self.prefix_padding_ms,
            silence_duration_ms: self.silence_duration_ms,
            create_response: self.create_response,
            interrupt_response: self.interrupt_response,
        }
    }
}

impl TurnDetectionView {
    /// The JSON object that states it.
    pub open spec fn json(self) -> JsonView {
        JsonView::Object(
            entry("type"@, Some(JsonView::Str(self.td_type))) + entry(
                "threshold"@,
                Some(JsonView::Number(self.threshold)),
            ) + entry(
                "prefix_padding_ms"@,
                Some(JsonView::Number(NumberView::Int(self.prefix_padding_ms))),
            ) + entry(
                "silence_duration_ms"@,
                Some(JsonView::Number(NumberView::Int(self.silence_duration_ms))),
            ) + entry("create_response"@, Some(JsonView::Bool(self.create_response))) + entry(
                "interrupt_response"@,
                Some(JsonView::Bool(self.interrupt_response)),
            ),
        )
    }
}

impl TurnDetection {
    /// What a JSON value states: it must hold each of the six members with
    /// its kind of value; members it holds besides are passed over.
    pub open spec fn of_json(value: JsonView) -> Option<TurnDetectionView> {
        if value.text_at("type"@) is Some && value.number_at("threshold"@) is Some && value.int_at(
            "prefix_padding_ms"@,
        ) is Some && value.int_at("silence_duration_ms"@) is Some && value.flag_at(
            "create_response"@,
        ) is Some && value.flag_at("interrupt_response"@) is Some {
            Some(
                TurnDetectionView {
                    td_type: value.text_at("type"@).unwrap(),
                    threshold: value.number_at("threshold"@).unwrap(),
                    prefix_padding_ms: value.int_at("prefix_padding_ms"@).unwrap(),
                    silence_duration_ms: value.int_at("silence_duration_ms"@).unwrap(),
                    create_response: value.flag_at("create_response"@).unwrap(),
                    interrupt_response: value.flag_at("interrupt_response"@).unwrap(),
                },
            )
        } else {
            None
        }
    }

    /// States it as JSON.
    pub fn to_json(&self) -> (json: Json)
        ensures
            json@ == self@.json(),
    {
        let mut members: Vec<(String, Json)> = Vec::new();
        add_member(&mut members, "type", Json::text(self.td_type.as_str()));
        add_member(&mut members, "threshold", Json::Number(self.threshold.clone()));
        add_member(&mut members, "prefix_padding_ms", Json::whole(self.prefix_padding_ms));
        add_member(&mut members, "silence_duration_ms", Json::whole(self.silence_duration_ms));
        add_member(&mut members, "create_response", Json::Bool(self.create_response));
        add_member(&mut members, "interrupt_response", Json::Bool(self.interrupt_response));
        assert(members.deep_view() =~= self@.json()->Object_0);
        Json::object(members)
    }

    /// Reads it from JSON, where the value states one.
    pub fn from_json(json: &Json) -> (found: Option<TurnDetection>)
        ensures
            match found {
                Some(it) => TurnDetection::of_json(json@) == Some(it@),
                None => TurnDetection::of_json(json@) is None,
            },
    {
        let td_type = match json.text_at("type") {
            Some(x) => x,
            None => return None,
        };
        let threshold = match json.number_at("threshold") {
            Some(x) => x,
            None => return None,
        };
        let prefix_padding_ms = match json.int_at("prefix_padding_ms") {
            Some(x) => x,
            None => return None,
        };
        let silence_duration_ms = match json.int_at("silence_duration_ms") {
            Some(x) => x,
            None => return None,
        };
        let create_response = match json.flag_at("create_response") {
            Some(x) => x,
            None => return None,
        };
        let interrupt_response = match json.flag_at("interrupt_response") {
            Some(x) => x,
            None => return None,
        };
        Some(
            TurnDetection {
                td_type,
                threshold,
                prefix_padding_ms,
                silence_duration_ms,
                create_response,
                interrupt_response,
            },
        )
    }

    /// Reading the JSON object that states a policy gives that policy back.
    pub proof fn lemma_json_round_trip(it: TurnDetectionView)
        ensures
            TurnDetection::of_json(it.json()) == Some(it),
    {
        broadcast use {lemma_member_of_joined, lemma_member_of_entry};

        reveal_strlit("type");
        reveal_strlit("threshold");
        reveal_strlit("prefix_padding_ms");
        reveal_strlit("silence_duration_ms");
        reveal_strlit("create_response");
        reveal_strlit("interrupt_response");
        assert("type"@.len() == 4);
        assert("threshold"@.len() == 9);
        assert("prefix_padding_ms"@.len() == 17);
        assert("silence_duration_ms"@.len() == 19);
        assert("create_response"@.len() == 15);
        assert("interrupt_response"@.len() == 18);
    }
}

/// The member value of an optional field: what `write` makes of the value,
/// where there is one.
pub open spec fn stated<T>(value: Option<T>, write: spec_fn(T) -> JsonView) -> Option<JsonView> {
    match value {
        Some(x) => Some(write(x)),
        None => None,
    }
}

/// The text of a JSON string.
pub fn text_from_json(json: &Json) -> (text: Option<String>)
    ensures
        opt_view(text) == json@.as_text(),
{
    match json.as_str() {
        Some(t) => Some(t.to_owned()),
        None => None,
    }
}

/// The number that a JSON value is.
pub fn number_from_json(json: &Json) -> (number: Option<Number>)
    ensures
        opt_view(number) == json@.as_number(),
{
    match json.as_number() {
        Some(n) => Some(n.clone()),
        None => None,
    }
}

/// A change of session configuration: each value that is set replaces the
/// peer's, each one left unset keeps it.
#[derive(Debug, PartialEq, Eq)]
pub struct SessionUpdateEvent {
    /// The channels a response may use.
    pub modalities: Option<Vec<Modality>>,
    /// The standing instructions; an empty text clears them.
    pub instructions: Option<String>,
    /// The voice that speaks.
    pub voice: Option<Voice>,
    /// The layout of the audio that comes back.
    pub output_audio_format: Option<AudioFormat>,
    /// The layout of the audio that is sent.
    pub input_audio_format: Option<AudioFormat>,
    /// The sampling temperature.
    pub temperature: Option<Number>,
    /// The speaking speed.
    pub speed: Option<Number>,
    /// How the session is traced.
    pub tracing: Option<Tracing>,
    /// How tools are picked.
    pub tool_choice: Option<ToolChoice>,
    /// The turn-detection policy.
    pub turn_detection: Option<TurnDetection>,
}

/// What a [`SessionUpdateEvent`] is, over sequences: the value that contracts speak of.
pub struct SessionUpdateEventView {
    pub modalities: Option<Seq<Modality>>,
    pub instructions: Option<Seq<char>>,
    pub voice: Option<Voice>,
    pub output_audio_format: Option<AudioFormat>,
    pub input_audio_format: Option<AudioFormat>,
    pub temperature: Option<NumberView>,
    pub speed: Option<NumberView>,
    pub tracing: Option<Tracing>,
    pub tool_choice: Option<ToolChoice>,
    pub turn_detection: Option<TurnDetectionView>,
}

impl View for SessionUpdateEvent {
    type V = SessionUpdateEventView;

    open spec fn view(&self) -> SessionUpdateEventView {
        SessionUpdateEventView {
            modalities: opt_view(self.modalities),
            instructions: opt_view(self.instructions),
            voice: opt_view(self.voice),
            output_audio_format: opt_view(self.output_audio_format),
            input_audio_format: opt_view(self.input_audio_format),
            temperature: opt_view(self.temperature),
            speed: opt_view(self.speed),
            tracing: opt_view(self.tracing),
            tool_choice: opt_view(self.tool_choice),
            turn_detection: opt_view(self.turn_detection),
        }
    }
}

impl DeepView for SessionUpdateEvent {
    type V = SessionUpdateEventView;

    open spec fn deep_view(&self) -> SessionUpdateEventView {
        self@
    }
}

impl Default for SessionUpdateEvent {
    fn default() -> (it: SessionUpdateEvent)
        ensures
            it@ == (SessionUpdateEventView {
                modalities: None,
                instructions: None,
                voice: None,
                output_audio_format: None,
                input_audio_format: None,
                temperature: None,
                speed: None,
                tracing: None,
                tool_choice: None,
                turn_detection: None,
            }),
    {
        SessionUpdateEvent {
            modalities: None,
            instructions: None,
            voice: None,
            output_audio_format: None,
            input_audio_format: None,
            temperature: None,
            speed: None,
            tracing: None,
            tool_choice: None,
            turn_detection: None,
        }
    }
}

impl SessionUpdateEventView {
    /// The JSON object that states it: one member for each value that is
    /// set, in the order of the fields.
    pub open spec fn json(self) -> JsonView {
        JsonView::Object(
            entry("modalities"@, stated(self.modalities, |x: Seq<Modality>| modalities_json(x)))
                + entry("instructions"@, stated(self.instructions, |x: Seq<char>| JsonView::Str(x)))
                + entry("voice"@, stated(self.voice, |x: Voice| x.json()))
                + entry("output_audio_format"@, stated(self.output_audio_format, |x: AudioFormat| x.json()))
                + entry("input_audio_format"@, stated(self.input_audio_format, |x: AudioFormat| x.json()))
                + entry("temperature"@, stated(self.temperature, |x: NumberView| JsonView::Number(x)))
                + entry("speed"@, stated(self.speed, |x: NumberView| JsonView::Number(x)))
                + entry("tracing"@, stated(self.tracing, |x: Tracing| x.json()))
                + entry("tool_choice"@, stated(self.tool_choice, |x: ToolChoice| x.json()))
                + entry("turn_detection"@, stated(self.turn_detection, |x: TurnDetectionView| x.json())),
        )
    }
}

impl SessionUpdateEvent {
    /// What a JSON value states: it must be an object; a member that is
    /// absent or `null` leaves its value unset, one that is there must read
    /// as its kind of value; members of other names are passed over.
    pub open spec fn of_json(value: JsonView) -> Option<SessionUpdateEventView> {
        if value is Object
            && SessionUpdateEvent::modalities_in(value) is Some
            && SessionUpdateEvent::instructions_in(value) is Some
            && SessionUpdateEvent::voice_in(value) is Some
            && SessionUpdateEvent::output_audio_format_in(value) is Some
            && SessionUpdateEvent::input_audio_format_in(value) is Some
            && SessionUpdateEvent::temperature_in(value) is Some
            && SessionUpdateEvent::speed_in(value) is Some
            && SessionUpdateEvent::tracing_in(value) is Some
            && SessionUpdateEvent::tool_choice_in(value) is Some
            && SessionUpdateEvent::turn_detection_in(value) is Some {
            Some(
                SessionUpdateEventView {
                    modalities: SessionUpdateEvent::modalities_in(value).unwrap(),
                    instructions: SessionUpdateEvent::instructions_in(value).unwrap(),
                    voice: SessionUpdateEvent::voice_in(value).unwrap(),
                    output_audio_format: SessionUpdateEvent::output_audio_format_in(value).unwrap(),
                    input_audio_format: SessionUpdateEvent::input_audio_format_in(value).unwrap(),
                    temperature: SessionUpdateEvent::temperature_in(value).unwrap(),
                    speed: SessionUpdateEvent::speed_in(value).unwrap(),
                    tracing: SessionUpdateEvent::tracing_in(value).unwrap(),
                    tool_choice: SessionUpdateEvent::tool_choice_in(value).unwrap(),
                    turn_detection: SessionUpdateEvent::turn_detection_in(value).unwrap(),
                },
            )
        } else {
            None
        }
    }

    /// What the member `modalities` gives for this field.
    pub open spec fn modalities_in(value: JsonView) -> Option<Option<Seq<Modality>>> {
        optional_as(value.optional("modalities"@), |j: JsonView| modalities_of_json(j))
    }

    /// What the member `instructions` gives for this field.
    pub open spec fn instructions_in(value: JsonView) -> Option<Option<Seq<char>>> {
        optional_as(value.optional("instructions"@), |j: JsonView| j.as_text())
    }

    /// What the member `voice` gives for this field.
    pub open spec fn voice_in(value: JsonView) -> Option<Option<Voice>> {
        optional_as(value.optional("voice"@), |j: JsonView| Voice::of_json(j))
    }

    /// What the member `output_audio_format` gives for this field.
    pub open spec fn output_audio_format_in(value: JsonView) -> Option<Option<AudioFormat>> {
        optional_as(value.optional("output_audio_format"@), |j: JsonView| AudioFormat::of_json(j))
    }

    /// What the member `input_audio_format` gives for this field.
    pub open spec fn input_audio_format_in(value: JsonView) -> Option<Option<AudioFormat>> {
        optional_as(value.optional("input_audio_format"@), |j: JsonView| AudioFormat::of_json(j))
    }

    /// What the member `temperature` gives for this field.
    pub open spec fn temperature_in(value: JsonView) -> Option<Option<NumberView>> {
        optional_as(value.optional("temperature"@), |j: JsonView| j.as_number())
    }

    /// What the member `speed` gives for this field.
    pub open spec fn speed_in(value: JsonView) -> Option<Option<NumberView>> {
        optional_as(value.optional("speed"@), |j: JsonView| j.as_number())
    }

    /// What the member `tracing` gives for this field.
    pub open spec fn tracing_in(value: JsonView) -> Option<Option<Tracing>> {
        optional_as(value.optional("tracing"@), |j: JsonView| Tracing::of_json(j))
    }

    /// What the member `tool_choice` gives for this field.
    pub open spec fn tool_choice_in(value: JsonView) -> Option<Option<ToolChoice>> {
        optional_as(value.optional("tool_choice"@), |j: JsonView| ToolChoice::of_json(j))
    }

    /// What the member `turn_detection` gives for this field.
    pub open spec fn turn_detection_in(value: JsonView) -> Option<Option<TurnDetectionView>> {
        optional_as(value.optional("turn_detection"@), |j: JsonView| TurnDetection::of_json(j))
    }

    /// States it as JSON.
    pub fn to_json(&self) -> (json: Json)
        ensures
            json@ == self@.json(),
    {
        let mut members: Vec<(String, Json)> = Vec::new();
        let modalities = match &self.modalities {
            Some(x) => Some(modalities_to_json(x)),
            None => None,
        };
        put_member(&mut members, "modalities", modalities);
        assert(members.deep_view() =~= entry("modalities"@, stated(self@.modalities, |x: Seq<Modality>| modalities_json(x))));
        let instructions = match &self.instructions {
            Some(x) => Some(Json::text(x.as_str())),
            None => None,
        };
        put_member(&mut members, "instructions", instructions);
        let voice = match &self.voice {
            Some(x) => Some(x.to_json()),
            None => None,
        };
        put_member(&mut members, "voice", voice);
        let output_audio_format = match &self.output_audio_format {
            Some(x) => Some(x.to_json()),
            None => None,
        };
        put_member(&mut members, "output_audio_format", output_audio_format);
        let input_audio_format = match &self.input_audio_format {
            Some(x) => Some(x.to_json()),
            None => None,
        };
        put_member(&mut members, "input_audio_format", input_audio_format);
        let temperature = match &self.temperature {
            Some(x) => Some(Json::Number(x.clone())),
            None => None,
        };
        put_member(&mut members, "temperature", temperature);
        let speed = match &self.speed {
            Some(x) => Some(Json::Number(x.clone())),
            None => None,
        };
        put_member(&mut members, "speed", speed);
        let tracing = match &self.tracing {
            Some(x) => Some(x.to_json()),
            None => None,
        };
        put_member(&mut members, "tracing", tracing);
        let tool_choice = match &self.tool_choice {
            Some(x) => Some(x.to_json()),
            None => None,
        };
        put_member(&mut members, "tool_choice", tool_choice);
        let turn_detection = match &self.turn_detection {
            Some(x) => Some(x.to_json()),
            None => None,
        };
        put_member(&mut members, "turn_detection", turn_detection);
        Json::object(members)
    }

    /// Reads it from JSON, where the value states one.
    pub fn from_json(json: &Json) -> (found: Option<SessionUpdateEvent>)
        ensures
            match found {
                Some(it) => SessionUpdateEvent::of_json(json@) == Some(it@),
                None => SessionUpdateEvent::of_json(json@) is None,
            },
    {
        if !json.is_object() {
            return None;
        }
        let modalities = match json.optional("modalities") {
            None => None,
            Some(v) => match modalities_from_json(v) {
                Some(x) => Some(x),
                None => return None,
            },
        };
        let instructions = match json.optional("instructions") {
            None => None,
            Some(v) => match text_from_json(v) {
                Some(x) => Some(x),
                None => return None,
            },
        };
        let voice = match json.optional("voice") {
            None => None,
            Some(v) => match Voice::from_json(v) {
                Some(x) => Some(x),
                None => return None,
            },
        };
        let output_audio_format = match json.optional("output_audio_format") {
            None => None,
            Some(v) => match AudioFormat::from_json(v) {
                Some(x) => Some(x),
                None => return None,
            },
        };
        let input_audio_format = match json.optional("input_audio_format") {
            None => None,
            Some(v) => match AudioFormat::from_json(v) {
                Some(x) => Some(x),
                None => return None,
            },
        };
        let temperature = match json.optional("temperature") {
            None => None,
            Some(v) => match number_from_json(v) {
                Some(x) => Some(x),
                None => return None,
            },
        };
        let speed = match json.optional("speed") {
            None => None,
            Some(v) => match number_from_json(v) {
                Some(x) => Some(x),
                None => return None,
            },
        };
        let tracing = match json.optional("tracing") {
            None => None,
            Some(v) => match Tracing::from_json(v) {
                Some(x) => Some(x),
                None => return None,
            },
        };
        let tool_choice = match json.optional("tool_choice") {
            None => None,
            Some(v) => match ToolChoice::from_json(v) {
                Some(x) => Some(x),
                None => return None,
            },
        };
        let turn_detection = match json.optional("turn_detection") {
            None => None,
            Some(v) => match TurnDetection::from_json(v) {
                Some(x) => Some(x),
                None => return None,
            },
        };
        Some(SessionUpdateEvent { modalities, instructions, voice, output_audio_format, input_audio_format, temperature, speed, tracing, tool_choice, turn_detection })
    }

}

impl SessionUpdateEvent {
    /// The member names are told apart by their length and first letters.
    proof fn lemma_names_differ()
        ensures
            "modalities"@.len() == 10 && "modalities"@[0] == 'm' && "modalities"@[1] == 'o',
            "instructions"@.len() == 12 && "instructions"@[0] == 'i' && "instructions"@[1] == 'n',
            "voice"@.len() == 5 && "voice"@[0] == 'v' && "voice"@[1] == 'o',
            "output_audio_format"@.len() == 19 && "output_audio_format"@[0] == 'o' && "output_audio_format"@[1] == 'u',
            "input_audio_format"@.len() == 18 && "input_audio_format"@[0] == 'i' && "input_audio_format"@[1] == 'n',
            "temperature"@.len() == 11 && "temperature"@[0] == 't' && "temperature"@[1] == 'e',
            "speed"@.len() == 5 && "speed"@[0] == 's' && "speed"@[1] == 'p',
            "tracing"@.len() == 7 && "tracing"@[0] == 't' && "tracing"@[1] == 'r',
            "tool_choice"@.len() == 11 && "tool_choice"@[0] == 't' && "tool_choice"@[1] == 'o',
            "turn_detection"@.len() == 14 && "turn_detection"@[0] == 't' && "turn_detection"@[1] == 'u',
    {
        reveal_strlit("modalities");
        reveal_strlit("instructions");
        reveal_strlit("voice");
        reveal_strlit("output_audio_format");
        reveal_strlit("input_audio_format");
        reveal_strlit("temperature");
        reveal_strlit("speed");
        reveal_strlit("tracing");
        reveal_strlit("tool_choice");
        reveal_strlit("turn_detection");
    }

    /// Each member of the JSON object that states a change is the value of
    /// its field, where that is set, and is absent where it is not.
    pub proof fn lemma_members(it: SessionUpdateEventView)
        ensures
            it.json().optional("modalities"@) == stated(it.modalities, |x: Seq<Modality>| modalities_json(x)),
            it.json().optional("instructions"@) == stated(it.instructions, |x: Seq<char>| JsonView::Str(x)),
            it.json().optional("voice"@) == stated(it.voice, |x: Voice| x.json()),
            it.json().optional("output_audio_format"@) == stated(it.output_audio_format, |x: AudioFormat| x.json()),
            it.json().optional("input_audio_format"@) == stated(it.input_audio_format, |x: AudioFormat| x.json()),
            it.json().optional("temperature"@) == stated(it.temperature, |x: NumberView| JsonView::Number(x)),
            it.json().optional("speed"@) == stated(it.speed, |x: NumberView| JsonView::Number(x)),
            it.json().optional("tracing"@) == stated(it.tracing, |x: Tracing| x.json()),
            it.json().optional("tool_choice"@) == stated(it.tool_choice, |x: ToolChoice| x.json()),
            it.json().optional("turn_detection"@) == stated(it.turn_detection, |x: TurnDetectionView| x.json()),
    {
        SessionUpdateEvent::lemma_names_differ();
        let json = it.json();
        assert(json.optional("modalities"@) == stated(it.modalities, |x: Seq<Modality>| modalities_json(x))) by {
            broadcast use {lemma_member_of_joined, lemma_member_of_entry};

        }
        assert(json.optional("instructions"@) == stated(it.instructions, |x: Seq<char>| JsonView::Str(x))) by {
            broadcast use {lemma_member_of_joined, lemma_member_of_entry};

        }
        assert(json.optional("voice"@) == stated(it.voice, |x: Voice| x.json())) by {
            broadcast use {lemma_member_of_joined, lemma_member_of_entry};

        }
        assert(json.optional("output_audio_format"@) == stated(it.output_audio_format, |x: AudioFormat| x.json())) by {
            broadcast use {lemma_member_of_joined, lemma_member_of_entry};

        }
        assert(json.optional("input_audio_format"@) == stated(it.input_audio_format, |x: AudioFormat| x.json())) by {
            broadcast use {lemma_member_of_joined, lemma_member_of_entry};

        }
        assert(json.optional("temperature"@) == stated(it.temperature, |x: NumberView| JsonView::Number(x))) by {
            broadcast use {lemma_member_of_joined, lemma_member_of_entry};

        }
        assert(json.optional("speed"@) == stated(it.speed, |x: NumberView| JsonView::Number(x))) by {
            broadcast use {lemma_member_of_joined, lemma_member_of_entry};

        }
        assert(json.optional("tracing"@) == stated(it.tracing, |x: Tracing| x.json())) by {
            broadcast use {lemma_member_of_joined, lemma_member_of_entry};

        }
        assert(json.optional("tool_choice"@) == stated(it.tool_choice, |x: ToolChoice| x.json())) by {
            broadcast use {lemma_member_of_joined, lemma_member_of_entry};

        }
        assert(json.optional("turn_detection"@) == stated(it.turn_detection, |x: TurnDetectionView| x.json())) by {
            broadcast use {lemma_member_of_joined, lemma_member_of_entry};

        }
    }

    /// Reading the JSON object that states a change gives that change back:
    /// each value that was set, and nothing for each that was not.
    pub proof fn lemma_json_round_trip(it: SessionUpdateEventView)
        ensures
            SessionUpdateEvent::of_json(it.json()) == Some(it),
    {
        SessionUpdateEvent::lemma_members(it);
        let json = it.json();
        assert(SessionUpdateEvent::modalities_in(json) == Some(it.modalities)) by {
            if let Some(x) = it.modalities {
                lemma_modalities_round_trip(x);
            }
        }
        assert(SessionUpdateEvent::instructions_in(json) == Some(it.instructions)) by {
        }
        assert(SessionUpdateEvent::voice_in(json) == Some(it.voice)) by {
            if let Some(x) = it.voice {
                Voice::lemma_json_round_trip(x);
            }
        }
        assert(SessionUpdateEvent::output_audio_format_in(json) == Some(it.output_audio_format)) by {
            if let Some(x) = it.output_audio_format {
                AudioFormat::lemma_json_round_trip(x);
            }
        }
        assert(SessionUpdateEvent::input_audio_format_in(json) == Some(it.input_audio_format)) by {
            if let Some(x) = it.input_audio_format {
                AudioFormat::lemma_json_round_trip(x);
            }
        }
        assert(SessionUpdateEvent::temperature_in(json) == Some(it.temperature)) by {
        }
        assert(SessionUpdateEvent::speed_in(json) == Some(it.speed)) by {
        }
        assert(SessionUpdateEvent::tracing_in(json) == Some(it.tracing)) by {
            if let Some(x) = it.tracing {
                Tracing::lemma_json_round_trip(x);
            }
        }
        assert(SessionUpdateEvent::tool_choice_in(json) == Some(it.tool_choice)) by {
            if let Some(x) = it.tool_choice {
                ToolChoice::lemma_json_round_trip(x);
            }
        }
        assert(SessionUpdateEvent::turn_detection_in(json) == Some(it.turn_detection)) by {
            if let Some(x) = it.turn_detection {
                TurnDetection::lemma_json_round_trip(x);
            }
        }
    }
}

/// What a required member holds: its reading, where the member is there and
/// `read` accepts it.
pub open spec fn required_as<T>(value: Option<JsonView>, read: spec_fn(JsonView) -> Option<T>) -> Option<T> {
    match value {
        Some(v) => read(v),
        None => None,
    }
}

/// A tool definition. None of its content is read.
#[derive(Clone, Copy, Debug, PartialEq, Eq, Structural)]
pub struct Tool {}

impl View for Tool {
    type V = Tool;

    open spec fn view(&self) -> Tool {
        *self
    }
}

impl Tool {
    /// What a JSON value states: any object stands for the tools, and so
    /// does a list without items.
    pub open spec fn of_json(value: JsonView) -> Option<Tool> {
        match value {
            JsonView::Object(_) => Some(Tool {}),
            JsonView::Array(items) => if items.len() == 0 {
                Some(Tool {})
            } else {
                None
            },
            _ => None,
        }
    }

    /// Reads it from JSON, where the value states one.
    pub fn from_json(json: &Json) -> (found: Option<Tool>)
        ensures
            found == Tool::of_json(json@),
    {
        match json {
            Json::Object(_) => Some(Tool {}),
            Json::Array(items) => if items.len() == 0 {
                Some(Tool {})
            } else {
                None
            },
            _ => None,
        }
    }
}

/// A short-lived credential.
#[derive(Clone, Debug, PartialEq, Eq)]
pub struct ClientSecret {
    /// The secret itself.
    pub value: String,
    /// When it stops being valid, in seconds since the epoch.
    pub expires_at: i64,
}

/// What a [`ClientSecret`] is, over sequences: the value that contracts speak of.
pub struct ClientSecretView {
    pub value: Seq<char>,
    pub expires_at: i64,
}

impl View for ClientSecret {
    type V = ClientSecretView;

    open spec fn view(&self) -> ClientSecretView {
        ClientSecretView {
            value: self.value@,
            expires_at: self.expires_at@,
        }
    }
}

impl DeepView for ClientSecret {
    type V = ClientSecretView;

    open spec fn deep_view(&self) -> ClientSecretView {
        self@
    }
}

impl ClientSecret {
    /// What a JSON value states: it must hold both members with their kind of
    /// value; members it holds besides are passed over.
    pub open spec fn of_json(value: JsonView) -> Option<ClientSecretView> {
        if ClientSecret::value_in(value) is Some
            && ClientSecret::expires_at_in(value) is Some {
            Some(
                ClientSecretView {
                    value: ClientSecret::value_in(value).unwrap(),
                    expires_at: ClientSecret::expires_at_in(value).unwrap(),
                },
            )
        } else {
            None
        }
    }

    /// What the member `value` gives for this field.
    pub open spec fn value_in(value: JsonView) -> Option<Seq<char>> {
        required_as(value.get("value"@), |j: JsonView| j.as_text())
    }

    /// What the member `expires_at` gives for this field.
    pub open spec fn expires_at_in(value: JsonView) -> Option<i64> {
        required_as(value.get("expires_at"@), |j: JsonView| j.as_int())
    }

    /// Reads it from JSON, where the value states one.
    pub fn from_json(json: &Json) -> (found: Option<ClientSecret>)
        ensures
            match found {
                Some(it) => ClientSecret::of_json(json@) == Some(it@),
                None => ClientSecret::of_json(json@) is None,
            },
    {
        let value = match json.get("value") {
            Some(v) => match text_from_json(v) {
                Some(x) => x,
                None => return None,
            },
            None => return None,
        };
        let expires_at = match json.get("expires_at") {
            Some(v) => match v.as_i64() {
                Some(x) => x,
                None => return None,
            },
            None => return None,
        };
        Some(
            ClientSecret {
                value,
                expires_at,
            },
        )
    }
}

/// What the peer says a session is: its identity, its expiry and the
/// configuration it has taken.
#[derive(Clone, Debug, PartialEq, Eq)]
pub struct Session {
    /// The identity the peer gave the session.
    pub id: String,
    /// The kind of object this is.
    pub object: String,
    /// When the session ends, in seconds since the epoch.
    pub expires_at: i64,
    /// Noise reduction on the audio sent, as the peer states it.
    pub input_audio_noise_reduction: Option<Json>,
    /// The turn-detection policy.
    pub turn_detection: TurnDetection,
    /// The layout of the audio that is sent.
    pub input_audio_format: AudioFormat,
    /// Transcription of the audio sent, as the peer states it.
    pub input_audio_transcription: Option<Json>,
    /// What responses carry besides, as the peer states it.
    pub included: Json,
    /// The model that answers.
    pub model: String,
    /// The channels a response may use.
    pub modalities: Vec<Modality>,
    /// The standing instructions.
    pub instructions: String,
    /// The voice that speaks.
    pub voice: Voice,
    /// The layout of the audio that comes back.
    pub output_audio_format: AudioFormat,
    /// How tools are picked.
    pub tool_choice: ToolChoice,
    /// The sampling temperature.
    pub temperature: Number,
    /// The bound on a response, as the peer states it.
    pub max_response_output_tokens: Json,
    /// The speaking speed.
    pub speed: Number,
    /// Tracing, as the peer states it.
    pub tracing: Json,
    /// The tools on offer.
    pub tools: Tool,
    /// A short-lived credential, where one was asked for.
    pub client_secret: Option<ClientSecret>,
}

/// What a [`Session`] is, over sequences: the value that contracts speak of.
pub struct SessionView {
    pub id: Seq<char>,
    pub object: Seq<char>,
    pub expires_at: i64,
    pub input_audio_noise_reduction: Option<JsonView>,
    pub turn_detection: TurnDetectionView,
    pub input_audio_format: AudioFormat,
    pub input_audio_transcription: Option<JsonView>,
    pub included: JsonView,
    pub model: Seq<char>,
    pub modalities: Seq<Modality>,
    pub instructions: Seq<char>,
    pub voice: Voice,
    pub output_audio_format: AudioFormat,
    pub tool_choice: ToolChoice,
    pub temperature: NumberView,
    pub max_response_output_tokens: JsonView,
    pub speed: NumberView,
    pub tracing: JsonView,
    pub tools: Tool,
    pub client_secret: Option<ClientSecretView>,
}

impl View for Session {
    type V = SessionView;

    open spec fn view(&self) -> SessionView {
        SessionView {
            id: self.id@,
            object: self.object@,
            expires_at: self.expires_at@,
            input_audio_noise_reduction: opt_view(self.input_audio_noise_reduction),
            turn_detection: self.turn_detection@,
            input_audio_format: self.input_audio_format@,
            input_audio_transcription: opt_view(self.input_audio_transcription),
            included: self.included@,
            model: self.model@,
            modalities: self.modalities@,
            instructions: self.instructions@,
            voice: self.voice@,
            output_audio_format: self.output_audio_format@,
            tool_choice: self.tool_choice@,
            temperature: self.temperature@,
            max_response_output_tokens: self.max_response_output_tokens@,
            speed: self.speed@,
            tracing: self.tracing@,
            tools: self.tools@,
            client_secret: opt_view(self.client_secret),
        }
    }
}

impl DeepView for Session {
    type V = SessionView;

    open spec fn deep_view(&self) -> SessionView {
        self@
    }
}

impl Session {
    /// Whether a member of this name belongs to the object.
    pub open spec fn is_field(name: Seq<char>) -> bool {
        name == "id"@
            || name == "object"@
            || name == "expires_at"@
            || name == "input_audio_noise_reduction"@
            || name == "turn_detection"@
            || name == "input_audio_format"@
            || name == "input_audio_transcription"@
            || name == "include"@
            || name == "model"@
            || name == "modalities"@
            || name == "instructions"@
            || name == "voice"@
            || name == "output_audio_format"@
            || name == "tool_choice"@
            || name == "temperature"@
            || name == "max_response_output_tokens"@
            || name == "speed"@
            || name == "tracing"@
            || name == "tools"@
            || name == "client_secret"@
    }

    /// Whether a value is an object that holds no member of another name.
    pub open spec fn only_fields(value: JsonView) -> bool {
        match value {
            JsonView::Object(members) => forall|i: int|
                0 <= i < members.len() ==> #[trigger] Session::is_field(members[i].0),
            _ => false,
        }
    }

    /// What a JSON value states: it must be an object with no member of another
    /// name, holding each required member with its kind of value. An optional
    /// member that is absent or `null` leaves its value unset.
    pub open spec fn of_json(value: JsonView) -> Option<SessionView> {
        if Session::only_fields(value)
            && Session::id_in(value) is Some
            && Session::object_in(value) is Some
            && Session::expires_at_in(value) is Some
            && Session::input_audio_noise_reduction_in(value) is Some
            && Session::turn_detection_in(value) is Some
            && Session::input_audio_format_in(value) is Some
            && Session::input_audio_transcription_in(value) is Some
            && Session::included_in(value) is Some
            && Session::model_in(value) is Some
            && Session::modalities_in(value) is Some
            && Session::instructions_in(value) is Some
            && Session::voice_in(value) is Some
            && Session::output_audio_format_in(value) is Some
            && Session::tool_choice_in(value) is Some
            && Session::temperature_in(value) is Some
            && Session::max_response_output_tokens_in(value) is Some
            && Session::speed_in(value) is Some
            && Session::tracing_in(value) is Some
            && Session::tools_in(value) is Some
            && Session::client_secret_in(value) is Some {
            Some(
                SessionView {
                    id: Session::id_in(value).unwrap(),
                    object: Session::object_in(value).unwrap(),
                    expires_at: Session::expires_at_in(value).unwrap(),
                    input_audio_noise_reduction: Session::input_audio_noise_reduction_in(value).unwrap(),
                    turn_detection: Session::turn_detection_in(value).unwrap(),
                    input_audio_format: Session::input_audio_format_in(value).unwrap(),
                    input_audio_transcription: Session::input_audio_transcription_in(value).unwrap(),
                    included: Session::included_in(value).unwrap(),
                    model: Session::model_in(value).unwrap(),
                    modalities: Session::modalities_in(value).unwrap(),
                    instructions: Session::instructions_in(value).unwrap(),
                    voice: Session::voice_in(value).unwrap(),
                    output_audio_format: Session::output_audio_format_in(value).unwrap(),
                    tool_choice: Session::tool_choice_in(value).unwrap(),
                    temperature: Session::temperature_in(value).unwrap(),
                    max_response_output_tokens: Session::max_response_output_tokens_in(value).unwrap(),
                    speed: Session::speed_in(value).unwrap(),
                    tracing: Session::tracing_in(value).unwrap(),
                    tools: Session::tools_in(value).unwrap(),
                    client_secret: Session::client_secret_in(value).unwrap(),
                },
            )
        } else {
            None
        }
    }

    /// What the member `id` gives for this field.
    pub open spec fn id_in(value: JsonView) -> Option<Seq<char>> {
        required_as(value.get("id"@), |j: JsonView| j.as_text())
    }

    /// What the member `object` gives for this field.
    pub open spec fn object_in(value: JsonView) -> Option<Seq<char>> {
        required_as(value.get("object"@), |j: JsonView| j.as_text())
    }

    /// What the member `expires_at` gives for this field.
    pub open spec fn expires_at_in(value: JsonView) -> Option<i64> {
        required_as(value.get("expires_at"@), |j: JsonView| j.as_int())
    }

    /// What the member `input_audio_noise_reduction` gives for this field.
    pub open spec fn input_audio_noise_reduction_in(value: JsonView) -> Option<Option<JsonView>> {
        optional_as(value.optional("input_audio_noise_reduction"@), |j: JsonView| Some(j))
    }

    /// What the member `turn_detection` gives for this field.
    pub open spec fn turn_detection_in(value: JsonView) -> Option<TurnDetectionView> {
        required_as(value.get("turn_detection"@), |j: JsonView| TurnDetection::of_json(j))
    }

    /// What the member `input_audio_format` gives for this field.
    pub open spec fn input_audio_format_in(value: JsonView) -> Option<AudioFormat> {
        required_as(value.get("input_audio_format"@), |j: JsonView| AudioFormat::of_json(j))
    }

    /// What the member `input_audio_transcription` gives for this field.
    pub open spec fn input_audio_transcription_in(value: JsonView) -> Option<Option<JsonView>> {
        optional_as(value.optional("input_audio_transcription"@), |j: JsonView| Some(j))
    }

    /// What the member `include` gives for this field.
    pub open spec fn included_in(value: JsonView) -> Option<JsonView> {
        required_as(value.get("include"@), |j: JsonView| Some(j))
    }

    /// What the member `model` gives for this field.
    pub open spec fn model_in(value: JsonView) -> Option<Seq<char>> {
        required_as(value.get("model"@), |j: JsonView| j.as_text())
    }

    /// What the member `modalities` gives for this field.
    pub open spec fn modalities_in(value: JsonView) -> Option<Seq<Modality>> {
        required_as(value.get("modalities"@), |j: JsonView| modalities_of_json(j))
    }

    /// What the member `instructions` gives for this field.
    pub open spec fn instructions_in(value: JsonView) -> Option<Seq<char>> {
        required_as(value.get("instructions"@), |j: JsonView| j.as_text())
    }

    /// What the member `voice` gives for this field.
    pub open spec fn voice_in(value: JsonView) -> Option<Voice> {
        required_as(value.get("voice"@), |j: JsonView| Voice::of_json(j))
    }

    /// What the member `output_audio_format` gives for this field.
    pub open spec fn output_audio_format_in(value: JsonView) -> Option<AudioFormat> {
        required_as(value.get("output_audio_format"@), |j: JsonView| AudioFormat::of_json(j))
    }

    /// What the member `tool_choice` gives for this field.
    pub open spec fn tool_choice_in(value: JsonView) -> Option<ToolChoice> {
        required_as(value.get("tool_choice"@), |j: JsonView| ToolChoice::of_json(j))
    }

    /// What the member `temperature` gives for this field.
    pub open spec fn temperature_in(value: JsonView) -> Option<NumberView> {
        required_as(value.get("temperature"@), |j: JsonView| j.as_number())
    }

    /// What the member `max_response_output_tokens` gives for this field.
    pub open spec fn max_response_output_tokens_in(value: JsonView) -> Option<JsonView> {
        required_as(value.get("max_response_output_tokens"@), |j: JsonView| Some(j))
    }

    /// What the member `speed` gives for this field.
    pub open spec fn speed_in(value: JsonView) -> Option<NumberView> {
        required_as(value.get("speed"@), |j: JsonView| j.as_number())
    }

    /// What the member `tracing` gives for this field.
    pub open spec fn tracing_in(value: JsonView) -> Option<JsonView> {
        required_as(value.get("tracing"@), |j: JsonView| Some(j))
    }

    /// What the member `tools` gives for this field.
    pub open spec fn tools_in(value: JsonView) -> Option<Tool> {
        required_as(value.get("tools"@), |j: JsonView| Tool::of_json(j))
    }

    /// What the member `client_secret` gives for this field.
    pub open spec fn client_secret_in(value: JsonView) -> Option<Option<ClientSecretView>> {
        optional_as(value.optional("client_secret"@), |j: JsonView| ClientSecret::of_json(j))
    }

    fn is_field_name(name: &str) -> (known: bool)
        ensures
            known == Session::is_field(name@),
    {
        same_text(name, "id")
            || same_text(name, "object")
            || same_text(name, "expires_at")
            || same_text(name, "input_audio_noise_reduction")
            || same_text(name, "turn_detection")
            || same_text(name, "input_audio_format")
            || same_text(name, "input_audio_transcription")
            || same_text(name, "include")
            || same_text(name, "model")
            || same_text(name, "modalities")
            || same_text(name, "instructions")
            || same_text(name, "voice")
            || same_text(name, "output_audio_format")
            || same_text(name, "tool_choice")
            || same_text(name, "temperature")
            || same_text(name, "max_response_output_tokens")
            || same_text(name, "speed")
            || same_text(name, "tracing")
            || same_text(name, "tools")
            || same_text(name, "client_secret")
    }

    /// One member of another name makes an object fail `only_fields`.
    proof fn lemma_other_name(views: Seq<(Seq<char>, JsonView)>, i: int)
        requires
            0 <= i < views.len(),
            !Session::is_field(views[i].0),
        ensures
            !Session::only_fields(JsonView::Object(views)),
    {
        let value = JsonView::Object(views);
        assert(value->Object_0 == views);
        assert(Session::only_fields(value) ==> Session::is_field(views[i].0));
    }

    fn has_only_fields(json: &Json) -> (only: bool)
        ensures
            only == Session::only_fields(json@),
    {
        match json {
            Json::Object(members) => {
                let ghost views = json@->Object_0;
                let mut i: usize = 0;
                while i < members.len()
                    invariant
                        i <= members.len(),
                        json@ == JsonView::Object(views),
                        views.len() == members.len(),
                        forall|k: int| 0 <= k < views.len() ==> (#[trigger] views[k]).0 == members@[k].0@,
                        forall|k: int| 0 <= k < i ==> #[trigger] Session::is_field(views[k].0),
                    decreases members.len() - i,
                {
                    if !Session::is_field_name(members[i].0.as_str()) {
                        proof {
                            assert(views[i as int].0 == members@[i as int].0@);
                            Session::lemma_other_name(views, i as int);
                        }
                        return false;
                    }
                    i += 1;
                }
                true
            },
            _ => false,
        }
    }

    /// Reads it from JSON, where the value states one.
    pub fn from_json(json: &Json) -> (found: Option<Session>)
        ensures
            match found {
                Some(it) => Session::of_json(json@) == Some(it@),
                None => Session::of_json(json@) is None,
            },
    {
        if !Session::has_only_fields(json) {
            return None;
        }
        let id = match json.get("id") {
            Some(v) => match text_from_json(v) {
                Some(x) => x,
                None => return None,
            },
            None => return None,
        };
        let object = match json.get("object") {
            Some(v) => match text_from_json(v) {
                Some(x) => x,
                None => return None,
            },
            None => return None,
        };
        let expires_at = match json.get("expires_at") {
            Some(v) => match v.as_i64() {
                Some(x) => x,
                None => return None,
            },
            None => return None,
        };
        let input_audio_noise_reduction = match json.optional("input_audio_noise_reduction") {
            None => None,
            Some(v) => match Some(v.clone()) {
                Some(x) => Some(x),
                None => return None,
            },
        };
        let turn_detection = match json.get("turn_detection") {
            Some(v) => match TurnDetection::from_json(v) {
                Some(x) => x,
                None => return None,
            },
            None => return None,
        };
        let input_audio_format = match json.get("input_audio_format") {
            Some(v) => match AudioFormat::from_json(v) {
                Some(x) => x,
                None => return None,
            },
            None => return None,
        };
        let input_audio_transcription = match json.optional("input_audio_transcription") {
            None => None,
            Some(v) => match Some(v.clone()) {
                Some(x) => Some(x),
                None => return None,
            },
        };
        let included = match json.get("include") {
            Some(v) => match Some(v.clone()) {
                Some(x) => x,
                None => return None,
            },
            None => return None,
        };
        let model = match json.get("model") {
            Some(v) => match text_from_json(v) {
                Some(x) => x,
                None => return None,
            },
            None => return None,
        };
        let modalities = match json.get("modalities") {
            Some(v) => match modalities_from_json(v) {
                Some(x) => x,
                None => return None,
            },
            None => return None,
        };
        let instructions = match json.get("instructions") {
            Some(v) => match text_from_json(v) {
                Some(x) => x,
                None => return None,
            },
            None => return None,
        };
        let voice = match json.get("voice") {
            Some(v) => match Voice::from_json(v) {
                Some(x) => x,
                None => return None,
            },
            None => return None,
        };
        let output_audio_format = match json.get("output_audio_format") {
            Some(v) => match AudioFormat::from_json(v) {
                Some(x) => x,
                None => return None,
            },
            None => return None,
        };
        let tool_choice = match json.get("tool_choice") {
            Some(v) => match ToolChoice::from_json(v) {
                Some(x) => x,
                None => return None,
            },
            None => return None,
        };
        let temperature = match json.get("temperature") {
            Some(v) => match number_from_json(v) {
                Some(x) => x,
                None => return None,
            },
            None => return None,
        };
        let max_response_output_tokens = match json.get("max_response_output_tokens") {
            Some(v) => match Some(v.clone()) {
                Some(x) => x,
                None => return None,
            },
            None => return None,
        };
        let speed = match json.get("speed") {
            Some(v) => match number_from_json(v) {
                Some(x) => x,
                None => return None,
            },
            None => return None,
        };
        let tracing = match json.get("tracing") {
            Some(v) => match Some(v.clone()) {
                Some(x) => x,
                None => return None,
            },
            None => return None,
        };
        let tools = match json.get("tools") {
            Some(v) => match Tool::from_json(v) {
                Some(x) => x,
                None => return None,
            },
            None => return None,
        };
        let client_secret = match json.optional("client_secret") {
            None => None,
            Some(v) => match ClientSecret::from_json(v) {
                Some(x) => Some(x),
                None => return None,
            },
        };
        Some(
            Session {
                id,
                object,
                expires_at,
                input_audio_noise_reduction,
                turn_detection,
                input_audio_format,
                input_audio_transcription,
                included,
                model,
                modalities,
                instructions,
                voice,
                output_audio_format,
                tool_choice,
                temperature,
                max_response_output_tokens,
                speed,
                tracing,
                tools,
                client_secret,
            },
        )
    }
}

/// What is asked of the peer when a session is made by a single request.
#[derive(Debug)]
pub struct CreateSessionRequest {
    /// The model that is to answer.
    pub model: Model,
    /// The voice that is to speak.
    pub voice: Voice,
}

/// What a [`CreateSessionRequest`] is, over sequences: the value that contracts speak of.
pub struct CreateSessionRequestView {
    pub model: Seq<char>,
    pub voice: Voice,
}

impl View for CreateSessionRequest {
    type V = CreateSessionRequestView;

    open spec fn view(&self) -> CreateSessionRequestView {
        CreateSessionRequestView { model: self.model@, voice: self.voice }
    }
}

impl CreateSessionRequestView {
    /// The JSON object that states it.
    pub open spec fn json(self) -> JsonView {
        JsonView::Object(
            entry("model"@, Some(JsonView::Str(self.model))) + entry(
                "voice"@,
                Some(self.voice.json()),
            ),
        )
    }
}

impl CreateSessionRequest {
    /// States it as JSON.
    pub fn to_json(&self) -> (json: Json)
        ensures
            json@ == self@.json(),
    {
        let mut members: Vec<(String, Json)> = Vec::new();
        add_member(&mut members, "model", Json::text(self.model.0.as_str()));
        add_member(&mut members, "voice", self.voice.to_json());
        assert(members.deep_view() =~= self@.json()->Object_0);
        Json::object(members)
    }
}

} // verus!
