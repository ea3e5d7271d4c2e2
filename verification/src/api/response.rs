//! The request for a response.

use crate::api::session::{modalities_json, modalities_to_json, stated, Modality};
use crate::api::voice::Voice;
use crate::json::{entry, opt_view, put_member, Json, JsonView};
use vstd::prelude::*;

verus! {

/// A request that the peer start a response, with what it should differ in
/// from the session's configuration.
#[derive(Debug, PartialEq, Eq)]
pub struct ResponseCreateEvent {
    /// The channels the response may use.
    pub modalities: Option<Vec<Modality>>,
    /// Instructions for this response.
    pub instructions: Option<String>,
    /// The voice for this response.
    pub voice: Option<Voice>,
}

/// What a [`ResponseCreateEvent`] is, over sequences: the value that contracts speak of.
pub struct ResponseCreateEventView {
    pub modalities: Option<Seq<Modality>>,
    pub instructions: Option<Seq<char>>,
    pub voice: Option<Voice>,
}

impl View for ResponseCreateEvent {
    type V = ResponseCreateEventView;

    open spec fn view(&self) -> ResponseCreateEventView {
        ResponseCreateEventView {
            modalities: opt_view(self.modalities),
            instructions: opt_view(self.instructions),
            voice: opt_view(self.voice),
        }
    }
}

impl DeepView for ResponseCreateEvent {
    type V = ResponseCreateEventView;

    open spec fn deep_view(&self) -> ResponseCreateEventView {
        self@
    }
}

impl Default for ResponseCreateEvent {
    fn default() -> (it: ResponseCreateEvent)
        ensures
            it@ == (ResponseCreateEventView {
                modalities: None,
                instructions: None,
                voice: None,
            }),
    {
        ResponseCreateEvent {
            modalities: None,
            instructions: None,
            voice: None,
        }
    }
}

impl ResponseCreateEventView {
    /// The JSON object that states it: one member for each value that is
    /// set, in the order of the fields.
    pub open spec fn json(self) -> JsonView {
        JsonView::Object(
            entry("modalities"@, stated(self.modalities, |x: Seq<Modality>| modalities_json(x)))
                + entry("instructions"@, stated(self.instructions, |x: Seq<char>| JsonView::Str(x)))
                + entry("voice"@, stated(self.voice, |x: Voice| x.json())),
        )
    }
}

impl ResponseCreateEvent {
    /// States it as JSON.
    pub fn to_json(&self) -> (json: Json)
        ensures
            json@ == self@.json(),
    {
        let mut members: Vec<(String, Json)> = Vec::new();
        let modalities = match &self.modalities {
            Some(x) => Some(modalities_to_json(x)),
            None => None,
        };
        put_member(&mut members, "modalities", modalities);
        assert(members.deep_view() =~= entry("modalities"@, stated(self@.modalities, |x: Seq<Modality>| modalities_json(x))));
        let instructions = match &self.instructions {
            Some(x) => Some(Json::text(x.as_str())),
            None => None,
        };
        put_member(&mut members, "instructions", instructions);
        let voice = match &self.voice {
            Some(x) => Some(x.to_json()),
            None => None,
        };
        put_member(&mut members, "voice", voice);
        Json::object(members)
    }

}

} // verus!
