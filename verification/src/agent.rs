//! Bootstrapping an agent: the defaults it starts from and the one
//! configuration command it sends once connected.

use crate::api::model::{default_model_name, Model};
use crate::api::session::{
    AudioFormat, Modality, SessionUpdateEvent, SessionUpdateEventView, TurnDetection,
    TurnDetectionView,
};
use crate::api::voice::Voice;
use crate::config::{default_variable, ApiKeyRef, ApiKeyRefView};
use crate::error::{InvalidCredentialError, SendFailure};
use crate::event::command_body;
use crate::json::{opt_view, Number, NumberView};
use crate::websocket::{RealtimeSession, WebsocketConfig, WebsocketConfigView};
use vstd::prelude::*;
use vstd::string::StringExecFns;

verus! {

/// What an agent is started with. Each value left unset takes its default.
#[derive(Debug)]
pub struct AgentConfig {
    pub model: Option<Model>,
    pub voice: Option<Voice>,
    pub speed: Option<Number>,
    pub instructions: Option<String>,
}

/// What a [`AgentConfig`] is, over sequences: the value that contracts speak of.
pub struct AgentConfigView {
    pub model: Option<Seq<char>>,
    pub voice: Option<Voice>,
    pub speed: Option<NumberView>,
    pub instructions: Option<Seq<char>>,
}

impl View for AgentConfig {
    type V = AgentConfigView;

    open spec fn view(&self) -> AgentConfigView {
        AgentConfigView {
            model: opt_view(self.model),
            voice: self.voice,
            speed: opt_view(self.speed),
            instructions: opt_view(self.instructions),
        }
    }
}

impl Default for AgentConfig {
    fn default() -> (it: AgentConfig)
        ensures
            it@ == (AgentConfigView { model: None, voice: None, speed: None, instructions: None }),
    {
        AgentConfig { model: None, voice: None, speed: None, instructions: None }
    }
}

/// The instructions of an agent that was given none.
pub open spec fn default_instructions() -> Seq<char> {
    "\nYou are Melissa, a helpful customer support agent.\nYou language is en-US.\n"@
}

/// The turn-detection policy of a new agent: detection on the server, 300 ms
/// kept from before speech, 1000 ms of silence to end a turn, a response at
/// the end of each turn, and no interruption of a response.
pub open spec fn default_turn_detection() -> TurnDetectionView {
    TurnDetectionView {
        td_type: "server_vad"@,
        threshold: NumberView::Real("0.5"@),
        prefix_padding_ms: 300,
        silence_duration_ms: 1000,
        create_response: true,
        interrupt_response: false,
    }
}

impl AgentConfigView {
    /// The configuration that a new agent sends first.
    pub open spec fn bootstrap(self) -> SessionUpdateEventView {
        SessionUpdateEventView {
            modalities: Some(seq![Modality::Audio, Modality::Text]),
            instructions: Some(
                match self.instructions {
                    Some(text) => text,
                    None => default_instructions(),
                },
            ),
            voice: Some(
                match self.voice {
                    Some(voice) => voice,
                    None => Voice::Echo,
                },
            ),
            output_audio_format: Some(AudioFormat::PCM16),
            input_audio_format: Some(AudioFormat::PCM16),
            temperature: Some(NumberView::Real("0.7"@)),
            speed: self.speed,
            tracing: None,
            tool_choice: None,
            turn_detection: Some(default_turn_detection()),
        }
    }

    /// What the agent's connection is made with.
    pub open spec fn websocket_config(self) -> WebsocketConfigView {
        WebsocketConfigView {
            model: match self.model {
                Some(model) => model,
                None => default_model_name(),
            },
            api_key_ref: ApiKeyRefView::Env(Some(default_variable())),
        }
    }
}

impl AgentConfig {
    /// What the agent's connection is made with: its model, or the default
    /// one, and the default reference to the credential.
    pub fn websocket_config(&self) -> (config: WebsocketConfig)
        ensures
            config@ == self@.websocket_config(),
    {
        let model = match &self.model {
            Some(model) => model.clone(),
            None => Model::default(),
        };
        WebsocketConfig { model, api_key_ref: ApiKeyRef::default() }
    }

    /// The configuration that the agent sends first.
    pub fn bootstrap_update(&self) -> (update: SessionUpdateEvent)
        ensures
            update@ == self@.bootstrap(),
    {
        let voice = match self.voice {
            Some(voice) => voice,
            None => Voice::Echo,
        };
        let instructions = match &self.instructions {
            Some(text) => text.clone(),
            None => String::from_str(
                "\nYou are Melissa, a helpful customer support agent.\nYou language is en-US.\n",
            ),
        };
        let speed = match &self.speed {
            Some(speed) => Some(speed.clone()),
            None => None,
        };
        let mut modalities: Vec<Modality> = Vec::new();
        modalities.push(Modality::Audio);
        modalities.push(Modality::Text);
        assert(modalities@ =~= seq![Modality::Audio, Modality::Text]);
        SessionUpdateEvent {
            temperature: Some(Number::Real(String::from_str("0.7"))),
            instructions: Some(instructions),
            speed,
            voice: Some(voice),
            modalities: Some(modalities),
            turn_detection: Some(
                TurnDetection {
                    create_response: true,
                    interrupt_response: false,
                    prefix_padding_ms: 300,
                    silence_duration_ms: 1000,
                    td_type: String::from_str("server_vad"),
                    threshold: Number::Real(String::from_str("0.5")),
                },
            ),
            input_audio_format: Some(AudioFormat::PCM16),
            output_audio_format: Some(AudioFormat::PCM16),
            tracing: None,
            tool_choice: None,
        }
    }
}

/// Refuses a credential that resolved to nothing, before anything is dialled.
pub fn check_credential(config: &WebsocketConfig, api_key: &str) -> (checked: Result<
    (),
    InvalidCredentialError,
>)
    ensures
        checked is Err <==> api_key@.len() == 0,
        checked matches Err(error) ==> error@ == config@.api_key_ref.text(),
{
    if api_key.is_empty() {
        Err(InvalidCredentialError { reference: config.api_key_ref.to_string() })
    } else {
        Ok(())
    }
}

/// The step that follows the connection of an agent: it queues exactly one
/// `session.update` command, with the bootstrap configuration, and does not
/// wait for the peer.
pub fn connect_realtime_agent(config: &AgentConfig, session: &mut RealtimeSession) -> (sent: Result<
    (),
    SendFailure,
>)
    ensures
        old(session)@.sent(
            final(session)@,
            sent,
            "session.update"@,
            command_body("session"@, config@.bootstrap().json()),
        ),
{
    session.session_update(config.bootstrap_update())
}

} // verus!
