//! A sans-I/O core for duplex realtime voice sessions: the event codec, the
//! per-session state machine and the bootstrap configuration, each with a
//! machine-checked contract.

pub mod agent;
pub mod api;
pub mod audio;
pub mod config;
pub mod error;
pub mod event;
pub mod json;
pub mod session;
pub mod websocket;

pub use agent::{connect_realtime_agent, AgentConfig};
pub use api::model::Model;
pub use api::response::ResponseCreateEvent;
pub use api::session::{
    AudioFormat, ClientSecret, CreateSessionRequest, Modality, Session, SessionUpdateEvent, Tool,
    ToolChoice, Tracing, TurnDetection,
};
pub use api::voice::Voice;
pub use config::ApiKeyRef;
pub use error::{DecodeError, InvalidCredentialError, RealtimeError, SendFailure};
pub use event::{Event, EventMessage};
pub use json::{Json, Number};
pub use session::{create_ephemeral_token, create_session, SessionConfig};
pub use websocket::{connect, RealtimeSession, WebsocketConfig, WebsocketHandle};
