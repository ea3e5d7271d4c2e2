//! Making a session by a single request: what to send, and what the answer
//! means.

use crate::api::model::{default_model_name, Model};
use crate::api::session::{ClientSecret, CreateSessionRequest, CreateSessionRequestView, Session};
use crate::api::voice::Voice;
use crate::config::{default_variable, ApiKeyRef, ApiKeyRefView};
use crate::error::DecodeError;
use crate::json::{json_parsed, json_written, opt_view, parse_json, write_json};
use vstd::prelude::*;
use vstd::string::StringExecFns;

verus! {

/// What a session is made with.
#[derive(Debug)]
pub struct SessionConfig {
    pub api_key_ref: ApiKeyRef,
    pub model: Model,
    pub voice: Voice,
}

/// What a [`SessionConfig`] is, over sequences: the value that contracts speak of.
pub struct SessionConfigView {
    pub api_key_ref: ApiKeyRefView,
    pub model: Seq<char>,
    pub voice: Voice,
}

impl View for SessionConfig {
    type V = SessionConfigView;

    open spec fn view(&self) -> SessionConfigView {
        SessionConfigView {
            api_key_ref: self.api_key_ref@,
            model: self.model@,
            voice: self.voice,
        }
    }
}

impl Default for SessionConfig {
    fn default() -> (it: SessionConfig)
        ensures
            it@ == (SessionConfigView {
                api_key_ref: ApiKeyRefView::Env(Some(default_variable())),
                model: default_model_name(),
                voice: Voice::Verse,
            }),
    {
        SessionConfig {
            model: Model::default(),
            api_key_ref: ApiKeyRef::default(),
            voice: Voice::Verse,
        }
    }
}

/// A request to be posted.
#[derive(Debug, PartialEq, Eq)]
pub struct SessionRequest {
    /// Where to post it.
    pub url: String,
    /// The value of the `Authorization` header.
    pub authorization: String,
    /// The value of the `Content-Type` header.
    pub content_type: String,
    /// The body.
    pub body: String,
}

/// The request that asks the peer for a new session. `found` is what the
/// lookup of the credential's variable gave. There is no request where the
/// body cannot be written.
pub fn create_session(config: &SessionConfig, found: Option<String>) -> (request: Option<
    SessionRequest,
>)
    ensures
        match request {
            Some(r) => {
                &&& r.url@ == "https://api.openai.com/v1/realtime/sessions"@
                &&& r.authorization@ == "Bearer "@ + config@.api_key_ref.resolved(opt_view(found))
                &&& r.content_type@ == "application/json"@
                &&& json_written(
                    (CreateSessionRequestView { model: config@.model, voice: config@.voice }).json(),
                ) == Some(r.body@)
            },
            None => json_written(
                (CreateSessionRequestView { model: config@.model, voice: config@.voice }).json(),
            ) is None,
        },
{
    let asked = CreateSessionRequest { model: config.model.clone(), voice: config.voice };
    match write_json(&asked.to_json()) {
        Some(body) => {
            let key = config.api_key_ref.api_key(found);
            let mut authorization = String::from_str("Bearer ");
            authorization.append(key.as_str());
            Some(
                SessionRequest {
                    url: String::from_str("https://api.openai.com/v1/realtime/sessions"),
                    authorization,
                    content_type: String::from_str("application/json"),
                    body,
                },
            )
        },
        None => None,
    }
}

/// What the answer to the request means.
pub open spec fn session_in(body: Seq<char>) -> Result<crate::api::session::SessionView, DecodeError> {
    match json_parsed(body) {
        Some(value) => match Session::of_json(value) {
            Some(session) => Ok(session),
            None => Err(DecodeError::Session),
        },
        None => Err(DecodeError::Syntax),
    }
}

/// Reads the session descriptor out of the answer to the request.
pub fn session_from_response(body: &str) -> (outcome: Result<Session, DecodeError>)
    ensures
        match outcome {
            Ok(session) => session_in(body@) == Ok::<_, DecodeError>(session@),
            Err(error) => session_in(body@) == Err::<crate::api::session::SessionView, _>(error),
        },
{
    match parse_json(body) {
        Some(value) => match Session::from_json(&value) {
            Some(session) => Ok(session),
            None => Err(DecodeError::Session),
        },
        None => Err(DecodeError::Syntax),
    }
}

/// The short-lived credential of a session, where the peer sent one.
pub fn create_ephemeral_token(session: Session) -> (secret: Option<ClientSecret>)
    ensures
        opt_view(secret) == session@.client_secret,
{
    session.client_secret
}

} // verus!
