//! The persistent connection seen from inside: what to dial, what the
//! transport's callbacks decide, and the session's state machine with its two
//! queues.

use crate::api::model::{default_model_name, Model};
use crate::api::response::ResponseCreateEvent;
use crate::api::session::{Session, SessionUpdateEvent, SessionView};
use crate::audio::{base64_encoded, encode_base64};
use crate::config::{default_variable, ApiKeyRef, ApiKeyRefView};
use crate::error::{DecodeError, SendFailure};
use crate::event::{
    body_of, command_body, decode, frame_events, is_token, outcome_view, random_token, Event,
    EventMessage, EventMessageView, EventView,
};
use crate::json::{opt_view, Json, JsonView};
use vstd::prelude::*;
use vstd::string::StringExecFns;

verus! {

/// What a connection is made with.
#[derive(Debug)]
pub struct WebsocketConfig {
    pub model: Model,
    pub api_key_ref: ApiKeyRef,
}

/// What a [`WebsocketConfig`] is, over sequences: the value that contracts speak of.
pub struct WebsocketConfigView {
    pub model: Seq<char>,
    pub api_key_ref: ApiKeyRefView,
}

impl View for WebsocketConfig {
    type V = WebsocketConfigView;

    open spec fn view(&self) -> WebsocketConfigView {
        WebsocketConfigView { model: self.model@, api_key_ref: self.api_key_ref@ }
    }
}

impl Default for WebsocketConfig {
    fn default() -> (it: WebsocketConfig)
        ensures
            it@ == (WebsocketConfigView {
                model: default_model_name(),
                api_key_ref: ApiKeyRefView::Env(Some(default_variable())),
            }),
    {
        WebsocketConfig { model: Model::default(), api_key_ref: ApiKeyRef::default() }
    }
}

/// The address of the realtime endpoint for a model, as it is written
/// before any normalisation.
pub open spec fn endpoint(model: Seq<char>) -> Seq<char> {
    "wss://api.openai.com/v1/realtime?model="@ + model
}

/// The URL that a text is read as, written back as text; nothing where the
/// text is no URL.
pub uninterp spec fn url_parsed(text: Seq<char>) -> Option<Seq<char>>;

/// Reads a text with `url::Url::parse` and hands back the URL's own
/// serialization. The contract gives the outcome its name, [`url_parsed`]: the
/// same text always reads alike, and nothing more is claimed of it.
#[verifier::external_body]
fn parse_url(text: &str) -> (url: Option<String>)
    ensures
        opt_view(url) == url_parsed(text@),
{
    url::Url::parse(text).ok().map(String::from)
}

impl WebsocketConfig {
    /// The URL to dial, where the endpoint with this model is one.
    pub fn url(&self) -> (url: Option<String>)
        ensures
            opt_view(url) == url_parsed(endpoint(self.model@)),
    {
        let mut text = String::from_str("wss://api.openai.com/v1/realtime?model=");
        text.append(self.model.0.as_str());
        parse_url(text.as_str())
    }
}

/// What the transport is asked to open.
#[derive(Debug, PartialEq, Eq)]
pub struct ConnectRequest {
    /// The URL to dial.
    pub url: String,
    /// The credential, sent as a bearer token.
    pub bearer: String,
    /// The one header sent besides, by name and value.
    pub header: (String, String),
}

/// The number of characters of a session's own identity.
pub const SESSION_ID_LEN: usize = 6;

/// The callbacks' side of a connection: it knows the session it belongs to
/// and whether the transport has reported it open.
#[derive(Debug)]
pub struct WebsocketHandle {
    session_id: String,
    connected: bool,
}

/// What a [`WebsocketHandle`] is, over sequences: the value that contracts speak of.
pub struct WebsocketHandleView {
    pub session_id: Seq<char>,
    pub connected: bool,
}

impl View for WebsocketHandle {
    type V = WebsocketHandleView;

    closed spec fn view(&self) -> WebsocketHandleView {
        WebsocketHandleView { session_id: self.session_id@, connected: self.connected }
    }
}

impl WebsocketHandle {
    /// A handle for a connection that is not open yet.
    pub fn new(session_id: String) -> (handle: WebsocketHandle)
        ensures
            handle@ == (WebsocketHandleView { session_id: session_id@, connected: false }),
    {
        WebsocketHandle { session_id, connected: false }
    }

    /// The identity of the session that the handle belongs to.
    pub fn session_id(&self) -> (id: &str)
        ensures
            id@ == self@.session_id,
    {
        self.session_id.as_str()
    }

    /// Whether the transport has reported the connection open.
    pub fn is_connected(&self) -> (connected: bool)
        ensures
            connected == self@.connected,
    {
        self.connected
    }

    /// The transport reports the connection open. The answer is whether this
    /// is the first such report: the one on which the waiting caller is to be
    /// released.
    pub fn on_connect(&mut self) -> (first: bool)
        ensures
            first == !old(self)@.connected,
            final(self)@ == (WebsocketHandleView {
                session_id: old(self)@.session_id,
                connected: true,
            }),
    {
        let first = !self.connected;
        self.connected = true;
        first
    }

    /// The transport hands over a text frame: the events it stands for, in
    /// the order in which they are to be applied.
    pub fn on_text(&self, text: &str) -> (outcome: Result<Vec<Event>, DecodeError>)
        ensures
            outcome_view(outcome) == frame_events(text@),
    {
        decode(text)
    }
}

/// Prepares a connection: what to dial, and the handle for its callbacks,
/// with a fresh identity for the session. There is nothing to dial where the
/// endpoint is no URL.
pub fn connect(config: &WebsocketConfig, api_key: String) -> (prepared: Option<
    (ConnectRequest, WebsocketHandle),
>)
    ensures
        match prepared {
            Some((request, handle)) => {
                &&& url_parsed(endpoint(config.model@)) == Some(request.url@)
                &&& request.bearer@ == api_key@
                &&& request.header.0@ == "openai-beta"@
                &&& request.header.1@ == "realtime=v1"@
                &&& is_token(handle@.session_id, 6)
                &&& !handle@.connected
            },
            None => url_parsed(endpoint(config.model@)) is None,
        },
{
    match config.url() {
        Some(url) => {
            let request = ConnectRequest {
                url,
                bearer: api_key,
                header: (String::from_str("openai-beta"), String::from_str("realtime=v1")),
            };
            let handle = WebsocketHandle::new(random_token(SESSION_ID_LEN));
            Some((request, handle))
        },
        None => None,
    }
}

/// A session: its identity, the descriptor the peer gave it, and two queues.
/// Commands wait in the outbound queue for the writer; decoded audio waits in
/// the audio queue for the consumer. Either queue can be closed from its far
/// end.
#[derive(Debug)]
pub struct RealtimeSession {
    id: String,
    session: Option<Session>,
    audio: Vec<Vec<u8>>,
    audio_open: bool,
    outbound: Vec<String>,
    outbound_open: bool,
}

/// What a [`RealtimeSession`] is, over sequences: the value that contracts speak of.
pub struct RealtimeSessionView {
    pub id: Seq<char>,
    pub session: Option<SessionView>,
    pub audio: Seq<Seq<u8>>,
    pub audio_open: bool,
    pub outbound: Seq<Seq<char>>,
    pub outbound_open: bool,
}

impl View for RealtimeSession {
    type V = RealtimeSessionView;

    closed spec fn view(&self) -> RealtimeSessionView {
        RealtimeSessionView {
            id: self.id@,
            session: opt_view(self.session),
            audio: self.audio.deep_view(),
            audio_open: self.audio_open,
            outbound: self.outbound.deep_view(),
            outbound_open: self.outbound_open,
        }
    }
}

impl RealtimeSessionView {
    /// A session that has just been made.
    pub open spec fn fresh(id: Seq<char>) -> RealtimeSessionView {
        RealtimeSessionView {
            id,
            session: None,
            audio: Seq::empty(),
            audio_open: true,
            outbound: Seq::empty(),
            outbound_open: true,
        }
    }

    /// The session with one more frame at the end of its outbound queue.
    pub open spec fn with_frame(self, frame: Seq<char>) -> RealtimeSessionView {
        RealtimeSessionView {
            id: self.id,
            session: self.session,
            audio: self.audio,
            audio_open: self.audio_open,
            outbound: self.outbound.push(frame),
            outbound_open: self.outbound_open,
        }
    }

    /// What offering a frame to the outbound queue leads to. A command that
    /// has no frame is refused first; then a closed queue refuses; else the
    /// frame goes to the end of the queue. A refusal changes nothing.
    pub open spec fn queued(self, frame: Option<Seq<char>>) -> (
        RealtimeSessionView,
        Result<(), SendFailure>,
    ) {
        match frame {
            None => (self, Err(SendFailure::Unserializable)),
            Some(f) => if self.outbound_open {
                (self.with_frame(f), Ok(()))
            } else {
                (self, Err(SendFailure::Closed))
            },
        }
    }

    /// Whether `after` and `outcome` are what sending the command `evt` with
    /// `body` leads to, for some fresh token.
    pub open spec fn sent(
        self,
        after: RealtimeSessionView,
        outcome: Result<(), SendFailure>,
        evt: Seq<char>,
        body: JsonView,
    ) -> bool {
        exists|id: Seq<char>|
            is_token(id, 21) && (after, outcome) == #[trigger] self.queued(
                (EventMessageView { event_id: id, event_type: evt, body }).frame(),
            )
    }

    /// The session after an event was applied. Audio goes to the end of the
    /// audio queue, or nowhere where that queue is closed; a descriptor
    /// replaces the one before; no other event changes anything.
    pub open spec fn handled(self, event: EventView) -> RealtimeSessionView {
        match event {
            EventView::Audio(bytes) => if self.audio_open {
                RealtimeSessionView {
                    id: self.id,
                    session: self.session,
                    audio: self.audio.push(bytes),
                    audio_open: self.audio_open,
                    outbound: self.outbound,
                    outbound_open: self.outbound_open,
                }
            } else {
                self
            },
            EventView::SessionCreated(session) => RealtimeSessionView {
                id: self.id,
                session: Some(session),
                audio: self.audio,
                audio_open: self.audio_open,
                outbound: self.outbound,
                outbound_open: self.outbound_open,
            },
            _ => self,
        }
    }
}

/// Applying the same descriptor twice leaves the session as applying it
/// once does: the descriptor is replaced, never merged.
pub proof fn lemma_descriptor_idempotent(session: RealtimeSessionView, descriptor: SessionView)
    ensures
        session.handled(EventView::SessionCreated(descriptor)).session == Some(descriptor),
        session.handled(EventView::SessionCreated(descriptor)).handled(
            EventView::SessionCreated(descriptor),
        ) == session.handled(EventView::SessionCreated(descriptor)),
{
}

/// Of two descriptors applied in turn, the later one stays.
pub proof fn lemma_last_descriptor_wins(
    session: RealtimeSessionView,
    first: SessionView,
    second: SessionView,
)
    ensures
        session.handled(EventView::SessionCreated(first)).handled(
            EventView::SessionCreated(second),
        ) == session.handled(EventView::SessionCreated(second)),
{
}

impl RealtimeSession {
    /// A new session: no descriptor yet, both queues open and empty.
    pub fn new(id: String) -> (session: RealtimeSession)
        ensures
            session@ == RealtimeSessionView::fresh(id@),
    {
        let session = RealtimeSession {
            id,
            session: None,
            audio: Vec::new(),
            audio_open: true,
            outbound: Vec::new(),
            outbound_open: true,
        };
        assert(session.audio.deep_view() =~= Seq::<Seq<u8>>::empty());
        assert(session.outbound.deep_view() =~= Seq::<Seq<char>>::empty());
        session
    }

    /// The session's own identity.
    pub fn id(&self) -> (id: &str)
        ensures
            id@ == self@.id,
    {
        self.id.as_str()
    }

    /// The descriptor, once the peer has sent one.
    pub fn session(&self) -> (session: Option<&Session>)
        ensures
            match session {
                Some(s) => self@.session == Some(s@),
                None => self@.session is None,
            },
    {
        self.session.as_ref()
    }

    /// Offers the frame of a message to the outbound queue.
    pub fn enqueue(&mut self, message: &EventMessage) -> (sent: Result<(), SendFailure>)
        ensures
            (final(self)@, sent) == old(self)@.queued(message@.frame()),
    {
        match message.to_string() {
            None => Err(SendFailure::Unserializable),
            Some(frame) => if self.outbound_open {
                let ghost before = self.outbound.deep_view();
                self.outbound.push(frame);
                assert(self.outbound.deep_view() =~= before.push(frame@));
                Ok(())
            } else {
                Err(SendFailure::Closed)
            },
        }
    }

    fn send(&mut self, evt: &str, body: Json) -> (sent: Result<(), SendFailure>)
        ensures
            old(self)@.sent(final(self)@, sent, evt@, body@),
    {
        let message = EventMessage::wrap(evt, body);
        self.enqueue(&message)
    }

    /// Queues a `session.update` command with this configuration. It does
    /// not wait for the peer.
    pub fn session_update(&mut self, session: SessionUpdateEvent) -> (sent: Result<
        (),
        SendFailure,
    >)
        ensures
            old(self)@.sent(
                final(self)@,
                sent,
                "session.update"@,
                command_body("session"@, session@.json()),
            ),
    {
        self.send("session.update", body_of("session", session.to_json()))
    }

    /// Queues a `response.create` command: the peer is to start a response.
    pub fn response_create(&mut self, response: ResponseCreateEvent) -> (sent: Result<
        (),
        SendFailure,
    >)
        ensures
            old(self)@.sent(
                final(self)@,
                sent,
                "response.create"@,
                command_body("response"@, response@.json()),
            ),
    {
        self.send("response.create", body_of("response", response.to_json()))
    }

    /// Queues an `input_audio_buffer.append` command that carries these
    /// bytes in base64. The bytes go as one chunk, whatever their number.
    pub fn audio_append(&mut self, buffer: Vec<u8>) -> (sent: Result<(), SendFailure>)
        ensures
            old(self)@.sent(
                final(self)@,
                sent,
                "input_audio_buffer.append"@,
                command_body("audio"@, JsonView::Str(base64_encoded(buffer@))),
            ),
    {
        let text = encode_base64(&buffer);
        self.send("input_audio_buffer.append", body_of("audio", Json::Str(text)))
    }

    /// Applies one inbound event.
    pub fn handle_event(&mut self, evt: Event)
        ensures
            final(self)@ == old(self)@.handled(evt@),
    {
        match evt {
            Event::Audio(audio) => {
                if self.audio_open {
                    let ghost before = self.audio.deep_view();
                    let ghost bytes = audio@;
                    assert(audio.deep_view() =~= bytes);
                    self.audio.push(audio);
                    assert(self.audio.deep_view() =~= before.push(bytes));
                }
            },
            Event::SessionCreated(session) => {
                self.session = Some(session);
            },
            _ => {},
        }
    }

    /// Hands over the frames that wait for the writer, oldest first, and
    /// leaves the queue empty.
    pub fn take_outbound(&mut self) -> (frames: Vec<String>)
        ensures
            frames.deep_view() == old(self)@.outbound,
            final(self)@ == (RealtimeSessionView {
                id: old(self)@.id,
                session: old(self)@.session,
                audio: old(self)@.audio,
                audio_open: old(self)@.audio_open,
                outbound: Seq::empty(),
                outbound_open: old(self)@.outbound_open,
            }),
    {
        let mut frames: Vec<String> = Vec::new();
        std::mem::swap(&mut self.outbound, &mut frames);
        assert(self.outbound.deep_view() =~= Seq::<Seq<char>>::empty());
        frames
    }

    /// Hands over the audio that waits for the consumer, oldest first, and
    /// leaves the queue empty.
    pub fn take_audio(&mut self) -> (chunks: Vec<Vec<u8>>)
        ensures
            chunks.deep_view() == old(self)@.audio,
            final(self)@ == (RealtimeSessionView {
                id: old(self)@.id,
                session: old(self)@.session,
                audio: Seq::empty(),
                audio_open: old(self)@.audio_open,
                outbound: old(self)@.outbound,
                outbound_open: old(self)@.outbound_open,
            }),
    {
        let mut chunks: Vec<Vec<u8>> = Vec::new();
        std::mem::swap(&mut self.audio, &mut chunks);
        assert(self.audio.deep_view() =~= Seq::<Seq<u8>>::empty());
        chunks
    }

    /// The writer is gone: from now on every command is refused.
    pub fn close_outbound(&mut self)
        ensures
            final(self)@ == (RealtimeSessionView {
                id: old(self)@.id,
                session: old(self)@.session,
                audio: old(self)@.audio,
                audio_open: old(self)@.audio_open,
                outbound: old(self)@.outbound,
                outbound_open: false,
            }),
    {
        self.outbound_open = false;
    }

    /// The consumer is gone: from now on audio is dropped.
    pub fn close_audio(&mut self)
        ensures
            final(self)@ == (RealtimeSessionView {
                id: old(self)@.id,
                session: old(self)@.session,
                audio: old(self)@.audio,
                audio_open: false,
                outbound: old(self)@.outbound,
                outbound_open: old(self)@.outbound_open,
            }),
    {
        self.audio_open = false;
    }
}

} // verus!
