use openai_realtime::agent::check_credential;
use openai_realtime::session::session_from_response;
use openai_realtime::{
    connect, connect_realtime_agent, create_ephemeral_token, create_session, AgentConfig,
    ApiKeyRef, DecodeError, Json, Model, Number, RealtimeSession, SendFailure, SessionConfig,
    SessionUpdateEvent, Voice, WebsocketConfig,
};

#[test]
fn bootstrap_without_voice_or_instructions_sends_one_update_with_the_defaults() {
    let mut session = RealtimeSession::new("s1".to_string());
    assert_eq!(connect_realtime_agent(&AgentConfig::default(), &mut session), Ok(()));
    let frames = session.take_outbound();
    assert_eq!(frames.len(), 1);
    let tree: serde_json::Value = serde_json::from_str(&frames[0]).unwrap();
    assert_eq!(tree["type"], "session.update");
    let described = &tree["session"];
    assert_eq!(described["voice"], "echo");
    assert_eq!(described["modalities"], serde_json::Value::from(vec!["audio", "text"]));
    assert_eq!(described["turn_detection"]["create_response"], true);
    assert_eq!(described["turn_detection"]["interrupt_response"], false);
    assert_eq!(described["turn_detection"]["prefix_padding_ms"], 300);
    assert_eq!(described["turn_detection"]["silence_duration_ms"], 1000);
    assert_eq!(described["turn_detection"]["type"], "server_vad");
    assert_eq!(described["turn_detection"]["threshold"], 0.5);
    assert_eq!(described["temperature"], 0.7);
    assert_eq!(described["input_audio_format"], "pcm16");
    assert_eq!(described["output_audio_format"], "pcm16");
    assert_eq!(
        described["instructions"],
        "\nYou are Melissa, a helpful customer support agent.\nYou language is en-US.\n"
    );
    let members = described.as_object().unwrap();
    assert!(!members.contains_key("speed"));
    assert!(!members.contains_key("tracing"));
    assert!(!members.contains_key("tool_choice"));
    assert_eq!(members.len(), 7);
}

#[test]
fn bootstrap_keeps_what_the_agent_was_given() {
    let config = AgentConfig {
        model: Some(Model("m".to_string())),
        voice: Some(Voice::Verse),
        speed: Some(Number::Real("1.2".to_string())),
        instructions: Some("You are Jen.".to_string()),
    };
    let update = config.bootstrap_update();
    assert_eq!(update.voice, Some(Voice::Verse));
    assert_eq!(update.speed, Some(Number::Real("1.2".to_string())));
    assert_eq!(update.instructions, Some("You are Jen.".to_string()));
    assert_eq!(update.temperature, Some(Number::Real("0.7".to_string())));
    assert_eq!(update.tracing, None);
    assert_eq!(update.tool_choice, None);
    let mut session = RealtimeSession::new("s1".to_string());
    connect_realtime_agent(&config, &mut session).unwrap();
    let frame = session.take_outbound().remove(0);
    let read = SessionUpdateEvent::from_json(Json::parse(&frame).unwrap().get("session").unwrap());
    assert_eq!(read, Some(config.bootstrap_update()));
    let tree: serde_json::Value = serde_json::from_str(&frame).unwrap();
    assert_eq!(tree["session"]["speed"], 1.2);
}

#[test]
fn bootstrap_on_a_closed_queue_fails_and_sends_nothing() {
    let mut session = RealtimeSession::new("s1".to_string());
    session.close_outbound();
    assert_eq!(
        connect_realtime_agent(&AgentConfig::default(), &mut session),
        Err(SendFailure::Closed)
    );
    assert!(session.take_outbound().is_empty());
}

#[test]
fn an_agent_dials_its_model_or_the_default_one() {
    let config = AgentConfig::default().websocket_config();
    assert_eq!(config.model.0, "gpt-4o-realtime-preview-2024-12-17");
    assert_eq!(config.api_key_ref, ApiKeyRef::Env(Some("OPENAI_KEY".to_string())));
    let given = AgentConfig { model: Some(Model("other".to_string())), ..Default::default() };
    assert_eq!(given.websocket_config().model.0, "other");
}

#[test]
fn an_empty_credential_is_refused_before_anything_is_dialled() {
    let config = WebsocketConfig::default();
    let refused = check_credential(&config, "").unwrap_err();
    assert_eq!(refused.reference, "OPENAI_KEY");
    assert_eq!(refused.to_string(), "invalid api key ref: OPENAI_KEY");
    assert_eq!(check_credential(&config, "sk-1"), Ok(()));
    assert_eq!(check_credential(&config, " "), Ok(()));
}

#[test]
fn the_url_names_the_model() {
    assert_eq!(
        WebsocketConfig::default().url(),
        Some(
            "wss://api.openai.com/v1/realtime?model=gpt-4o-realtime-preview-2024-12-17"
                .to_string()
        )
    );
    let spaced = WebsocketConfig {
        model: Model("a b".to_string()),
        api_key_ref: ApiKeyRef::default(),
    };
    assert_eq!(
        spaced.url(),
        Some("wss://api.openai.com/v1/realtime?model=a%20b".to_string())
    );
}

#[test]
fn connect_prepares_the_request_and_a_fresh_handle() {
    let (request, mut handle) = connect(&WebsocketConfig::default(), "sk-1".to_string()).unwrap();
    assert_eq!(
        request.url,
        "wss://api.openai.com/v1/realtime?model=gpt-4o-realtime-preview-2024-12-17"
    );
    assert_eq!(request.bearer, "sk-1");
    assert_eq!(request.header, ("openai-beta".to_string(), "realtime=v1".to_string()));
    assert_eq!(handle.session_id().chars().count(), 6);
    assert!(handle
        .session_id()
        .chars()
        .all(|c| c.is_ascii_alphanumeric() || c == '_' || c == '-'));
    assert!(!handle.is_connected());
    assert!(handle.on_connect());
    let (_, other) = connect(&WebsocketConfig::default(), "sk-1".to_string()).unwrap();
    assert_eq!(other.session_id().chars().count(), 6);
}

#[test]
fn the_session_request_states_model_and_voice() {
    let config = SessionConfig::default();
    assert_eq!(config.voice, Voice::Verse);
    let request = create_session(&config, Some("sk-1".to_string())).unwrap();
    assert_eq!(request.url, "https://api.openai.com/v1/realtime/sessions");
    assert_eq!(request.authorization, "Bearer sk-1");
    assert_eq!(request.content_type, "application/json");
    let body: serde_json::Value = serde_json::from_str(&request.body).unwrap();
    assert_eq!(body["model"], "gpt-4o-realtime-preview-2024-12-17");
    assert_eq!(body["voice"], "verse");
    assert_eq!(body.as_object().unwrap().len(), 2);
    let unresolved = create_session(&config, None).unwrap();
    assert_eq!(unresolved.authorization, "Bearer ");
    let literal = SessionConfig {
        api_key_ref: ApiKeyRef::Value("sk-2".to_string()),
        model: Model("m".to_string()),
        voice: Voice::Coral,
    };
    let request = create_session(&literal, Some("ignored".to_string())).unwrap();
    assert_eq!(request.authorization, "Bearer sk-2");
    let body: serde_json::Value = serde_json::from_str(&request.body).unwrap();
    assert_eq!(body["model"], "m");
    assert_eq!(body["voice"], "coral");
}

#[test]
fn the_answer_to_the_session_request_is_a_descriptor() {
    let body = r#"{"id":"sess_1","object":"realtime.session","expires_at":0,
        "turn_detection":{"type":"server_vad","threshold":0.5,"prefix_padding_ms":300,
        "silence_duration_ms":200,"create_response":true,"interrupt_response":true},
        "input_audio_format":"pcm16","include":null,"model":"m","modalities":["text","audio"],
        "instructions":"i","voice":"verse","output_audio_format":"pcm16","tool_choice":"auto",
        "temperature":0.8,"max_response_output_tokens":"inf","speed":1.0,"tracing":null,
        "tools":[],"client_secret":{"value":"ek_abc","expires_at":1756310470}}"#;
    let session = session_from_response(body).unwrap();
    assert_eq!(session.id, "sess_1");
    let secret = create_ephemeral_token(session).unwrap();
    assert_eq!(secret.value, "ek_abc");
    assert_eq!(secret.expires_at, 1756310470);
    let without = body.replace(r#","client_secret":{"value":"ek_abc","expires_at":1756310470}"#, "");
    assert_eq!(create_ephemeral_token(session_from_response(&without).unwrap()), None);
    assert_eq!(session_from_response("{").unwrap_err(), DecodeError::Syntax);
    assert_eq!(session_from_response(r#"{"error":{}}"#).unwrap_err(), DecodeError::Session);
}
