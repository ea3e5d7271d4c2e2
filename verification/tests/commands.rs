use openai_realtime::{
    AudioFormat, EventMessage, Json, Modality, Number, RealtimeSession, ResponseCreateEvent,
    SendFailure, SessionUpdateEvent, ToolChoice, Tracing, TurnDetection, Voice,
};

fn full_update() -> SessionUpdateEvent {
    SessionUpdateEvent {
        modalities: Some(vec![Modality::Text, Modality::Audio]),
        instructions: Some("Speak \"slowly\".\nThank you.".to_string()),
        voice: Some(Voice::Shimmer),
        output_audio_format: Some(AudioFormat::PCM16),
        input_audio_format: Some(AudioFormat::PCM16),
        temperature: Some(Number::Real("0.9".to_string())),
        speed: Some(Number::Real("1.25".to_string())),
        tracing: Some(Tracing::Auto),
        tool_choice: Some(ToolChoice::Auto),
        turn_detection: Some(TurnDetection {
            td_type: "server_vad".to_string(),
            threshold: Number::Real("0.25".to_string()),
            prefix_padding_ms: 120,
            silence_duration_ms: -5,
            create_response: false,
            interrupt_response: true,
        }),
    }
}

fn is_token(text: &str, size: usize) -> bool {
    text.chars().count() == size
        && text.chars().all(|c| c.is_ascii_alphanumeric() || c == '_' || c == '-')
}

#[test]
fn session_update_frame_reads_back_as_the_same_configuration() {
    let mut session = RealtimeSession::new("s1".to_string());
    assert_eq!(session.session_update(full_update()), Ok(()));
    let frames = session.take_outbound();
    assert_eq!(frames.len(), 1);
    let tree = Json::parse(&frames[0]).unwrap();
    assert_eq!(tree.text_at("type"), Some("session.update".to_string()));
    assert!(is_token(&tree.text_at("event_id").unwrap(), 21));
    let read = SessionUpdateEvent::from_json(tree.get("session").unwrap()).unwrap();
    assert_eq!(read, full_update());
}

#[test]
fn session_update_leaves_unset_values_out() {
    let mut session = RealtimeSession::new("s1".to_string());
    session
        .session_update(SessionUpdateEvent { voice: Some(Voice::Sage), ..Default::default() })
        .unwrap();
    let frames = session.take_outbound();
    let tree: serde_json::Value = serde_json::from_str(&frames[0]).unwrap();
    let described = tree["session"].as_object().unwrap();
    assert_eq!(described.len(), 1);
    assert_eq!(described["voice"], "sage");
    let read =
        SessionUpdateEvent::from_json(Json::parse(&frames[0]).unwrap().get("session").unwrap());
    assert_eq!(read, Some(SessionUpdateEvent { voice: Some(Voice::Sage), ..Default::default() }));
}

#[test]
fn a_frame_is_a_single_line_with_the_envelope_beside_the_body() {
    let mut session = RealtimeSession::new("s1".to_string());
    session.session_update(full_update()).unwrap();
    let frame = session.take_outbound().remove(0);
    assert!(!frame.contains('\n'));
    let tree: serde_json::Value = serde_json::from_str(&frame).unwrap();
    let members = tree.as_object().unwrap();
    assert_eq!(members.len(), 3);
    assert!(members.contains_key("event_id"));
    assert!(members.contains_key("type"));
    assert!(members.contains_key("session"));
    assert_eq!(tree["session"]["turn_detection"]["type"], "server_vad");
    assert_eq!(tree["session"]["turn_detection"]["threshold"], 0.25);
    assert_eq!(tree["session"]["turn_detection"]["prefix_padding_ms"], 120);
    assert_eq!(tree["session"]["turn_detection"]["silence_duration_ms"], -5);
    assert_eq!(tree["session"]["turn_detection"]["create_response"], false);
    assert_eq!(tree["session"]["turn_detection"]["interrupt_response"], true);
    assert_eq!(tree["session"]["modalities"][0], "text");
    assert_eq!(tree["session"]["modalities"][1], "audio");
    assert_eq!(tree["session"]["instructions"], "Speak \"slowly\".\nThank you.");
    assert_eq!(tree["session"]["temperature"], 0.9);
    assert_eq!(tree["session"]["speed"], 1.25);
    assert_eq!(tree["session"]["tracing"], "auto");
    assert_eq!(tree["session"]["tool_choice"], "auto");
    assert_eq!(tree["session"]["input_audio_format"], "pcm16");
    assert_eq!(tree["session"]["output_audio_format"], "pcm16");
}

#[test]
fn each_command_has_a_fresh_token() {
    let first = EventMessage::wrap("response.create", Json::Object(vec![]));
    let second = EventMessage::wrap("response.create", Json::Object(vec![]));
    assert!(is_token(&first.event_id, 21));
    assert!(is_token(&second.event_id, 21));
    assert_ne!(first.event_id, second.event_id);
    assert_eq!(first.event_type, "response.create");
    assert_eq!(first.body, Json::Object(vec![]));
}

#[test]
fn response_create_frame_holds_what_was_set() {
    let mut session = RealtimeSession::new("s1".to_string());
    let response = ResponseCreateEvent {
        instructions: Some("Say hello.".to_string()),
        ..Default::default()
    };
    assert_eq!(session.response_create(response), Ok(()));
    let frames = session.take_outbound();
    assert_eq!(frames.len(), 1);
    let tree: serde_json::Value = serde_json::from_str(&frames[0]).unwrap();
    assert_eq!(tree["type"], "response.create");
    let asked = tree["response"].as_object().unwrap();
    assert_eq!(asked.len(), 1);
    assert_eq!(asked["instructions"], "Say hello.");
}

#[test]
fn response_create_frame_names_voice_and_modalities() {
    let mut session = RealtimeSession::new("s1".to_string());
    let response = ResponseCreateEvent {
        modalities: Some(vec![Modality::Text]),
        instructions: None,
        voice: Some(Voice::Ballad),
    };
    session.response_create(response).unwrap();
    let tree: serde_json::Value = serde_json::from_str(&session.take_outbound()[0]).unwrap();
    assert_eq!(tree["response"]["voice"], "ballad");
    assert_eq!(tree["response"]["modalities"][0], "text");
    assert_eq!(tree["response"].as_object().unwrap().len(), 2);
}

#[test]
fn audio_append_frame_carries_the_bytes_in_base64() {
    let mut session = RealtimeSession::new("s1".to_string());
    assert_eq!(session.audio_append(vec![1, 2, 3]), Ok(()));
    assert_eq!(session.audio_append(vec![]), Ok(()));
    assert_eq!(session.audio_append(vec![255, 0]), Ok(()));
    let frames = session.take_outbound();
    assert_eq!(frames.len(), 3);
    let payloads: Vec<String> = frames
        .iter()
        .map(|frame| {
            let tree: serde_json::Value = serde_json::from_str(frame).unwrap();
            assert_eq!(tree["type"], "input_audio_buffer.append");
            tree["audio"].as_str().unwrap().to_string()
        })
        .collect();
    assert_eq!(payloads, vec!["AQID", "", "/wA="]);
}

#[test]
fn commands_leave_in_the_order_in_which_they_were_queued() {
    let mut session = RealtimeSession::new("s1".to_string());
    session.audio_append(vec![1]).unwrap();
    session.response_create(ResponseCreateEvent::default()).unwrap();
    session.session_update(SessionUpdateEvent::default()).unwrap();
    let kinds: Vec<String> = session
        .take_outbound()
        .iter()
        .map(|frame| Json::parse(frame).unwrap().text_at("type").unwrap())
        .collect();
    assert_eq!(kinds, vec!["input_audio_buffer.append", "response.create", "session.update"]);
    assert!(session.take_outbound().is_empty());
}

#[test]
fn a_closed_queue_refuses_every_command() {
    let mut session = RealtimeSession::new("s1".to_string());
    session.audio_append(vec![1]).unwrap();
    session.close_outbound();
    assert_eq!(session.audio_append(vec![2]), Err(SendFailure::Closed));
    assert_eq!(session.session_update(full_update()), Err(SendFailure::Closed));
    assert_eq!(session.response_create(ResponseCreateEvent::default()), Err(SendFailure::Closed));
    assert_eq!(session.take_outbound().len(), 1);
}

#[test]
fn a_number_that_cannot_be_written_makes_the_command_unserializable() {
    let mut session = RealtimeSession::new("s1".to_string());
    let update = SessionUpdateEvent {
        temperature: Some(Number::Real("warm".to_string())),
        ..Default::default()
    };
    assert_eq!(session.session_update(update), Err(SendFailure::Unserializable));
    assert!(session.take_outbound().is_empty());
    session.close_outbound();
    let update = SessionUpdateEvent {
        temperature: Some(Number::Real("warm".to_string())),
        ..Default::default()
    };
    assert_eq!(session.session_update(update), Err(SendFailure::Unserializable));
}

#[test]
fn a_body_that_is_no_object_has_no_frame() {
    let message = EventMessage {
        event_id: "id".to_string(),
        event_type: "x".to_string(),
        body: Json::Number(Number::Int(5)),
    };
    assert_eq!(message.to_json(), None);
    assert_eq!(message.to_string(), None);
}

#[test]
fn a_message_with_a_given_token_has_an_exact_frame() {
    let message = EventMessage {
        event_id: "tok".to_string(),
        event_type: "response.create".to_string(),
        body: Json::Object(vec![("response".to_string(), Json::Object(vec![]))]),
    };
    assert_eq!(
        message.to_json(),
        Some(Json::Object(vec![
            ("event_id".to_string(), Json::Str("tok".to_string())),
            ("type".to_string(), Json::Str("response.create".to_string())),
            ("response".to_string(), Json::Object(vec![])),
        ]))
    );
    let frame = message.to_string().unwrap();
    let tree: serde_json::Value = serde_json::from_str(&frame).unwrap();
    assert_eq!(tree["event_id"], "tok");
    assert_eq!(tree["type"], "response.create");
    assert!(tree["response"].as_object().unwrap().is_empty());
}

#[test]
fn enqueue_puts_the_frame_of_a_message_at_the_end() {
    let mut session = RealtimeSession::new("s1".to_string());
    let message = EventMessage {
        event_id: "tok".to_string(),
        event_type: "response.create".to_string(),
        body: Json::Object(vec![]),
    };
    assert_eq!(session.enqueue(&message), Ok(()));
    assert_eq!(session.take_outbound(), vec![message.to_string().unwrap()]);
}
