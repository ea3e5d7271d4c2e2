use openai_realtime::event::decode;
use openai_realtime::{AudioFormat, DecodeError, Event, Json, Modality, Number, ToolChoice, Voice};

const DESCRIPTOR: &str = r#"{
    "id": "abc",
    "object": "realtime.session",
    "expires_at": 1742188264,
    "input_audio_noise_reduction": null,
    "turn_detection": {
        "type": "server_vad",
        "threshold": 0.5,
        "prefix_padding_ms": 300,
        "silence_duration_ms": 200,
        "create_response": true,
        "interrupt_response": true
    },
    "input_audio_format": "pcm16",
    "input_audio_transcription": null,
    "include": null,
    "model": "gpt-4o-realtime-preview-2024-12-17",
    "modalities": ["audio", "text"],
    "instructions": "Be brief.",
    "voice": "alloy",
    "output_audio_format": "pcm16",
    "tool_choice": "auto",
    "temperature": 0.8,
    "max_response_output_tokens": "inf",
    "speed": 1.0,
    "tracing": null,
    "tools": [],
    "client_secret": null
}"#;

fn created(descriptor: &str) -> String {
    format!(r#"{{"type":"session.created","event_id":"event_1","session":{}}}"#, descriptor)
}

#[test]
fn audio_delta_yields_the_decoded_bytes() {
    let events = decode(r#"{"type":"response.audio.delta","delta":"AQID"}"#).unwrap();
    assert_eq!(events, vec![Event::Audio(vec![1, 2, 3])]);
}

#[test]
fn audio_delta_with_an_empty_payload_yields_no_bytes() {
    let events = decode(r#"{"type":"response.audio.delta","delta":""}"#).unwrap();
    assert_eq!(events, vec![Event::Audio(vec![])]);
}

#[test]
fn unknown_type_yields_no_event_and_no_error() {
    assert_eq!(decode(r#"{"type":"response.done","response":{}}"#), Ok(vec![]));
    assert_eq!(decode(r#"{"type":""}"#), Ok(vec![]));
    assert_eq!(decode(r#"{"type":"session.updated","session":5}"#), Ok(vec![]));
}

#[test]
fn audio_done_yields_done_and_then_one_second_of_silence() {
    let events = decode(r#"{"type":"response.audio.done","response_id":"r"}"#).unwrap();
    assert_eq!(events.len(), 2);
    assert_eq!(events[0], Event::AudioDone);
    match &events[1] {
        Event::Audio(bytes) => {
            assert_eq!(bytes.len(), 96_000);
            assert!(bytes.iter().all(|b| *b == 0));
        }
        other => panic!("expected silence, got {:?}", other),
    }
}

#[test]
fn transcript_frames_carry_their_text() {
    assert_eq!(
        decode(r#"{"type":"response.audio_transcript.delta","delta":"Hel"}"#),
        Ok(vec![Event::TranscriptDelta("Hel".to_string())])
    );
    assert_eq!(
        decode(r#"{"type":"response.audio_transcript.done","transcript":"Hello"}"#),
        Ok(vec![Event::TranscriptDone("Hello".to_string())])
    );
}

#[test]
fn speech_started_has_no_payload() {
    assert_eq!(
        decode(r#"{"type":"input_audio_buffer.speech_started","audio_start_ms":12}"#),
        Ok(vec![Event::InputAudioBufferSpeechStarted])
    );
}

#[test]
fn a_frame_that_is_not_json_is_a_syntax_error() {
    assert_eq!(decode("not json"), Err(DecodeError::Syntax));
    assert_eq!(decode(""), Err(DecodeError::Syntax));
    assert_eq!(decode(r#"{"type":"response.audio.done""#), Err(DecodeError::Syntax));
}

#[test]
fn a_frame_without_a_string_type_is_an_envelope_error() {
    assert_eq!(decode("[1]"), Err(DecodeError::Envelope));
    assert_eq!(decode(r#"{"delta":"AQID"}"#), Err(DecodeError::Envelope));
    assert_eq!(decode(r#"{"type":5}"#), Err(DecodeError::Envelope));
    assert_eq!(decode("null"), Err(DecodeError::Envelope));
}

#[test]
fn a_missing_or_mistyped_payload_is_a_payload_error() {
    assert_eq!(decode(r#"{"type":"response.audio.delta"}"#), Err(DecodeError::Payload));
    assert_eq!(decode(r#"{"type":"response.audio.delta","delta":7}"#), Err(DecodeError::Payload));
    assert_eq!(
        decode(r#"{"type":"response.audio_transcript.delta"}"#),
        Err(DecodeError::Payload)
    );
    assert_eq!(
        decode(r#"{"type":"response.audio_transcript.done","delta":"x"}"#),
        Err(DecodeError::Payload)
    );
}

#[test]
fn a_payload_that_is_not_base64_is_a_base64_error() {
    assert_eq!(
        decode(r#"{"type":"response.audio.delta","delta":"***"}"#),
        Err(DecodeError::Base64)
    );
    assert_eq!(
        decode(r#"{"type":"response.audio.delta","delta":"AQI"}"#),
        Err(DecodeError::Base64)
    );
}

#[test]
fn session_created_carries_the_descriptor() {
    let events = decode(&created(DESCRIPTOR)).unwrap();
    assert_eq!(events.len(), 1);
    match &events[0] {
        Event::SessionCreated(session) => {
            assert_eq!(session.id, "abc");
            assert_eq!(session.object, "realtime.session");
            assert_eq!(session.expires_at, 1742188264);
            assert_eq!(session.input_audio_noise_reduction, None);
            assert_eq!(session.turn_detection.td_type, "server_vad");
            assert_eq!(session.turn_detection.threshold, Number::Real("0.5".to_string()));
            assert_eq!(session.turn_detection.prefix_padding_ms, 300);
            assert_eq!(session.turn_detection.silence_duration_ms, 200);
            assert!(session.turn_detection.create_response);
            assert!(session.turn_detection.interrupt_response);
            assert_eq!(session.input_audio_format, AudioFormat::PCM16);
            assert_eq!(session.included, Json::Null);
            assert_eq!(session.model, "gpt-4o-realtime-preview-2024-12-17");
            assert_eq!(session.modalities, vec![Modality::Audio, Modality::Text]);
            assert_eq!(session.instructions, "Be brief.");
            assert_eq!(session.voice, Voice::Alloy);
            assert_eq!(session.output_audio_format, AudioFormat::PCM16);
            assert_eq!(session.tool_choice, ToolChoice::Auto);
            assert_eq!(session.temperature, Number::Real("0.8".to_string()));
            assert_eq!(session.max_response_output_tokens, Json::Str("inf".to_string()));
            assert_eq!(session.speed, Number::Real("1.0".to_string()));
            assert_eq!(session.tracing, Json::Null);
            assert_eq!(session.client_secret, None);
        }
        other => panic!("expected a descriptor, got {:?}", other),
    }
}

#[test]
fn session_created_reads_a_client_secret() {
    let descriptor = DESCRIPTOR.replace(
        r#""client_secret": null"#,
        r#""client_secret": {"value": "ek_1", "expires_at": 99}"#,
    );
    let events = decode(&created(&descriptor)).unwrap();
    match &events[0] {
        Event::SessionCreated(session) => {
            let secret = session.client_secret.as_ref().unwrap();
            assert_eq!(secret.value, "ek_1");
            assert_eq!(secret.expires_at, 99);
        }
        other => panic!("expected a descriptor, got {:?}", other),
    }
}

#[test]
fn session_created_accepts_absent_optional_members() {
    let descriptor = DESCRIPTOR
        .replace(r#""input_audio_noise_reduction": null,"#, "")
        .replace(r#""input_audio_transcription": null,"#, "")
        .replace(r#""tools": [],"#, r#""tools": []"#)
        .replace(r#""client_secret": null"#, "");
    assert_eq!(decode(&created(&descriptor)).unwrap().len(), 1);
}

#[test]
fn session_created_without_a_descriptor_is_a_session_error() {
    assert_eq!(decode(r#"{"type":"session.created"}"#), Err(DecodeError::Session));
    assert_eq!(decode(r#"{"type":"session.created","session":null}"#), Err(DecodeError::Session));
    assert_eq!(decode(r#"{"type":"session.created","session":{}}"#), Err(DecodeError::Session));
}

#[test]
fn a_descriptor_with_a_member_of_another_name_is_refused() {
    let descriptor = DESCRIPTOR.replace(r#""id": "abc","#, r#""id": "abc", "extra": 1,"#);
    assert_eq!(decode(&created(&descriptor)), Err(DecodeError::Session));
}

#[test]
fn a_descriptor_with_a_mistyped_member_is_refused() {
    let wrong_voice = DESCRIPTOR.replace(r#""voice": "alloy""#, r#""voice": "nobody""#);
    assert_eq!(decode(&created(&wrong_voice)), Err(DecodeError::Session));
    let wrong_expiry = DESCRIPTOR.replace("1742188264", "1742188264.5");
    assert_eq!(decode(&created(&wrong_expiry)), Err(DecodeError::Session));
    let wrong_modality = DESCRIPTOR.replace(r#"["audio", "text"]"#, r#"["audio", "video"]"#);
    assert_eq!(decode(&created(&wrong_modality)), Err(DecodeError::Session));
    let missing_model = DESCRIPTOR.replace(r#""model": "gpt-4o-realtime-preview-2024-12-17","#, "");
    assert_eq!(decode(&created(&missing_model)), Err(DecodeError::Session));
}

#[test]
fn tools_are_an_object_or_an_empty_list() {
    let as_object = DESCRIPTOR.replace(r#""tools": []"#, r#""tools": {"any": 1}"#);
    assert_eq!(decode(&created(&as_object)).unwrap().len(), 1);
    let with_items = DESCRIPTOR.replace(r#""tools": []"#, r#""tools": [1]"#);
    assert_eq!(decode(&created(&with_items)), Err(DecodeError::Session));
    let as_text = DESCRIPTOR.replace(r#""tools": []"#, r#""tools": "none""#);
    assert_eq!(decode(&created(&as_text)), Err(DecodeError::Session));
}

#[test]
fn an_integer_temperature_is_a_number_too() {
    let descriptor = DESCRIPTOR.replace(r#""temperature": 0.8"#, r#""temperature": 1"#);
    match &decode(&created(&descriptor)).unwrap()[0] {
        Event::SessionCreated(session) => assert_eq!(session.temperature, Number::Int(1)),
        other => panic!("expected a descriptor, got {:?}", other),
    }
}
