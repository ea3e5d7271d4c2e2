use openai_realtime::event::decode;
use openai_realtime::{Event, Json, RealtimeSession, WebsocketHandle};

fn descriptor(id: &str) -> String {
    format!(
        r#"{{"id":"{}","object":"realtime.session","expires_at":10,
        "turn_detection":{{"type":"server_vad","threshold":0.5,"prefix_padding_ms":300,
        "silence_duration_ms":200,"create_response":true,"interrupt_response":true}},
        "input_audio_format":"pcm16","include":null,"model":"m","modalities":["text"],
        "instructions":"","voice":"verse","output_audio_format":"pcm16","tool_choice":"auto",
        "temperature":0.8,"max_response_output_tokens":4096,"speed":1.0,"tracing":null,
        "tools":[]}}"#,
        id
    )
}

fn created(id: &str) -> Event {
    let frame = format!(r#"{{"type":"session.created","session":{}}}"#, descriptor(id));
    decode(&frame).unwrap().remove(0)
}

#[test]
fn a_new_session_has_no_descriptor_and_empty_queues() {
    let mut session = RealtimeSession::new("s1".to_string());
    assert_eq!(session.id(), "s1");
    assert!(session.session().is_none());
    assert!(session.take_audio().is_empty());
    assert!(session.take_outbound().is_empty());
}

#[test]
fn applying_the_same_descriptor_twice_is_applying_it_once() {
    let mut once = RealtimeSession::new("s1".to_string());
    once.handle_event(created("abc"));
    let mut twice = RealtimeSession::new("s1".to_string());
    twice.handle_event(created("abc"));
    twice.handle_event(created("abc"));
    assert_eq!(once.session(), twice.session());
    assert_eq!(twice.session().unwrap().id, "abc");
    assert!(twice.take_audio().is_empty());
    assert!(twice.take_outbound().is_empty());
}

#[test]
fn the_later_descriptor_replaces_the_earlier() {
    let mut session = RealtimeSession::new("s1".to_string());
    session.handle_event(created("first"));
    session.handle_event(created("second"));
    assert_eq!(session.session().unwrap().id, "second");
    assert_eq!(session.session().unwrap().max_response_output_tokens, Json::Number(
        openai_realtime::Number::Int(4096)
    ));
}

#[test]
fn frames_in_order_give_the_descriptor_and_the_audio() {
    let handle = WebsocketHandle::new("s1".to_string());
    let mut session = RealtimeSession::new("s1".to_string());
    let frames = vec![
        format!(r#"{{"type":"session.created","session":{}}}"#, descriptor("abc")),
        r#"{"type":"response.audio.delta","delta":"AQID"}"#.to_string(),
    ];
    for frame in &frames {
        for event in handle.on_text(frame).unwrap() {
            session.handle_event(event);
        }
    }
    assert_eq!(session.take_audio(), vec![vec![1u8, 2, 3]]);
    assert_eq!(session.session().unwrap().id, "abc");
}

#[test]
fn audio_reaches_the_consumer_in_the_order_of_arrival() {
    let mut session = RealtimeSession::new("s1".to_string());
    session.handle_event(Event::Audio(vec![1]));
    session.handle_event(Event::TranscriptDelta("a".to_string()));
    session.handle_event(Event::Audio(vec![2, 2]));
    session.handle_event(Event::AudioDone);
    session.handle_event(Event::InputAudioBufferSpeechStarted);
    session.handle_event(Event::TranscriptDone("ab".to_string()));
    session.handle_event(Event::Audio(vec![]));
    assert_eq!(session.take_audio(), vec![vec![1u8], vec![2, 2], vec![]]);
    assert!(session.take_audio().is_empty());
    assert!(session.session().is_none());
    assert!(session.take_outbound().is_empty());
}

#[test]
fn audio_done_is_followed_by_silence_in_the_queue() {
    let mut session = RealtimeSession::new("s1".to_string());
    for event in decode(r#"{"type":"response.audio.done"}"#).unwrap() {
        session.handle_event(event);
    }
    let chunks = session.take_audio();
    assert_eq!(chunks.len(), 1);
    assert_eq!(chunks[0], vec![0u8; 96_000]);
}

#[test]
fn audio_for_a_consumer_that_is_gone_is_dropped() {
    let mut session = RealtimeSession::new("s1".to_string());
    session.handle_event(Event::Audio(vec![1]));
    session.close_audio();
    session.handle_event(Event::Audio(vec![2]));
    session.handle_event(created("abc"));
    assert_eq!(session.take_audio(), vec![vec![1u8]]);
    assert_eq!(session.session().unwrap().id, "abc");
    assert_eq!(session.audio_append(vec![9]), Ok(()));
}

#[test]
fn piped_chunks_arrive_as_many_appends_in_the_same_order() {
    let chunks: Vec<Vec<u8>> =
        vec![vec![1, 2, 3], vec![], vec![0, 255, 7, 7], vec![42], vec![1, 2, 3]];
    let payloads = ["AQID", "", "AP8HBw==", "Kg==", "AQID"];
    let mut a = RealtimeSession::new("a".to_string());
    let mut b = RealtimeSession::new("b".to_string());
    for payload in payloads {
        let frame = format!(r#"{{"type":"response.audio.delta","delta":"{}"}}"#, payload);
        for event in decode(&frame).unwrap() {
            a.handle_event(event);
        }
    }
    for chunk in a.take_audio() {
        b.audio_append(chunk).unwrap();
    }
    let frames = b.take_outbound();
    assert_eq!(frames.len(), chunks.len());
    for (frame, chunk) in frames.iter().zip(chunks.iter()) {
        let tree = Json::parse(frame).unwrap();
        assert_eq!(tree.text_at("type"), Some("input_audio_buffer.append".to_string()));
        let echoed = format!(
            r#"{{"type":"response.audio.delta","delta":"{}"}}"#,
            tree.text_at("audio").unwrap()
        );
        assert_eq!(decode(&echoed), Ok(vec![Event::Audio(chunk.clone())]));
    }
    assert!(a.take_outbound().is_empty());
    assert!(b.take_audio().is_empty());
}

#[test]
fn only_the_first_open_report_releases_the_caller() {
    let mut handle = WebsocketHandle::new("s1".to_string());
    assert_eq!(handle.session_id(), "s1");
    assert!(!handle.is_connected());
    assert!(handle.on_connect());
    assert!(handle.is_connected());
    assert!(!handle.on_connect());
    assert!(!handle.on_connect());
    assert!(handle.is_connected());
}
