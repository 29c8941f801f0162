//! The session lifecycle, dispatch, dedup and resilience rules.

use base64::Engine;
use voice_gateway::encode::encode_server_message;
use voice_gateway::events::PipelineEvent;
use voice_gateway::events::PipelinePayload;
use voice_gateway::protocol::OpenAIRealtimeMessage;
use voice_gateway::session::HandshakeResult;
use voice_gateway::session::SendAction;
use voice_gateway::session::Session;
use voice_gateway::session::WsFrameIn;

fn fresh_session() -> Session {
    let frame = br#"{"type":"session.update","session":{"model":"m"}}"#;
    match voice_gateway::session::handshake_first_frame(true, frame) {
        HandshakeResult::Accept { session, frames } => {
            assert_eq!(frames.len(), 2);
            session
        }
        HandshakeResult::Reject { .. } => panic!("handshake should accept"),
    }
}

fn text_event(id: &[u8], text: &[u8]) -> PipelineEvent {
    PipelineEvent {
        id: id.to_vec(),
        payload: PipelinePayload::Text(text.to_vec()),
        segments_remaining: None,
        error: None,
        error_stage: None,
    }
}

#[test]
fn handshake_echoes_config() {
    let frame =
        br#"{"type":"session.update","session":{"model":"m","input_audio_transcription":{"model":"w"}}}"#;
    match voice_gateway::session::handshake_first_frame(true, frame) {
        HandshakeResult::Accept { session: _, frames } => {
            assert_eq!(frames.len(), 2);
            let created = encode_server_message(&frames[0]);
            let updated = encode_server_message(&frames[1]);
            let cv: serde_json::Value = serde_json::from_slice(&created).expect("valid JSON");
            let uv: serde_json::Value = serde_json::from_slice(&updated).expect("valid JSON");
            assert_eq!(cv["type"], "session.created");
            assert_eq!(uv["type"], "session.updated");
            for v in [&cv, &uv] {
                assert_eq!(v["session"]["id"], "session_wserver");
                assert_eq!(v["session"]["object"], "realtime.session");
                assert_eq!(v["session"]["model"], "m");
                assert_eq!(v["session"]["input_audio_transcription"]["model"], "w");
                assert!(v["session"]["turn_detection"].is_null());
                assert_eq!(v["session"]["temperature"], 0.0);
            }
        }
        HandshakeResult::Reject { .. } => panic!("handshake should accept"),
    }
}

#[test]
fn handshake_rejects_wrong_first_frames() {
    match voice_gateway::session::handshake_first_frame(false, b"") {
        HandshakeResult::Reject { close_code } => assert_eq!(close_code, 1002),
        _ => panic!("binary first frame must be rejected"),
    }
    match voice_gateway::session::handshake_first_frame(true, b"not json at all") {
        HandshakeResult::Reject { close_code } => assert_eq!(close_code, 1003),
        _ => panic!("unparseable first frame must be rejected"),
    }
    match voice_gateway::session::handshake_first_frame(
        true,
        br#"{"type":"input_audio_buffer.commit"}"#,
    ) {
        HandshakeResult::Reject { close_code } => assert_eq!(close_code, 1003),
        _ => panic!("a non-update first frame must be rejected"),
    }
}

#[test]
fn lifecycle_scenario_text_then_final_audio() {
    let mut session = fresh_session();
    // A text event while idle: creation notice first, then the delta.
    let out = session.handle_pipeline_event(text_event(b"qwen-text", b"hi"));
    assert_eq!(out.frames.len(), 2);
    assert_eq!(
        encode_server_message(&out.frames[0]),
        br#"{"type":"response.created","response":{"id":"resp-0","status":"in_progress","output":[]}}"#
            .to_vec()
    );
    assert_eq!(
        encode_server_message(&out.frames[1]),
        br#"{"type":"response.text.delta","response_id":"resp-0","item_id":"item-1","output_index":0,"content_index":0,"delta":"hi"}"#
            .to_vec()
    );
    // The closing audio event: delta first, then audio done, then done.
    let full = voice_gateway::audio::FULL_SCALE as f64;
    let samples: Vec<i64> = [0.1f64, -0.2, 0.3].iter().map(|x| (x * full).round() as i64).collect();
    let out = session.handle_pipeline_event(PipelineEvent {
        id: b"primespeech-audio".to_vec(),
        payload: PipelinePayload::Audio(samples),
        segments_remaining: Some(0),
        error: None,
        error_stage: None,
    });
    assert_eq!(out.frames.len(), 3);
    // Nearest-integer quantization: round(0.1 * 32767) is 3277.
    let pcm: Vec<i16> = vec![3277, -6553, 9830];
    let bytes = voice_gateway::audio::samples_to_pcm_bytes(&pcm);
    let delta = base64::engine::general_purpose::STANDARD.encode(&bytes);
    let mut expected = Vec::new();
    expected.extend_from_slice(
        br#"{"type":"response.audio.delta","response_id":"resp-0","item_id":"item-1","output_index":0,"content_index":0,"delta":""#,
    );
    expected.extend_from_slice(delta.as_bytes());
    expected.extend_from_slice(br#""}"#);
    assert_eq!(encode_server_message(&out.frames[0]), expected);
    assert_eq!(
        encode_server_message(&out.frames[1]),
        br#"{"type":"response.audio.done","response_id":"resp-0","item_id":"item-1","output_index":0,"content_index":0}"#
            .to_vec()
    );
    let done = encode_server_message(&out.frames[2]);
    let dv: serde_json::Value = serde_json::from_slice(&done).expect("valid JSON");
    assert_eq!(dv["type"], "response.done");
    assert_eq!(dv["response"]["id"], "resp-0");
    assert_eq!(dv["response"]["status"], "completed");
    // Back to idle: the next delta opens a new response with a fresh id.
    assert!(!session.response_active);
    let out = session.handle_pipeline_event(text_event(b"qwen-text", b"again"));
    assert_eq!(out.frames.len(), 2);
    let created = encode_server_message(&out.frames[0]);
    let cv: serde_json::Value = serde_json::from_slice(&created).expect("valid JSON");
    assert_eq!(cv["response"]["id"], "resp-1");
}

#[test]
fn transcription_and_log_and_errors() {
    let mut session = fresh_session();
    let out = session.handle_pipeline_event(text_event(b"asr-transcription", b"word"));
    assert_eq!(out.frames.len(), 2);
    let delta = encode_server_message(&out.frames[1]);
    let dv: serde_json::Value = serde_json::from_slice(&delta).expect("valid JSON");
    assert_eq!(dv["type"], "response.audio_transcript.delta");
    assert_eq!(dv["delta"], "word");
    // Log events are dropped.
    let out = session.handle_pipeline_event(text_event(b"tts-log", b"noise"));
    assert!(out.frames.is_empty());
    // A failed segment surfaces its error without any frame and without
    // ending the session.
    let out = session.handle_pipeline_event(PipelineEvent {
        id: b"tts-segment_complete".to_vec(),
        payload: PipelinePayload::Text(b"error".to_vec()),
        segments_remaining: None,
        error: Some(b"synthesis failed".to_vec()),
        error_stage: Some(b"tts".to_vec()),
    });
    assert!(out.frames.is_empty());
    let note = out.error_note.expect("error surfaced");
    assert_eq!(note.stage, b"tts".to_vec());
    assert_eq!(note.error, b"synthesis failed".to_vec());
    // A successful completion notice carries nothing.
    let out = session.handle_pipeline_event(text_event(b"tts-segment_complete", b"complete"));
    assert!(out.frames.is_empty());
    assert!(out.error_note.is_none());
}

#[test]
fn speech_markers_and_unknown_ids() {
    let mut session = fresh_session();
    let audio = |id: &[u8]| PipelineEvent {
        id: id.to_vec(),
        payload: PipelinePayload::Audio(Vec::new()),
        segments_remaining: None,
        error: None,
        error_stage: None,
    };
    let out = session.handle_pipeline_event(audio(b"vad-speech_started"));
    assert_eq!(out.frames.len(), 1);
    let v: serde_json::Value =
        serde_json::from_slice(&encode_server_message(&out.frames[0])).expect("valid JSON");
    assert_eq!(v["type"], "input_audio_buffer.speech_started");
    let out = session.handle_pipeline_event(audio(b"vad-speech_stopped"));
    let v: serde_json::Value =
        serde_json::from_slice(&encode_server_message(&out.frames[0])).expect("valid JSON");
    assert_eq!(v["type"], "input_audio_buffer.speech_stopped");
    // A question-ended marker also reads as a stop notice.
    let out = session.handle_pipeline_event(audio(b"vad-question_ended"));
    let v: serde_json::Value =
        serde_json::from_slice(&encode_server_message(&out.frames[0])).expect("valid JSON");
    assert_eq!(v["type"], "input_audio_buffer.speech_stopped");
    // An unrecognised stream with an audio payload is ignored.
    let out = session.handle_pipeline_event(audio(b"speech_probability"));
    assert!(out.frames.is_empty());
}

#[test]
fn greeting_dedup_window() {
    let mut session = fresh_session();
    let greet = |text: &[u8]| OpenAIRealtimeMessage::ResponseCreate {
        response: voice_gateway::protocol::ResponseConfig {
            modalities: Vec::new(),
            instructions: Some(text.to_vec()),
            voice: None,
            output_audio_format: None,
            tools: None,
            tool_choice: None,
            temperature: None,
            max_output_tokens: None,
        },
    };
    // First greeting forwards.
    let sends = session.handle_client_message(greet(b"hello there"), 1000);
    assert_eq!(sends.len(), 1);
    match &sends[0] {
        SendAction::TextSend { text } => assert_eq!(text, &b"hello there".to_vec()),
        _ => panic!("expected a text send"),
    }
    // The same text inside the 3000 ms window is dropped.
    let sends = session.handle_client_message(greet(b"hello there"), 2500);
    assert_eq!(sends.len(), 0);
    // At 4001 ms the window measured from the first forward has passed.
    let sends = session.handle_client_message(greet(b"hello there"), 4001);
    assert_eq!(sends.len(), 1);
    // A different text forwards at once and resets the window.
    let sends = session.handle_client_message(greet(b"bye"), 4002);
    assert_eq!(sends.len(), 1);
    let sends = session.handle_client_message(greet(b"bye"), 4003);
    assert_eq!(sends.len(), 0);
    // No instructions, nothing to forward.
    let sends = session.handle_client_message(
        OpenAIRealtimeMessage::ResponseCreate {
            response: voice_gateway::protocol::ResponseConfig {
                modalities: Vec::new(),
                instructions: None,
                voice: None,
                output_audio_format: None,
                tools: None,
                tool_choice: None,
                temperature: None,
                max_output_tokens: None,
            },
        },
        5000,
    );
    assert_eq!(sends.len(), 0);
}

#[test]
fn append_drains_chunks_through_the_buffer() {
    let mut session = fresh_session();
    // 9600 zero samples: exactly two chunks, no residue.
    let pcm = vec![0u8; 9600 * 2];
    let audio = base64::engine::general_purpose::STANDARD.encode(&pcm);
    let sends = session.handle_client_message(
        OpenAIRealtimeMessage::InputAudioBufferAppend { audio: audio.into_bytes() },
        0,
    );
    assert_eq!(sends.len(), 2);
    for send in &sends {
        match send {
            SendAction::AudioChunk { samples } => {
                assert_eq!(samples.len(), voice_gateway::audio::CHUNK_SIZE);
                assert!(samples.iter().all(|s| *s == 0));
            }
            _ => panic!("expected audio chunks"),
        }
    }
    // 4799 samples: everything stays buffered.
    let pcm = vec![1u8, 0].repeat(4799);
    let audio = base64::engine::general_purpose::STANDARD.encode(&pcm);
    let sends = session.handle_client_message(
        OpenAIRealtimeMessage::InputAudioBufferAppend { audio: audio.into_bytes() },
        0,
    );
    assert_eq!(sends.len(), 0);
    // One more sample drains a chunk made of the buffered samples.
    let audio = base64::engine::general_purpose::STANDARD.encode(&[1u8, 0]);
    let sends = session.handle_client_message(
        OpenAIRealtimeMessage::InputAudioBufferAppend { audio: audio.into_bytes() },
        0,
    );
    assert_eq!(sends.len(), 1);
    match &sends[0] {
        SendAction::AudioChunk { samples } => {
            assert!(samples.iter().all(|s| *s == voice_gateway::audio::pcm16_to_sample(1)));
        }
        _ => panic!("expected an audio chunk"),
    }
    // Bad base64 and empty payloads are skipped without touching the buffer.
    let sends = session.handle_client_message(
        OpenAIRealtimeMessage::InputAudioBufferAppend { audio: b"!!notbase64!!".to_vec() },
        0,
    );
    assert_eq!(sends.len(), 0);
    let sends = session.handle_client_message(
        OpenAIRealtimeMessage::InputAudioBufferAppend { audio: b"  \r\n ".to_vec() },
        0,
    );
    assert_eq!(sends.len(), 0);
}

#[test]
fn malformed_frames_never_close_the_connection() {
    let mut session = fresh_session();
    let junk: [&[u8]; 5] = [
        b"\xff\xfe\x00garbage",
        b"{\"type\":}",
        b"response.create",
        b"\x00\x01\x02\x03",
        b"{\"type\":\"input_audio_buffer.append\",\"audio\":42}",
    ];
    for payload in junk {
        let out = session.handle_ws_frame(WsFrameIn::Text(payload.to_vec()), 0);
        assert!(!out.exit_loop);
        assert!(out.reply_close.is_none());
        assert!(out.sends.is_empty());
    }
}

#[test]
fn close_and_ping_handling() {
    let mut session = fresh_session();
    let out = session.handle_ws_frame(WsFrameIn::Ping(b"tick".to_vec()), 0);
    assert_eq!(out.reply_pong, Some(b"tick".to_vec()));
    assert!(!out.exit_loop);
    let out = session.handle_ws_frame(WsFrameIn::Close, 0);
    assert_eq!(out.reply_close, Some(1000));
    assert!(out.exit_loop);
    // The close is answered exactly once.
    let out = session.handle_ws_frame(WsFrameIn::Close, 0);
    assert!(out.reply_close.is_none());
    assert!(session.on_loop_exit().is_none());
    // A session whose loop ends without a close frame sends one on exit.
    let mut other = fresh_session();
    assert_eq!(other.on_loop_exit(), Some(1000));
    assert!(other.on_loop_exit().is_none());
}

#[test]
fn session_update_after_handshake_replaces_config() {
    let mut session = fresh_session();
    assert_eq!(session.config.model, b"m".to_vec());
    let msg = voice_gateway::decode::decode_client_message(
        br#"{"type":"session.update","session":{"model":"m2"}}"#,
    )
    .expect("well-formed");
    let sends = session.handle_client_message(msg, 0);
    assert!(sends.is_empty());
    assert_eq!(session.config.model, b"m2".to_vec());
}

#[test]
fn commit_is_acknowledged_without_effect() {
    let mut session = fresh_session();
    let out = session.handle_ws_frame(
        WsFrameIn::Text(br#"{"type":"input_audio_buffer.commit"}"#.to_vec()),
        0,
    );
    assert!(!out.exit_loop);
    assert!(out.reply_close.is_none());
    assert!(out.sends.is_empty());
}

#[test]
fn handshake_echo_exact_bytes() {
    let frame = br#"{"type":"session.update","session":{"model":"m"}}"#;
    match voice_gateway::session::handshake_first_frame(true, frame) {
        HandshakeResult::Accept { session: _, frames } => {
            let created = encode_server_message(&frames[0]);
            let expected = br#"{"type":"session.created","session":{"id":"session_wserver","object":"realtime.session","model":"m","modalities":[],"instructions":"","voice":"","input_audio_format":"","output_audio_format":"","input_audio_transcription":null,"turn_detection":null,"tools":[],"tool_choice":"","temperature":0.0,"max_response_output_tokens":null}}"#;
            assert_eq!(created, expected.to_vec());
        }
        HandshakeResult::Reject { .. } => panic!("handshake should accept"),
    }
}
