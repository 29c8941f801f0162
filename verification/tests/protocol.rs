//! Decoding and encoding of the wire protocol.

use voice_gateway::decode::decode_client_message;
use voice_gateway::encode::encode_server_message;
use voice_gateway::protocol::ErrorDetails;
use voice_gateway::protocol::OpenAIRealtimeMessage;
use voice_gateway::protocol::OpenAIRealtimeResponse;

#[test]
fn decode_handshake_scenario_fills_defaults() {
    let frame =
        br#"{"type":"session.update","session":{"model":"m","input_audio_transcription":{"model":"w"}}}"#;
    let msg = decode_client_message(frame).expect("well-formed session update");
    match msg {
        OpenAIRealtimeMessage::SessionUpdate { session } => {
            assert_eq!(session.model, b"m".to_vec());
            let t = session.input_audio_transcription.expect("transcription present");
            assert_eq!(t.model, b"w".to_vec());
            assert!(session.modalities.is_empty());
            assert_eq!(session.instructions, Vec::<u8>::new());
            assert_eq!(session.voice, Vec::<u8>::new());
            assert_eq!(session.tools, b"[]".to_vec());
            assert_eq!(session.temperature, b"0.0".to_vec());
            assert!(session.turn_detection.is_none());
            assert!(session.max_response_output_tokens.is_none());
        }
        _ => panic!("expected a session update"),
    }
}

#[test]
fn decode_full_session_update() {
    let frame = br#"{"type":"session.update","session":{
        "modalities":["text","audio"],
        "instructions":"be brief",
        "voice":"alloy",
        "model":"gpt",
        "input_audio_format":"pcm16",
        "output_audio_format":"pcm16",
        "turn_detection":{"type":"server_vad","threshold":0.5,"prefix_padding_ms":300,
            "silence_duration_ms":200,"interrupt_response":true,"create_response":true},
        "tools":[{"name":"t1"}],
        "tool_choice":"auto",
        "temperature":0.8,
        "max_response_output_tokens":4096}}"#;
    let msg = decode_client_message(frame).expect("well-formed");
    match msg {
        OpenAIRealtimeMessage::SessionUpdate { session } => {
            assert_eq!(session.modalities, vec![b"text".to_vec(), b"audio".to_vec()]);
            assert_eq!(session.instructions, b"be brief".to_vec());
            assert_eq!(session.voice, b"alloy".to_vec());
            assert_eq!(session.model, b"gpt".to_vec());
            let td = session.turn_detection.expect("turn detection present");
            assert_eq!(td.detection_type, b"server_vad".to_vec());
            assert_eq!(td.threshold, b"0.5".to_vec());
            assert_eq!(td.prefix_padding_ms, 300);
            assert_eq!(td.silence_duration_ms, 200);
            assert!(td.interrupt_response);
            assert!(td.create_response);
            assert_eq!(session.tools, br#"[{"name":"t1"}]"#.to_vec());
            assert_eq!(session.tool_choice, b"auto".to_vec());
            assert_eq!(session.temperature, b"0.8".to_vec());
            assert_eq!(session.max_response_output_tokens, Some(4096));
        }
        _ => panic!("expected a session update"),
    }
}

#[test]
fn decode_unknown_tag_is_other() {
    let msg = decode_client_message(br#"{"type":"some.future.event","payload":{"a":[1,2,3]}}"#)
        .expect("well-formed unknown event");
    assert!(matches!(msg, OpenAIRealtimeMessage::Other));
}

#[test]
fn decode_malformed_is_error() {
    assert!(decode_client_message(b"{not json").is_err());
    assert!(decode_client_message(b"").is_err());
    assert!(decode_client_message(b"[1,2,3]").is_err());
    assert!(decode_client_message(br#"{"type":"session.update"}"#).is_err());
    assert!(decode_client_message(br#"{"no_tag":true}"#).is_err());
    assert!(decode_client_message(br#"{"type":7}"#).is_err());
    assert!(decode_client_message(br#"{"type":"input_audio_buffer.commit"} extra"#).is_err());
}

#[test]
fn decode_append_and_commit() {
    let msg = decode_client_message(br#"{"type":"input_audio_buffer.append","audio":"QUJD"}"#)
        .expect("well-formed append");
    match msg {
        OpenAIRealtimeMessage::InputAudioBufferAppend { audio } => {
            assert_eq!(audio, b"QUJD".to_vec());
        }
        _ => panic!("expected an append"),
    }
    let msg = decode_client_message(br#"{"type":"input_audio_buffer.commit"}"#).expect("commit");
    assert!(matches!(msg, OpenAIRealtimeMessage::InputAudioBufferCommit));
}

#[test]
fn decode_truncate_numbers() {
    let msg = decode_client_message(
        br#"{"type":"conversation.item.truncate","item_id":"i9","content_index":2,"audio_end_ms":1500}"#,
    )
    .expect("well-formed truncate");
    match msg {
        OpenAIRealtimeMessage::ConversationItemTruncate {
            item_id,
            content_index,
            audio_end_ms,
            event_id,
        } => {
            assert_eq!(item_id, b"i9".to_vec());
            assert_eq!(content_index, 2);
            assert_eq!(audio_end_ms, 1500);
            assert!(event_id.is_none());
        }
        _ => panic!("expected a truncate"),
    }
    // Fractions, negatives and overflow are not unsigned integers.
    for bad in [&b"1.5"[..], b"-1", b"4294967296", b"1e3"] {
        let mut frame = Vec::new();
        frame.extend_from_slice(
            br#"{"type":"conversation.item.truncate","item_id":"i","content_index":"#,
        );
        frame.extend_from_slice(bad);
        frame.extend_from_slice(br#","audio_end_ms":0}"#);
        assert!(decode_client_message(&frame).is_err());
    }
}

#[test]
fn decode_item_create() {
    let msg = decode_client_message(
        br#"{"type":"conversation.item.create","item":{"type":"message","role":"user",
            "content":[{"type":"input_text","text":"hello"},
                       {"type":"input_audio","audio":"QQ==","transcript":null}]}}"#,
    )
    .expect("well-formed item");
    match msg {
        OpenAIRealtimeMessage::ConversationItemCreate { item } => {
            assert_eq!(item.item_type, b"message".to_vec());
            assert_eq!(item.role, b"user".to_vec());
            assert!(item.id.is_none());
            assert_eq!(item.content.len(), 2);
            match &item.content[0] {
                voice_gateway::protocol::ContentPart::InputText { text } => {
                    assert_eq!(text, &b"hello".to_vec());
                }
                _ => panic!("expected input text"),
            }
            match &item.content[1] {
                voice_gateway::protocol::ContentPart::InputAudio { audio, transcript } => {
                    assert_eq!(audio, &b"QQ==".to_vec());
                    assert!(transcript.is_none());
                }
                _ => panic!("expected input audio"),
            }
        }
        _ => panic!("expected an item create"),
    }
}

#[test]
fn decode_string_escapes() {
    let frame =
        r#"{"type":"response.create","response":{"modalities":[],"instructions":"A\n\"\\ é 😀"}}"#;
    let msg = decode_client_message(frame.as_bytes()).expect("well-formed escapes");
    match msg {
        OpenAIRealtimeMessage::ResponseCreate { response } => {
            let text = response.instructions.expect("instructions present");
            assert_eq!(text, "A\n\"\\ \u{e9} \u{1f600}".as_bytes().to_vec());
        }
        _ => panic!("expected a response request"),
    }
}

#[test]
fn decode_rejects_bad_strings() {
    // A lone surrogate, a bad escape, an unterminated string, a raw control
    // byte and invalid UTF-8 are each malformed.
    assert!(decode_client_message(br#"{"type":"x","a":"\ud800"}"#).is_err());
    assert!(decode_client_message(br#"{"type":"x","a":"\q"}"#).is_err());
    assert!(decode_client_message(br#"{"type":"x","a":"unterminated}"#).is_err());
    assert!(decode_client_message(b"{\"type\":\"x\",\"a\":\"ctrl\x01\"}").is_err());
    assert!(decode_client_message(b"{\"type\":\"x\",\"a\":\"bad\xff\"}").is_err());
}

#[test]
fn decode_duplicate_member_first_wins() {
    let msg = decode_client_message(
        br#"{"type":"input_audio_buffer.append","audio":"QQ==","audio":"Qg=="}"#,
    )
    .expect("well-formed");
    match msg {
        OpenAIRealtimeMessage::InputAudioBufferAppend { audio } => {
            assert_eq!(audio, b"QQ==".to_vec());
        }
        _ => panic!("expected an append"),
    }
}

#[test]
fn decode_depth_limit() {
    let mut deep = Vec::new();
    deep.extend_from_slice(br#"{"type":"x","a":"#);
    for _ in 0..200 {
        deep.push(b'[');
    }
    for _ in 0..200 {
        deep.push(b']');
    }
    deep.push(b'}');
    assert!(decode_client_message(&deep).is_err());
}

#[test]
fn encode_text_delta_exact() {
    let out = encode_server_message(&OpenAIRealtimeResponse::ResponseTextDelta {
        response_id: b"resp-0".to_vec(),
        item_id: b"item-1".to_vec(),
        output_index: 0,
        content_index: 0,
        delta: b"hi".to_vec(),
    });
    assert_eq!(
        out,
        br#"{"type":"response.text.delta","response_id":"resp-0","item_id":"item-1","output_index":0,"content_index":0,"delta":"hi"}"#
            .to_vec()
    );
    // The frame is valid JSON with the expected fields.
    let v: serde_json::Value = serde_json::from_slice(&out).expect("valid JSON");
    assert_eq!(v["type"], "response.text.delta");
    assert_eq!(v["delta"], "hi");
}

#[test]
fn encode_escapes_delta_text() {
    let out = encode_server_message(&OpenAIRealtimeResponse::ResponseTextDelta {
        response_id: b"r".to_vec(),
        item_id: b"i".to_vec(),
        output_index: 1,
        content_index: 23,
        delta: b"a\"b\\c\nd\x01".to_vec(),
    });
    let v: serde_json::Value = serde_json::from_slice(&out).expect("valid JSON");
    assert_eq!(v["delta"], "a\"b\\c\nd\u{1}");
    assert_eq!(v["output_index"], 1);
    assert_eq!(v["content_index"], 23);
}

#[test]
fn encode_error_message() {
    let out = encode_server_message(&OpenAIRealtimeResponse::Error {
        error: ErrorDetails {
            code: Some(b"dataflow_not_connected".to_vec()),
            message: b"not connected".to_vec(),
            param: None,
            error_type: Some(b"server_error".to_vec()),
        },
    });
    let v: serde_json::Value = serde_json::from_slice(&out).expect("valid JSON");
    assert_eq!(v["type"], "error");
    assert_eq!(v["error"]["code"], "dataflow_not_connected");
    assert_eq!(v["error"]["message"], "not connected");
    assert!(v["error"]["param"].is_null());
    assert_eq!(v["error"]["type"], "server_error");
}

#[test]
fn encode_speech_events() {
    let started = encode_server_message(&OpenAIRealtimeResponse::InputAudioBufferSpeechStarted {
        audio_start_ms: 0,
        item_id: b"item-1".to_vec(),
    });
    assert_eq!(
        started,
        br#"{"type":"input_audio_buffer.speech_started","audio_start_ms":0,"item_id":"item-1"}"#
            .to_vec()
    );
    let stopped = encode_server_message(&OpenAIRealtimeResponse::InputAudioBufferSpeechStopped {
        audio_end_ms: 0,
        item_id: b"item-1".to_vec(),
    });
    assert_eq!(
        stopped,
        br#"{"type":"input_audio_buffer.speech_stopped","audio_end_ms":0,"item_id":"item-1"}"#
            .to_vec()
    );
}

#[test]
fn default_model_name() {
    assert_eq!(voice_gateway::default_model(), "Qwen/Qwen2.5-0.5B-Instruct-GGUF");
}
