//! Encoding server events into JSON frames.
//!
//! Every encoder appends to a byte vector and is proved equal to a
//! specification function that spells the produced text out byte by byte, so
//! the exact frame a client sees is pinned down. String content is escaped
//! the minimal way: quote, backslash and control bytes only.

use vstd::prelude::*;
use crate::jsontext::ascii_bytes;
use crate::jsontext::ascii_view;
use crate::protocol::ErrorDetailsV;
use crate::protocol::ErrorDetails;
use crate::protocol::OpenAIRealtimeResponse;
use crate::protocol::OpenAIRealtimeResponseV;
use crate::protocol::SessionConfig;
use crate::protocol::SessionConfigV;
use crate::protocol::TranscriptionConfigV;
use crate::protocol::TurnDetectionConfigV;

verus! {

/// Lowercase hexadecimal digit for a value below sixteen.
pub open spec fn hex_digit_lower(n: int) -> u8 {
    if n < 10 {
        (48 + n) as u8
    } else {
        (87 + n) as u8
    }
}

/// How one byte of string content is written: itself, a two-byte escape for
/// quote, backslash and the five named controls, or a `\u00XX` escape for the
/// remaining control bytes.
pub open spec fn esc_enc(b: u8) -> Seq<u8> {
    if b == 34 {
        seq![92u8, 34u8]
    } else if b == 92 {
        seq![92u8, 92u8]
    } else if b == 8 {
        seq![92u8, 98u8]
    } else if b == 9 {
        seq![92u8, 116u8]
    } else if b == 10 {
        seq![92u8, 110u8]
    } else if b == 12 {
        seq![92u8, 102u8]
    } else if b == 13 {
        seq![92u8, 114u8]
    } else if b < 32 {
        seq![92u8, 117u8, 48u8, 48u8, hex_digit_lower(b as int / 16), hex_digit_lower(
            b as int % 16,
        )]
    } else {
        seq![b]
    }
}

/// The escaped form of the content from index `i` on.
pub open spec fn spec_escape_from(t: Seq<u8>, i: int) -> Seq<u8>
    decreases t.len() - i,
    when 0 <= i <= t.len()
{
    if i >= t.len() {
        Seq::empty()
    } else {
        esc_enc(t[i]) + spec_escape_from(t, i + 1)
    }
}

/// A JSON string token denoting the text `t`.
pub open spec fn spec_json_str(t: Seq<u8>) -> Seq<u8> {
    seq![34u8] + spec_escape_from(t, 0) + seq![34u8]
}

/// The decimal spelling of `n`.
pub open spec fn spec_dec(n: int) -> Seq<u8>
    decreases n,
{
    if n < 10 {
        seq![(48 + if n >= 0 {
            n
        } else {
            0
        }) as u8]
    } else {
        spec_dec(n / 10) + seq![(48 + n % 10) as u8]
    }
}

/// Appends the bytes of an ASCII literal.
pub fn push_ascii(out: &mut Vec<u8>, s: &str)
    requires
        vstd::string::is_ascii(s),
    ensures
        final(out)@ == old(out)@ + ascii_view(s),
{
    broadcast use vstd::string::is_ascii_spec_bytes;

    out.extend_from_slice(s.as_bytes());
    proof {
        assert(out@ =~= old(out)@ + ascii_view(s));
    }
}

/// Appends raw bytes.
pub fn push_bytes(out: &mut Vec<u8>, t: &[u8])
    ensures
        final(out)@ == old(out)@ + t@,
{
    out.extend_from_slice(t);
    proof {
        assert(out@ =~= old(out)@ + t@);
    }
}

/// Appends a JSON string token denoting `t`.
pub fn push_json_str(out: &mut Vec<u8>, t: &[u8])
    ensures
        final(out)@ == old(out)@ + spec_json_str(t@),
{
    out.push(34);
    let ghost start = out@;
    let mut i: usize = 0;
    while i < t.len()
        invariant
            0 <= i <= t@.len(),
            out@ + spec_escape_from(t@, i as int) == start + spec_escape_from(t@, 0),
        decreases t@.len() - i,
    {
        let b = t[i];
        let ghost prev = out@;
        if b == 34 {
            out.push(92);
            out.push(34);
        } else if b == 92 {
            out.push(92);
            out.push(92);
        } else if b == 8 {
            out.push(92);
            out.push(98);
        } else if b == 9 {
            out.push(92);
            out.push(116);
        } else if b == 10 {
            out.push(92);
            out.push(110);
        } else if b == 12 {
            out.push(92);
            out.push(102);
        } else if b == 13 {
            out.push(92);
            out.push(114);
        } else if b < 32 {
            out.push(92);
            out.push(117);
            out.push(48);
            out.push(48);
            let hi = b / 16;
            let lo = b % 16;
            out.push(if hi < 10 {
                48 + hi
            } else {
                87 + hi
            });
            out.push(if lo < 10 {
                48 + lo
            } else {
                87 + lo
            });
        } else {
            out.push(b);
        }
        proof {
            assert(out@ =~= prev + esc_enc(t@[i as int]));
            assert(prev + (esc_enc(t@[i as int]) + spec_escape_from(t@, i + 1)) =~= out@
                + spec_escape_from(t@, i + 1));
        }
        i = i + 1;
    }
    out.push(34);
    proof {
        assert(spec_escape_from(t@, t@.len() as int) =~= Seq::<u8>::empty());
        assert(out@ =~= old(out)@ + spec_json_str(t@));
    }
}

/// Appends the decimal spelling of `n`.
pub fn push_dec(out: &mut Vec<u8>, n: u32)
    ensures
        final(out)@ == old(out)@ + spec_dec(n as int),
    decreases n,
{
    if n < 10 {
        out.push(48 + n as u8);
        proof {
            assert(out@ =~= old(out)@ + spec_dec(n as int));
        }
    } else {
        push_dec(out, n / 10);
        out.push(48 + (n % 10) as u8);
        proof {
            assert(out@ =~= old(out)@ + (spec_dec(n as int / 10) + seq![(48 + n as int % 10) as u8]));
        }
    }
}

/// A JSON value for an optional text: the string token, or `null`.
pub open spec fn spec_opt_str_json(o: Option<Seq<u8>>) -> Seq<u8> {
    match o {
        Some(t) => spec_json_str(t),
        None => ascii_view("null"),
    }
}

pub fn push_opt_str(out: &mut Vec<u8>, o: &Option<Vec<u8>>)
    ensures
        final(out)@ == old(out)@ + spec_opt_str_json(
            match o {
                Some(v) => Some(v@),
                None => None,
            },
        ),
{
    proof {
        reveal_strlit("null");
    }
    match o {
        Some(v) => push_json_str(out, v.as_slice()),
        None => push_ascii(out, "null"),
    }
}

/// A JSON value for an optional count: its decimal spelling, or `null`.
pub open spec fn spec_opt_u32_json(o: Option<u32>) -> Seq<u8> {
    match o {
        Some(n) => spec_dec(n as int),
        None => ascii_view("null"),
    }
}

pub fn push_opt_u32(out: &mut Vec<u8>, o: &Option<u32>)
    ensures
        final(out)@ == old(out)@ + spec_opt_u32_json(*o),
{
    proof {
        reveal_strlit("null");
    }
    match o {
        Some(n) => push_dec(out, *n),
        None => push_ascii(out, "null"),
    }
}

/// The items of a JSON array of strings, from index `i` on.
pub open spec fn spec_str_array_items_json(items: Seq<Seq<u8>>, i: int) -> Seq<u8>
    decreases items.len() - i,
    when 0 <= i <= items.len()
{
    if i >= items.len() {
        Seq::empty()
    } else {
        (if i > 0 {
            seq![44u8]
        } else {
            Seq::empty()
        }) + spec_json_str(items[i]) + spec_str_array_items_json(items, i + 1)
    }
}

/// A JSON array of string tokens.
pub open spec fn spec_str_array_json(items: Seq<Seq<u8>>) -> Seq<u8> {
    seq![91u8] + spec_str_array_items_json(items, 0) + seq![93u8]
}

pub fn push_str_array(out: &mut Vec<u8>, items: &Vec<Vec<u8>>)
    ensures
        final(out)@ == old(out)@ + spec_str_array_json(crate::jsontext::vv_view(items@)),
{
    let ghost iv = crate::jsontext::vv_view(items@);
    out.push(91);
    let ghost start = out@;
    let mut i: usize = 0;
    while i < items.len()
        invariant
            0 <= i <= items@.len(),
            iv == crate::jsontext::vv_view(items@),
            iv.len() == items@.len(),
            forall|j: int| 0 <= j < items@.len() ==> iv[j] == items@[j]@,
            out@ + spec_str_array_items_json(iv, i as int) == start + spec_str_array_items_json(
                iv,
                0,
            ),
        decreases items@.len() - i,
    {
        let ghost prev = out@;
        if i > 0 {
            out.push(44);
        }
        push_json_str(out, items[i].as_slice());
        proof {
            if i > 0 {
                assert(out@ =~= prev + (seq![44u8] + spec_json_str(iv[i as int])));
            } else {
                assert(out@ =~= prev + (Seq::<u8>::empty() + spec_json_str(iv[i as int])));
            }
            assert(prev + ((if i > 0 {
                seq![44u8]
            } else {
                Seq::<u8>::empty()
            }) + spec_json_str(iv[i as int]) + spec_str_array_items_json(iv, i + 1)) =~= out@
                + spec_str_array_items_json(iv, i + 1));
        }
        i = i + 1;
    }
    out.push(93);
    proof {
        assert(spec_str_array_items_json(iv, iv.len() as int) =~= Seq::<u8>::empty());
        assert(out@ =~= old(out)@ + spec_str_array_json(iv));
    }
}

/// A JSON boolean literal.
pub open spec fn spec_bool_json(b: bool) -> Seq<u8> {
    if b {
        ascii_view("true")
    } else {
        ascii_view("false")
    }
}

pub fn push_bool(out: &mut Vec<u8>, b: bool)
    ensures
        final(out)@ == old(out)@ + spec_bool_json(b),
{
    proof {
        reveal_strlit("true");
        reveal_strlit("false");
    }
    if b {
        push_ascii(out, "true");
    } else {
        push_ascii(out, "false");
    }
}

/// The JSON object a transcription configuration is echoed as.
pub open spec fn spec_transcription_json(t: TranscriptionConfigV) -> Seq<u8> {
    ascii_view("{\"model\":") + spec_json_str(t.model) + ascii_view("}")
}

/// The JSON value of an optional transcription configuration.
pub open spec fn spec_opt_transcription_json(o: Option<TranscriptionConfigV>) -> Seq<u8> {
    match o {
        Some(t) => spec_transcription_json(t),
        None => ascii_view("null"),
    }
}

/// The JSON object a turn-detection configuration is echoed as; the
/// threshold token is written back verbatim.
pub open spec fn spec_turn_detection_json(t: TurnDetectionConfigV) -> Seq<u8> {
    ascii_view("{\"type\":") + spec_json_str(t.detection_type) + ascii_view(",\"threshold\":")
        + t.threshold + ascii_view(",\"prefix_padding_ms\":") + spec_dec(t.prefix_padding_ms as int)
        + ascii_view(",\"silence_duration_ms\":") + spec_dec(t.silence_duration_ms as int)
        + ascii_view(",\"interrupt_response\":") + spec_bool_json(t.interrupt_response)
        + ascii_view(",\"create_response\":") + spec_bool_json(t.create_response) + ascii_view("}")
}

/// The JSON value of an optional turn-detection configuration.
pub open spec fn spec_opt_turn_detection_json(o: Option<TurnDetectionConfigV>) -> Seq<u8> {
    match o {
        Some(t) => spec_turn_detection_json(t),
        None => ascii_view("null"),
    }
}

#[verifier::spinoff_prover]
#[verifier::rlimit(100)]
fn push_opt_transcription(out: &mut Vec<u8>, o: &Option<crate::protocol::TranscriptionConfig>)
    ensures
        final(out)@ == old(out)@ + spec_opt_transcription_json(
            match o {
                Some(t) => Some(t@),
                None => None,
            },
        ),
{
    proof {
        reveal_strlit("null");
        reveal_strlit("{\"model\":");
        reveal_strlit("}");
    }
    match o {
        None => push_ascii(out, "null"),
        Some(t) => {
            push_ascii(out, "{\"model\":");
            push_json_str(out, t.model.as_slice());
            push_ascii(out, "}");
            proof {
                assert(out@ =~= old(out)@ + spec_transcription_json(t@));
            }
        },
    }
}

#[verifier::spinoff_prover]
#[verifier::rlimit(100)]
fn push_opt_turn_detection(out: &mut Vec<u8>, o: &Option<crate::protocol::TurnDetectionConfig>)
    ensures
        final(out)@ == old(out)@ + spec_opt_turn_detection_json(
            match o {
                Some(t) => Some(t@),
                None => None,
            },
        ),
{
    proof {
        reveal_strlit("null");
        reveal_strlit("{\"type\":");
        reveal_strlit(",\"threshold\":");
        reveal_strlit(",\"prefix_padding_ms\":");
        reveal_strlit(",\"silence_duration_ms\":");
        reveal_strlit(",\"interrupt_response\":");
        reveal_strlit(",\"create_response\":");
        reveal_strlit("}");
    }
    match o {
        None => push_ascii(out, "null"),
        Some(t) => {
            push_ascii(out, "{\"type\":");
            push_json_str(out, t.detection_type.as_slice());
            push_ascii(out, ",\"threshold\":");
            push_bytes(out, t.threshold.as_slice());
            push_ascii(out, ",\"prefix_padding_ms\":");
            push_dec(out, t.prefix_padding_ms);
            push_ascii(out, ",\"silence_duration_ms\":");
            push_dec(out, t.silence_duration_ms);
            push_ascii(out, ",\"interrupt_response\":");
            push_bool(out, t.interrupt_response);
            push_ascii(out, ",\"create_response\":");
            push_bool(out, t.create_response);
            push_ascii(out, "}");
            proof {
                assert(out@ =~= old(out)@ + spec_turn_detection_json(t@));
            }
        },
    }
}

/// The `session` payload echoed in `session.created` and `session.updated`:
/// the accepted configuration, written out field by field. The tool list and
/// temperature keep the client's own spelling.
pub open spec fn spec_session_echo(c: SessionConfigV) -> Seq<u8> {
    ascii_view("{\"id\":\"session_wserver\",\"object\":\"realtime.session\",\"model\":")
        + spec_json_str(c.model) + ascii_view(",\"modalities\":") + spec_str_array_json(
        c.modalities,
    ) + ascii_view(",\"instructions\":") + spec_json_str(c.instructions) + ascii_view(",\"voice\":")
        + spec_json_str(c.voice) + ascii_view(",\"input_audio_format\":") + spec_json_str(
        c.input_audio_format,
    ) + ascii_view(",\"output_audio_format\":") + spec_json_str(c.output_audio_format)
        + ascii_view(",\"input_audio_transcription\":") + spec_opt_transcription_json(
        c.input_audio_transcription,
    ) + ascii_view(",\"turn_detection\":") + spec_opt_turn_detection_json(c.turn_detection)
        + ascii_view(",\"tools\":") + c.tools + ascii_view(",\"tool_choice\":") + spec_json_str(
        c.tool_choice,
    ) + ascii_view(",\"temperature\":") + c.temperature + ascii_view(
        ",\"max_response_output_tokens\":",
    ) + spec_opt_u32_json(c.max_response_output_tokens) + ascii_view("}")
}

/// Builds the echoed `session` payload for the given configuration.
#[verifier::spinoff_prover]
#[verifier::rlimit(100)]
pub fn build_session_echo(c: &SessionConfig) -> (out: Vec<u8>)
    ensures
        out@ == spec_session_echo(c@),
{
    proof {
        reveal_strlit("{\"id\":\"session_wserver\",\"object\":\"realtime.session\",\"model\":");
        reveal_strlit(",\"modalities\":");
        reveal_strlit(",\"instructions\":");
        reveal_strlit(",\"voice\":");
        reveal_strlit(",\"input_audio_format\":");
        reveal_strlit(",\"output_audio_format\":");
        reveal_strlit(",\"input_audio_transcription\":");
        reveal_strlit(",\"turn_detection\":");
        reveal_strlit(",\"tools\":");
        reveal_strlit(",\"tool_choice\":");
        reveal_strlit(",\"temperature\":");
        reveal_strlit(",\"max_response_output_tokens\":");
        reveal_strlit("}");
    }
    let mut out: Vec<u8> = Vec::new();
    push_ascii(&mut out, "{\"id\":\"session_wserver\",\"object\":\"realtime.session\",\"model\":");
    push_json_str(&mut out, c.model.as_slice());
    push_ascii(&mut out, ",\"modalities\":");
    push_str_array(&mut out, &c.modalities);
    push_ascii(&mut out, ",\"instructions\":");
    push_json_str(&mut out, c.instructions.as_slice());
    push_ascii(&mut out, ",\"voice\":");
    push_json_str(&mut out, c.voice.as_slice());
    push_ascii(&mut out, ",\"input_audio_format\":");
    push_json_str(&mut out, c.input_audio_format.as_slice());
    push_ascii(&mut out, ",\"output_audio_format\":");
    push_json_str(&mut out, c.output_audio_format.as_slice());
    push_ascii(&mut out, ",\"input_audio_transcription\":");
    push_opt_transcription(&mut out, &c.input_audio_transcription);
    push_ascii(&mut out, ",\"turn_detection\":");
    push_opt_turn_detection(&mut out, &c.turn_detection);
    push_ascii(&mut out, ",\"tools\":");
    push_bytes(&mut out, c.tools.as_slice());
    push_ascii(&mut out, ",\"tool_choice\":");
    push_json_str(&mut out, c.tool_choice.as_slice());
    push_ascii(&mut out, ",\"temperature\":");
    push_bytes(&mut out, c.temperature.as_slice());
    push_ascii(&mut out, ",\"max_response_output_tokens\":");
    push_opt_u32(&mut out, &c.max_response_output_tokens);
    push_ascii(&mut out, "}");
    proof {
        assert(out@ =~= spec_session_echo(c@));
    }
    out
}

/// The JSON object the error details are written as.
pub open spec fn spec_error_details_json(e: ErrorDetailsV) -> Seq<u8> {
    ascii_view("{\"code\":") + spec_opt_str_json(e.code) + ascii_view(",\"message\":")
        + spec_json_str(e.message) + ascii_view(",\"param\":") + spec_opt_str_json(e.param)
        + ascii_view(",\"type\":") + spec_opt_str_json(e.error_type) + ascii_view("}")
}

#[verifier::spinoff_prover]
#[verifier::rlimit(100)]
fn push_error_details(out: &mut Vec<u8>, e: &ErrorDetails)
    ensures
        final(out)@ == old(out)@ + spec_error_details_json(e@),
{
    proof {
        reveal_strlit("{\"code\":");
        reveal_strlit(",\"message\":");
        reveal_strlit(",\"param\":");
        reveal_strlit(",\"type\":");
        reveal_strlit("}");
    }
    push_ascii(out, "{\"code\":");
    push_opt_str(out, &e.code);
    push_ascii(out, ",\"message\":");
    push_json_str(out, e.message.as_slice());
    push_ascii(out, ",\"param\":");
    push_opt_str(out, &e.param);
    push_ascii(out, ",\"type\":");
    push_opt_str(out, &e.error_type);
    push_ascii(out, "}");
    proof {
        assert(out@ =~= old(out)@ + spec_error_details_json(e@));
    }
}

/// A delta-style server event: the tag, the four routing fields, and an
/// optional `delta` payload.
pub open spec fn spec_delta_msg(
    tag: Seq<u8>,
    response_id: Seq<u8>,
    item_id: Seq<u8>,
    output_index: u32,
    content_index: u32,
    delta: Option<Seq<u8>>,
) -> Seq<u8> {
    ascii_view("{\"type\":") + spec_json_str(tag) + ascii_view(",\"response_id\":") + spec_json_str(
        response_id,
    ) + ascii_view(",\"item_id\":") + spec_json_str(item_id) + ascii_view(",\"output_index\":")
        + spec_dec(output_index as int) + ascii_view(",\"content_index\":") + spec_dec(
        content_index as int,
    ) + (match delta {
        Some(d) => ascii_view(",\"delta\":") + spec_json_str(d),
        None => Seq::empty(),
    }) + ascii_view("}")
}

#[verifier::spinoff_prover]
#[verifier::rlimit(100)]
fn push_delta_msg(
    out: &mut Vec<u8>,
    tag: &[u8],
    response_id: &[u8],
    item_id: &[u8],
    output_index: u32,
    content_index: u32,
    delta: Option<&Vec<u8>>,
)
    ensures
        final(out)@ == old(out)@ + spec_delta_msg(
            tag@,
            response_id@,
            item_id@,
            output_index,
            content_index,
            match delta {
                Some(d) => Some(d@),
                None => None,
            },
        ),
{
    proof {
        reveal_strlit("{\"type\":");
        reveal_strlit(",\"response_id\":");
        reveal_strlit(",\"item_id\":");
        reveal_strlit(",\"output_index\":");
        reveal_strlit(",\"content_index\":");
        reveal_strlit(",\"delta\":");
        reveal_strlit("}");
    }
    push_ascii(out, "{\"type\":");
    push_json_str(out, tag);
    push_ascii(out, ",\"response_id\":");
    push_json_str(out, response_id);
    push_ascii(out, ",\"item_id\":");
    push_json_str(out, item_id);
    push_ascii(out, ",\"output_index\":");
    push_dec(out, output_index);
    push_ascii(out, ",\"content_index\":");
    push_dec(out, content_index);
    match delta {
        Some(d) => {
            push_ascii(out, ",\"delta\":");
            push_json_str(out, d.as_slice());
        },
        None => {},
    }
    push_ascii(out, "}");
    proof {
        assert(out@ =~= old(out)@ + spec_delta_msg(
            tag@,
            response_id@,
            item_id@,
            output_index,
            content_index,
            match delta {
                Some(d) => Some(d@),
                None => None,
            },
        ));
    }
}

/// A server event with one raw JSON payload member.
pub open spec fn spec_payload_msg(tag: Seq<u8>, member: Seq<u8>, payload: Seq<u8>) -> Seq<u8> {
    ascii_view("{\"type\":") + spec_json_str(tag) + seq![44u8, 34u8] + member + seq![34u8, 58u8]
        + payload + ascii_view("}")
}

#[verifier::spinoff_prover]
#[verifier::rlimit(100)]
fn push_payload_msg(out: &mut Vec<u8>, tag: &[u8], member: &[u8], payload: &[u8])
    ensures
        final(out)@ == old(out)@ + spec_payload_msg(tag@, member@, payload@),
{
    proof {
        reveal_strlit("{\"type\":");
        reveal_strlit("}");
    }
    push_ascii(out, "{\"type\":");
    push_json_str(out, tag);
    out.push(44);
    out.push(34);
    push_bytes(out, member);
    out.push(34);
    out.push(58);
    push_bytes(out, payload);
    push_ascii(out, "}");
    proof {
        assert(out@ =~= old(out)@ + spec_payload_msg(tag@, member@, payload@));
    }
}

/// A server event with two integer fields beside an item id, as the speech
/// start and stop notices carry.
pub open spec fn spec_speech_msg(tag: Seq<u8>, ms_member: Seq<u8>, ms: u32, item_id: Seq<u8>) -> Seq<
    u8,
> {
    ascii_view("{\"type\":") + spec_json_str(tag) + seq![44u8, 34u8] + ms_member + seq![34u8, 58u8]
        + spec_dec(ms as int) + ascii_view(",\"item_id\":") + spec_json_str(item_id) + ascii_view(
        "}",
    )
}

#[verifier::spinoff_prover]
#[verifier::rlimit(100)]
fn push_speech_msg(out: &mut Vec<u8>, tag: &[u8], ms_member: &[u8], ms: u32, item_id: &[u8])
    ensures
        final(out)@ == old(out)@ + spec_speech_msg(tag@, ms_member@, ms, item_id@),
{
    proof {
        reveal_strlit("{\"type\":");
        reveal_strlit(",\"item_id\":");
        reveal_strlit("}");
    }
    push_ascii(out, "{\"type\":");
    push_json_str(out, tag);
    out.push(44);
    out.push(34);
    push_bytes(out, ms_member);
    out.push(34);
    out.push(58);
    push_dec(out, ms);
    push_ascii(out, ",\"item_id\":");
    push_json_str(out, item_id);
    push_ascii(out, "}");
    proof {
        assert(out@ =~= old(out)@ + spec_speech_msg(tag@, ms_member@, ms, item_id@));
    }
}

/// The exact frame text each server event is written as.
pub open spec fn spec_encode_server(m: OpenAIRealtimeResponseV) -> Seq<u8> {
    match m {
        OpenAIRealtimeResponseV::Error { error } => ascii_view("{\"type\":\"error\",\"error\":")
            + spec_error_details_json(error) + ascii_view("}"),
        OpenAIRealtimeResponseV::SessionCreated { session } => spec_payload_msg(
            ascii_view("session.created"),
            ascii_view("session"),
            session,
        ),
        OpenAIRealtimeResponseV::SessionUpdated { session } => spec_payload_msg(
            ascii_view("session.updated"),
            ascii_view("session"),
            session,
        ),
        OpenAIRealtimeResponseV::ResponseCreated { response } => spec_payload_msg(
            ascii_view("response.created"),
            ascii_view("response"),
            response,
        ),
        OpenAIRealtimeResponseV::ConversationItemCreated { item } => spec_payload_msg(
            ascii_view("conversation.item.created"),
            ascii_view("item"),
            item,
        ),
        OpenAIRealtimeResponseV::ConversationItemTruncated { item } => spec_payload_msg(
            ascii_view("conversation.item.truncated"),
            ascii_view("item"),
            item,
        ),
        OpenAIRealtimeResponseV::ResponseAudioDelta {
            response_id,
            item_id,
            output_index,
            content_index,
            delta,
        } => spec_delta_msg(
            ascii_view("response.audio.delta"),
            response_id,
            item_id,
            output_index,
            content_index,
            Some(delta),
        ),
        OpenAIRealtimeResponseV::ResponseAudioDone {
            response_id,
            item_id,
            output_index,
            content_index,
        } => spec_delta_msg(
            ascii_view("response.audio.done"),
            response_id,
            item_id,
            output_index,
            content_index,
            None,
        ),
        OpenAIRealtimeResponseV::ResponseTextDelta {
            response_id,
            item_id,
            output_index,
            content_index,
            delta,
        } => spec_delta_msg(
            ascii_view("response.text.delta"),
            response_id,
            item_id,
            output_index,
            content_index,
            Some(delta),
        ),
        OpenAIRealtimeResponseV::ResponseAudioTranscriptDelta {
            response_id,
            item_id,
            output_index,
            content_index,
            delta,
        } => spec_delta_msg(
            ascii_view("response.audio_transcript.delta"),
            response_id,
            item_id,
            output_index,
            content_index,
            Some(delta),
        ),
        OpenAIRealtimeResponseV::ResponseDone { response } => spec_payload_msg(
            ascii_view("response.done"),
            ascii_view("response"),
            response,
        ),
        OpenAIRealtimeResponseV::InputAudioBufferSpeechStarted { audio_start_ms, item_id } =>
            spec_speech_msg(
            ascii_view("input_audio_buffer.speech_started"),
            ascii_view("audio_start_ms"),
            audio_start_ms,
            item_id,
        ),
        OpenAIRealtimeResponseV::InputAudioBufferSpeechStopped { audio_end_ms, item_id } =>
            spec_speech_msg(
            ascii_view("input_audio_buffer.speech_stopped"),
            ascii_view("audio_end_ms"),
            audio_end_ms,
            item_id,
        ),
    }
}

/// Encodes one server event into the bytes of a text frame.
#[verifier::spinoff_prover]
#[verifier::rlimit(100)]
pub fn encode_server_message(m: &OpenAIRealtimeResponse) -> (out: Vec<u8>)
    ensures
        out@ == spec_encode_server(m@),
{
    let mut out: Vec<u8> = Vec::new();
    proof {
        reveal_strlit("{\"type\":\"error\",\"error\":");
        reveal_strlit("}");
        reveal_strlit("session.created");
        reveal_strlit("session.updated");
        reveal_strlit("session");
        reveal_strlit("response.created");
        reveal_strlit("response.done");
        reveal_strlit("response");
        reveal_strlit("conversation.item.created");
        reveal_strlit("conversation.item.truncated");
        reveal_strlit("item");
        reveal_strlit("response.audio.delta");
        reveal_strlit("response.audio.done");
        reveal_strlit("response.text.delta");
        reveal_strlit("response.audio_transcript.delta");
        reveal_strlit("input_audio_buffer.speech_started");
        reveal_strlit("audio_start_ms");
        reveal_strlit("input_audio_buffer.speech_stopped");
        reveal_strlit("audio_end_ms");
    }
    match m {
        OpenAIRealtimeResponse::Error { error } => {
            push_ascii(&mut out, "{\"type\":\"error\",\"error\":");
            push_error_details(&mut out, error);
            push_ascii(&mut out, "}");
            proof {
                assert(out@ =~= spec_encode_server(m@));
            }
        },
        OpenAIRealtimeResponse::SessionCreated { session } => {
            push_payload_msg(
                &mut out,
                ascii_bytes("session.created").as_slice(),
                ascii_bytes("session").as_slice(),
                session.as_slice(),
            );
        },
        OpenAIRealtimeResponse::SessionUpdated { session } => {
            push_payload_msg(
                &mut out,
                ascii_bytes("session.updated").as_slice(),
                ascii_bytes("session").as_slice(),
                session.as_slice(),
            );
        },
        OpenAIRealtimeResponse::ResponseCreated { response } => {
            push_payload_msg(
                &mut out,
                ascii_bytes("response.created").as_slice(),
                ascii_bytes("response").as_slice(),
                response.as_slice(),
            );
        },
        OpenAIRealtimeResponse::ConversationItemCreated { item } => {
            push_payload_msg(
                &mut out,
                ascii_bytes("conversation.item.created").as_slice(),
                ascii_bytes("item").as_slice(),
                item.as_slice(),
            );
        },
        OpenAIRealtimeResponse::ConversationItemTruncated { item } => {
            push_payload_msg(
                &mut out,
                ascii_bytes("conversation.item.truncated").as_slice(),
                ascii_bytes("item").as_slice(),
                item.as_slice(),
            );
        },
        OpenAIRealtimeResponse::ResponseAudioDelta {
            response_id,
            item_id,
            output_index,
            content_index,
            delta,
        } => {
            push_delta_msg(
                &mut out,
                ascii_bytes("response.audio.delta").as_slice(),
                response_id.as_slice(),
                item_id.as_slice(),
                *output_index,
                *content_index,
                Some(delta),
            );
        },
        OpenAIRealtimeResponse::ResponseAudioDone {
            response_id,
            item_id,
            output_index,
            content_index,
        } => {
            push_delta_msg(
                &mut out,
                ascii_bytes("response.audio.done").as_slice(),
                response_id.as_slice(),
                item_id.as_slice(),
                *output_index,
                *content_index,
                None,
            );
        },
        OpenAIRealtimeResponse::ResponseTextDelta {
            response_id,
            item_id,
            output_index,
            content_index,
            delta,
        } => {
            push_delta_msg(
                &mut out,
                ascii_bytes("response.text.delta").as_slice(),
                response_id.as_slice(),
                item_id.as_slice(),
                *output_index,
                *content_index,
                Some(delta),
            );
        },
        OpenAIRealtimeResponse::ResponseAudioTranscriptDelta {
            response_id,
            item_id,
            output_index,
            content_index,
            delta,
        } => {
            push_delta_msg(
                &mut out,
                ascii_bytes("response.audio_transcript.delta").as_slice(),
                response_id.as_slice(),
                item_id.as_slice(),
                *output_index,
                *content_index,
                Some(delta),
            );
        },
        OpenAIRealtimeResponse::ResponseDone { response } => {
            push_payload_msg(
                &mut out,
                ascii_bytes("response.done").as_slice(),
                ascii_bytes("response").as_slice(),
                response.as_slice(),
            );
        },
        OpenAIRealtimeResponse::InputAudioBufferSpeechStarted { audio_start_ms, item_id } => {
            push_speech_msg(
                &mut out,
                ascii_bytes("input_audio_buffer.speech_started").as_slice(),
                ascii_bytes("audio_start_ms").as_slice(),
                *audio_start_ms,
                item_id.as_slice(),
            );
        },
        OpenAIRealtimeResponse::InputAudioBufferSpeechStopped { audio_end_ms, item_id } => {
            push_speech_msg(
                &mut out,
                ascii_bytes("input_audio_buffer.speech_stopped").as_slice(),
                ascii_bytes("audio_end_ms").as_slice(),
                *audio_end_ms,
                item_id.as_slice(),
            );
        },
    }
    out
}

} // verus!
