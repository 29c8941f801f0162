//! Decoding client events from JSON frames.
//!
//! A frame decodes by first validating the whole document with the scanners
//! of [`crate::jsontext`], then reading each recognised field by name from
//! the top-level object. Absent fields fall back to documented defaults;
//! present fields of the wrong shape fail the whole decode. When two members
//! share a name the first one counts.

use vstd::prelude::*;
use crate::jsontext::MAX_DEPTH;
use crate::jsontext::ascii_bytes;
use crate::jsontext::ascii_view;
use crate::jsontext::bytes_eq;
use crate::jsontext::copy_range;
use crate::jsontext::find_member;
use crate::jsontext::is_null_at;
use crate::jsontext::parse_bool_at;
use crate::jsontext::parse_str_array_at;
use crate::jsontext::parse_string_at;
use crate::jsontext::parse_u32_at;
use crate::jsontext::scan_num;
use crate::jsontext::skip_value;
use crate::jsontext::skip_ws;
use crate::jsontext::spec_bool_at;
use crate::jsontext::spec_find_member;
use crate::jsontext::spec_null_at;
use crate::jsontext::spec_scan_num;
use crate::jsontext::spec_skip_value;
use crate::jsontext::spec_skip_ws;
use crate::jsontext::spec_str_array_at;
use crate::jsontext::spec_string_at;
use crate::jsontext::spec_u32_at;
use crate::jsontext::vv_view;
use crate::protocol::ContentPart;
use crate::protocol::ContentPartV;
use crate::protocol::ConversationItem;
use crate::protocol::ConversationItemV;
use crate::protocol::DecodeError;
use crate::protocol::OpenAIRealtimeMessage;
use crate::protocol::OpenAIRealtimeMessageV;
use crate::protocol::ResponseConfig;
use crate::protocol::ResponseConfigV;
use crate::protocol::SessionConfig;
use crate::protocol::SessionConfigV;
use crate::protocol::TranscriptionConfig;
use crate::protocol::TranscriptionConfigV;
use crate::protocol::TurnDetectionConfig;
use crate::protocol::TurnDetectionConfigV;

verus! {

/// A string-valued member, with a default when absent.
pub open spec fn spec_field_str(s: Seq<u8>, body: int, key: Seq<u8>, dflt: Seq<u8>) -> Option<
    Seq<u8>,
> {
    match spec_find_member(s, body, MAX_DEPTH as int, key, true) {
        None => Some(dflt),
        Some(vp) => match spec_string_at(s, vp) {
            None => None,
            Some((v, e)) => Some(v),
        },
    }
}

fn field_str(s: &[u8], body: usize, key: &[u8], dflt: Vec<u8>) -> (r: Option<Vec<u8>>)
    requires
        body <= s@.len(),
    ensures
        match r {
            Some(v) => spec_field_str(s@, body as int, key@, dflt@) == Some(v@),
            None => spec_field_str(s@, body as int, key@, dflt@) is None,
        },
{
    match find_member(s, body, MAX_DEPTH, key) {
        None => Some(dflt),
        Some(vp) => match parse_string_at(s, vp) {
            None => None,
            Some((v, _e)) => Some(v),
        },
    }
}

/// A string-valued member that must be present.
pub open spec fn spec_field_req_str(s: Seq<u8>, body: int, key: Seq<u8>) -> Option<Seq<u8>> {
    match spec_find_member(s, body, MAX_DEPTH as int, key, true) {
        None => None,
        Some(vp) => match spec_string_at(s, vp) {
            None => None,
            Some((v, e)) => Some(v),
        },
    }
}

fn field_req_str(s: &[u8], body: usize, key: &[u8]) -> (r: Option<Vec<u8>>)
    requires
        body <= s@.len(),
    ensures
        match r {
            Some(v) => spec_field_req_str(s@, body as int, key@) == Some(v@),
            None => spec_field_req_str(s@, body as int, key@) is None,
        },
{
    match find_member(s, body, MAX_DEPTH, key) {
        None => None,
        Some(vp) => match parse_string_at(s, vp) {
            None => None,
            Some((v, _e)) => Some(v),
        },
    }
}

/// An optional string member: absent or `null` means none.
pub open spec fn spec_field_opt_str(s: Seq<u8>, body: int, key: Seq<u8>) -> Option<
    Option<Seq<u8>>,
> {
    match spec_find_member(s, body, MAX_DEPTH as int, key, true) {
        None => Some(None),
        Some(vp) => if spec_null_at(s, vp) {
            Some(None)
        } else {
            match spec_string_at(s, vp) {
                None => None,
                Some((v, e)) => Some(Some(v)),
            }
        },
    }
}

fn field_opt_str(s: &[u8], body: usize, key: &[u8]) -> (r: Option<Option<Vec<u8>>>)
    requires
        body <= s@.len(),
    ensures
        match r {
            Some(Some(v)) => spec_field_opt_str(s@, body as int, key@) == Some(Some(v@)),
            Some(None) => spec_field_opt_str(s@, body as int, key@) == Some(
                None::<Seq<u8>>,
            ),
            None => spec_field_opt_str(s@, body as int, key@) is None,
        },
{
    match find_member(s, body, MAX_DEPTH, key) {
        None => Some(None),
        Some(vp) => {
            if is_null_at(s, vp) {
                Some(None)
            } else {
                match parse_string_at(s, vp) {
                    None => None,
                    Some((v, _e)) => Some(Some(v)),
                }
            }
        },
    }
}

/// An array-of-strings member, empty when absent.
pub open spec fn spec_field_str_array(s: Seq<u8>, body: int, key: Seq<u8>) -> Option<
    Seq<Seq<u8>>,
> {
    match spec_find_member(s, body, MAX_DEPTH as int, key, true) {
        None => Some(Seq::empty()),
        Some(vp) => match spec_str_array_at(s, vp) {
            None => None,
            Some((v, e)) => Some(v),
        },
    }
}

fn field_str_array(s: &[u8], body: usize, key: &[u8]) -> (r: Option<Vec<Vec<u8>>>)
    requires
        body <= s@.len(),
    ensures
        match r {
            Some(v) => spec_field_str_array(s@, body as int, key@) == Some(vv_view(v@)),
            None => spec_field_str_array(s@, body as int, key@) is None,
        },
{
    match find_member(s, body, MAX_DEPTH, key) {
        None => {
            let v: Vec<Vec<u8>> = Vec::new();
            proof {
                assert(vv_view(v@) =~= Seq::<Seq<u8>>::empty());
            }
            Some(v)
        },
        Some(vp) => match parse_str_array_at(s, vp) {
            None => None,
            Some((v, _e)) => Some(v),
        },
    }
}

/// An array-of-strings member that must be present.
pub open spec fn spec_field_req_str_array(s: Seq<u8>, body: int, key: Seq<u8>) -> Option<
    Seq<Seq<u8>>,
> {
    match spec_find_member(s, body, MAX_DEPTH as int, key, true) {
        None => None,
        Some(vp) => match spec_str_array_at(s, vp) {
            None => None,
            Some((v, e)) => Some(v),
        },
    }
}

fn field_req_str_array(s: &[u8], body: usize, key: &[u8]) -> (r: Option<Vec<Vec<u8>>>)
    requires
        body <= s@.len(),
    ensures
        match r {
            Some(v) => spec_field_req_str_array(s@, body as int, key@) == Some(vv_view(v@)),
            None => spec_field_req_str_array(s@, body as int, key@) is None,
        },
{
    match find_member(s, body, MAX_DEPTH, key) {
        None => None,
        Some(vp) => match parse_str_array_at(s, vp) {
            None => None,
            Some((v, _e)) => Some(v),
        },
    }
}

/// The raw text of the number token standing at `pos`.
pub open spec fn spec_num_token_at(s: Seq<u8>, pos: int) -> Option<Seq<u8>> {
    match spec_scan_num(s, pos) {
        None => None,
        Some(e) => if 0 <= pos <= e <= s.len() {
            Some(s.subrange(pos, e))
        } else {
            None
        },
    }
}

fn num_token_at(s: &[u8], pos: usize) -> (r: Option<Vec<u8>>)
    ensures
        match r {
            Some(v) => spec_num_token_at(s@, pos as int) == Some(v@),
            None => spec_num_token_at(s@, pos as int) is None,
        },
{
    match scan_num(s, pos) {
        None => None,
        Some(e) => Some(copy_range(s, pos, e)),
    }
}

/// A number-valued member kept as raw token text, with a default when absent.
pub open spec fn spec_field_num(s: Seq<u8>, body: int, key: Seq<u8>, dflt: Seq<u8>) -> Option<
    Seq<u8>,
> {
    match spec_find_member(s, body, MAX_DEPTH as int, key, true) {
        None => Some(dflt),
        Some(vp) => spec_num_token_at(s, vp),
    }
}

fn field_num(s: &[u8], body: usize, key: &[u8], dflt: Vec<u8>) -> (r: Option<Vec<u8>>)
    requires
        body <= s@.len(),
    ensures
        match r {
            Some(v) => spec_field_num(s@, body as int, key@, dflt@) == Some(v@),
            None => spec_field_num(s@, body as int, key@, dflt@) is None,
        },
{
    match find_member(s, body, MAX_DEPTH, key) {
        None => Some(dflt),
        Some(vp) => num_token_at(s, vp),
    }
}

/// A number-valued member kept as raw token text, required to be present.
pub open spec fn spec_field_req_num(s: Seq<u8>, body: int, key: Seq<u8>) -> Option<Seq<u8>> {
    match spec_find_member(s, body, MAX_DEPTH as int, key, true) {
        None => None,
        Some(vp) => spec_num_token_at(s, vp),
    }
}

fn field_req_num(s: &[u8], body: usize, key: &[u8]) -> (r: Option<Vec<u8>>)
    requires
        body <= s@.len(),
    ensures
        match r {
            Some(v) => spec_field_req_num(s@, body as int, key@) == Some(v@),
            None => spec_field_req_num(s@, body as int, key@) is None,
        },
{
    match find_member(s, body, MAX_DEPTH, key) {
        None => None,
        Some(vp) => num_token_at(s, vp),
    }
}

/// An optional number member kept as raw token text: absent or `null` means
/// none.
pub open spec fn spec_field_opt_num(s: Seq<u8>, body: int, key: Seq<u8>) -> Option<
    Option<Seq<u8>>,
> {
    match spec_find_member(s, body, MAX_DEPTH as int, key, true) {
        None => Some(None),
        Some(vp) => if spec_null_at(s, vp) {
            Some(None)
        } else {
            match spec_num_token_at(s, vp) {
                None => None,
                Some(v) => Some(Some(v)),
            }
        },
    }
}

fn field_opt_num(s: &[u8], body: usize, key: &[u8]) -> (r: Option<Option<Vec<u8>>>)
    requires
        body <= s@.len(),
    ensures
        match r {
            Some(Some(v)) => spec_field_opt_num(s@, body as int, key@) == Some(Some(v@)),
            Some(None) => spec_field_opt_num(s@, body as int, key@) == Some(None::<Seq<u8>>),
            None => spec_field_opt_num(s@, body as int, key@) is None,
        },
{
    match find_member(s, body, MAX_DEPTH, key) {
        None => Some(None),
        Some(vp) => {
            if is_null_at(s, vp) {
                Some(None)
            } else {
                match num_token_at(s, vp) {
                    None => None,
                    Some(v) => Some(Some(v)),
                }
            }
        },
    }
}

/// An unsigned-integer member with a default when absent.
pub open spec fn spec_field_u32(s: Seq<u8>, body: int, key: Seq<u8>, dflt: u32) -> Option<u32> {
    match spec_find_member(s, body, MAX_DEPTH as int, key, true) {
        None => Some(dflt),
        Some(vp) => spec_u32_at(s, vp),
    }
}

fn field_u32(s: &[u8], body: usize, key: &[u8], dflt: u32) -> (r: Option<u32>)
    requires
        body <= s@.len(),
    ensures
        r == spec_field_u32(s@, body as int, key@, dflt),
{
    match find_member(s, body, MAX_DEPTH, key) {
        None => Some(dflt),
        Some(vp) => parse_u32_at(s, vp),
    }
}

/// An unsigned-integer member that must be present.
pub open spec fn spec_field_req_u32(s: Seq<u8>, body: int, key: Seq<u8>) -> Option<u32> {
    match spec_find_member(s, body, MAX_DEPTH as int, key, true) {
        None => None,
        Some(vp) => spec_u32_at(s, vp),
    }
}

fn field_req_u32(s: &[u8], body: usize, key: &[u8]) -> (r: Option<u32>)
    requires
        body <= s@.len(),
    ensures
        r == spec_field_req_u32(s@, body as int, key@),
{
    match find_member(s, body, MAX_DEPTH, key) {
        None => None,
        Some(vp) => parse_u32_at(s, vp),
    }
}

/// An optional unsigned-integer member: absent or `null` means none.
pub open spec fn spec_field_opt_u32(s: Seq<u8>, body: int, key: Seq<u8>) -> Option<Option<u32>> {
    match spec_find_member(s, body, MAX_DEPTH as int, key, true) {
        None => Some(None),
        Some(vp) => if spec_null_at(s, vp) {
            Some(None)
        } else {
            match spec_u32_at(s, vp) {
                None => None,
                Some(n) => Some(Some(n)),
            }
        },
    }
}

fn field_opt_u32(s: &[u8], body: usize, key: &[u8]) -> (r: Option<Option<u32>>)
    requires
        body <= s@.len(),
    ensures
        r == spec_field_opt_u32(s@, body as int, key@),
{
    match find_member(s, body, MAX_DEPTH, key) {
        None => Some(None),
        Some(vp) => {
            if is_null_at(s, vp) {
                Some(None)
            } else {
                match parse_u32_at(s, vp) {
                    None => None,
                    Some(n) => Some(Some(n)),
                }
            }
        },
    }
}

/// A boolean member with a default when absent.
pub open spec fn spec_field_bool(s: Seq<u8>, body: int, key: Seq<u8>, dflt: bool) -> Option<bool> {
    match spec_find_member(s, body, MAX_DEPTH as int, key, true) {
        None => Some(dflt),
        Some(vp) => match spec_bool_at(s, vp) {
            None => None,
            Some((b, e)) => Some(b),
        },
    }
}

fn field_bool(s: &[u8], body: usize, key: &[u8], dflt: bool) -> (r: Option<bool>)
    requires
        body <= s@.len(),
    ensures
        r == spec_field_bool(s@, body as int, key@, dflt),
{
    match find_member(s, body, MAX_DEPTH, key) {
        None => Some(dflt),
        Some(vp) => match parse_bool_at(s, vp) {
            None => None,
            Some((b, _e)) => Some(b),
        },
    }
}

/// A raw-JSON-array member kept as raw text, with a default when absent.
pub open spec fn spec_field_raw_array(s: Seq<u8>, body: int, key: Seq<u8>, dflt: Seq<u8>) -> Option<
    Seq<u8>,
> {
    match spec_find_member(s, body, MAX_DEPTH as int, key, true) {
        None => Some(dflt),
        Some(vp) => if !(0 <= vp < s.len() && s[vp] == 91) {
            None
        } else {
            match spec_skip_value(s, vp, MAX_DEPTH as int) {
                None => None,
                Some(e) => if vp <= e <= s.len() {
                    Some(s.subrange(vp, e))
                } else {
                    None
                },
            }
        },
    }
}

fn field_raw_array(s: &[u8], body: usize, key: &[u8], dflt: Vec<u8>) -> (r: Option<Vec<u8>>)
    requires
        body <= s@.len(),
    ensures
        match r {
            Some(v) => spec_field_raw_array(s@, body as int, key@, dflt@) == Some(v@),
            None => spec_field_raw_array(s@, body as int, key@, dflt@) is None,
        },
{
    match find_member(s, body, MAX_DEPTH, key) {
        None => Some(dflt),
        Some(vp) => {
            if !(vp < s.len() && s[vp] == 91) {
                None
            } else {
                match skip_value(s, vp, MAX_DEPTH) {
                    None => None,
                    Some(e) => Some(copy_range(s, vp, e)),
                }
            }
        },
    }
}

/// An optional raw-JSON-array member: absent or `null` means none.
pub open spec fn spec_field_opt_raw_array(s: Seq<u8>, body: int, key: Seq<u8>) -> Option<
    Option<Seq<u8>>,
> {
    match spec_find_member(s, body, MAX_DEPTH as int, key, true) {
        None => Some(None),
        Some(vp) => if spec_null_at(s, vp) {
            Some(None)
        } else if !(0 <= vp < s.len() && s[vp] == 91) {
            None
        } else {
            match spec_skip_value(s, vp, MAX_DEPTH as int) {
                None => None,
                Some(e) => if vp <= e <= s.len() {
                    Some(Some(s.subrange(vp, e)))
                } else {
                    None
                },
            }
        },
    }
}

fn field_opt_raw_array(s: &[u8], body: usize, key: &[u8]) -> (r: Option<Option<Vec<u8>>>)
    requires
        body <= s@.len(),
    ensures
        match r {
            Some(Some(v)) => spec_field_opt_raw_array(s@, body as int, key@) == Some(Some(v@)),
            Some(None) => spec_field_opt_raw_array(s@, body as int, key@) == Some(
                None::<Seq<u8>>,
            ),
            None => spec_field_opt_raw_array(s@, body as int, key@) is None,
        },
{
    match find_member(s, body, MAX_DEPTH, key) {
        None => Some(None),
        Some(vp) => {
            if is_null_at(s, vp) {
                Some(None)
            } else if !(vp < s.len() && s[vp] == 91) {
                None
            } else {
                match skip_value(s, vp, MAX_DEPTH) {
                    None => None,
                    Some(e) => Some(Some(copy_range(s, vp, e))),
                }
            }
        },
    }
}

/// The transcription configuration standing at `pos`.
pub open spec fn spec_transcription_at(s: Seq<u8>, pos: int) -> Option<TranscriptionConfigV> {
    if !(0 <= pos < s.len() && s[pos] == 123) {
        None
    } else {
        match spec_field_req_str(s, pos + 1, ascii_view("model")) {
            None => None,
            Some(m) => Some(TranscriptionConfigV { model: m }),
        }
    }
}

fn transcription_at(s: &[u8], pos: usize) -> (r: Option<TranscriptionConfig>)
    ensures
        match r {
            Some(t) => spec_transcription_at(s@, pos as int) == Some(t@),
            None => spec_transcription_at(s@, pos as int) is None,
        },
{
    if !(pos < s.len() && s[pos] == 123) {
        return None;
    }
    proof {
        reveal_strlit("model");
    }
    let key = ascii_bytes("model");
    match field_req_str(s, pos + 1, key.as_slice()) {
        None => None,
        Some(m) => Some(TranscriptionConfig { model: m }),
    }
}

/// An optional transcription member: absent or `null` means none.
pub open spec fn spec_field_opt_transcription(s: Seq<u8>, body: int, key: Seq<u8>) -> Option<
    Option<TranscriptionConfigV>,
> {
    match spec_find_member(s, body, MAX_DEPTH as int, key, true) {
        None => Some(None),
        Some(vp) => if spec_null_at(s, vp) {
            Some(None)
        } else {
            match spec_transcription_at(s, vp) {
                None => None,
                Some(t) => Some(Some(t)),
            }
        },
    }
}

fn field_opt_transcription(s: &[u8], body: usize, key: &[u8]) -> (r: Option<
    Option<TranscriptionConfig>,
>)
    requires
        body <= s@.len(),
    ensures
        match r {
            Some(Some(t)) => spec_field_opt_transcription(s@, body as int, key@) == Some(
                Some(t@),
            ),
            Some(None) => spec_field_opt_transcription(s@, body as int, key@) == Some(
                None::<TranscriptionConfigV>,
            ),
            None => spec_field_opt_transcription(s@, body as int, key@) is None,
        },
{
    match find_member(s, body, MAX_DEPTH, key) {
        None => Some(None),
        Some(vp) => {
            if is_null_at(s, vp) {
                Some(None)
            } else {
                match transcription_at(s, vp) {
                    None => None,
                    Some(t) => Some(Some(t)),
                }
            }
        },
    }
}

/// The turn-detection configuration standing at `pos`. Its kind and
/// threshold must be present; the remaining settings default.
pub open spec fn spec_turn_detection_at(s: Seq<u8>, pos: int) -> Option<TurnDetectionConfigV> {
    if !(0 <= pos < s.len() && s[pos] == 123) {
        None
    } else {
        let b = pos + 1;
        let dt = spec_field_req_str(s, b, ascii_view("type"));
        let th = spec_field_req_num(s, b, ascii_view("threshold"));
        let pp = spec_field_u32(s, b, ascii_view("prefix_padding_ms"), 0);
        let sd = spec_field_u32(s, b, ascii_view("silence_duration_ms"), 0);
        let ir = spec_field_bool(s, b, ascii_view("interrupt_response"), false);
        let cr = spec_field_bool(s, b, ascii_view("create_response"), false);
        if dt is Some && th is Some && pp is Some && sd is Some && ir is Some && cr is Some {
            Some(
                TurnDetectionConfigV {
                    detection_type: dt.unwrap(),
                    threshold: th.unwrap(),
                    prefix_padding_ms: pp.unwrap(),
                    silence_duration_ms: sd.unwrap(),
                    interrupt_response: ir.unwrap(),
                    create_response: cr.unwrap(),
                },
            )
        } else {
            None
        }
    }
}

#[verifier::spinoff_prover]
#[verifier::rlimit(100)]
fn turn_detection_at(s: &[u8], pos: usize) -> (r: Option<TurnDetectionConfig>)
    ensures
        match r {
            Some(t) => spec_turn_detection_at(s@, pos as int) == Some(t@),
            None => spec_turn_detection_at(s@, pos as int) is None,
        },
{
    if !(pos < s.len() && s[pos] == 123) {
        return None;
    }
    let b = pos + 1;
    proof {
        reveal_strlit("type");
        reveal_strlit("threshold");
        reveal_strlit("prefix_padding_ms");
        reveal_strlit("silence_duration_ms");
        reveal_strlit("interrupt_response");
        reveal_strlit("create_response");
    }
    let k_dt = ascii_bytes("type");
    let k_th = ascii_bytes("threshold");
    let k_pp = ascii_bytes("prefix_padding_ms");
    let k_sd = ascii_bytes("silence_duration_ms");
    let k_ir = ascii_bytes("interrupt_response");
    let k_cr = ascii_bytes("create_response");
    let dt = match field_req_str(s, b, k_dt.as_slice()) {
        None => {
            return None;
        },
        Some(v) => v,
    };
    let th = match field_req_num(s, b, k_th.as_slice()) {
        None => {
            return None;
        },
        Some(v) => v,
    };
    let pp = match field_u32(s, b, k_pp.as_slice(), 0) {
        None => {
            return None;
        },
        Some(v) => v,
    };
    let sd = match field_u32(s, b, k_sd.as_slice(), 0) {
        None => {
            return None;
        },
        Some(v) => v,
    };
    let ir = match field_bool(s, b, k_ir.as_slice(), false) {
        None => {
            return None;
        },
        Some(v) => v,
    };
    let cr = match field_bool(s, b, k_cr.as_slice(), false) {
        None => {
            return None;
        },
        Some(v) => v,
    };
    Some(
        TurnDetectionConfig {
            detection_type: dt,
            threshold: th,
            prefix_padding_ms: pp,
            silence_duration_ms: sd,
            interrupt_response: ir,
            create_response: cr,
        },
    )
}

/// An optional turn-detection member: absent or `null` means none.
pub open spec fn spec_field_opt_turn_detection(s: Seq<u8>, body: int, key: Seq<u8>) -> Option<
    Option<TurnDetectionConfigV>,
> {
    match spec_find_member(s, body, MAX_DEPTH as int, key, true) {
        None => Some(None),
        Some(vp) => if spec_null_at(s, vp) {
            Some(None)
        } else {
            match spec_turn_detection_at(s, vp) {
                None => None,
                Some(t) => Some(Some(t)),
            }
        },
    }
}

fn field_opt_turn_detection(s: &[u8], body: usize, key: &[u8]) -> (r: Option<
    Option<TurnDetectionConfig>,
>)
    requires
        body <= s@.len(),
    ensures
        match r {
            Some(Some(t)) => spec_field_opt_turn_detection(s@, body as int, key@) == Some(
                Some(t@),
            ),
            Some(None) => spec_field_opt_turn_detection(s@, body as int, key@) == Some(
                None::<TurnDetectionConfigV>,
            ),
            None => spec_field_opt_turn_detection(s@, body as int, key@) is None,
        },
{
    match find_member(s, body, MAX_DEPTH, key) {
        None => Some(None),
        Some(vp) => {
            if is_null_at(s, vp) {
                Some(None)
            } else {
                match turn_detection_at(s, vp) {
                    None => None,
                    Some(t) => Some(Some(t)),
                }
            }
        },
    }
}

/// The session configuration standing at `pos`. Every member may be absent;
/// the defaults are the empty string, the empty list, no transcription, no
/// turn detection, an empty tool list, temperature `0.0`, no token cap, and
/// the stock model name.
pub open spec fn spec_session_config_at(s: Seq<u8>, pos: int) -> Option<SessionConfigV> {
    if !(0 <= pos < s.len() && s[pos] == 123) {
        None
    } else {
        let b = pos + 1;
        let modalities = spec_field_str_array(s, b, ascii_view("modalities"));
        let instructions = spec_field_str(s, b, ascii_view("instructions"), Seq::empty());
        let voice = spec_field_str(s, b, ascii_view("voice"), Seq::empty());
        let model = spec_field_str(
            s,
            b,
            ascii_view("model"),
            ascii_view("Qwen/Qwen2.5-0.5B-Instruct-GGUF"),
        );
        let iaf = spec_field_str(s, b, ascii_view("input_audio_format"), Seq::empty());
        let oaf = spec_field_str(s, b, ascii_view("output_audio_format"), Seq::empty());
        let iat = spec_field_opt_transcription(s, b, ascii_view("input_audio_transcription"));
        let td = spec_field_opt_turn_detection(s, b, ascii_view("turn_detection"));
        let tools = spec_field_raw_array(s, b, ascii_view("tools"), ascii_view("[]"));
        let tc = spec_field_str(s, b, ascii_view("tool_choice"), Seq::empty());
        let temp = spec_field_num(s, b, ascii_view("temperature"), ascii_view("0.0"));
        let max = spec_field_opt_u32(s, b, ascii_view("max_response_output_tokens"));
        if modalities is Some && instructions is Some && voice is Some && model is Some && iaf
            is Some && oaf is Some && iat is Some && td is Some && tools is Some && tc is Some
            && temp is Some && max is Some {
            Some(
                SessionConfigV {
                    modalities: modalities.unwrap(),
                    instructions: instructions.unwrap(),
                    voice: voice.unwrap(),
                    model: model.unwrap(),
                    input_audio_format: iaf.unwrap(),
                    output_audio_format: oaf.unwrap(),
                    input_audio_transcription: iat.unwrap(),
                    turn_detection: td.unwrap(),
                    tools: tools.unwrap(),
                    tool_choice: tc.unwrap(),
                    temperature: temp.unwrap(),
                    max_response_output_tokens: max.unwrap(),
                },
            )
        } else {
            None
        }
    }
}

/// The first six session members: modalities, instructions, voice, model
/// and the two audio formats.
#[verifier::spinoff_prover]
#[verifier::rlimit(100)]
fn sc_part1(s: &[u8], b: usize) -> (r: Option<
    (Vec<Vec<u8>>, Vec<u8>, Vec<u8>, Vec<u8>, Vec<u8>, Vec<u8>),
>)
    requires
        b <= s@.len(),
    ensures
        match r {
            Some(t) => {
                &&& spec_field_str_array(s@, b as int, ascii_view("modalities")) == Some(
                    vv_view(t.0@),
                )
                &&& spec_field_str(s@, b as int, ascii_view("instructions"), Seq::empty())
                    == Some(t.1@)
                &&& spec_field_str(s@, b as int, ascii_view("voice"), Seq::empty()) == Some(t.2@)
                &&& spec_field_str(
                    s@,
                    b as int,
                    ascii_view("model"),
                    ascii_view("Qwen/Qwen2.5-0.5B-Instruct-GGUF"),
                ) == Some(t.3@)
                &&& spec_field_str(s@, b as int, ascii_view("input_audio_format"), Seq::empty())
                    == Some(t.4@)
                &&& spec_field_str(s@, b as int, ascii_view("output_audio_format"), Seq::empty())
                    == Some(t.5@)
            },
            None => {
                ||| spec_field_str_array(s@, b as int, ascii_view("modalities")) is None
                ||| spec_field_str(s@, b as int, ascii_view("instructions"), Seq::empty())
                    is None
                ||| spec_field_str(s@, b as int, ascii_view("voice"), Seq::empty()) is None
                ||| spec_field_str(
                    s@,
                    b as int,
                    ascii_view("model"),
                    ascii_view("Qwen/Qwen2.5-0.5B-Instruct-GGUF"),
                ) is None
                ||| spec_field_str(s@, b as int, ascii_view("input_audio_format"), Seq::empty())
                    is None
                ||| spec_field_str(s@, b as int, ascii_view("output_audio_format"), Seq::empty())
                    is None
            },
        },
{
    proof {
        reveal_strlit("modalities");
        reveal_strlit("instructions");
        reveal_strlit("voice");
        reveal_strlit("model");
        reveal_strlit("Qwen/Qwen2.5-0.5B-Instruct-GGUF");
        reveal_strlit("input_audio_format");
        reveal_strlit("output_audio_format");
    }
    let modalities = match field_str_array(s, b, ascii_bytes("modalities").as_slice()) {
        None => {
            return None;
        },
        Some(v) => v,
    };
    let instructions = match field_str(s, b, ascii_bytes("instructions").as_slice(), Vec::new()) {
        None => {
            return None;
        },
        Some(v) => v,
    };
    let voice = match field_str(s, b, ascii_bytes("voice").as_slice(), Vec::new()) {
        None => {
            return None;
        },
        Some(v) => v,
    };
    let model = match field_str(
        s,
        b,
        ascii_bytes("model").as_slice(),
        ascii_bytes("Qwen/Qwen2.5-0.5B-Instruct-GGUF"),
    ) {
        None => {
            return None;
        },
        Some(v) => v,
    };
    let iaf = match field_str(s, b, ascii_bytes("input_audio_format").as_slice(), Vec::new()) {
        None => {
            return None;
        },
        Some(v) => v,
    };
    let oaf = match field_str(s, b, ascii_bytes("output_audio_format").as_slice(), Vec::new()) {
        None => {
            return None;
        },
        Some(v) => v,
    };
    Some((modalities, instructions, voice, model, iaf, oaf))
}

/// The remaining six session members: transcription, turn detection, tools,
/// tool choice, temperature and the token cap.
#[verifier::spinoff_prover]
#[verifier::rlimit(100)]
fn sc_part2(s: &[u8], b: usize) -> (r: Option<
    (
        Option<TranscriptionConfig>,
        Option<TurnDetectionConfig>,
        Vec<u8>,
        Vec<u8>,
        Vec<u8>,
        Option<u32>,
    ),
>)
    requires
        b <= s@.len(),
    ensures
        match r {
            Some(t) => {
                &&& spec_field_opt_transcription(
                    s@,
                    b as int,
                    ascii_view("input_audio_transcription"),
                ) == Some(
                    match t.0 {
                        Some(ref c) => Some(c@),
                        None => None::<TranscriptionConfigV>,
                    },
                )
                &&& spec_field_opt_turn_detection(s@, b as int, ascii_view("turn_detection"))
                    == Some(
                    match t.1 {
                        Some(ref c) => Some(c@),
                        None => None::<TurnDetectionConfigV>,
                    },
                )
                &&& spec_field_raw_array(s@, b as int, ascii_view("tools"), ascii_view("[]"))
                    == Some(t.2@)
                &&& spec_field_str(s@, b as int, ascii_view("tool_choice"), Seq::empty()) == Some(
                    t.3@,
                )
                &&& spec_field_num(s@, b as int, ascii_view("temperature"), ascii_view("0.0"))
                    == Some(t.4@)
                &&& spec_field_opt_u32(s@, b as int, ascii_view("max_response_output_tokens"))
                    == Some(t.5)
            },
            None => {
                ||| spec_field_opt_transcription(
                    s@,
                    b as int,
                    ascii_view("input_audio_transcription"),
                ) is None
                ||| spec_field_opt_turn_detection(s@, b as int, ascii_view("turn_detection"))
                    is None
                ||| spec_field_raw_array(s@, b as int, ascii_view("tools"), ascii_view("[]"))
                    is None
                ||| spec_field_str(s@, b as int, ascii_view("tool_choice"), Seq::empty()) is None
                ||| spec_field_num(s@, b as int, ascii_view("temperature"), ascii_view("0.0"))
                    is None
                ||| spec_field_opt_u32(s@, b as int, ascii_view("max_response_output_tokens"))
                    is None
            },
        },
{
    proof {
        reveal_strlit("input_audio_transcription");
        reveal_strlit("turn_detection");
        reveal_strlit("tools");
        reveal_strlit("[]");
        reveal_strlit("tool_choice");
        reveal_strlit("temperature");
        reveal_strlit("0.0");
        reveal_strlit("max_response_output_tokens");
    }
    let iat = match field_opt_transcription(
        s,
        b,
        ascii_bytes("input_audio_transcription").as_slice(),
    ) {
        None => {
            return None;
        },
        Some(v) => v,
    };
    let td = match field_opt_turn_detection(s, b, ascii_bytes("turn_detection").as_slice()) {
        None => {
            return None;
        },
        Some(v) => v,
    };
    let tools = match field_raw_array(s, b, ascii_bytes("tools").as_slice(), ascii_bytes("[]")) {
        None => {
            return None;
        },
        Some(v) => v,
    };
    let tc = match field_str(s, b, ascii_bytes("tool_choice").as_slice(), Vec::new()) {
        None => {
            return None;
        },
        Some(v) => v,
    };
    let temp = match field_num(s, b, ascii_bytes("temperature").as_slice(), ascii_bytes("0.0")) {
        None => {
            return None;
        },
        Some(v) => v,
    };
    let max = match field_opt_u32(s, b, ascii_bytes("max_response_output_tokens").as_slice()) {
        None => {
            return None;
        },
        Some(v) => v,
    };
    Some((iat, td, tools, tc, temp, max))
}

#[verifier::spinoff_prover]
#[verifier::rlimit(100)]
pub fn session_config_at(s: &[u8], pos: usize) -> (r: Option<SessionConfig>)
    ensures
        match r {
            Some(c) => spec_session_config_at(s@, pos as int) == Some(c@),
            None => spec_session_config_at(s@, pos as int) is None,
        },
{
    if !(pos < s.len() && s[pos] == 123) {
        return None;
    }
    let b = pos + 1;
    let part1 = match sc_part1(s, b) {
        None => {
            return None;
        },
        Some(v) => v,
    };
    let part2 = match sc_part2(s, b) {
        None => {
            return None;
        },
        Some(v) => v,
    };
    let (modalities, instructions, voice, model, iaf, oaf) = part1;
    let (iat, td, tools, tc, temp, max) = part2;
    Some(
        SessionConfig {
            modalities,
            instructions,
            voice,
            model,
            input_audio_format: iaf,
            output_audio_format: oaf,
            input_audio_transcription: iat,
            turn_detection: td,
            tools,
            tool_choice: tc,
            temperature: temp,
            max_response_output_tokens: max,
        },
    )
}

/// The response configuration standing at `pos`. Its modalities must be
/// present; everything else is optional.
pub open spec fn spec_response_config_at(s: Seq<u8>, pos: int) -> Option<ResponseConfigV> {
    if !(0 <= pos < s.len() && s[pos] == 123) {
        None
    } else {
        let b = pos + 1;
        let modalities = spec_field_req_str_array(s, b, ascii_view("modalities"));
        let instructions = spec_field_opt_str(s, b, ascii_view("instructions"));
        let voice = spec_field_opt_str(s, b, ascii_view("voice"));
        let oaf = spec_field_opt_str(s, b, ascii_view("output_audio_format"));
        let tools = spec_field_opt_raw_array(s, b, ascii_view("tools"));
        let tc = spec_field_opt_str(s, b, ascii_view("tool_choice"));
        let temp = spec_field_opt_num(s, b, ascii_view("temperature"));
        let max = spec_field_opt_u32(s, b, ascii_view("max_output_tokens"));
        if modalities is Some && instructions is Some && voice is Some && oaf is Some && tools
            is Some && tc is Some && temp is Some && max is Some {
            Some(
                ResponseConfigV {
                    modalities: modalities.unwrap(),
                    instructions: instructions.unwrap(),
                    voice: voice.unwrap(),
                    output_audio_format: oaf.unwrap(),
                    tools: tools.unwrap(),
                    tool_choice: tc.unwrap(),
                    temperature: temp.unwrap(),
                    max_output_tokens: max.unwrap(),
                },
            )
        } else {
            None
        }
    }
}

#[verifier::spinoff_prover]
#[verifier::rlimit(100)]
pub fn response_config_at(s: &[u8], pos: usize) -> (r: Option<ResponseConfig>)
    ensures
        match r {
            Some(c) => spec_response_config_at(s@, pos as int) == Some(c@),
            None => spec_response_config_at(s@, pos as int) is None,
        },
{
    if !(pos < s.len() && s[pos] == 123) {
        return None;
    }
    let b = pos + 1;
    proof {
        reveal_strlit("modalities");
        reveal_strlit("instructions");
        reveal_strlit("voice");
        reveal_strlit("output_audio_format");
        reveal_strlit("tools");
        reveal_strlit("tool_choice");
        reveal_strlit("temperature");
        reveal_strlit("max_output_tokens");
    }
    let modalities = match field_req_str_array(s, b, ascii_bytes("modalities").as_slice()) {
        None => {
            return None;
        },
        Some(v) => v,
    };
    let instructions = match field_opt_str(s, b, ascii_bytes("instructions").as_slice()) {
        None => {
            return None;
        },
        Some(v) => v,
    };
    let voice = match field_opt_str(s, b, ascii_bytes("voice").as_slice()) {
        None => {
            return None;
        },
        Some(v) => v,
    };
    let oaf = match field_opt_str(s, b, ascii_bytes("output_audio_format").as_slice()) {
        None => {
            return None;
        },
        Some(v) => v,
    };
    let tools = match field_opt_raw_array(s, b, ascii_bytes("tools").as_slice()) {
        None => {
            return None;
        },
        Some(v) => v,
    };
    let tc = match field_opt_str(s, b, ascii_bytes("tool_choice").as_slice()) {
        None => {
            return None;
        },
        Some(v) => v,
    };
    let temp = match field_opt_num(s, b, ascii_bytes("temperature").as_slice()) {
        None => {
            return None;
        },
        Some(v) => v,
    };
    let max = match field_opt_u32(s, b, ascii_bytes("max_output_tokens").as_slice()) {
        None => {
            return None;
        },
        Some(v) => v,
    };
    Some(
        ResponseConfig {
            modalities,
            instructions,
            voice,
            output_audio_format: oaf,
            tools,
            tool_choice: tc,
            temperature: temp,
            max_output_tokens: max,
        },
    )
}

/// The sequence of content-part views a vector of parts stands for.
pub open spec fn cp_views(v: Seq<ContentPart>) -> Seq<ContentPartV> {
    v.map_values(|p: ContentPart| p@)
}

/// The content part standing at `pos`: a tagged object whose `type` selects
/// among input text, input audio, text and audio.
pub open spec fn spec_content_part_at(s: Seq<u8>, pos: int) -> Option<ContentPartV> {
    if !(0 <= pos < s.len() && s[pos] == 123) {
        None
    } else {
        let b = pos + 1;
        match spec_field_req_str(s, b, ascii_view("type")) {
            None => None,
            Some(tag) => if tag == ascii_view("input_text") {
                match spec_field_req_str(s, b, ascii_view("text")) {
                    None => None,
                    Some(t) => Some(ContentPartV::InputText { text: t }),
                }
            } else if tag == ascii_view("input_audio") {
                let a = spec_field_req_str(s, b, ascii_view("audio"));
                let tr = spec_field_opt_str(s, b, ascii_view("transcript"));
                if a is Some && tr is Some {
                    Some(ContentPartV::InputAudio { audio: a.unwrap(), transcript: tr.unwrap() })
                } else {
                    None
                }
            } else if tag == ascii_view("text") {
                match spec_field_req_str(s, b, ascii_view("text")) {
                    None => None,
                    Some(t) => Some(ContentPartV::Text { text: t }),
                }
            } else if tag == ascii_view("audio") {
                let a = spec_field_req_str(s, b, ascii_view("audio"));
                let tr = spec_field_opt_str(s, b, ascii_view("transcript"));
                if a is Some && tr is Some {
                    Some(ContentPartV::Audio { audio: a.unwrap(), transcript: tr.unwrap() })
                } else {
                    None
                }
            } else {
                None
            },
        }
    }
}

#[verifier::spinoff_prover]
#[verifier::rlimit(100)]
fn content_part_at(s: &[u8], pos: usize) -> (r: Option<ContentPart>)
    ensures
        match r {
            Some(p) => spec_content_part_at(s@, pos as int) == Some(p@),
            None => spec_content_part_at(s@, pos as int) is None,
        },
{
    if !(pos < s.len() && s[pos] == 123) {
        return None;
    }
    let b = pos + 1;
    proof {
        reveal_strlit("type");
        reveal_strlit("input_text");
        reveal_strlit("input_audio");
        reveal_strlit("text");
        reveal_strlit("audio");
        reveal_strlit("transcript");
    }
    let tag = match field_req_str(s, b, ascii_bytes("type").as_slice()) {
        None => {
            return None;
        },
        Some(v) => v,
    };
    if bytes_eq(tag.as_slice(), ascii_bytes("input_text").as_slice()) {
        match field_req_str(s, b, ascii_bytes("text").as_slice()) {
            None => None,
            Some(t) => Some(ContentPart::InputText { text: t }),
        }
    } else if bytes_eq(tag.as_slice(), ascii_bytes("input_audio").as_slice()) {
        let a = match field_req_str(s, b, ascii_bytes("audio").as_slice()) {
            None => {
                return None;
            },
            Some(v) => v,
        };
        let tr = match field_opt_str(s, b, ascii_bytes("transcript").as_slice()) {
            None => {
                return None;
            },
            Some(v) => v,
        };
        Some(ContentPart::InputAudio { audio: a, transcript: tr })
    } else if bytes_eq(tag.as_slice(), ascii_bytes("text").as_slice()) {
        match field_req_str(s, b, ascii_bytes("text").as_slice()) {
            None => None,
            Some(t) => Some(ContentPart::Text { text: t }),
        }
    } else if bytes_eq(tag.as_slice(), ascii_bytes("audio").as_slice()) {
        let a = match field_req_str(s, b, ascii_bytes("audio").as_slice()) {
            None => {
                return None;
            },
            Some(v) => v,
        };
        let tr = match field_opt_str(s, b, ascii_bytes("transcript").as_slice()) {
            None => {
                return None;
            },
            Some(v) => v,
        };
        Some(ContentPart::Audio { audio: a, transcript: tr })
    } else {
        None
    }
}

/// Remaining items of a content array, starting just after `[` (when
/// `first`) or after a `,`; `acc` carries the parts already read.
pub open spec fn spec_content_items(
    s: Seq<u8>,
    pos: int,
    first: bool,
    acc: Seq<ContentPartV>,
) -> Option<(Seq<ContentPartV>, int)>
    decreases s.len() - pos,
    when 0 <= pos <= s.len()
{
    let p = spec_skip_ws(s, pos);
    if !(pos <= p && p < s.len()) {
        None
    } else if first && s[p] == 93 {
        Some((acc, p + 1))
    } else {
        match spec_content_part_at(s, p) {
            None => None,
            Some(part) => match spec_skip_value(s, p, MAX_DEPTH as int) {
                None => None,
                Some(vend) => if !(p < vend && vend <= s.len()) {
                    None
                } else {
                    let q = spec_skip_ws(s, vend);
                    if !(vend <= q && q < s.len()) {
                        None
                    } else if s[q] == 44 {
                        spec_content_items(s, q + 1, false, acc + seq![part])
                    } else if s[q] == 93 {
                        Some((acc + seq![part], q + 1))
                    } else {
                        None
                    }
                },
            },
        }
    }
}

/// A content array standing at `pos`: its parts and end position.
pub open spec fn spec_content_array_at(s: Seq<u8>, pos: int) -> Option<(Seq<ContentPartV>, int)> {
    if 0 <= pos < s.len() && s[pos] == 91 {
        spec_content_items(s, pos + 1, true, Seq::empty())
    } else {
        None
    }
}

fn content_array_at(s: &[u8], pos: usize) -> (r: Option<(Vec<ContentPart>, usize)>)
    ensures
        match r {
            Some((v, e)) => spec_content_array_at(s@, pos as int) == Some(
                (cp_views(v@), e as int),
            ),
            None => spec_content_array_at(s@, pos as int) is None,
        },
{
    if !(pos < s.len() && s[pos] == 91) {
        return None;
    }
    let mut out: Vec<ContentPart> = Vec::new();
    let mut cur = pos + 1;
    let mut first = true;
    proof {
        assert(cp_views(out@) =~= Seq::<ContentPartV>::empty());
    }
    loop
        invariant
            pos + 1 <= cur <= s@.len(),
            spec_content_array_at(s@, pos as int) == spec_content_items(
                s@,
                cur as int,
                first,
                cp_views(out@),
            ),
        decreases s@.len() - cur,
    {
        let p = skip_ws(s, cur);
        if !(p < s.len()) {
            return None;
        }
        if first && s[p] == 93 {
            return Some((out, p + 1));
        }
        let part = match content_part_at(s, p) {
            None => {
                return None;
            },
            Some(v) => v,
        };
        match skip_value(s, p, MAX_DEPTH) {
            None => {
                return None;
            },
            Some(vend) => {
                let q = skip_ws(s, vend);
                if !(q < s.len()) {
                    return None;
                }
                if s[q] == 44 {
                    let ghost old_items = cp_views(out@);
                    out.push(part);
                    proof {
                        assert(cp_views(out@) =~= old_items + seq![
                            spec_content_part_at(s@, p as int).unwrap(),
                        ]);
                    }
                    cur = q + 1;
                    first = false;
                } else if s[q] == 93 {
                    let ghost old_items = cp_views(out@);
                    out.push(part);
                    proof {
                        assert(cp_views(out@) =~= old_items + seq![
                            spec_content_part_at(s@, p as int).unwrap(),
                        ]);
                    }
                    return Some((out, q + 1));
                } else {
                    return None;
                }
            },
        }
    }
}

/// The conversation item standing at `pos`. Its kind, role and content must
/// be present; the id and status are optional.
pub open spec fn spec_item_at(s: Seq<u8>, pos: int) -> Option<ConversationItemV> {
    if !(0 <= pos < s.len() && s[pos] == 123) {
        None
    } else {
        let b = pos + 1;
        let id = spec_field_opt_str(s, b, ascii_view("id"));
        let item_type = spec_field_req_str(s, b, ascii_view("type"));
        let status = spec_field_opt_str(s, b, ascii_view("status"));
        let role = spec_field_req_str(s, b, ascii_view("role"));
        let content = match spec_find_member(s, b, MAX_DEPTH as int, ascii_view("content"), true) {
            None => None,
            Some(vp) => match spec_content_array_at(s, vp) {
                None => None,
                Some((c, e)) => Some(c),
            },
        };
        if id is Some && item_type is Some && status is Some && role is Some && content is Some {
            Some(
                ConversationItemV {
                    id: id.unwrap(),
                    item_type: item_type.unwrap(),
                    status: status.unwrap(),
                    role: role.unwrap(),
                    content: content.unwrap(),
                },
            )
        } else {
            None
        }
    }
}

#[verifier::spinoff_prover]
#[verifier::rlimit(100)]
pub fn item_at(s: &[u8], pos: usize) -> (r: Option<ConversationItem>)
    ensures
        match r {
            Some(c) => spec_item_at(s@, pos as int) == Some(c@),
            None => spec_item_at(s@, pos as int) is None,
        },
{
    if !(pos < s.len() && s[pos] == 123) {
        return None;
    }
    let b = pos + 1;
    proof {
        reveal_strlit("id");
        reveal_strlit("type");
        reveal_strlit("status");
        reveal_strlit("role");
        reveal_strlit("content");
    }
    let id = match field_opt_str(s, b, ascii_bytes("id").as_slice()) {
        None => {
            return None;
        },
        Some(v) => v,
    };
    let item_type = match field_req_str(s, b, ascii_bytes("type").as_slice()) {
        None => {
            return None;
        },
        Some(v) => v,
    };
    let status = match field_opt_str(s, b, ascii_bytes("status").as_slice()) {
        None => {
            return None;
        },
        Some(v) => v,
    };
    let role = match field_req_str(s, b, ascii_bytes("role").as_slice()) {
        None => {
            return None;
        },
        Some(v) => v,
    };
    let content = match find_member(s, b, MAX_DEPTH, ascii_bytes("content").as_slice()) {
        None => {
            return None;
        },
        Some(vp) => match content_array_at(s, vp) {
            None => {
                return None;
            },
            Some((c, _e)) => c,
        },
    };
    Some(ConversationItem { id, item_type, status, role, content })
}

/// The client event one frame denotes: `None` when the frame is not a single
/// well-formed JSON object (with nothing but whitespace around it) or a
/// recognised field has the wrong shape; `Other` when the object is well
/// formed but its `type` tag is unknown.
#[verifier::opaque]
pub open spec fn spec_decode(s: Seq<u8>) -> Option<OpenAIRealtimeMessageV> {
    let p0 = spec_skip_ws(s, 0);
    if !(0 <= p0 < s.len() && s[p0] == 123) {
        None
    } else {
        match spec_skip_value(s, p0, MAX_DEPTH as int) {
            None => None,
            Some(end) => if !(p0 < end <= s.len() && spec_skip_ws(s, end) == s.len()) {
                None
            } else {
                let b = p0 + 1;
                match spec_field_req_str(s, b, ascii_view("type")) {
                    None => None,
                    Some(tag) => spec_decode_tagged(s, b, tag),
                }
            },
        }
    }
}

/// Dispatch on the `type` tag of a validated top-level object whose body
/// starts at `b`.
pub open spec fn spec_decode_tagged(s: Seq<u8>, b: int, tag: Seq<u8>) -> Option<
    OpenAIRealtimeMessageV,
> {
    if tag == ascii_view("session.update") {
        match spec_find_member(s, b, MAX_DEPTH as int, ascii_view("session"), true) {
            None => None,
            Some(vp) => match spec_session_config_at(s, vp) {
                None => None,
                Some(c) => Some(OpenAIRealtimeMessageV::SessionUpdate { session: c }),
            },
        }
    } else if tag == ascii_view("input_audio_buffer.append") {
        match spec_field_req_str(s, b, ascii_view("audio")) {
            None => None,
            Some(a) => Some(OpenAIRealtimeMessageV::InputAudioBufferAppend { audio: a }),
        }
    } else if tag == ascii_view("input_audio_buffer.commit") {
        Some(OpenAIRealtimeMessageV::InputAudioBufferCommit)
    } else if tag == ascii_view("response.create") {
        match spec_find_member(s, b, MAX_DEPTH as int, ascii_view("response"), true) {
            None => None,
            Some(vp) => match spec_response_config_at(s, vp) {
                None => None,
                Some(c) => Some(OpenAIRealtimeMessageV::ResponseCreate { response: c }),
            },
        }
    } else if tag == ascii_view("conversation.item.create") {
        match spec_find_member(s, b, MAX_DEPTH as int, ascii_view("item"), true) {
            None => None,
            Some(vp) => match spec_item_at(s, vp) {
                None => None,
                Some(item) => Some(OpenAIRealtimeMessageV::ConversationItemCreate { item }),
            },
        }
    } else if tag == ascii_view("conversation.item.truncate") {
        let item_id = spec_field_req_str(s, b, ascii_view("item_id"));
        let ci = spec_field_req_u32(s, b, ascii_view("content_index"));
        let ae = spec_field_req_u32(s, b, ascii_view("audio_end_ms"));
        let ev = spec_field_opt_str(s, b, ascii_view("event_id"));
        if item_id is Some && ci is Some && ae is Some && ev is Some {
            Some(
                OpenAIRealtimeMessageV::ConversationItemTruncate {
                    item_id: item_id.unwrap(),
                    content_index: ci.unwrap(),
                    audio_end_ms: ae.unwrap(),
                    event_id: ev.unwrap(),
                },
            )
        } else {
            None
        }
    } else {
        Some(OpenAIRealtimeMessageV::Other)
    }
}

/// Decodes one text frame into a client event.
#[verifier::spinoff_prover]
#[verifier::rlimit(100)]
pub fn decode_client_message(frame: &[u8]) -> (r: Result<OpenAIRealtimeMessage, DecodeError>)
    ensures
        match r {
            Ok(m) => spec_decode(frame@) == Some(m@),
            Err(e) => spec_decode(frame@) is None,
        },
{
    proof {
        reveal(spec_decode);
    }
    let p0 = skip_ws(frame, 0);
    if !(p0 < frame.len() && frame[p0] == 123) {
        return Err(DecodeError::Malformed);
    }
    let end = match skip_value(frame, p0, MAX_DEPTH) {
        None => {
            return Err(DecodeError::Malformed);
        },
        Some(e) => e,
    };
    let after = skip_ws(frame, end);
    if after != frame.len() {
        return Err(DecodeError::Malformed);
    }
    let b = p0 + 1;
    proof {
        reveal_strlit("type");
    }
    let tag = match field_req_str(frame, b, ascii_bytes("type").as_slice()) {
        None => {
            return Err(DecodeError::Malformed);
        },
        Some(v) => v,
    };
    decode_tagged(frame, b, tag)
}

#[verifier::spinoff_prover]
#[verifier::rlimit(100)]
fn decode_tagged(frame: &[u8], b: usize, tag: Vec<u8>) -> (r: Result<
    OpenAIRealtimeMessage,
    DecodeError,
>)
    requires
        b <= frame@.len(),
    ensures
        match r {
            Ok(m) => spec_decode_tagged(frame@, b as int, tag@) == Some(m@),
            Err(e) => spec_decode_tagged(frame@, b as int, tag@) is None,
        },
{
    proof {
        reveal_strlit("session.update");
        reveal_strlit("session");
        reveal_strlit("input_audio_buffer.append");
        reveal_strlit("audio");
        reveal_strlit("input_audio_buffer.commit");
        reveal_strlit("response.create");
        reveal_strlit("response");
        reveal_strlit("conversation.item.create");
        reveal_strlit("item");
        reveal_strlit("conversation.item.truncate");
        reveal_strlit("item_id");
        reveal_strlit("content_index");
        reveal_strlit("audio_end_ms");
        reveal_strlit("event_id");
    }
    if bytes_eq(tag.as_slice(), ascii_bytes("session.update").as_slice()) {
        match find_member(frame, b, MAX_DEPTH, ascii_bytes("session").as_slice()) {
            None => Err(DecodeError::Malformed),
            Some(vp) => match session_config_at(frame, vp) {
                None => Err(DecodeError::Malformed),
                Some(c) => Ok(OpenAIRealtimeMessage::SessionUpdate { session: c }),
            },
        }
    } else if bytes_eq(tag.as_slice(), ascii_bytes("input_audio_buffer.append").as_slice()) {
        match field_req_str(frame, b, ascii_bytes("audio").as_slice()) {
            None => Err(DecodeError::Malformed),
            Some(a) => Ok(OpenAIRealtimeMessage::InputAudioBufferAppend { audio: a }),
        }
    } else if bytes_eq(tag.as_slice(), ascii_bytes("input_audio_buffer.commit").as_slice()) {
        Ok(OpenAIRealtimeMessage::InputAudioBufferCommit)
    } else if bytes_eq(tag.as_slice(), ascii_bytes("response.create").as_slice()) {
        match find_member(frame, b, MAX_DEPTH, ascii_bytes("response").as_slice()) {
            None => Err(DecodeError::Malformed),
            Some(vp) => match response_config_at(frame, vp) {
                None => Err(DecodeError::Malformed),
                Some(c) => Ok(OpenAIRealtimeMessage::ResponseCreate { response: c }),
            },
        }
    } else if bytes_eq(tag.as_slice(), ascii_bytes("conversation.item.create").as_slice()) {
        match find_member(frame, b, MAX_DEPTH, ascii_bytes("item").as_slice()) {
            None => Err(DecodeError::Malformed),
            Some(vp) => match item_at(frame, vp) {
                None => Err(DecodeError::Malformed),
                Some(item) => Ok(OpenAIRealtimeMessage::ConversationItemCreate { item }),
            },
        }
    } else if bytes_eq(tag.as_slice(), ascii_bytes("conversation.item.truncate").as_slice()) {
        let item_id = match field_req_str(frame, b, ascii_bytes("item_id").as_slice()) {
            None => {
                return Err(DecodeError::Malformed);
            },
            Some(v) => v,
        };
        let ci = match field_req_u32(frame, b, ascii_bytes("content_index").as_slice()) {
            None => {
                return Err(DecodeError::Malformed);
            },
            Some(v) => v,
        };
        let ae = match field_req_u32(frame, b, ascii_bytes("audio_end_ms").as_slice()) {
            None => {
                return Err(DecodeError::Malformed);
            },
            Some(v) => v,
        };
        let ev = match field_opt_str(frame, b, ascii_bytes("event_id").as_slice()) {
            None => {
                return Err(DecodeError::Malformed);
            },
            Some(v) => v,
        };
        Ok(
            OpenAIRealtimeMessage::ConversationItemTruncate {
                item_id,
                content_index: ci,
                audio_end_ms: ae,
                event_id: ev,
            },
        )
    } else {
        Ok(OpenAIRealtimeMessage::Other)
    }
}

} // verus!
