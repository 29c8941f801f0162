//! Events arriving from the speech pipeline, and their classification.
//!
//! A pipeline event carries a logical stream id, a payload that is either
//! UTF-8 text or fixed-point audio samples (already brought to the client
//! rate), and the metadata the dispatch rules read. The stream id's kind is
//! decided by substring matches, in a fixed priority order, into a closed
//! enum, so the dispatch over kinds is exhaustive.

use vstd::prelude::*;
use crate::jsontext::ascii_view;

verus! {

/// What one pipeline event carries: text or audio samples.
pub enum PipelinePayload {
    Text(Vec<u8>),
    Audio(Vec<i64>),
}

/// One event from the pipeline, with the metadata the dispatch reads.
pub struct PipelineEvent {
    pub id: Vec<u8>,
    pub payload: PipelinePayload,
    pub segments_remaining: Option<i64>,
    pub error: Option<Vec<u8>>,
    pub error_stage: Option<Vec<u8>>,
}


pub enum PipelinePayloadV {
    Text(Seq<u8>),
    Audio(Seq<i64>),
}

pub struct PipelineEventV {
    pub id: Seq<u8>,
    pub payload: PipelinePayloadV,
    pub segments_remaining: Option<i64>,
    pub error: Option<Seq<u8>>,
    pub error_stage: Option<Seq<u8>>,
}

impl View for PipelinePayload {
    type V = PipelinePayloadV;

    open spec fn view(&self) -> PipelinePayloadV {
        match self {
            PipelinePayload::Text(t) => PipelinePayloadV::Text(t@),
            PipelinePayload::Audio(a) => PipelinePayloadV::Audio(a@),
        }
    }
}

impl View for PipelineEvent {
    type V = PipelineEventV;

    open spec fn view(&self) -> PipelineEventV {
        PipelineEventV {
            id: self.id@,
            payload: self.payload@,
            segments_remaining: self.segments_remaining,
            error: match self.error {
                Some(ref e) => Some(e@),
                None => None,
            },
            error_stage: match self.error_stage {
                Some(ref e) => Some(e@),
                None => None,
            },
        }
    }
}

/// The kind a stream id falls under.
pub enum PipelineEventKind {
    SegmentComplete,
    Log,
    Transcription,
    Audio,
    SpeechStarted,
    SpeechStopped,
    QuestionEnded,
    Other,
}

/// Whether `n` occurs as a contiguous run inside `h`.
pub open spec fn contains_sub(h: Seq<u8>, n: Seq<u8>) -> bool {
    exists|i: int| 0 <= i && i + n.len() <= h.len() && #[trigger] h.subrange(i, i + n.len()) == n
}

/// Substring search, specified against `contains_sub`.
pub fn has_sub(h: &[u8], n: &[u8]) -> (r: bool)
    ensures
        r == contains_sub(h@, n@),
{
    if n.len() > h.len() {
        proof {
            assert(!contains_sub(h@, n@));
        }
        return false;
    }
    if n.len() == 0 {
        proof {
            assert(h@.subrange(0, 0 + n@.len() as int) =~= n@);
            assert(contains_sub(h@, n@));
        }
        return true;
    }
    let mut i: usize = 0;
    while i <= h.len() - n.len()
        invariant
            1 <= n@.len() <= h@.len(),
            0 <= i <= h@.len() - n@.len() + 1,
            forall|k: int| 0 <= k < i ==> #[trigger] h@.subrange(k, k + n@.len()) != n@,
        decreases h@.len() - n@.len() + 1 - i,
    {
        let window = &h[i..i + n.len()];
        if crate::jsontext::bytes_eq(window, n) {
            proof {
                assert(h@.subrange(i as int, i + n@.len()) == n@);
            }
            return true;
        }
        i = i + 1;
    }
    proof {
        assert(!contains_sub(h@, n@));
    }
    false
}

/// The kind an id falls under: the first matching substring wins, checked in
/// this order.
pub open spec fn spec_classify(id: Seq<u8>) -> PipelineEventKind {
    if contains_sub(id, ascii_view("segment_complete")) {
        PipelineEventKind::SegmentComplete
    } else if contains_sub(id, ascii_view("log")) {
        PipelineEventKind::Log
    } else if contains_sub(id, ascii_view("transcription")) {
        PipelineEventKind::Transcription
    } else if contains_sub(id, ascii_view("audio")) {
        PipelineEventKind::Audio
    } else if contains_sub(id, ascii_view("speech_started")) {
        PipelineEventKind::SpeechStarted
    } else if contains_sub(id, ascii_view("speech_stopped")) {
        PipelineEventKind::SpeechStopped
    } else if contains_sub(id, ascii_view("question_ended")) {
        PipelineEventKind::QuestionEnded
    } else {
        PipelineEventKind::Other
    }
}

/// Classifies a stream id.
pub fn classify(id: &[u8]) -> (k: PipelineEventKind)
    ensures
        k == spec_classify(id@),
{
    proof {
        reveal_strlit("segment_complete");
        reveal_strlit("log");
        reveal_strlit("transcription");
        reveal_strlit("audio");
        reveal_strlit("speech_started");
        reveal_strlit("speech_stopped");
        reveal_strlit("question_ended");
    }
    if has_sub(id, crate::jsontext::ascii_bytes("segment_complete").as_slice()) {
        PipelineEventKind::SegmentComplete
    } else if has_sub(id, crate::jsontext::ascii_bytes("log").as_slice()) {
        PipelineEventKind::Log
    } else if has_sub(id, crate::jsontext::ascii_bytes("transcription").as_slice()) {
        PipelineEventKind::Transcription
    } else if has_sub(id, crate::jsontext::ascii_bytes("audio").as_slice()) {
        PipelineEventKind::Audio
    } else if has_sub(id, crate::jsontext::ascii_bytes("speech_started").as_slice()) {
        PipelineEventKind::SpeechStarted
    } else if has_sub(id, crate::jsontext::ascii_bytes("speech_stopped").as_slice()) {
        PipelineEventKind::SpeechStopped
    } else if has_sub(id, crate::jsontext::ascii_bytes("question_ended").as_slice()) {
        PipelineEventKind::QuestionEnded
    } else {
        PipelineEventKind::Other
    }
}

} // verus!
