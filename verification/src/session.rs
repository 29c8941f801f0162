//! Per-connection session state and the response lifecycle.
//!
//! A session moves between two lifecycle states: idle (no response open) and
//! active (a response is open and deltas may flow). The first delta the
//! gateway wants to forward while idle opens a response: a `response.created`
//! notice with a fresh synthetic id goes out first. A pipeline audio event
//! whose metadata says no segments remain closes the response: after its
//! audio delta the gateway sends `response.audio.done` and `response.done`,
//! in that order, and returns to idle. Response ids are dynamic: `resp-0`,
//! `resp-1`, ... within the session.

use vstd::prelude::*;
use crate::audio::AudioBuffer;
use crate::audio::spec_pcm_bytes;
use crate::audio::spec_quantize;
use crate::audio::samples_to_pcm;
use crate::audio::samples_to_pcm_bytes;
use crate::b64::b64_of;
use crate::b64::b64_encode;
use crate::encode::spec_dec;
use crate::encode::spec_json_str;
use crate::encode::push_dec;
use crate::encode::push_ascii;
use crate::encode::push_json_str;
use crate::events::PipelineEvent;
use crate::events::PipelineEventKind;
use crate::events::PipelinePayload;
use crate::events::classify;
use crate::events::spec_classify;
use crate::jsontext::ascii_bytes;
use crate::jsontext::ascii_view;
use crate::protocol::OpenAIRealtimeMessage;
use crate::protocol::OpenAIRealtimeResponse;
use crate::protocol::OpenAIRealtimeResponseV;
use crate::protocol::SessionConfig;
use crate::protocol::SessionConfigV;

verus! {

/// The last greeting forwarded to the pipeline, for the debounce window.
pub struct Greeting {
    pub text: Vec<u8>,
    pub at_ms: u64,
}

/// One connection's mutable state.
pub struct Session {
    pub config: SessionConfig,
    pub response_active: bool,
    pub response_created_sent: bool,
    pub audio_buffer: AudioBuffer,
    pub last_greeting: Option<Greeting>,
    pub close_replied: bool,
    pub next_response_index: u64,
    pub current_response_id: Vec<u8>,
}

pub struct SessionV {
    pub config: SessionConfigV,
    pub response_active: bool,
    pub response_created_sent: bool,
    pub audio_buffer: Seq<i64>,
    pub last_greeting: Option<(Seq<u8>, u64)>,
    pub close_replied: bool,
    pub next_response_index: u64,
    pub current_response_id: Seq<u8>,
}

impl View for Session {
    type V = SessionV;

    open spec fn view(&self) -> SessionV {
        SessionV {
            config: self.config@,
            response_active: self.response_active,
            response_created_sent: self.response_created_sent,
            audio_buffer: self.audio_buffer@,
            last_greeting: match self.last_greeting {
                Some(ref g) => Some((g.text@, g.at_ms)),
                None => None,
            },
            close_replied: self.close_replied,
            next_response_index: self.next_response_index,
            current_response_id: self.current_response_id@,
        }
    }
}

impl Session {
    /// The draining invariant carried through every step.
    pub open spec fn wf(&self) -> bool {
        self.audio_buffer.wf()
    }

    /// Checks the draining invariant at run time, for callers outside the
    /// proofs.
    pub fn wf_check(&self) -> (r: bool)
        ensures
            r == self.wf(),
    {
        self.audio_buffer.len() < crate::audio::CHUNK_SIZE
    }

    /// A fresh session around an accepted configuration: idle, empty buffer,
    /// no greeting seen, close not replied.
    pub fn new(config: SessionConfig) -> (s: Session)
        ensures
            s.wf(),
            s@ == fresh_session(config@),
    {
        Session {
            config,
            response_active: false,
            response_created_sent: false,
            audio_buffer: AudioBuffer::new(),
            last_greeting: None,
            close_replied: false,
            next_response_index: 0,
            current_response_id: Vec::new(),
        }
    }
}

/// The views of a vector of server events.
pub open spec fn fv(v: Seq<OpenAIRealtimeResponse>) -> Seq<OpenAIRealtimeResponseV> {
    v.map_values(|m: OpenAIRealtimeResponse| m@)
}

/// The synthetic id of the `n`-th response of a session.
pub open spec fn spec_rid(n: u64) -> Seq<u8> {
    ascii_view("resp-") + spec_dec(n as int)
}

/// The payload announcing an opened response.
pub open spec fn spec_created_payload(rid: Seq<u8>) -> Seq<u8> {
    ascii_view("{\"id\":") + spec_json_str(rid) + ascii_view(",\"status\":\"in_progress\",\"output\":[]}")
}

/// The payload closing a response.
pub open spec fn spec_done_payload(rid: Seq<u8>) -> Seq<u8> {
    ascii_view("{\"id\":") + spec_json_str(rid) + ascii_view(
        ",\"status\":\"completed\",\"status_details\":null,\"output\":[],\"usage\":{\"total_tokens\":0,\"input_tokens\":0,\"output_tokens\":0}}",
    )
}

pub open spec fn created_msg(rid: Seq<u8>) -> OpenAIRealtimeResponseV {
    OpenAIRealtimeResponseV::ResponseCreated { response: spec_created_payload(rid) }
}

pub open spec fn done_msg(rid: Seq<u8>) -> OpenAIRealtimeResponseV {
    OpenAIRealtimeResponseV::ResponseDone { response: spec_done_payload(rid) }
}

pub open spec fn audio_done_msg(rid: Seq<u8>) -> OpenAIRealtimeResponseV {
    OpenAIRealtimeResponseV::ResponseAudioDone {
        response_id: rid,
        item_id: ascii_view("item-1"),
        output_index: 0,
        content_index: 0,
    }
}

pub open spec fn text_delta_msg(rid: Seq<u8>, t: Seq<u8>) -> OpenAIRealtimeResponseV {
    OpenAIRealtimeResponseV::ResponseTextDelta {
        response_id: rid,
        item_id: ascii_view("item-1"),
        output_index: 0,
        content_index: 0,
        delta: t,
    }
}

pub open spec fn transcript_delta_msg(rid: Seq<u8>, t: Seq<u8>) -> OpenAIRealtimeResponseV {
    OpenAIRealtimeResponseV::ResponseAudioTranscriptDelta {
        response_id: rid,
        item_id: ascii_view("item-1"),
        output_index: 0,
        content_index: 0,
        delta: t,
    }
}

/// The PCM quantization of a fixed-point sample sequence.
pub open spec fn spec_quantized(samples: Seq<i64>) -> Seq<i16> {
    samples.map_values(|x: i64| spec_quantize(x))
}

/// The audio delta for a resampled segment: its samples quantized to PCM,
/// laid out little-endian, and carried as base64 text.
pub open spec fn audio_delta_msg(rid: Seq<u8>, samples: Seq<i64>) -> OpenAIRealtimeResponseV {
    OpenAIRealtimeResponseV::ResponseAudioDelta {
        response_id: rid,
        item_id: ascii_view("item-1"),
        output_index: 0,
        content_index: 0,
        delta: b64_of(spec_pcm_bytes(spec_quantized(samples))),
    }
}

pub open spec fn speech_started_msg() -> OpenAIRealtimeResponseV {
    OpenAIRealtimeResponseV::InputAudioBufferSpeechStarted {
        audio_start_ms: 0,
        item_id: ascii_view("item-1"),
    }
}

pub open spec fn speech_stopped_msg() -> OpenAIRealtimeResponseV {
    OpenAIRealtimeResponseV::InputAudioBufferSpeechStopped {
        audio_end_ms: 0,
        item_id: ascii_view("item-1"),
    }
}

/// Builds the `resp-<n>` id.
fn make_rid(n: u64) -> (out: Vec<u8>)
    ensures
        out@ == spec_rid(n),
{
    proof {
        reveal_strlit("resp-");
    }
    let mut out: Vec<u8> = Vec::new();
    push_ascii(&mut out, "resp-");
    if n <= 0xFFFF_FFFF {
        push_dec(&mut out, n as u32);
    } else {
        push_dec_u64(&mut out, n);
    }
    proof {
        assert(out@ =~= spec_rid(n));
    }
    out
}

/// Appends the decimal spelling of a 64-bit count.
fn push_dec_u64(out: &mut Vec<u8>, n: u64)
    ensures
        final(out)@ == old(out)@ + spec_dec(n as int),
    decreases n,
{
    if n < 10 {
        out.push(48 + n as u8);
        proof {
            assert(out@ =~= old(out)@ + spec_dec(n as int));
        }
    } else {
        push_dec_u64(out, n / 10);
        out.push(48 + (n % 10) as u8);
        proof {
            assert(out@ =~= old(out)@ + (spec_dec(n as int / 10) + seq![(48 + n as int % 10) as u8]));
        }
    }
}

/// Builds the payload announcing an opened response.
fn make_created_payload(rid: &Vec<u8>) -> (out: Vec<u8>)
    ensures
        out@ == spec_created_payload(rid@),
{
    proof {
        reveal_strlit("{\"id\":");
        reveal_strlit(",\"status\":\"in_progress\",\"output\":[]}");
    }
    let mut out: Vec<u8> = Vec::new();
    push_ascii(&mut out, "{\"id\":");
    push_json_str(&mut out, rid.as_slice());
    push_ascii(&mut out, ",\"status\":\"in_progress\",\"output\":[]}");
    proof {
        assert(out@ =~= spec_created_payload(rid@));
    }
    out
}

/// Builds the payload closing a response.
fn make_done_payload(rid: &Vec<u8>) -> (out: Vec<u8>)
    ensures
        out@ == spec_done_payload(rid@),
{
    proof {
        reveal_strlit("{\"id\":");
        reveal_strlit(
            ",\"status\":\"completed\",\"status_details\":null,\"output\":[],\"usage\":{\"total_tokens\":0,\"input_tokens\":0,\"output_tokens\":0}}",
        );
    }
    let mut out: Vec<u8> = Vec::new();
    push_ascii(&mut out, "{\"id\":");
    push_json_str(&mut out, rid.as_slice());
    push_ascii(
        &mut out,
        ",\"status\":\"completed\",\"status_details\":null,\"output\":[],\"usage\":{\"total_tokens\":0,\"input_tokens\":0,\"output_tokens\":0}}",
    );
    proof {
        assert(out@ =~= spec_done_payload(rid@));
    }
    out
}

/// The index that follows `n` in the response counter, wrapping at the top.
pub open spec fn next_index(n: u64) -> u64 {
    if n == 0xFFFF_FFFF_FFFF_FFFF {
        0
    } else {
        (n + 1) as u64
    }
}

impl Session {
    /// Opens a response if none is open: the returned frames hold exactly
    /// the `response.created` notice that must precede the first delta, with
    /// a fresh id, or nothing when a response is already active.
    fn ensure_response_open(&mut self) -> (frames: Vec<OpenAIRealtimeResponse>)
        ensures
            old(self).response_active ==> {
                &&& fv(frames@) == Seq::<OpenAIRealtimeResponseV>::empty()
                &&& *final(self) == *old(self)
            },
            !old(self).response_active ==> {
                &&& fv(frames@) == seq![created_msg(spec_rid(old(self).next_response_index))]
                &&& final(self)@ == SessionV {
                    response_active: true,
                    response_created_sent: true,
                    next_response_index: next_index(old(self).next_response_index),
                    current_response_id: spec_rid(old(self).next_response_index),
                    ..old(self)@
                }
            },
    {
        let mut frames: Vec<OpenAIRealtimeResponse> = Vec::new();
        if self.response_active {
            proof {
                assert(fv(frames@) =~= Seq::<OpenAIRealtimeResponseV>::empty());
            }
            return frames;
        }
        let rid = make_rid(self.next_response_index);
        let payload = make_created_payload(&rid);
        frames.push(OpenAIRealtimeResponse::ResponseCreated { response: payload });
        self.current_response_id = rid;
        self.response_active = true;
        self.response_created_sent = true;
        self.next_response_index = if self.next_response_index == 0xFFFF_FFFF_FFFF_FFFF {
            0
        } else {
            self.next_response_index + 1
        };
        proof {
            assert(fv(frames@) =~= seq![created_msg(spec_rid(old(self).next_response_index))]);
        }
        frames
    }
}

/// The creation notice that must go out before a delta, if any: one frame
/// when the session is idle, none when a response is already open.
pub open spec fn spec_open_prefix(s: SessionV) -> Seq<OpenAIRealtimeResponseV> {
    if s.response_active {
        Seq::empty()
    } else {
        seq![created_msg(spec_rid(s.next_response_index))]
    }
}

/// The id the next delta carries: the open response's, or the fresh one.
pub open spec fn spec_use_rid(s: SessionV) -> Seq<u8> {
    if s.response_active {
        s.current_response_id
    } else {
        spec_rid(s.next_response_index)
    }
}

/// The session after a response is (possibly) opened.
pub open spec fn spec_after_open(s: SessionV) -> SessionV {
    if s.response_active {
        s
    } else {
        SessionV {
            response_active: true,
            response_created_sent: true,
            next_response_index: next_index(s.next_response_index),
            current_response_id: spec_rid(s.next_response_index),
            ..s
        }
    }
}

/// The session after the open response closes.
pub open spec fn spec_after_close(s: SessionV) -> SessionV {
    SessionV { response_active: false, response_created_sent: false, ..s }
}

impl Session {
    /// Forwards one text-bearing pipeline event as a delta, opening a
    /// response first when none is open.
    fn emit_text_like_delta(&mut self, transcript: bool, t: Vec<u8>) -> (frames: Vec<
        OpenAIRealtimeResponse,
    >)
        ensures
            fv(frames@) == spec_open_prefix(old(self)@) + seq![
                if transcript {
                    transcript_delta_msg(spec_use_rid(old(self)@), t@)
                } else {
                    text_delta_msg(spec_use_rid(old(self)@), t@)
                },
            ],
            final(self)@ == spec_after_open(old(self)@),
    {
        proof {
            reveal_strlit("item-1");
        }
        let mut frames = self.ensure_response_open();
        let rid = clone_bytes(&self.current_response_id);
        let item = ascii_bytes("item-1");
        let msg = if transcript {
            OpenAIRealtimeResponse::ResponseAudioTranscriptDelta {
                response_id: rid,
                item_id: item,
                output_index: 0,
                content_index: 0,
                delta: t,
            }
        } else {
            OpenAIRealtimeResponse::ResponseTextDelta {
                response_id: rid,
                item_id: item,
                output_index: 0,
                content_index: 0,
                delta: t,
            }
        };
        frames.push(msg);
        proof {
            assert(fv(frames@) =~= spec_open_prefix(old(self)@) + seq![
                if transcript {
                    transcript_delta_msg(spec_use_rid(old(self)@), t@)
                } else {
                    text_delta_msg(spec_use_rid(old(self)@), t@)
                },
            ]);
        }
        frames
    }

    /// Forwards one pipeline audio segment as an audio delta, opening a
    /// response first when none is open, and — when this is the last segment
    /// of the response — closing the response right after the delta with
    /// `response.audio.done` then `response.done`, in that order.
    fn emit_audio_delta(&mut self, samples: &Vec<i64>, close_after: bool) -> (frames: Vec<
        OpenAIRealtimeResponse,
    >)
        ensures
            fv(frames@) == spec_open_prefix(old(self)@) + seq![
                audio_delta_msg(spec_use_rid(old(self)@), samples@),
            ] + (if close_after {
                seq![
                    audio_done_msg(spec_use_rid(old(self)@)),
                    done_msg(spec_use_rid(old(self)@)),
                ]
            } else {
                Seq::empty()
            }),
            final(self)@ == (if close_after {
                spec_after_close(spec_after_open(old(self)@))
            } else {
                spec_after_open(old(self)@)
            }),
    {
        proof {
            reveal_strlit("item-1");
        }
        let mut frames = self.ensure_response_open();
        let rid = clone_bytes(&self.current_response_id);
        let pcm = samples_to_pcm(samples);
        proof {
            assert(pcm@ =~= spec_quantized(samples@));
        }
        let bytes = samples_to_pcm_bytes(pcm.as_slice());
        let b64 = b64_encode(bytes.as_slice());
        frames.push(
            OpenAIRealtimeResponse::ResponseAudioDelta {
                response_id: clone_bytes(&rid),
                item_id: ascii_bytes("item-1"),
                output_index: 0,
                content_index: 0,
                delta: b64,
            },
        );
        if close_after {
            let payload = make_done_payload(&rid);
            frames.push(
                OpenAIRealtimeResponse::ResponseAudioDone {
                    response_id: clone_bytes(&rid),
                    item_id: ascii_bytes("item-1"),
                    output_index: 0,
                    content_index: 0,
                },
            );
            frames.push(OpenAIRealtimeResponse::ResponseDone { response: payload });
            self.response_active = false;
            self.response_created_sent = false;
        }
        proof {
            assert(fv(frames@) =~= spec_open_prefix(old(self)@) + seq![
                audio_delta_msg(spec_use_rid(old(self)@), samples@),
            ] + (if close_after {
                seq![
                    audio_done_msg(spec_use_rid(old(self)@)),
                    done_msg(spec_use_rid(old(self)@)),
                ]
            } else {
                Seq::<OpenAIRealtimeResponseV>::empty()
            }));
        }
        frames
    }
}

/// Copies a byte vector.
fn clone_bytes(v: &Vec<u8>) -> (out: Vec<u8>)
    ensures
        out@ == v@,
{
    vstd::slice::slice_to_vec(v.as_slice())
}

/// What one pipeline event puts on the wire, given the session it meets.
///
/// Text payloads: a transcription stream becomes a transcript delta and any
/// other stream a text delta, each opened by a creation notice when the
/// session is idle; segment-completion and log streams put nothing on the
/// wire. Audio payloads: an audio stream becomes an audio delta, followed —
/// when the event says no segments remain — by the audio-done and done
/// notices, in that order; speech start and stop streams become the matching
/// buffer notices (a question-ended stream, which the pipeline raises where
/// a stop would also do, becomes a stop notice); anything else is ignored.
pub open spec fn spec_pipeline_frames(
    s: SessionV,
    ev: crate::events::PipelineEventV,
) -> Seq<OpenAIRealtimeResponseV> {
    let k = spec_classify(ev.id);
    match ev.payload {
        crate::events::PipelinePayloadV::Text(t) => match k {
            PipelineEventKind::SegmentComplete => Seq::empty(),
            PipelineEventKind::Log => Seq::empty(),
            PipelineEventKind::Transcription => spec_open_prefix(s) + seq![
                transcript_delta_msg(spec_use_rid(s), t),
            ],
            _ => spec_open_prefix(s) + seq![text_delta_msg(spec_use_rid(s), t)],
        },
        crate::events::PipelinePayloadV::Audio(samples) => match k {
            PipelineEventKind::Audio => spec_open_prefix(s) + seq![
                audio_delta_msg(spec_use_rid(s), samples),
            ] + (if ev.segments_remaining == Some(0i64) {
                seq![audio_done_msg(spec_use_rid(s)), done_msg(spec_use_rid(s))]
            } else {
                Seq::empty()
            }),
            PipelineEventKind::SpeechStarted => seq![speech_started_msg()],
            PipelineEventKind::SpeechStopped => seq![speech_stopped_msg()],
            PipelineEventKind::QuestionEnded => seq![speech_stopped_msg()],
            _ => Seq::empty(),
        },
    }
}

/// The session an event leaves behind.
pub open spec fn spec_pipeline_state(s: SessionV, ev: crate::events::PipelineEventV) -> SessionV {
    let k = spec_classify(ev.id);
    match ev.payload {
        crate::events::PipelinePayloadV::Text(t) => match k {
            PipelineEventKind::SegmentComplete => s,
            PipelineEventKind::Log => s,
            _ => spec_after_open(s),
        },
        crate::events::PipelinePayloadV::Audio(samples) => match k {
            PipelineEventKind::Audio => if ev.segments_remaining == Some(0i64) {
                spec_after_close(spec_after_open(s))
            } else {
                spec_after_open(s)
            },
            _ => s,
        },
    }
}

/// The error a failed segment surfaces, with unnamed parts defaulted.
pub open spec fn spec_pipeline_error_note(ev: crate::events::PipelineEventV) -> Option<
    (Seq<u8>, Seq<u8>),
> {
    match ev.payload {
        crate::events::PipelinePayloadV::Text(t) => if spec_classify(ev.id)
            is SegmentComplete && t == ascii_view("error") {
            Some(
                (
                    match ev.error_stage {
                        Some(st) => st,
                        None => ascii_view("unknown"),
                    },
                    match ev.error {
                        Some(e) => e,
                        None => ascii_view("unknown"),
                    },
                ),
            )
        } else {
            None
        },
        _ => None,
    }
}

/// An error a failed pipeline segment surfaced; the shell logs it and the
/// session goes on.
pub struct ErrorNote {
    pub stage: Vec<u8>,
    pub error: Vec<u8>,
}

/// What one pipeline event leads to: frames for the client, in order, and
/// possibly an error to log.
pub struct PipelineOutcome {
    pub frames: Vec<OpenAIRealtimeResponse>,
    pub error_note: Option<ErrorNote>,
}

impl Session {
    /// Dispatches one pipeline event. The frames and the new state are
    /// exactly those of [`spec_pipeline_frames`] and [`spec_pipeline_state`];
    /// no event closes the connection.
    pub fn handle_pipeline_event(&mut self, ev: PipelineEvent) -> (r: PipelineOutcome)
        requires
            old(self).wf(),
        ensures
            final(self).wf(),
            fv(r.frames@) == spec_pipeline_frames(old(self)@, ev@),
            final(self)@ == spec_pipeline_state(old(self)@, ev@),
            match r.error_note {
                Some(n) => spec_pipeline_error_note(ev@) == Some((n.stage@, n.error@)),
                None => spec_pipeline_error_note(ev@) is None,
            },
    {
        proof {
            reveal_strlit("error");
            reveal_strlit("unknown");
        }
        let kind = classify(ev.id.as_slice());
        match ev.payload {
            PipelinePayload::Text(t) => match kind {
                PipelineEventKind::SegmentComplete => {
                    let note = if crate::jsontext::bytes_eq(
                        t.as_slice(),
                        ascii_bytes("error").as_slice(),
                    ) {
                        Some(
                            ErrorNote {
                                stage: match ev.error_stage {
                                    Some(st) => st,
                                    None => ascii_bytes("unknown"),
                                },
                                error: match ev.error {
                                    Some(e) => e,
                                    None => ascii_bytes("unknown"),
                                },
                            },
                        )
                    } else {
                        None
                    };
                    let frames: Vec<OpenAIRealtimeResponse> = Vec::new();
                    proof {
                        assert(fv(frames@) =~= Seq::<OpenAIRealtimeResponseV>::empty());
                    }
                    PipelineOutcome { frames, error_note: note }
                },
                PipelineEventKind::Log => {
                    let frames: Vec<OpenAIRealtimeResponse> = Vec::new();
                    proof {
                        assert(fv(frames@) =~= Seq::<OpenAIRealtimeResponseV>::empty());
                    }
                    PipelineOutcome { frames, error_note: None }
                },
                PipelineEventKind::Transcription => {
                    let frames = self.emit_text_like_delta(true, t);
                    PipelineOutcome { frames, error_note: None }
                },
                _ => {
                    let frames = self.emit_text_like_delta(false, t);
                    PipelineOutcome { frames, error_note: None }
                },
            },
            PipelinePayload::Audio(samples) => match kind {
                PipelineEventKind::Audio => {
                    let last = match ev.segments_remaining {
                        Some(n) => n == 0,
                        None => false,
                    };
                    let frames = self.emit_audio_delta(&samples, last);
                    PipelineOutcome { frames, error_note: None }
                },
                PipelineEventKind::SpeechStarted => {
                    proof {
                        reveal_strlit("item-1");
                    }
                    let mut frames: Vec<OpenAIRealtimeResponse> = Vec::new();
                    frames.push(
                        OpenAIRealtimeResponse::InputAudioBufferSpeechStarted {
                            audio_start_ms: 0,
                            item_id: ascii_bytes("item-1"),
                        },
                    );
                    proof {
                        assert(fv(frames@) =~= seq![speech_started_msg()]);
                    }
                    PipelineOutcome { frames, error_note: None }
                },
                PipelineEventKind::SpeechStopped | PipelineEventKind::QuestionEnded => {
                    proof {
                        reveal_strlit("item-1");
                    }
                    let mut frames: Vec<OpenAIRealtimeResponse> = Vec::new();
                    frames.push(
                        OpenAIRealtimeResponse::InputAudioBufferSpeechStopped {
                            audio_end_ms: 0,
                            item_id: ascii_bytes("item-1"),
                        },
                    );
                    proof {
                        assert(fv(frames@) =~= seq![speech_stopped_msg()]);
                    }
                    PipelineOutcome { frames, error_note: None }
                },
                _ => {
                    let frames: Vec<OpenAIRealtimeResponse> = Vec::new();
                    proof {
                        assert(fv(frames@) =~= Seq::<OpenAIRealtimeResponseV>::empty());
                    }
                    PipelineOutcome { frames, error_note: None }
                },
            },
        }
    }
}

/// Whether a server event is a delta (audio, text or transcript).
pub open spec fn is_delta(m: OpenAIRealtimeResponseV) -> bool {
    ||| m is ResponseAudioDelta
    ||| m is ResponseTextDelta
    ||| m is ResponseAudioTranscriptDelta
}

/// Response lifecycle ordering. For every session and every pipeline event:
/// a delta only ever stands after a creation notice when the session was
/// idle, so no delta reaches the client outside an announced response; and
/// an audio event that ends the segment stream produces a frame sequence
/// that closes with the audio delta, then `response.audio.done`, then
/// `response.done`, in exactly that order.
pub proof fn lemma_lifecycle_ordering(s: SessionV, ev: crate::events::PipelineEventV)
    ensures
        forall|i: int|
            0 <= i < spec_pipeline_frames(s, ev).len() && is_delta(
                #[trigger] spec_pipeline_frames(s, ev)[i],
            ) && !s.response_active ==> exists|j: int|
                0 <= j < i && spec_pipeline_frames(s, ev)[j] is ResponseCreated,
        ev.payload matches crate::events::PipelinePayloadV::Audio(samples) ==> (spec_classify(
            ev.id,
        ) is Audio && ev.segments_remaining == Some(0i64)) ==> {
            let frames = spec_pipeline_frames(s, ev);
            let n = frames.len();
            &&& n >= 3
            &&& frames[n - 3] == audio_delta_msg(spec_use_rid(s), samples)
            &&& frames[n - 2] == audio_done_msg(spec_use_rid(s))
            &&& frames[n - 1] == done_msg(spec_use_rid(s))
            &&& forall|i: int| 0 <= i < n - 2 ==> !((#[trigger] frames[i]) is ResponseDone)
                && !(frames[i] is ResponseAudioDone)
        },
{
    let frames = spec_pipeline_frames(s, ev);
    if !s.response_active {
        assert forall|i: int|
            0 <= i < frames.len() && is_delta(#[trigger] frames[i]) implies exists|j: int|
            0 <= j < i && frames[j] is ResponseCreated by {
            assert(spec_open_prefix(s).len() == 1);
            assert(frames[0] == created_msg(spec_rid(s.next_response_index)));
            assert(!is_delta(frames[0]));
            assert(0 <= 0 < i && frames[0] is ResponseCreated);
        }
    }
}

/// Something the gateway sends into the pipeline.
pub enum SendAction {
    /// One full chunk of microphone samples, fixed-point at the client rate,
    /// for the uplink resampler.
    AudioChunk { samples: Vec<i64> },
    /// A text to hand to the language model.
    TextSend { text: Vec<u8> },
}

pub enum SendActionV {
    AudioChunk(Seq<i64>),
    TextSend(Seq<u8>),
}

impl View for SendAction {
    type V = SendActionV;

    open spec fn view(&self) -> SendActionV {
        match self {
            SendAction::AudioChunk { samples } => SendActionV::AudioChunk(samples@),
            SendAction::TextSend { text } => SendActionV::TextSend(text@),
        }
    }
}

/// The views of a vector of send actions.
pub open spec fn av(v: Seq<SendAction>) -> Seq<SendActionV> {
    v.map_values(|a: SendAction| a@)
}

/// Whether a greeting is a duplicate to drop: same text as the last one
/// forwarded, and still inside the debounce window of 3000 ms.
pub open spec fn greeting_dup(last: Option<(Seq<u8>, u64)>, text: Seq<u8>, now_ms: u64) -> bool {
    match last {
        Some(g) => g.0 == text && (now_ms as int) < g.1 + 3000,
        None => false,
    }
}

/// Greeting debounce. A greeting equal to the one last forwarded is dropped
/// exactly when it comes within 3000 ms of it; the same text sent again at
/// or past the window is forwarded once more, and a different text is
/// always forwarded.
pub proof fn lemma_greeting_dedup(text: Seq<u8>, other: Seq<u8>, t1: u64, t2: u64)
    ensures
        (t2 as int) < t1 + 3000 ==> greeting_dup(Some((text, t1)), text, t2),
        (t2 as int) >= t1 + 3000 ==> !greeting_dup(Some((text, t1)), text, t2),
        other != text ==> !greeting_dup(Some((text, t1)), other, t2),
        !greeting_dup(None, text, t2),
{
}

/// The fixed-point samples a PCM sequence stands for.
pub open spec fn fixed_of_pcm(pcm: Seq<i16>) -> Seq<i64> {
    pcm.map_values(|p: i16| crate::audio::spec_sample_of_pcm(p))
}

/// What a decoded client event sends into the pipeline.
pub open spec fn spec_client_sends(
    s: SessionV,
    m: crate::protocol::OpenAIRealtimeMessageV,
    now_ms: u64,
) -> Seq<SendActionV> {
    match m {
        crate::protocol::OpenAIRealtimeMessageV::InputAudioBufferAppend { audio } => {
            let t = crate::jsontext::spec_trim(audio);
            if t.len() == 0 {
                Seq::empty()
            } else if exists|x: Seq<u8>| crate::b64::b64_of(x) == t {
                let samples = fixed_of_pcm(
                    crate::audio::spec_pcm_samples(crate::b64::b64_decode_of(t)),
                );
                let total = s.audio_buffer + samples;
                let c = crate::audio::CHUNK_SIZE as int;
                Seq::new(
                    (total.len() as int / c) as nat,
                    |i: int| SendActionV::AudioChunk(total.subrange(i * c, (i + 1) * c)),
                )
            } else {
                Seq::empty()
            }
        },
        crate::protocol::OpenAIRealtimeMessageV::ResponseCreate { response } => match response
            .instructions {
            Some(text) => if greeting_dup(s.last_greeting, text, now_ms) {
                Seq::empty()
            } else {
                seq![SendActionV::TextSend(text)]
            },
            None => Seq::empty(),
        },
        _ => Seq::empty(),
    }
}

/// The session a decoded client event leaves behind.
pub open spec fn spec_client_state(
    s: SessionV,
    m: crate::protocol::OpenAIRealtimeMessageV,
    now_ms: u64,
) -> SessionV {
    match m {
        crate::protocol::OpenAIRealtimeMessageV::SessionUpdate { session } => SessionV {
            config: session,
            ..s
        },
        crate::protocol::OpenAIRealtimeMessageV::InputAudioBufferAppend { audio } => {
            let t = crate::jsontext::spec_trim(audio);
            if t.len() == 0 {
                s
            } else if exists|x: Seq<u8>| crate::b64::b64_of(x) == t {
                let samples = fixed_of_pcm(
                    crate::audio::spec_pcm_samples(crate::b64::b64_decode_of(t)),
                );
                let total = s.audio_buffer + samples;
                let c = crate::audio::CHUNK_SIZE as int;
                SessionV {
                    audio_buffer: total.subrange((total.len() as int / c) * c, total.len() as int),
                    ..s
                }
            } else {
                s
            }
        },
        crate::protocol::OpenAIRealtimeMessageV::ResponseCreate { response } => match response
            .instructions {
            Some(text) => if greeting_dup(s.last_greeting, text, now_ms) {
                s
            } else {
                SessionV { last_greeting: Some((text, now_ms)), ..s }
            },
            None => s,
        },
        _ => s,
    }
}

impl Session {
    /// Dispatches one decoded client event, at the clock reading `now_ms`.
    /// A later session update replaces the configuration; an audio append
    /// feeds the chunk buffer and forwards the whole chunks that came free;
    /// a response request forwards its instructions unless the debounce
    /// window drops them; a commit is acknowledged without any effect, and
    /// the unknown event does nothing. No client event emits frames or
    /// closes the connection.
    pub fn handle_client_message(&mut self, msg: OpenAIRealtimeMessage, now_ms: u64) -> (sends:
        Vec<SendAction>)
        requires
            old(self).wf(),
        ensures
            final(self).wf(),
            av(sends@) == spec_client_sends(old(self)@, msg@, now_ms),
            final(self)@ == spec_client_state(old(self)@, msg@, now_ms),
    {
        let mut sends: Vec<SendAction> = Vec::new();
        proof {
            assert(av(sends@) =~= Seq::<SendActionV>::empty());
        }
        match msg {
            OpenAIRealtimeMessage::SessionUpdate { session } => {
                self.config = session;
                sends
            },
            OpenAIRealtimeMessage::InputAudioBufferAppend { audio } => {
                let t = crate::jsontext::trim_ws(audio.as_slice());
                if t.len() == 0 {
                    return sends;
                }
                match crate::b64::b64_decode(t.as_slice()) {
                    None => {
                        proof {
                            assert(!(exists|x: Seq<u8>| crate::b64::b64_of(x) == t@));
                        }
                        sends
                    },
                    Some(bytes) => {
                        let pcm = crate::audio::pcm_bytes_to_samples(bytes.as_slice());
                        let samples = crate::audio::pcm_to_samples(&pcm);
                        proof {
                            assert(samples@ =~= fixed_of_pcm(
                                crate::audio::spec_pcm_samples(bytes@),
                            ));
                            assert(crate::b64::b64_of(bytes@) == t@);
                        }
                        let chunks = self.audio_buffer.append_and_drain(&samples);
                        let ghost total = old(self)@.audio_buffer + samples@;
                        let mut i: usize = 0;
                        while i < chunks.len()
                            invariant
                                0 <= i <= chunks@.len(),
                                av(sends@).len() == i,
                                forall|j: int|
                                    0 <= j < i ==> #[trigger] av(sends@)[j]
                                        == SendActionV::AudioChunk(chunks@[j]@),
                            decreases chunks@.len() - i,
                        {
                            let ghost prev = av(sends@);
                            let chunk = clone_samples(&chunks[i]);
                            sends.push(SendAction::AudioChunk { samples: chunk });
                            proof {
                                assert(av(sends@) =~= prev + seq![
                                    SendActionV::AudioChunk(chunks@[i as int]@),
                                ]);
                            }
                            i = i + 1;
                        }
                        proof {
                            let c = crate::audio::CHUNK_SIZE as int;
                            let n = total.len() as int / c;
                            assert(av(sends@) =~= Seq::new(
                                n as nat,
                                |k: int| SendActionV::AudioChunk(
                                    total.subrange(k * c, (k + 1) * c),
                                ),
                            ));
                        }
                        sends
                    },
                }
            },
            OpenAIRealtimeMessage::ResponseCreate { response } => {
                match response.instructions {
                    Some(text) => {
                        let dup = match self.last_greeting {
                            Some(ref g) => {
                                crate::jsontext::bytes_eq(g.text.as_slice(), text.as_slice())
                                    && (now_ms <= g.at_ms || now_ms - g.at_ms < 3000)
                            },
                            None => false,
                        };
                        if dup {
                            sends
                        } else {
                            let fwd = clone_bytes(&text);
                            sends.push(SendAction::TextSend { text: fwd });
                            self.last_greeting = Some(Greeting { text, at_ms: now_ms });
                            proof {
                                assert(av(sends@) =~= seq![
                                    SendActionV::TextSend(
                                        spec_client_text(old(self)@, msg@),
                                    ),
                                ]);
                            }
                            sends
                        }
                    },
                    None => sends,
                }
            },
            OpenAIRealtimeMessage::InputAudioBufferCommit => sends,
            OpenAIRealtimeMessage::ConversationItemCreate { item: _ } => sends,
            OpenAIRealtimeMessage::ConversationItemTruncate { .. } => sends,
            OpenAIRealtimeMessage::Other => sends,
        }
    }
}

/// The instruction text a response request carries, where it carries one.
pub open spec fn spec_client_text(
    s: SessionV,
    m: crate::protocol::OpenAIRealtimeMessageV,
) -> Seq<u8> {
    match m {
        crate::protocol::OpenAIRealtimeMessageV::ResponseCreate { response } => match response
            .instructions {
            Some(text) => text,
            None => Seq::empty(),
        },
        _ => Seq::empty(),
    }
}

/// Copies a sample vector.
fn clone_samples(v: &Vec<i64>) -> (out: Vec<i64>)
    ensures
        out@ == v@,
{
    vstd::slice::slice_to_vec(v.as_slice())
}

/// Close code for a protocol violation: the handshake frame was not text.
pub const CLOSE_PROTOCOL_ERROR: u16 = 1002;

/// Close code for unsupported data: the handshake frame did not decode to a
/// session update.
pub const CLOSE_UNSUPPORTED: u16 = 1003;

/// Close code for an orderly shutdown.
pub const CLOSE_NORMAL: u16 = 1000;

/// The state a session starts in around an accepted configuration.
pub open spec fn fresh_session(c: SessionConfigV) -> SessionV {
    SessionV {
        config: c,
        response_active: false,
        response_created_sent: false,
        audio_buffer: Seq::empty(),
        last_greeting: None,
        close_replied: false,
        next_response_index: 0,
        current_response_id: Seq::empty(),
    }
}

/// How the mandatory first frame of a connection is answered.
pub enum HandshakeResult {
    /// The frame was a session update: the session opens and the two
    /// acknowledgement frames go out.
    Accept { session: Session, frames: Vec<OpenAIRealtimeResponse> },
    /// The frame was no session update: the connection closes with this
    /// code and nothing else is sent.
    Reject { close_code: u16 },
}

/// Answers the mandatory first frame. A non-text frame is a protocol
/// violation (close 1002); a text frame that does not decode, or decodes to
/// anything but a session update, is unsupported data (close 1003). A
/// session update is accepted: a fresh session starts around its
/// configuration and `session.created` then `session.updated` are sent,
/// both echoing that configuration.
#[verifier::spinoff_prover]
#[verifier::rlimit(100)]
pub fn handshake_first_frame(is_text: bool, payload: &[u8]) -> (r: HandshakeResult)
    ensures
        match r {
            HandshakeResult::Accept { session, frames } => {
                &&& is_text
                &&& session.wf()
                &&& match crate::decode::spec_decode(payload@) {
                    Some(
                        crate::protocol::OpenAIRealtimeMessageV::SessionUpdate { session: c },
                    ) => session@ == fresh_session(c) && fv(frames@) == seq![
                        OpenAIRealtimeResponseV::SessionCreated {
                            session: crate::encode::spec_session_echo(c),
                        },
                        OpenAIRealtimeResponseV::SessionUpdated {
                            session: crate::encode::spec_session_echo(c),
                        },
                    ],
                    _ => false,
                }
            },
            HandshakeResult::Reject { close_code } => {
                &&& !is_text ==> close_code == CLOSE_PROTOCOL_ERROR
                &&& is_text ==> close_code == CLOSE_UNSUPPORTED && !(crate::decode::spec_decode(
                    payload@,
                ) matches Some(crate::protocol::OpenAIRealtimeMessageV::SessionUpdate { session }))
            },
        },
{
    if !is_text {
        return HandshakeResult::Reject { close_code: CLOSE_PROTOCOL_ERROR };
    }
    match crate::decode::decode_client_message(payload) {
        Ok(OpenAIRealtimeMessage::SessionUpdate { session: config }) => {
            let echo = crate::encode::build_session_echo(&config);
            let echo2 = clone_bytes(&echo);
            let mut frames: Vec<OpenAIRealtimeResponse> = Vec::new();
            frames.push(OpenAIRealtimeResponse::SessionCreated { session: echo });
            frames.push(OpenAIRealtimeResponse::SessionUpdated { session: echo2 });
            let session = Session::new(config);
            proof {
                assert(fv(frames@) =~= seq![
                    OpenAIRealtimeResponseV::SessionCreated {
                        session: crate::encode::spec_session_echo(session@.config),
                    },
                    OpenAIRealtimeResponseV::SessionUpdated {
                        session: crate::encode::spec_session_echo(session@.config),
                    },
                ]);
            }
            HandshakeResult::Accept { session, frames }
        },
        Ok(_) => HandshakeResult::Reject { close_code: CLOSE_UNSUPPORTED },
        Err(_) => HandshakeResult::Reject { close_code: CLOSE_UNSUPPORTED },
    }
}

/// One frame read from the socket after the handshake.
pub enum WsFrameIn {
    Text(Vec<u8>),
    Binary(Vec<u8>),
    Ping(Vec<u8>),
    Pong,
    Close,
    Other,
}

pub enum WsFrameInV {
    Text(Seq<u8>),
    Binary(Seq<u8>),
    Ping(Seq<u8>),
    Pong,
    Close,
    Other,
}

impl View for WsFrameIn {
    type V = WsFrameInV;

    open spec fn view(&self) -> WsFrameInV {
        match self {
            WsFrameIn::Text(b) => WsFrameInV::Text(b@),
            WsFrameIn::Binary(b) => WsFrameInV::Binary(b@),
            WsFrameIn::Ping(b) => WsFrameInV::Ping(b@),
            WsFrameIn::Pong => WsFrameInV::Pong,
            WsFrameIn::Close => WsFrameInV::Close,
            WsFrameIn::Other => WsFrameInV::Other,
        }
    }
}

/// What one socket frame leads to.
pub struct FrameOutcome {
    /// A close frame to send back, with its code, before leaving the loop.
    pub reply_close: Option<u16>,
    /// A pong to send back, carrying the ping's payload.
    pub reply_pong: Option<Vec<u8>>,
    /// Whether the connection loop ends after this frame.
    pub exit_loop: bool,
    /// What goes into the pipeline.
    pub sends: Vec<SendAction>,
}

/// The payload bytes a data frame carries, if it is one.
pub open spec fn spec_data_payload(f: WsFrameInV) -> Option<Seq<u8>> {
    match f {
        WsFrameInV::Text(b) => Some(b),
        WsFrameInV::Binary(b) => Some(b),
        _ => None,
    }
}

impl Session {
    /// Dispatches one socket frame after the handshake, at the clock reading
    /// `now_ms`. A close frame is answered with a normal close (exactly once
    /// per session) and ends the loop; a ping is answered with a pong; text
    /// and binary frames are decoded and dispatched, and a frame that does
    /// not decode is dropped with the connection left open — no payload,
    /// however malformed, ends the session.
    pub fn handle_ws_frame(&mut self, frame: WsFrameIn, now_ms: u64) -> (r: FrameOutcome)
        requires
            old(self).wf(),
        ensures
            final(self).wf(),
            match frame@ {
                WsFrameInV::Close => {
                    &&& r.exit_loop
                    &&& r.reply_pong is None
                    &&& av(r.sends@) == Seq::<SendActionV>::empty()
                    &&& r.reply_close == (if old(self).close_replied {
                        None
                    } else {
                        Some(CLOSE_NORMAL)
                    })
                    &&& final(self)@ == SessionV { close_replied: true, ..old(self)@ }
                },
                WsFrameInV::Ping(p) => {
                    &&& !r.exit_loop
                    &&& r.reply_close is None
                    &&& r.reply_pong matches Some(q) && q@ == p
                    &&& av(r.sends@) == Seq::<SendActionV>::empty()
                    &&& *final(self) == *old(self)
                },
                WsFrameInV::Pong | WsFrameInV::Other => {
                    &&& !r.exit_loop
                    &&& r.reply_close is None
                    &&& r.reply_pong is None
                    &&& av(r.sends@) == Seq::<SendActionV>::empty()
                    &&& *final(self) == *old(self)
                },
                WsFrameInV::Text(b) | WsFrameInV::Binary(b) => {
                    &&& !r.exit_loop
                    &&& r.reply_close is None
                    &&& r.reply_pong is None
                    &&& match crate::decode::spec_decode(b) {
                        Some(m) => av(r.sends@) == spec_client_sends(old(self)@, m, now_ms)
                            && final(self)@ == spec_client_state(old(self)@, m, now_ms),
                        None => av(r.sends@) == Seq::<SendActionV>::empty() && *final(self)
                            == *old(self),
                    }
                },
            },
    {
        match frame {
            WsFrameIn::Close => {
                let code = if self.close_replied {
                    None
                } else {
                    Some(CLOSE_NORMAL)
                };
                self.close_replied = true;
                let sends: Vec<SendAction> = Vec::new();
                proof {
                    assert(av(sends@) =~= Seq::<SendActionV>::empty());
                }
                FrameOutcome { reply_close: code, reply_pong: None, exit_loop: true, sends }
            },
            WsFrameIn::Ping(p) => {
                let sends: Vec<SendAction> = Vec::new();
                proof {
                    assert(av(sends@) =~= Seq::<SendActionV>::empty());
                }
                FrameOutcome { reply_close: None, reply_pong: Some(p), exit_loop: false, sends }
            },
            WsFrameIn::Pong | WsFrameIn::Other => {
                let sends: Vec<SendAction> = Vec::new();
                proof {
                    assert(av(sends@) =~= Seq::<SendActionV>::empty());
                }
                FrameOutcome { reply_close: None, reply_pong: None, exit_loop: false, sends }
            },
            WsFrameIn::Text(b) | WsFrameIn::Binary(b) => {
                match crate::decode::decode_client_message(b.as_slice()) {
                    Ok(m) => {
                        let sends = self.handle_client_message(m, now_ms);
                        FrameOutcome {
                            reply_close: None,
                            reply_pong: None,
                            exit_loop: false,
                            sends,
                        }
                    },
                    Err(_) => {
                        let sends: Vec<SendAction> = Vec::new();
                        proof {
                            assert(av(sends@) =~= Seq::<SendActionV>::empty());
                        }
                        FrameOutcome {
                            reply_close: None,
                            reply_pong: None,
                            exit_loop: false,
                            sends,
                        }
                    },
                }
            },
        }
    }

    /// Called when the loop ends for any reason: sends the normal close if
    /// none has gone out yet, exactly once.
    pub fn on_loop_exit(&mut self) -> (r: Option<u16>)
        ensures
            r == (if old(self).close_replied {
                None
            } else {
                Some(CLOSE_NORMAL)
            }),
            (final(self)@ == SessionV { close_replied: true, ..old(self)@ }),
            old(self).wf() ==> final(self).wf(),
    {
        let code = if self.close_replied {
            None
        } else {
            Some(CLOSE_NORMAL)
        };
        self.close_replied = true;
        code
    }
}

} // verus!
