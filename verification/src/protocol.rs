//! The tagged message protocol spoken with clients.
//!
//! Two message families cross the socket as JSON text: client events coming
//! in and server events going out. Text is carried as UTF-8 bytes
//! throughout; every string field holds the decoded text of the JSON string
//! it came from. Fields that carry arbitrary JSON (tool lists, response
//! payloads) or a number whose exact spelling must be preserved (temperature,
//! threshold) hold the raw token text instead.
//!
//! Decoding is permissive: a well-formed document whose `type` tag is not
//! recognised becomes [`OpenAIRealtimeMessage::Other`] rather than an error,
//! so unknown client features never break a connection. A document that is
//! not well-formed JSON, or whose recognised fields have the wrong shape, is
//! a [`DecodeError`]. Encoding of server messages always succeeds.

use vstd::prelude::*;
use crate::jsontext::vv_view;

verus! {

/// Structured detail of an error event sent to the client.
pub struct ErrorDetails {
    pub code: Option<Vec<u8>>,
    pub message: Vec<u8>,
    pub param: Option<Vec<u8>>,
    pub error_type: Option<Vec<u8>>,
}

pub struct ErrorDetailsV {
    pub code: Option<Seq<u8>>,
    pub message: Seq<u8>,
    pub param: Option<Seq<u8>>,
    pub error_type: Option<Seq<u8>>,
}

impl View for ErrorDetails {
    type V = ErrorDetailsV;

    open spec fn view(&self) -> ErrorDetailsV {
        ErrorDetailsV {
            code: match self.code {
                Some(ref v) => Some(v@),
                None => None,
            },
            message: self.message@,
            param: match self.param {
                Some(ref v) => Some(v@),
                None => None,
            },
            error_type: match self.error_type {
                Some(ref v) => Some(v@),
                None => None,
            },
        }
    }
}

/// The transcription model a session asks for.
pub struct TranscriptionConfig {
    pub model: Vec<u8>,
}

pub struct TranscriptionConfigV {
    pub model: Seq<u8>,
}

impl View for TranscriptionConfig {
    type V = TranscriptionConfigV;

    open spec fn view(&self) -> TranscriptionConfigV {
        TranscriptionConfigV { model: self.model@ }
    }
}

/// Turn-detection settings of a session. `threshold` keeps the raw number
/// token exactly as the client wrote it.
pub struct TurnDetectionConfig {
    pub detection_type: Vec<u8>,
    pub threshold: Vec<u8>,
    pub prefix_padding_ms: u32,
    pub silence_duration_ms: u32,
    pub interrupt_response: bool,
    pub create_response: bool,
}

pub struct TurnDetectionConfigV {
    pub detection_type: Seq<u8>,
    pub threshold: Seq<u8>,
    pub prefix_padding_ms: u32,
    pub silence_duration_ms: u32,
    pub interrupt_response: bool,
    pub create_response: bool,
}

impl View for TurnDetectionConfig {
    type V = TurnDetectionConfigV;

    open spec fn view(&self) -> TurnDetectionConfigV {
        TurnDetectionConfigV {
            detection_type: self.detection_type@,
            threshold: self.threshold@,
            prefix_padding_ms: self.prefix_padding_ms,
            silence_duration_ms: self.silence_duration_ms,
            interrupt_response: self.interrupt_response,
            create_response: self.create_response,
        }
    }
}

/// A session's configuration. `tools` holds the raw JSON array text and
/// `temperature` the raw number token, both echoed back verbatim.
pub struct SessionConfig {
    pub modalities: Vec<Vec<u8>>,
    pub instructions: Vec<u8>,
    pub voice: Vec<u8>,
    pub model: Vec<u8>,
    pub input_audio_format: Vec<u8>,
    pub output_audio_format: Vec<u8>,
    pub input_audio_transcription: Option<TranscriptionConfig>,
    pub turn_detection: Option<TurnDetectionConfig>,
    pub tools: Vec<u8>,
    pub tool_choice: Vec<u8>,
    pub temperature: Vec<u8>,
    pub max_response_output_tokens: Option<u32>,
}

pub struct SessionConfigV {
    pub modalities: Seq<Seq<u8>>,
    pub instructions: Seq<u8>,
    pub voice: Seq<u8>,
    pub model: Seq<u8>,
    pub input_audio_format: Seq<u8>,
    pub output_audio_format: Seq<u8>,
    pub input_audio_transcription: Option<TranscriptionConfigV>,
    pub turn_detection: Option<TurnDetectionConfigV>,
    pub tools: Seq<u8>,
    pub tool_choice: Seq<u8>,
    pub temperature: Seq<u8>,
    pub max_response_output_tokens: Option<u32>,
}

impl View for SessionConfig {
    type V = SessionConfigV;

    open spec fn view(&self) -> SessionConfigV {
        SessionConfigV {
            modalities: vv_view(self.modalities@),
            instructions: self.instructions@,
            voice: self.voice@,
            model: self.model@,
            input_audio_format: self.input_audio_format@,
            output_audio_format: self.output_audio_format@,
            input_audio_transcription: match self.input_audio_transcription {
                Some(ref t) => Some(t@),
                None => None,
            },
            turn_detection: match self.turn_detection {
                Some(ref t) => Some(t@),
                None => None,
            },
            tools: self.tools@,
            tool_choice: self.tool_choice@,
            temperature: self.temperature@,
            max_response_output_tokens: self.max_response_output_tokens,
        }
    }
}

/// What a `response.create` event asks for.
pub struct ResponseConfig {
    pub modalities: Vec<Vec<u8>>,
    pub instructions: Option<Vec<u8>>,
    pub voice: Option<Vec<u8>>,
    pub output_audio_format: Option<Vec<u8>>,
    pub tools: Option<Vec<u8>>,
    pub tool_choice: Option<Vec<u8>>,
    pub temperature: Option<Vec<u8>>,
    pub max_output_tokens: Option<u32>,
}

pub struct ResponseConfigV {
    pub modalities: Seq<Seq<u8>>,
    pub instructions: Option<Seq<u8>>,
    pub voice: Option<Seq<u8>>,
    pub output_audio_format: Option<Seq<u8>>,
    pub tools: Option<Seq<u8>>,
    pub tool_choice: Option<Seq<u8>>,
    pub temperature: Option<Seq<u8>>,
    pub max_output_tokens: Option<u32>,
}

impl View for ResponseConfig {
    type V = ResponseConfigV;

    open spec fn view(&self) -> ResponseConfigV {
        ResponseConfigV {
            modalities: vv_view(self.modalities@),
            instructions: match self.instructions {
                Some(ref v) => Some(v@),
                None => None,
            },
            voice: match self.voice {
                Some(ref v) => Some(v@),
                None => None,
            },
            output_audio_format: match self.output_audio_format {
                Some(ref v) => Some(v@),
                None => None,
            },
            tools: match self.tools {
                Some(ref v) => Some(v@),
                None => None,
            },
            tool_choice: match self.tool_choice {
                Some(ref v) => Some(v@),
                None => None,
            },
            temperature: match self.temperature {
                Some(ref v) => Some(v@),
                None => None,
            },
            max_output_tokens: self.max_output_tokens,
        }
    }
}

/// One part of a conversation item's content.
pub enum ContentPart {
    InputText { text: Vec<u8> },
    InputAudio { audio: Vec<u8>, transcript: Option<Vec<u8>> },
    Text { text: Vec<u8> },
    Audio { audio: Vec<u8>, transcript: Option<Vec<u8>> },
}

pub enum ContentPartV {
    InputText { text: Seq<u8> },
    InputAudio { audio: Seq<u8>, transcript: Option<Seq<u8>> },
    Text { text: Seq<u8> },
    Audio { audio: Seq<u8>, transcript: Option<Seq<u8>> },
}

impl View for ContentPart {
    type V = ContentPartV;

    open spec fn view(&self) -> ContentPartV {
        match self {
            ContentPart::InputText { text } => ContentPartV::InputText { text: text@ },
            ContentPart::InputAudio { audio, transcript } => ContentPartV::InputAudio {
                audio: audio@,
                transcript: match transcript {
                    Some(t) => Some(t@),
                    None => None,
                },
            },
            ContentPart::Text { text } => ContentPartV::Text { text: text@ },
            ContentPart::Audio { audio, transcript } => ContentPartV::Audio {
                audio: audio@,
                transcript: match transcript {
                    Some(t) => Some(t@),
                    None => None,
                },
            },
        }
    }
}

/// A conversation item a client submits.
pub struct ConversationItem {
    pub id: Option<Vec<u8>>,
    pub item_type: Vec<u8>,
    pub status: Option<Vec<u8>>,
    pub role: Vec<u8>,
    pub content: Vec<ContentPart>,
}

pub struct ConversationItemV {
    pub id: Option<Seq<u8>>,
    pub item_type: Seq<u8>,
    pub status: Option<Seq<u8>>,
    pub role: Seq<u8>,
    pub content: Seq<ContentPartV>,
}

impl View for ConversationItem {
    type V = ConversationItemV;

    open spec fn view(&self) -> ConversationItemV {
        ConversationItemV {
            id: match self.id {
                Some(ref v) => Some(v@),
                None => None,
            },
            item_type: self.item_type@,
            status: match self.status {
                Some(ref v) => Some(v@),
                None => None,
            },
            role: self.role@,
            content: self.content@.map_values(|p: ContentPart| p@),
        }
    }
}

/// A client event, as decoded from one incoming text frame.
pub enum OpenAIRealtimeMessage {
    SessionUpdate { session: SessionConfig },
    InputAudioBufferAppend { audio: Vec<u8> },
    InputAudioBufferCommit,
    ResponseCreate { response: ResponseConfig },
    ConversationItemCreate { item: ConversationItem },
    ConversationItemTruncate {
        item_id: Vec<u8>,
        content_index: u32,
        audio_end_ms: u32,
        event_id: Option<Vec<u8>>,
    },
    Other,
}

pub enum OpenAIRealtimeMessageV {
    SessionUpdate { session: SessionConfigV },
    InputAudioBufferAppend { audio: Seq<u8> },
    InputAudioBufferCommit,
    ResponseCreate { response: ResponseConfigV },
    ConversationItemCreate { item: ConversationItemV },
    ConversationItemTruncate {
        item_id: Seq<u8>,
        content_index: u32,
        audio_end_ms: u32,
        event_id: Option<Seq<u8>>,
    },
    Other,
}

impl View for OpenAIRealtimeMessage {
    type V = OpenAIRealtimeMessageV;

    open spec fn view(&self) -> OpenAIRealtimeMessageV {
        match self {
            OpenAIRealtimeMessage::SessionUpdate { session } =>
                OpenAIRealtimeMessageV::SessionUpdate { session: session@ },
            OpenAIRealtimeMessage::InputAudioBufferAppend { audio } =>
                OpenAIRealtimeMessageV::InputAudioBufferAppend { audio: audio@ },
            OpenAIRealtimeMessage::InputAudioBufferCommit =>
                OpenAIRealtimeMessageV::InputAudioBufferCommit,
            OpenAIRealtimeMessage::ResponseCreate { response } =>
                OpenAIRealtimeMessageV::ResponseCreate { response: response@ },
            OpenAIRealtimeMessage::ConversationItemCreate { item } =>
                OpenAIRealtimeMessageV::ConversationItemCreate { item: item@ },
            OpenAIRealtimeMessage::ConversationItemTruncate {
                item_id,
                content_index,
                audio_end_ms,
                event_id,
            } => OpenAIRealtimeMessageV::ConversationItemTruncate {
                item_id: item_id@,
                content_index: *content_index,
                audio_end_ms: *audio_end_ms,
                event_id: match event_id {
                    Some(v) => Some(v@),
                    None => None,
                },
            },
            OpenAIRealtimeMessage::Other => OpenAIRealtimeMessageV::Other,
        }
    }
}

/// A server event, as encoded into one outgoing text frame. The `session`,
/// `response` and `item` payload fields hold raw JSON value text.
pub enum OpenAIRealtimeResponse {
    Error { error: ErrorDetails },
    SessionCreated { session: Vec<u8> },
    SessionUpdated { session: Vec<u8> },
    ResponseCreated { response: Vec<u8> },
    ConversationItemCreated { item: Vec<u8> },
    ConversationItemTruncated { item: Vec<u8> },
    ResponseAudioDelta {
        response_id: Vec<u8>,
        item_id: Vec<u8>,
        output_index: u32,
        content_index: u32,
        delta: Vec<u8>,
    },
    ResponseAudioDone { response_id: Vec<u8>, item_id: Vec<u8>, output_index: u32, content_index: u32 },
    ResponseTextDelta {
        response_id: Vec<u8>,
        item_id: Vec<u8>,
        output_index: u32,
        content_index: u32,
        delta: Vec<u8>,
    },
    ResponseAudioTranscriptDelta {
        response_id: Vec<u8>,
        item_id: Vec<u8>,
        output_index: u32,
        content_index: u32,
        delta: Vec<u8>,
    },
    ResponseDone { response: Vec<u8> },
    InputAudioBufferSpeechStarted { audio_start_ms: u32, item_id: Vec<u8> },
    InputAudioBufferSpeechStopped { audio_end_ms: u32, item_id: Vec<u8> },
}

pub enum OpenAIRealtimeResponseV {
    Error { error: ErrorDetailsV },
    SessionCreated { session: Seq<u8> },
    SessionUpdated { session: Seq<u8> },
    ResponseCreated { response: Seq<u8> },
    ConversationItemCreated { item: Seq<u8> },
    ConversationItemTruncated { item: Seq<u8> },
    ResponseAudioDelta {
        response_id: Seq<u8>,
        item_id: Seq<u8>,
        output_index: u32,
        content_index: u32,
        delta: Seq<u8>,
    },
    ResponseAudioDone { response_id: Seq<u8>, item_id: Seq<u8>, output_index: u32, content_index: u32 },
    ResponseTextDelta {
        response_id: Seq<u8>,
        item_id: Seq<u8>,
        output_index: u32,
        content_index: u32,
        delta: Seq<u8>,
    },
    ResponseAudioTranscriptDelta {
        response_id: Seq<u8>,
        item_id: Seq<u8>,
        output_index: u32,
        content_index: u32,
        delta: Seq<u8>,
    },
    ResponseDone { response: Seq<u8> },
    InputAudioBufferSpeechStarted { audio_start_ms: u32, item_id: Seq<u8> },
    InputAudioBufferSpeechStopped { audio_end_ms: u32, item_id: Seq<u8> },
}

impl View for OpenAIRealtimeResponse {
    type V = OpenAIRealtimeResponseV;

    open spec fn view(&self) -> OpenAIRealtimeResponseV {
        match self {
            OpenAIRealtimeResponse::Error { error } => OpenAIRealtimeResponseV::Error {
                error: error@,
            },
            OpenAIRealtimeResponse::SessionCreated { session } =>
                OpenAIRealtimeResponseV::SessionCreated { session: session@ },
            OpenAIRealtimeResponse::SessionUpdated { session } =>
                OpenAIRealtimeResponseV::SessionUpdated { session: session@ },
            OpenAIRealtimeResponse::ResponseCreated { response } =>
                OpenAIRealtimeResponseV::ResponseCreated { response: response@ },
            OpenAIRealtimeResponse::ConversationItemCreated { item } =>
                OpenAIRealtimeResponseV::ConversationItemCreated { item: item@ },
            OpenAIRealtimeResponse::ConversationItemTruncated { item } =>
                OpenAIRealtimeResponseV::ConversationItemTruncated { item: item@ },
            OpenAIRealtimeResponse::ResponseAudioDelta {
                response_id,
                item_id,
                output_index,
                content_index,
                delta,
            } => OpenAIRealtimeResponseV::ResponseAudioDelta {
                response_id: response_id@,
                item_id: item_id@,
                output_index: *output_index,
                content_index: *content_index,
                delta: delta@,
            },
            OpenAIRealtimeResponse::ResponseAudioDone {
                response_id,
                item_id,
                output_index,
                content_index,
            } => OpenAIRealtimeResponseV::ResponseAudioDone {
                response_id: response_id@,
                item_id: item_id@,
                output_index: *output_index,
                content_index: *content_index,
            },
            OpenAIRealtimeResponse::ResponseTextDelta {
                response_id,
                item_id,
                output_index,
                content_index,
                delta,
            } => OpenAIRealtimeResponseV::ResponseTextDelta {
                response_id: response_id@,
                item_id: item_id@,
                output_index: *output_index,
                content_index: *content_index,
                delta: delta@,
            },
            OpenAIRealtimeResponse::ResponseAudioTranscriptDelta {
                response_id,
                item_id,
                output_index,
                content_index,
                delta,
            } => OpenAIRealtimeResponseV::ResponseAudioTranscriptDelta {
                response_id: response_id@,
                item_id: item_id@,
                output_index: *output_index,
                content_index: *content_index,
                delta: delta@,
            },
            OpenAIRealtimeResponse::ResponseDone { response } =>
                OpenAIRealtimeResponseV::ResponseDone { response: response@ },
            OpenAIRealtimeResponse::InputAudioBufferSpeechStarted { audio_start_ms, item_id } =>
                OpenAIRealtimeResponseV::InputAudioBufferSpeechStarted {
                audio_start_ms: *audio_start_ms,
                item_id: item_id@,
            },
            OpenAIRealtimeResponse::InputAudioBufferSpeechStopped { audio_end_ms, item_id } =>
                OpenAIRealtimeResponseV::InputAudioBufferSpeechStopped {
                audio_end_ms: *audio_end_ms,
                item_id: item_id@,
            },
        }
    }
}

/// Decoding failed: the frame is not well-formed JSON, or a recognised field
/// has the wrong shape.
#[derive(Debug)]
pub enum DecodeError {
    Malformed,
}

} // verus!
