//! Live transcription of the microphone and of system audio: the streaming
//! endpoint of each source, and what each message of the transcription
//! service leads to.
use vstd::prelude::*;

use crate::text::{chars_of, decimal, owned, push_decimal, push_str, trim, trim_str};

verus! {

/// Which audio a transcript comes from.
#[derive(Clone, Copy, Debug, PartialEq, Eq, Hash, Structural)]
pub enum AudioSource {
    Microphone,
    Speaker,
}

/// The speaker label of a source in transcripts.
pub open spec fn label_of(s: AudioSource) -> Seq<char> {
    match s {
        AudioSource::Microphone => "You"@,
        AudioSource::Speaker => "Speaker"@,
    }
}

/// The voice-activity threshold of a source: system audio is quieter.
pub open spec fn vad_threshold_of(s: AudioSource) -> Seq<char> {
    match s {
        AudioSource::Microphone => "0.15"@,
        AudioSource::Speaker => "0.08"@,
    }
}

impl AudioSource {
    /// The speaker label of the source.
    pub fn label(self) -> (l: &'static str)
        ensures
            l@ == label_of(self),
    {
        match self {
            AudioSource::Microphone => "You",
            AudioSource::Speaker => "Speaker",
        }
    }

    /// The voice-activity threshold of the source.
    pub fn vad_threshold(self) -> (t: &'static str)
        ensures
            t@ == vad_threshold_of(self),
    {
        match self {
            AudioSource::Microphone => "0.15",
            AudioSource::Speaker => "0.08",
        }
    }
}

/// The sample rates that the transcription service accepts.
pub open spec fn supported_rate(rate: u32) -> bool {
    rate == 8_000 || rate == 16_000 || rate == 22_050 || rate == 24_000 || rate == 44_100 || rate
        == 48_000
}

/// Accepts only the sample rates that the transcription service supports.
pub fn check_sample_rate(rate: u32) -> (r: Result<(), String>)
    ensures
        supported_rate(rate) ==> r is Ok,
        !supported_rate(rate) ==> (r matches Err(e) && e@ == "xAI STT does not support "@ + decimal(
            rate as nat,
        ) + " Hz audio"@),
{
    if rate == 8_000 || rate == 16_000 || rate == 22_050 || rate == 24_000 || rate == 44_100 || rate
        == 48_000 {
        Ok(())
    } else {
        let mut e = String::from_str("xAI STT does not support ");
        push_decimal(&mut e, rate as u64);
        push_str(&mut e, " Hz audio");
        Err(e)
    }
}

/// The streaming endpoint for a source at a sample rate.
pub fn stt_url(rate: u32, source: AudioSource) -> (u: String)
    ensures
        u@ == "wss://api.x.ai/v1/stt?encoding=pcm&sample_rate="@ + decimal(rate as nat)
            + "&interim_results=true&language=en&channels=1&endpointing=500&vad_threshold="@
            + vad_threshold_of(source),
{
    let mut u = String::from_str("wss://api.x.ai/v1/stt?encoding=pcm&sample_rate=");
    push_decimal(&mut u, rate as u64);
    push_str(&mut u, "&interim_results=true&language=en&channels=1&endpointing=500&vad_threshold=");
    push_str(&mut u, source.vad_threshold());
    u
}

/// The `Authorization` header value for an API key.
pub fn bearer_header(key: &str) -> (h: String)
    ensures
        h@ == "Bearer "@ + key@,
{
    let mut h = String::from_str("Bearer ");
    push_str(&mut h, key);
    h
}

/// How the wait for a service's readiness ended.
#[derive(Clone, Debug)]
pub enum ReadyWait {
    Ready,
    Failed(String),
    Closed,
    TimedOut,
}

/// The outcome of a wait for readiness, with the messages for a closed
/// channel and for a timeout.
pub fn readiness_result(w: ReadyWait, closed: &str, timed_out: &str) -> (r: Result<(), String>)
    ensures
        match w {
            ReadyWait::Ready => r is Ok,
            ReadyWait::Failed(e) => r matches Err(m) && m@ == e@,
            ReadyWait::Closed => r matches Err(m) && m@ == closed@,
            ReadyWait::TimedOut => r matches Err(m) && m@ == timed_out@,
        },
{
    match w {
        ReadyWait::Ready => Ok(()),
        ReadyWait::Failed(e) => Err(e),
        ReadyWait::Closed => Err(owned(closed)),
        ReadyWait::TimedOut => Err(owned(timed_out)),
    }
}

/// The outcome of waiting for the transcription service to become ready.
pub fn stt_readiness(w: ReadyWait) -> (r: Result<(), String>)
    ensures
        match w {
            ReadyWait::Ready => r is Ok,
            ReadyWait::Failed(e) => r matches Err(m) && m@ == e@,
            ReadyWait::Closed => r matches Err(m) && m@ == "xAI STT closed before becoming ready"@,
            ReadyWait::TimedOut => r matches Err(m) && m@ == "xAI STT readiness timed out"@,
        },
{
    readiness_result(w, "xAI STT closed before becoming ready", "xAI STT readiness timed out")
}

/// A message from the transcription service, or the end of its stream.
#[derive(Clone, Debug)]
pub enum SttEvent {
    /// `transcript.created`: the stream is ready.
    Created,
    /// `transcript.partial`, with its fields when present.
    Partial { text: Option<String>, is_final: Option<bool>, speech_final: Option<bool> },
    /// `error`, with its message when present.
    Error { message: Option<String> },
    /// The connection failed.
    TransportError(String),
    /// The stream closed.
    Closed,
    /// Anything else: binary frames, unknown types, unreadable JSON.
    Other,
}

/// What the window is told about a message.
#[derive(Clone, Debug)]
pub enum SttEmit {
    Nothing,
    /// The stream of the source with this label is ready.
    Ready(&'static str),
    /// A transcript update.
    Transcript { text: String, is_final: bool, speech_final: bool },
    /// An error.
    Error(String),
}

/// What one message of the service leads to.
#[derive(Clone, Debug)]
pub struct SttStep {
    /// What to tell the task waiting for readiness, if it still waits.
    pub ready_signal: Option<Result<(), String>>,
    pub emit: SttEmit,
    /// Whether the stream ends.
    pub stop: bool,
}

/// The state of a stream's reader: whether the readiness wait is still open.
#[derive(Clone, Copy, Debug)]
pub struct SttReader {
    pub ready_pending: bool,
}

/// `"{label} STT: {detail}"`.
pub open spec fn stt_error(source: AudioSource, detail: Seq<char>) -> Seq<char> {
    label_of(source) + " STT: "@ + detail
}

impl SttReader {
    /// A reader whose readiness wait is open.
    pub fn new() -> (r: Self)
        ensures
            r.ready_pending,
    {
        SttReader { ready_pending: true }
    }

    /// Handles one message of the stream of `source`: readiness is reported
    /// once; partial transcripts are trimmed and empty ones dropped; errors
    /// and the end of the stream stop it.
    pub fn step(&mut self, source: AudioSource, event: SttEvent) -> (s: SttStep)
        ensures
            match event {
                SttEvent::Created => {
                    &&& (s.ready_signal matches Some(r) ==> r is Ok)
                    &&& (s.ready_signal is Some <==> old(self).ready_pending)
                    &&& s.emit matches SttEmit::Ready(l) && l@ == label_of(source)
                    &&& !s.stop
                    &&& !final(self).ready_pending
                },
                SttEvent::Partial { text, is_final, speech_final } => {
                    let t = match text {
                        Some(x) => trim(x@),
                        None => seq![],
                    };
                    &&& s.ready_signal is None
                    &&& !s.stop
                    &&& final(self).ready_pending == old(self).ready_pending
                    &&& if t.len() == 0 {
                        s.emit is Nothing
                    } else {
                        s.emit matches SttEmit::Transcript { text: e, is_final: f, speech_final: sf }
                            && e@ == t && f == (is_final == Some(true)) && sf == (speech_final
                            == Some(true))
                    }
                },
                SttEvent::Error { message } => {
                    let m = match message {
                        Some(x) => x@,
                        None => "xAI STT error"@,
                    };
                    &&& (s.ready_signal is Some <==> old(self).ready_pending)
                    &&& (s.ready_signal matches Some(r) ==> (r matches Err(e) && e@ == m))
                    &&& s.emit matches SttEmit::Error(e) && e@ == stt_error(source, m)
                    &&& s.stop
                    &&& !final(self).ready_pending
                },
                SttEvent::TransportError(x) => {
                    &&& (s.ready_signal is Some <==> old(self).ready_pending)
                    &&& (s.ready_signal matches Some(r) ==> (r matches Err(e) && e@ == x@))
                    &&& s.emit matches SttEmit::Error(e) && e@ == stt_error(source, x@)
                    &&& s.stop
                    &&& !final(self).ready_pending
                },
                SttEvent::Closed => {
                    &&& s.ready_signal is None
                    &&& s.emit matches SttEmit::Error(e) && e@ == label_of(source)
                        + " STT stream closed"@
                    &&& s.stop
                    &&& final(self).ready_pending == old(self).ready_pending
                },
                SttEvent::Other => {
                    &&& s.ready_signal is None
                    &&& s.emit is Nothing
                    &&& !s.stop
                    &&& final(self).ready_pending == old(self).ready_pending
                },
            },
    {
        match event {
            SttEvent::Created => {
                let ready_signal = if self.ready_pending {
                    Some(Ok(()))
                } else {
                    None
                };
                self.ready_pending = false;
                SttStep { ready_signal, emit: SttEmit::Ready(source.label()), stop: false }
            },
            SttEvent::Partial { text, is_final, speech_final } => {
                let t = match &text {
                    Some(x) => trim_str(x.as_str()),
                    None => String::new(),
                };
                if chars_of(t.as_str()).len() == 0 {
                    SttStep { ready_signal: None, emit: SttEmit::Nothing, stop: false }
                } else {
                    SttStep {
                        ready_signal: None,
                        emit: SttEmit::Transcript {
                            text: t,
                            is_final: is_final == Some(true),
                            speech_final: speech_final == Some(true),
                        },
                        stop: false,
                    }
                }
            },
            SttEvent::Error { message } => {
                let m = match message {
                    Some(x) => x,
                    None => String::from_str("xAI STT error"),
                };
                let ready_signal = if self.ready_pending {
                    Some(Err(owned(m.as_str())))
                } else {
                    None
                };
                self.ready_pending = false;
                let mut e = owned(source.label());
                push_str(&mut e, " STT: ");
                push_str(&mut e, m.as_str());
                SttStep { ready_signal, emit: SttEmit::Error(e), stop: true }
            },
            SttEvent::TransportError(x) => {
                let ready_signal = if self.ready_pending {
                    Some(Err(owned(x.as_str())))
                } else {
                    None
                };
                self.ready_pending = false;
                let mut e = owned(source.label());
                push_str(&mut e, " STT: ");
                push_str(&mut e, x.as_str());
                SttStep { ready_signal, emit: SttEmit::Error(e), stop: true }
            },
            SttEvent::Closed => {
                let mut e = owned(source.label());
                push_str(&mut e, " STT stream closed");
                SttStep { ready_signal: None, emit: SttEmit::Error(e), stop: true }
            },
            SttEvent::Other => SttStep { ready_signal: None, emit: SttEmit::Nothing, stop: false },
        }
    }
}

/// The message when sending audio to the stream failed.
pub fn disconnected_message(source: AudioSource) -> (m: String)
    ensures
        m@ == label_of(source) + " STT stream disconnected"@,
{
    let mut m = owned(source.label());
    push_str(&mut m, " STT stream disconnected");
    m
}

/// Milliseconds of silence after which system audio keeps the stream alive.
pub const KEEPALIVE_AFTER_MS: u64 = 150;

/// Whether to send silence to keep the stream alive: only system audio
/// does, when no audio has been sent for the keep-alive delay (a process tap
/// waits while no application plays sound).
pub fn keepalive_due(source: AudioSource, ms_since_audio: u64) -> (r: bool)
    ensures
        r == (source == AudioSource::Speaker && ms_since_audio >= KEEPALIVE_AFTER_MS),
{
    source == AudioSource::Speaker && ms_since_audio >= KEEPALIVE_AFTER_MS
}

/// Bytes of a keep-alive: a tenth of a second of 16-bit silence.
pub fn silence_len(rate: u32) -> (n: usize)
    ensures
        n == (rate / 10) * 2,
{
    ((rate / 10) as usize) * 2
}

} // verus!
