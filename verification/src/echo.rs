//! Echo cancellation bookkeeping: the microphone rate that the canceller was
//! configured for, and the checks that every 10 ms render (system audio)
//! and capture (microphone) frame must pass before it reaches the
//! canceller. The signal processing itself works on floating-point samples
//! and stays with the caller.
use vstd::prelude::*;

use crate::text::{decimal, push_decimal, push_str};

verus! {

/// The length of a frame of `len` samples resampled from `source` Hz to
/// `target` Hz by linear interpolation, rounded to the nearest sample.
pub open spec fn resampled_len(len: nat, source: nat, target: nat) -> nat {
    if len == 0 || source == 0 || target == 0 {
        0
    } else if source == target {
        len
    } else {
        (len * target + source / 2) / source
    }
}

/// The length of a frame after resampling.
pub fn resampled_length(len: usize, source: u32, target: u32) -> (n: u64)
    requires
        len * target + source / 2 <= u64::MAX,
    ensures
        n == resampled_len(len as nat, source as nat, target as nat),
{
    if len == 0 || source == 0 || target == 0 {
        0
    } else if source == target {
        len as u64
    } else {
        assert(len * target <= u64::MAX);
        ((len as u64) * (target as u64) + (source as u64) / 2) / (source as u64)
    }
}

/// The canceller's configuration: the microphone rate, once a microphone
/// stream has started.
#[derive(Clone, Copy, Debug, Default, PartialEq, Eq, Structural)]
pub struct EchoCancellationState {
    pub capture_sample_rate: Option<u32>,
}

/// How a render frame is fed to the canceller.
#[derive(Clone, Copy, Debug, PartialEq, Eq)]
pub struct RenderPlan {
    /// Whether the frame is resampled to the microphone rate first.
    pub resample: bool,
}

/// The message while no microphone stream has started.
pub open spec fn waiting_message() -> Seq<char> {
    "AEC is waiting for the microphone stream"@
}

impl EchoCancellationState {
    /// Not configured.
    pub fn new() -> (s: Self)
        ensures
            s.capture_sample_rate is None,
    {
        EchoCancellationState { capture_sample_rate: None }
    }

    /// A microphone stream started at `sample_rate`.
    pub fn configure_capture(&mut self, sample_rate: u32)
        ensures
            final(self).capture_sample_rate == Some(sample_rate),
    {
        self.capture_sample_rate = Some(sample_rate);
    }

    /// The microphone stream stopped.
    pub fn reset(&mut self)
        ensures
            final(self).capture_sample_rate is None,
    {
        self.capture_sample_rate = None;
    }

    /// Checks a render frame of `len` samples at `render_sample_rate`: once
    /// resampled to the microphone rate it must hold 10 ms of audio. Returns
    /// whether it is resampled.
    pub fn plan_render_frame(&self, len: usize, render_sample_rate: u32) -> (r: Result<RenderPlan, String>)
        requires
            match self.capture_sample_rate {
                Some(c) => render_sample_rate == c || len * c + render_sample_rate / 2 <= u64::MAX,
                None => true,
            },
        ensures
            match self.capture_sample_rate {
                None => r matches Err(e) && e@ == waiting_message(),
                Some(c) => {
                    let frame = if render_sample_rate == c {
                        len as nat
                    } else {
                        resampled_len(len as nat, render_sample_rate as nat, c as nat)
                    };
                    let expected = (c / 100) as nat;
                    if frame == expected {
                        r matches Ok(p) && p.resample == (render_sample_rate != c)
                    } else {
                        r matches Err(e) && e@ == "AEC render frame has "@ + decimal(frame)
                            + " samples; expected "@ + decimal(expected)
                    }
                },
            },
    {
        let capture = match self.capture_sample_rate {
            Some(c) => c,
            None => return Err(String::from_str("AEC is waiting for the microphone stream")),
        };
        let frame: u64 = if render_sample_rate == capture {
            len as u64
        } else {
            resampled_length(len, render_sample_rate, capture)
        };
        let expected = (capture / 100) as u64;
        if frame != expected {
            let mut e = String::from_str("AEC render frame has ");
            push_decimal(&mut e, frame);
            push_str(&mut e, " samples; expected ");
            push_decimal(&mut e, expected);
            return Err(e);
        }
        Ok(RenderPlan { resample: render_sample_rate != capture })
    }

    /// Checks a capture frame of `len` samples at `capture_sample_rate`: the
    /// rate must be the configured one and the frame 10 ms long.
    pub fn check_capture_frame(&self, len: usize, capture_sample_rate: u32) -> (r: Result<(), String>)
        ensures
            match self.capture_sample_rate {
                None => r matches Err(e) && e@ == waiting_message(),
                Some(c) => if capture_sample_rate != c {
                    r matches Err(e) && e@ == "AEC microphone rate changed from "@ + decimal(
                        c as nat,
                    ) + " Hz to "@ + decimal(capture_sample_rate as nat) + " Hz"@
                } else if len != c / 100 {
                    r matches Err(e) && e@ == "AEC capture frame has "@ + decimal(len as nat)
                        + " samples; expected "@ + decimal((c / 100) as nat)
                } else {
                    r is Ok
                },
            },
    {
        let configured = match self.capture_sample_rate {
            Some(c) => c,
            None => return Err(String::from_str("AEC is waiting for the microphone stream")),
        };
        if capture_sample_rate != configured {
            let mut e = String::from_str("AEC microphone rate changed from ");
            push_decimal(&mut e, configured as u64);
            push_str(&mut e, " Hz to ");
            push_decimal(&mut e, capture_sample_rate as u64);
            push_str(&mut e, " Hz");
            return Err(e);
        }
        let expected = (configured / 100) as usize;
        if len != expected {
            let mut e = String::from_str("AEC capture frame has ");
            push_decimal(&mut e, len as u64);
            push_str(&mut e, " samples; expected ");
            push_decimal(&mut e, expected as u64);
            return Err(e);
        }
        Ok(())
    }
}

} // verus!
