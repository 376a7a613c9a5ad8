//! Microphone and system-audio capture: device choice, framing of the
//! sample stream, 16-bit PCM encoding, the stall watchdog, capture
//! generations and the status messages of echo cancellation.
use vstd::prelude::*;

use crate::text::{owned, push_str, str_eq};

verus! {

/// A microphone as the window lists it.
#[derive(Clone, Debug)]
pub struct MicrophoneDevice {
    pub name: String,
    pub is_default: bool,
}

/// Lists the microphones by name, marking the default one.
pub fn microphone_devices(names: &Vec<String>, default: Option<&str>) -> (r: Vec<MicrophoneDevice>)
    ensures
        r@.len() == names@.len(),
        forall|i: int| 0 <= i < r@.len() ==> (#[trigger] r@[i]).name@ == names@[i]@ && r@[i].is_default
            == (default matches Some(d) && d@ == names@[i]@),
{
    let mut r: Vec<MicrophoneDevice> = Vec::new();
    let mut i: usize = 0;
    while i < names.len()
        invariant
            i <= names@.len(),
            r@.len() == i,
            forall|k: int| 0 <= k < i ==> (#[trigger] r@[k]).name@ == names@[k]@ && r@[k].is_default
                == (default matches Some(d) && d@ == names@[k]@),
        decreases names.len() - i,
    {
        let is_default = match default {
            Some(d) => str_eq(d, names[i].as_str()),
            None => false,
        };
        r.push(MicrophoneDevice { name: owned(names[i].as_str()), is_default });
        i += 1;
    }
    r
}

/// Which microphone to open.
#[derive(Clone, Copy, Debug, PartialEq, Eq)]
pub enum DeviceChoice {
    /// The device at this index of the list.
    Index(usize),
    /// The system's default input.
    Default,
}

/// Whether a device's name, when it could be read, is `n`.
pub open spec fn name_is(name: Option<String>, n: Seq<char>) -> bool {
    name matches Some(x) && x@ == n
}

/// Chooses the microphone: the first device with the requested name (a
/// device whose name cannot be read never matches), or the default input
/// when none is requested.
pub fn select_device(names: &Vec<Option<String>>, requested: Option<&str>, has_default: bool) -> (r: Result<DeviceChoice, String>)
    ensures
        match requested {
            Some(n) => match r {
                Ok(DeviceChoice::Index(i)) => i < names@.len() && name_is(names@[i as int], n@)
                    && forall|k: int| 0 <= k < i ==> !name_is(#[trigger] names@[k], n@),
                Ok(DeviceChoice::Default) => false,
                Err(e) => e@ == "Microphone not found: "@ + n@ && forall|k: int| 0 <= k < names@.len()
                    ==> !name_is(#[trigger] names@[k], n@),
            },
            None => if has_default {
                r == Ok::<DeviceChoice, String>(DeviceChoice::Default)
            } else {
                r matches Err(e) && e@ == "No microphone found"@
            },
        },
{
    match requested {
        Some(n) => {
            let mut i: usize = 0;
            while i < names.len()
                invariant
                    requested == Some(n),
                    i <= names@.len(),
                    forall|k: int| 0 <= k < i ==> !name_is(#[trigger] names@[k], n@),
                decreases names.len() - i,
            {
                match &names[i] {
                    Some(x) => {
                        if str_eq(x.as_str(), n) {

                            return Ok(DeviceChoice::Index(i));
                        }
                    },
                    None => {},
                }
                i += 1;
            }
            let mut e = String::from_str("Microphone not found: ");
            push_str(&mut e, n);
            Err(e)
        },
        None => if has_default {
            Ok(DeviceChoice::Default)
        } else {
            Err(String::from_str("No microphone found"))
        },
    }
}

/// Frame sizes at a sample rate: 10 ms for echo cancellation, 100 ms for
/// transcription, 200 ms for the level meter.
#[derive(Clone, Copy, Debug, PartialEq, Eq)]
pub struct FrameSizes {
    pub aec: usize,
    pub stt: usize,
    pub level_window: usize,
}

/// The frame sizes at a sample rate.
pub fn frame_sizes(sample_rate: u32) -> (f: FrameSizes)
    ensures
        f.aec == sample_rate / 100,
        f.stt == sample_rate / 10,
        f.level_window == sample_rate / 5,
{
    FrameSizes {
        aec: (sample_rate / 100) as usize,
        stt: (sample_rate / 10) as usize,
        level_window: (sample_rate / 5) as usize,
    }
}

/// Takes the first `n` samples off a buffer.
pub fn take_front<T: Copy>(buf: &mut Vec<T>, n: usize) -> (front: Vec<T>)
    requires
        n <= old(buf)@.len(),
    ensures
        front@ == old(buf)@.subrange(0, n as int),
        final(buf)@ == old(buf)@.subrange(n as int, old(buf)@.len() as int),
{
    let mut front: Vec<T> = Vec::new();
    let mut rest: Vec<T> = Vec::new();
    let len = buf.len();
    let mut i: usize = 0;
    while i < len
        invariant
            n <= len == buf@.len(),
            i <= len,
            i <= n ==> front@ == buf@.subrange(0, i as int) && rest@.len() == 0,
            i > n ==> front@ == buf@.subrange(0, n as int) && rest@ == buf@.subrange(n as int, i as int),
        decreases len - i,
    {
        if i < n {
            front.push(buf[i]);
            proof {
                assert(buf@.subrange(0, i + 1) == buf@.subrange(0, i as int).push(buf@[i as int]));
            }
        } else {
            rest.push(buf[i]);
            proof {
                if i == n {
                    assert(rest@ == buf@.subrange(n as int, i + 1));
                } else {
                    assert(buf@.subrange(n as int, i + 1) == buf@.subrange(n as int, i as int).push(
                        buf@[i as int],
                    ));
                }
            }
        }
        i += 1;
    }
    proof {
        if n == len {
            assert(rest@ == buf@.subrange(n as int, len as int));
        }
    }
    *buf = rest;
    front
}

/// Little-endian bytes of 16-bit samples.
pub open spec fn pcm16_le(values: Seq<i16>) -> Seq<u8> {
    Seq::new(
        2 * values.len(),
        |k: int|
            if k % 2 == 0 {
                ((values[k / 2] as u16) % 256) as u8
            } else {
                ((values[k / 2] as u16) / 256) as u8
            },
    )
}

/// Encodes quantized samples as signed 16-bit little-endian PCM.
pub fn pcm16_bytes(values: &[i16]) -> (bytes: Vec<u8>)
    requires
        2 * values@.len() <= usize::MAX,
    ensures
        bytes@ == pcm16_le(values@),
{
    let mut bytes: Vec<u8> = Vec::new();
    let mut i: usize = 0;
    while i < values.len()
        invariant
            i <= values@.len(),
            2 * values@.len() <= usize::MAX,
            bytes@.len() == 2 * i,
            forall|k: int| 0 <= k < 2 * i ==> #[trigger] bytes@[k] == pcm16_le(values@)[k],
        decreases values.len() - i,
    {
        let u = values[i] as u16;
        bytes.push((u % 256) as u8);
        bytes.push((u / 256) as u8);
        proof {
            assert forall|k: int| 0 <= k < 2 * (i + 1) implies #[trigger] bytes@[k] == pcm16_le(
                values@,
            )[k] by {
                if k >= 2 * i {
                    assert(k / 2 == i);
                }
            }
        }
        i += 1;
    }
    assert(bytes@ =~= pcm16_le(values@));
    bytes
}

/// Watches a stream's activity counter: a stream whose counter does not
/// move for a dozen ticks has stalled.
#[derive(Clone, Copy, Debug, PartialEq, Eq, Structural)]
pub struct ActivityWatchdog {
    pub last_activity: u64,
    pub stagnant_ticks: u32,
}

/// Ticks without activity after which the microphone counts as stalled.
pub const STALLED_AFTER_TICKS: u32 = 12;

impl ActivityWatchdog {
    /// Starts watching from the counter's current value.
    pub fn new(activity: u64) -> (w: Self)
        ensures
            w == (ActivityWatchdog { last_activity: activity, stagnant_ticks: 0 }),
    {
        ActivityWatchdog { last_activity: activity, stagnant_ticks: 0 }
    }

    /// One tick with the counter at `activity`; returns whether the stream
    /// has stalled.
    pub fn tick(&mut self, activity: u64) -> (stalled: bool)
        requires
            old(self).stagnant_ticks < STALLED_AFTER_TICKS,
        ensures
            activity != old(self).last_activity ==> !stalled && *final(self) == (ActivityWatchdog {
                last_activity: activity,
                stagnant_ticks: 0,
            }),
            activity == old(self).last_activity ==> final(self).last_activity == activity
                && final(self).stagnant_ticks == old(self).stagnant_ticks + 1 && stalled == (
            final(self).stagnant_ticks >= STALLED_AFTER_TICKS),
    {
        if activity == self.last_activity {
            self.stagnant_ticks = self.stagnant_ticks + 1;
            self.stagnant_ticks >= STALLED_AFTER_TICKS
        } else {
            self.last_activity = activity;
            self.stagnant_ticks = 0;
            false
        }
    }
}

/// The capture generation: each start and stop moves it, and a capture
/// thread runs while the generation it started with is current.
#[derive(Clone, Copy, Debug, Default, PartialEq, Eq, Structural)]
pub struct MicrophoneState {
    pub generation: u64,
}

impl MicrophoneState {
    /// Generation zero.
    pub fn new() -> (s: Self)
        ensures
            s.generation == 0,
    {
        MicrophoneState { generation: 0 }
    }

    /// A capture starts: returns its generation.
    pub fn begin(&mut self) -> (g: u64)
        ensures
            g == old(self).generation.wrapping_add(1),
            final(self).generation == g,
    {
        self.generation = self.generation.wrapping_add(1);
        self.generation
    }

    /// The running capture is stopped.
    pub fn invalidate(&mut self)
        ensures
            final(self).generation == old(self).generation.wrapping_add(1),
    {
        self.generation = self.generation.wrapping_add(1);
    }

    /// Whether the capture of generation `g` should keep running.
    pub fn is_current(&self, g: u64) -> (r: bool)
        ensures
            r == (self.generation == g),
    {
        self.generation == g
    }
}

/// How the wait for the first microphone samples ended.
#[derive(Clone, Debug)]
pub enum StartupWait {
    Ready,
    Failed(String),
    TimedOut,
}

/// The outcome of starting the microphone, and whether the started
/// transcription stream must be stopped again.
pub fn microphone_startup(w: StartupWait) -> (r: (Result<(), String>, bool))
    ensures
        match w {
            StartupWait::Ready => r.0 is Ok && !r.1,
            StartupWait::Failed(e) => (r.0 matches Err(m) && m@ == e@) && r.1,
            StartupWait::TimedOut => (r.0 matches Err(m) && m@
                == "Microphone opened but no audio samples arrived within 5 seconds"@) && r.1,
        },
{
    match w {
        StartupWait::Ready => (Ok(()), false),
        StartupWait::Failed(e) => (Err(e), true),
        StartupWait::TimedOut => (
            Err(String::from_str("Microphone opened but no audio samples arrived within 5 seconds")),
            true,
        ),
    }
}

/// Reports the first failure of echo cancellation on the microphone path
/// only once; the raw frame is used instead.
#[derive(Clone, Copy, Debug, Default)]
pub struct BypassReporter {
    pub reported: bool,
}

impl BypassReporter {
    /// The message for a failure of echo cancellation on a capture frame,
    /// the first time only.
    pub fn on_capture_error(&mut self, error: &str) -> (m: Option<String>)
        ensures
            old(self).reported ==> m is None,
            !old(self).reported ==> (m matches Some(s) && s@ == "AEC bypassed · "@ + error@
                + " · transcript fallback active"@),
            final(self).reported,
    {
        if self.reported {
            return None;
        }
        self.reported = true;
        let mut s = String::from_str("AEC bypassed · ");
        push_str(&mut s, error);
        push_str(&mut s, " · transcript fallback active");
        Some(s)
    }
}

/// Reports the state of echo cancellation on the system-audio path: once
/// when it becomes active, once when it starts failing.
#[derive(Clone, Copy, Debug, Default, PartialEq, Eq, Structural)]
pub struct AecStatusReporter {
    pub active_reported: bool,
    pub error_reported: bool,
}

impl AecStatusReporter {
    /// The status message after a render frame was fed: `Ok(resampled)` or
    /// the error.
    pub fn on_render(&mut self, result: Result<bool, &str>) -> (m: Option<String>)
        ensures
            match result {
                Ok(resampled) => if !old(self).active_reported {
                    (m matches Some(s) && s@ == if resampled {
                        "AEC3 active · system audio resampled to microphone rate"@
                    } else {
                        "AEC3 active · system audio reference aligned to microphone"@
                    }) && *final(self) == (AecStatusReporter { active_reported: true, error_reported: false })
                } else {
                    m is None && *final(self) == *old(self)
                },
                Err(e) => if !old(self).error_reported {
                    (m matches Some(s) && s@ == "AEC waiting · "@ + e@ + " · transcript fallback active"@)
                        && *final(self) == (AecStatusReporter { active_reported: false, error_reported: true })
                } else {
                    m is None && *final(self) == (AecStatusReporter { active_reported: false, ..*old(self) })
                },
            },
    {
        match result {
            Ok(resampled) => {
                if self.active_reported {
                    return None;
                }
                self.active_reported = true;
                self.error_reported = false;
                if resampled {
                    Some(String::from_str("AEC3 active · system audio resampled to microphone rate"))
                } else {
                    Some(String::from_str("AEC3 active · system audio reference aligned to microphone"))
                }
            },
            Err(e) => {
                self.active_reported = false;
                if self.error_reported {
                    return None;
                }
                self.error_reported = true;
                let mut s = String::from_str("AEC waiting · ");
                push_str(&mut s, e);
                push_str(&mut s, " · transcript fallback active");
                Some(s)
            },
        }
    }
}

/// Counts transcription frames of system audio; every second one updates
/// the level meter.
#[derive(Clone, Copy, Debug, Default, PartialEq, Eq, Structural)]
pub struct LevelCounter {
    pub frames: u8,
}

impl LevelCounter {
    /// One more frame; returns whether the level is shown.
    pub fn tick(&mut self) -> (show: bool)
        ensures
            final(self).frames == old(self).frames.wrapping_add(1),
            show == (final(self).frames % 2 == 0),
    {
        self.frames = self.frames.wrapping_add(1);
        self.frames % 2 == 0
    }
}

/// Whether a system-audio capture may start: not while one runs.
pub fn check_not_capturing(running: bool) -> (r: Result<(), String>)
    ensures
        running ==> (r matches Err(e) && e@ == "Capture already running"@),
        !running ==> r is Ok,
{
    if running {
        Err(String::from_str("Capture already running"))
    } else {
        Ok(())
    }
}

} // verus!
