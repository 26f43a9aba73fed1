//! The capture session of one recording: the sample buffer, the format of
//! the input device, the silence watchdog and the encoding of the result.

use vstd::prelude::*;

use crate::clock::{elapsed, elapsed_ms};
use crate::wav::{encode_wav, pcm_wav, wav_encodable, wav_header_len, wav_pcm16};

verus! {

/// A quantized sample whose magnitude exceeds this counts as sound.
pub const SOUND_THRESHOLD: i16 = 1000;

/// Silence longer than this, in milliseconds, asks for the recording to be
/// cancelled.
pub const SILENCE_TIMEOUT_MS: u64 = 8000;

/// The default configuration of the input device a recording runs on.
#[derive(Clone, Copy, Debug, PartialEq, Eq, Structural)]
pub struct InputFormat {
    pub sample_rate: u32,
    pub channels: u16,
}

/// Why a recording could not start.
#[derive(Clone, Copy, Debug, PartialEq, Eq, Structural)]
pub enum RecorderError {
    /// No input device, or its configuration could not be read.
    DeviceError,
    /// A recording is already running.
    AlreadyRecording,
}

/// Whether a quantized sample counts as sound.
pub open spec fn is_loud(sample: i16) -> bool {
    sample > SOUND_THRESHOLD || sample < -SOUND_THRESHOLD
}

/// Whether no sample of a block counts as sound.
pub open spec fn is_silent(block: Seq<i16>) -> bool {
    forall|i: int| 0 <= i < block.len() ==> !is_loud(#[trigger] block[i])
}

/// Whether a block that arrives at `now`, after sound was last heard at
/// `last_sound`, asks for the recording to be cancelled.
pub open spec fn silence_expired(block: Seq<i16>, last_sound: Option<u64>, now: u64) -> bool {
    match last_sound {
        Some(t) => is_silent(block) && elapsed(t, now) > SILENCE_TIMEOUT_MS,
        None => false,
    }
}

/// When sound was last heard once a block has arrived at `now`: the first
/// block and every block with sound restart the clock.
pub open spec fn next_last_sound(block: Seq<i16>, last_sound: Option<u64>, now: u64) -> Option<
    u64,
> {
    match last_sound {
        Some(t) => if is_silent(block) {
            Some(t)
        } else {
            Some(now)
        },
        None => Some(now),
    }
}

/// The encoded recording of `samples` captured in `format`, if there is one:
/// nothing was captured, a format that the container cannot describe, or a
/// sample count that does not fill whole frames all give none.
pub open spec fn recording_bytes(samples: Seq<i16>, format: Option<InputFormat>) -> Option<
    Seq<u8>,
> {
    match format {
        Some(f) => if samples.len() == 0 || !wav_encodable(
            f.sample_rate,
            f.channels,
            samples.len(),
        ) || samples.len() % (f.channels as nat) != 0 {
            None
        } else {
            Some(wav_pcm16(samples, f.sample_rate, f.channels))
        },
        None => None,
    }
}

/// A block without sound asks for cancellation exactly when more than the
/// silence timeout has passed since sound was last heard, and it leaves that
/// moment where it was, so a run of silent blocks is measured from the last
/// sound. A block with sound never asks, and restarts the clock; the first
/// block of a recording never asks either.
pub proof fn lemma_silence_watchdog(block: Seq<i16>, last_sound: u64, now: u64)
    ensures
        is_silent(block) ==> (silence_expired(block, Some(last_sound), now) <==> elapsed(
            last_sound,
            now,
        ) > SILENCE_TIMEOUT_MS),
        is_silent(block) ==> next_last_sound(block, Some(last_sound), now) == Some(last_sound),
        !is_silent(block) ==> !silence_expired(block, Some(last_sound), now) && next_last_sound(
            block,
            Some(last_sound),
            now,
        ) == Some(now),
        !silence_expired(block, None, now),
{
}

/// A recording stopped before any sample was captured has no bytes:
/// starting a session and stopping it at once yields none.
pub proof fn lemma_empty_recording_has_no_bytes(recorder: AudioRecorder)
    requires
        recorder.wf(),
        recorder.recording(),
        recorder.captured().len() == 0,
    ensures
        recording_bytes(recorder.captured(), recorder.format()) is None,
{
}

/// The view of an optional byte buffer.
pub open spec fn bytes_view(r: Option<Vec<u8>>) -> Option<Seq<u8>> {
    match r {
        Some(b) => Some(b@),
        None => None,
    }
}

/// The state of the capture session. The input stream itself is held by
/// the caller for as long as `is_recording` is true.
pub struct AudioRecorder {
    format: Option<InputFormat>,
    samples: Vec<i16>,
    last_sound_ms: Option<u64>,
    is_recording: bool,
}

impl AudioRecorder {
    /// Whether a recording is running.
    pub closed spec fn recording(&self) -> bool {
        self.is_recording
    }

    /// The format of the running recording.
    pub closed spec fn format(&self) -> Option<InputFormat> {
        self.format
    }

    /// The samples captured so far.
    pub closed spec fn captured(&self) -> Seq<i16> {
        self.samples@
    }

    /// When sound was last heard, in milliseconds of the caller's clock.
    pub closed spec fn last_sound(&self) -> Option<u64> {
        self.last_sound_ms
    }

    /// A format is held exactly while a recording runs.
    pub closed spec fn wf(&self) -> bool {
        self.is_recording <==> self.format is Some
    }

    /// Whether the session is idle with nothing buffered.
    pub open spec fn is_idle(&self) -> bool {
        &&& self.wf()
        &&& !self.recording()
        &&& self.format() is None
        &&& self.captured().len() == 0
        &&& self.last_sound() is None
    }

    pub fn new() -> (r: Self)
        ensures
            r.is_idle(),
    {
        AudioRecorder { format: None, samples: Vec::new(), last_sound_ms: None, is_recording: false }
    }

    /// Whether a recording is running.
    pub fn is_recording(&self) -> (r: bool)
        ensures
            r == self.recording(),
    {
        self.is_recording
    }

    /// Returns the session to idle without encoding anything.
    pub fn reset(&mut self)
        ensures
            final(self).is_idle(),
    {
        self.format = None;
        self.samples.clear();
        self.last_sound_ms = None;
        self.is_recording = false;
    }

    /// Starts a recording on the input device whose default configuration
    /// is `device` (none when there is no device or no configuration).
    pub fn start_recording(&mut self, device: Option<InputFormat>) -> (r: Result<(), RecorderError>)
        requires
            old(self).wf(),
        ensures
            final(self).wf(),
            old(self).recording() ==> {
                &&& r == Err::<(), RecorderError>(RecorderError::AlreadyRecording)
                &&& *final(self) == *old(self)
            },
            !old(self).recording() && device is None ==> {
                &&& r == Err::<(), RecorderError>(RecorderError::DeviceError)
                &&& *final(self) == *old(self)
            },
            !old(self).recording() && device is Some ==> {
                &&& r is Ok
                &&& final(self).recording()
                &&& final(self).format() == device
                &&& final(self).captured().len() == 0
                &&& final(self).last_sound() is None
            },
    {
        if self.is_recording {
            return Err(RecorderError::AlreadyRecording);
        }
        match device {
            None => Err(RecorderError::DeviceError),
            Some(f) => {
                self.format = Some(f);
                self.samples.clear();
                self.last_sound_ms = None;
                self.is_recording = true;
                Ok(())
            },
        }
    }

    /// Takes one block of quantized samples that arrived at `now_ms` and
    /// returns whether the silence watchdog asks for the recording to be
    /// cancelled. Blocks that arrive while no recording runs are dropped.
    pub fn push_block(&mut self, block: &Vec<i16>, now_ms: u64) -> (cancel: bool)
        requires
            old(self).wf(),
        ensures
            final(self).wf(),
            !old(self).recording() ==> !cancel && *final(self) == *old(self),
            old(self).recording() ==> {
                &&& final(self).recording()
                &&& final(self).format() == old(self).format()
                &&& final(self).captured() == old(self).captured() + block@
                &&& final(self).last_sound() == next_last_sound(
                    block@,
                    old(self).last_sound(),
                    now_ms,
                )
                &&& cancel == silence_expired(block@, old(self).last_sound(), now_ms)
            },
    {
        if !self.is_recording {
            return false;
        }
        let ghost before = self.samples@;
        let mut sound = false;
        let mut i: usize = 0;
        while i < block.len()
            invariant
                i <= block@.len(),
                self.is_recording,
                self.format == old(self).format,
                self.last_sound_ms == old(self).last_sound_ms,
                self.samples@ == before + block@.subrange(0, i as int),
                sound <==> !is_silent(block@.subrange(0, i as int)),
            decreases block@.len() - i,
        {
            let s = block[i];
            if s > SOUND_THRESHOLD || s < -SOUND_THRESHOLD {
                sound = true;
            }
            self.samples.push(s);
            proof {
                let next = block@.subrange(0, i + 1);
                assert(next == block@.subrange(0, i as int).push(s));
                if !is_silent(block@.subrange(0, i as int)) {
                    let j = choose|j: int|
                        0 <= j < i && is_loud(#[trigger] block@.subrange(0, i as int)[j]);
                    assert(next[j] == block@.subrange(0, i as int)[j]);
                }
                if is_loud(s) {
                    assert(next[i as int] == s);
                }
            }
            i += 1;
        }
        assert(block@.subrange(0, block@.len() as int) == block@);
        match self.last_sound_ms {
            None => {
                self.last_sound_ms = Some(now_ms);
                false
            },
            Some(t) => {
                if sound {
                    self.last_sound_ms = Some(now_ms);
                    false
                } else {
                    elapsed_ms(t, now_ms) > SILENCE_TIMEOUT_MS
                }
            },
        }
    }

    /// Ends the running recording and returns its encoded bytes, if there
    /// are any; without a running recording nothing changes.
    pub fn stop_recording_and_get_bytes(&mut self) -> (r: Option<Vec<u8>>)
        requires
            old(self).wf(),
        ensures
            final(self).wf(),
            !old(self).recording() ==> r is None && *final(self) == *old(self),
            old(self).recording() ==> {
                &&& !final(self).recording()
                &&& final(self).format() is None
                &&& final(self).last_sound() is None
                &&& final(self).captured() == old(self).captured()
                &&& bytes_view(r) == recording_bytes(old(self).captured(), old(self).format())
            },
            old(self).recording() && r is Some ==> {
                let f = old(self).format().unwrap();
                let b = r.unwrap()@;
                &&& b.len() == wav_header_len(f.channels) + 2 * old(self).captured().len()
                &&& f.channels <= 2 ==> b == pcm_wav(old(self).captured(), f.sample_rate, f.channels)
            },
    {
        if !self.is_recording {
            return None;
        }
        self.is_recording = false;
        self.last_sound_ms = None;
        let format = self.format.take();
        let f = match format {
            Some(f) => f,
            None => {
                return None;
            },
        };
        let n = self.samples.len();
        if n == 0 || f.sample_rate == 0 || f.channels == 0 {
            return None;
        }
        let rate2: u64 = f.sample_rate as u64 * 2;
        let channels: u64 = f.channels as u64;
        assert(rate2 * channels <= 0x2_0000_0000u64 * 0x1_0000u64) by (nonlinear_arith)
            requires
                rate2 <= 0x2_0000_0000u64,
                channels <= 0x1_0000u64,
        ;
        if rate2 * channels > u32::MAX as u64 {
            return None;
        }
        if n > (u32::MAX as usize - 60) / 2 {
            return None;
        }
        encode_wav(&self.samples, f.sample_rate, f.channels)
    }
}

} // verus!
