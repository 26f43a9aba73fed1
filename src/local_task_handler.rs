//! The serial owner of the capture session and the media flag. Each task is
//! handled by one call that finishes its change of state before it returns;
//! the caller performs the outside work that the returned step names.

use vstd::prelude::*;

use crate::audio_recorder::{bytes_view, recording_bytes, AudioRecorder, InputFormat, RecorderError};
use crate::media_manager::{MediaManager, PlayerStatus};
use crate::enigo_instance::EnigoCommand;

verus! {

/// A request to the task handler.
#[derive(Clone, Copy, Debug, PartialEq, Eq, Structural)]
pub enum Task {
    /// Start a recording when idle, else stop it and hand back its bytes.
    ToggleRecording,
    /// Inject the paste shortcut.
    PasteFromClipboard,
    /// Inject the undo shortcut and acknowledge it.
    UndoText,
    /// Stop the recording and discard it.
    CancelRecording,
}

/// What the caller does after a task was handled.
pub enum Step {
    /// The session is idle: probe the player and the input device, then
    /// call `begin_recording`.
    StartRecording,
    /// The recording ended: resume the player if asked, and reply with the
    /// bytes (an empty reply when none were encoded).
    RecordingStopped { bytes: Option<Vec<u8>>, resume_media: bool },
    /// The recording was cancelled: resume the player if asked, show the
    /// default icon and tell the user.
    RecordingCancelled { resume_media: bool },
    /// There was no recording to cancel.
    NothingToCancel,
    /// Inject the command's keystrokes; acknowledge once they are delivered
    /// if `ack`.
    Inject { command: EnigoCommand, ack: bool },
}

/// How an attempt to start a recording went.
#[derive(Clone, Copy, Debug, PartialEq, Eq)]
pub struct StartOutcome {
    /// Whether the player must be paused; once it is, report it with
    /// `media_paused`.
    pub pause_media: bool,
    /// Whether the recording started; on failure the session was reset.
    pub started: Result<(), RecorderError>,
}

/// Owns the capture session and the media flag.
pub struct LocalTaskHandler {
    recorder: AudioRecorder,
    media: MediaManager,
}

impl LocalTaskHandler {
    pub closed spec fn recorder(&self) -> AudioRecorder {
        self.recorder
    }

    pub closed spec fn media(&self) -> MediaManager {
        self.media
    }

    pub open spec fn wf(&self) -> bool {
        self.recorder().wf()
    }

    pub fn new() -> (r: Self)
        ensures
            r.wf(),
            r.recorder().is_idle(),
            !r.media().was_playing(),
    {
        LocalTaskHandler { recorder: AudioRecorder::new(), media: MediaManager::new() }
    }

    /// Whether a recording is running.
    pub fn is_recording(&self) -> (r: bool)
        ensures
            r == self.recorder().recording(),
    {
        self.recorder.is_recording()
    }

    /// Handles one task.
    pub fn handle(&mut self, task: Task) -> (r: Step)
        requires
            old(self).wf(),
        ensures
            final(self).wf(),
            match task {
                Task::ToggleRecording => if !old(self).recorder().recording() {
                    r is StartRecording && *final(self) == *old(self)
                } else {
                    &&& r matches Step::RecordingStopped { bytes, resume_media } && bytes_view(
                        bytes,
                    ) == recording_bytes(
                        old(self).recorder().captured(),
                        old(self).recorder().format(),
                    ) && resume_media == old(self).media().was_playing()
                    &&& !final(self).recorder().recording()
                    &&& final(self).recorder().format() is None
                    &&& final(self).recorder().last_sound() is None
                    &&& !final(self).media().was_playing()
                },
                Task::CancelRecording => if !old(self).recorder().recording() {
                    r is NothingToCancel && *final(self) == *old(self)
                } else {
                    &&& r matches Step::RecordingCancelled { resume_media } && resume_media == old(
                        self,
                    ).media().was_playing()
                    &&& !final(self).recorder().recording()
                    &&& final(self).recorder().format() is None
                    &&& final(self).recorder().last_sound() is None
                    &&& !final(self).media().was_playing()
                },
                Task::PasteFromClipboard => r matches Step::Inject { command, ack } && command
                    == EnigoCommand::PasteFromClipboard && !ack && *final(self) == *old(self),
                Task::UndoText => r matches Step::Inject { command, ack } && command
                    == EnigoCommand::UndoText && ack && *final(self) == *old(self),
            },
    {
        match task {
            Task::ToggleRecording => {
                if !self.recorder.is_recording() {
                    return Step::StartRecording;
                }
                let bytes = self.recorder.stop_recording_and_get_bytes();
                let resume_media = self.media.play_spotify();
                Step::RecordingStopped { bytes, resume_media }
            },
            Task::CancelRecording => {
                if !self.recorder.is_recording() {
                    return Step::NothingToCancel;
                }
                let _discarded = self.recorder.stop_recording_and_get_bytes();
                let resume_media = self.media.play_spotify();
                Step::RecordingCancelled { resume_media }
            },
            Task::PasteFromClipboard => Step::Inject {
                command: EnigoCommand::PasteFromClipboard,
                ack: false,
            },
            Task::UndoText => Step::Inject { command: EnigoCommand::UndoText, ack: true },
        }
    }

    /// Starts a recording once the player was probed (`player`) and the
    /// input device's default configuration was read (`device`). A failed
    /// start leaves the session idle.
    pub fn begin_recording(&mut self, player: PlayerStatus, device: Option<InputFormat>) -> (r:
        StartOutcome)
        requires
            old(self).wf(),
        ensures
            final(self).wf(),
            old(self).recorder().recording() ==> {
                &&& r == (StartOutcome {
                    pause_media: false,
                    started: Err(RecorderError::AlreadyRecording),
                })
                &&& *final(self) == *old(self)
            },
            !old(self).recorder().recording() ==> {
                &&& r.pause_media == (player == PlayerStatus::Playing)
                &&& final(self).media() == old(self).media()
                &&& device is None ==> r.started == Err::<(), RecorderError>(
                    RecorderError::DeviceError,
                ) && final(self).recorder().is_idle()
                &&& device is Some ==> {
                    &&& r.started is Ok
                    &&& final(self).recorder().recording()
                    &&& final(self).recorder().format() == device
                    &&& final(self).recorder().captured().len() == 0
                    &&& final(self).recorder().last_sound() is None
                }
            },
    {
        if self.recorder.is_recording() {
            return StartOutcome { pause_media: false, started: Err(RecorderError::AlreadyRecording) };
        }
        let pause_media = self.media.pause_spotify(player);
        let started = self.recorder.start_recording(device);
        if started.is_err() {
            self.recorder.reset();
        }
        StartOutcome { pause_media, started }
    }

    /// The player was paused for the running recording: it is resumed when
    /// the recording ends.
    pub fn media_paused(&mut self)
        requires
            old(self).wf(),
        ensures
            final(self).wf(),
            final(self).recorder() == old(self).recorder(),
            final(self).media().was_playing(),
    {
        self.media.record_pause();
    }

    /// The input stream of a started recording could not be opened: the
    /// session goes back to idle.
    pub fn abandon_start(&mut self)
        ensures
            final(self).recorder().is_idle(),
            final(self).media() == old(self).media(),
    {
        self.recorder.reset();
    }

    /// Passes one block of quantized samples that arrived at `now_ms` to the
    /// session; returns whether the silence watchdog asks for cancellation.
    pub fn push_block(&mut self, block: &Vec<i16>, now_ms: u64) -> (cancel: bool)
        requires
            old(self).wf(),
        ensures
            final(self).wf(),
            final(self).media() == old(self).media(),
            !old(self).recorder().recording() ==> !cancel && *final(self) == *old(self),
            old(self).recorder().recording() ==> {
                &&& final(self).recorder().recording()
                &&& final(self).recorder().format() == old(self).recorder().format()
                &&& final(self).recorder().captured() == old(self).recorder().captured() + block@
                &&& final(self).recorder().last_sound() == crate::audio_recorder::next_last_sound(
                    block@,
                    old(self).recorder().last_sound(),
                    now_ms,
                )
                &&& cancel == crate::audio_recorder::silence_expired(
                    block@,
                    old(self).recorder().last_sound(),
                    now_ms,
                )
            },
    {
        self.recorder.push_block(block, now_ms)
    }
}

} // verus!
