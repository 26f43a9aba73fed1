//! The requests that drive the task handler from outside it: toggling a
//! recording and transcribing it, and polishing the clipboard's text. Each
//! decision point returns the steps that the caller performs in order; a
//! step that fails ends the request.

use vstd::prelude::*;

use crate::notifications::Notification;
use crate::transcribe_icon::Icon;

verus! {

/// One step of a request, performed by the caller.
#[derive(Clone, Copy, Debug, PartialEq, Eq, Structural)]
pub enum FlowStep {
    ShowIcon(Icon),
    Notify(Notification),
    /// Put the received text on the clipboard.
    WriteClipboard,
    /// Send the undo task and wait for its acknowledgement.
    SendUndoAndWait,
    /// Send the paste task.
    SendPaste,
    /// Let the next polish request in.
    ReleaseCleanseGuard,
}

/// What a requester does with the reply to its toggle task.
#[derive(Clone, Copy, Debug, PartialEq, Eq, Structural)]
pub enum ReplyStep {
    /// An empty reply: a recording started.
    ShowRecording,
    /// No reply arrived: show the default icon and stop.
    ShowDefault,
    /// Bytes arrived: show the transcribing icon and send them off.
    Transcribe,
}

/// Reads the reply to a toggle task; none when the reply was dropped.
pub fn after_toggle_reply(reply: &Option<Vec<u8>>) -> (r: ReplyStep)
    ensures
        match reply {
            None => r == ReplyStep::ShowDefault,
            Some(b) => if b@.len() == 0 {
                r == ReplyStep::ShowRecording
            } else {
                r == ReplyStep::Transcribe
            },
        },
{
    match reply {
        None => ReplyStep::ShowDefault,
        Some(b) => if b.len() == 0 {
            ReplyStep::ShowRecording
        } else {
            ReplyStep::Transcribe
        },
    }
}

pub open spec fn transcription_steps_of(fetched: bool, paste: bool) -> Seq<FlowStep> {
    if !fetched {
        seq![FlowStep::ShowIcon(Icon::Default), FlowStep::Notify(Notification::ApiError)]
    } else if paste {
        seq![FlowStep::ShowIcon(Icon::Default), FlowStep::WriteClipboard, FlowStep::SendPaste]
    } else {
        seq![
            FlowStep::ShowIcon(Icon::Default),
            FlowStep::WriteClipboard,
            FlowStep::Notify(Notification::TranscribeSuccess),
        ]
    }
}

/// The steps after the transcription service answered (`fetched`) or
/// failed; `paste` asks for the text to be pasted where the user types.
pub fn after_transcription(fetched: bool, paste: bool) -> (r: Vec<FlowStep>)
    ensures
        r@ == transcription_steps_of(fetched, paste),
{
    let r = if !fetched {
        vec![FlowStep::ShowIcon(Icon::Default), FlowStep::Notify(Notification::ApiError)]
    } else if paste {
        vec![FlowStep::ShowIcon(Icon::Default), FlowStep::WriteClipboard, FlowStep::SendPaste]
    } else {
        vec![
            FlowStep::ShowIcon(Icon::Default),
            FlowStep::WriteClipboard,
            FlowStep::Notify(Notification::TranscribeSuccess),
        ]
    };
    assert(r@ =~= transcription_steps_of(fetched, paste));
    r
}

/// How a polish request begins.
#[derive(Clone, Copy, Debug, PartialEq, Eq, Structural)]
pub enum CleanseStart {
    /// The clipboard holds no text: tell the user and stop.
    EmptyClipboard,
    /// Another polish is running: this request does nothing.
    AlreadyCleansing,
    /// The guard is taken: show the cleansing icon, tell the user and send
    /// the text off.
    Begin,
}

/// Lets one polish request run at a time; a second one is dropped, not
/// queued.
pub struct CleanseGuard {
    is_cleansing: bool,
}

impl CleanseGuard {
    pub closed spec fn busy(&self) -> bool {
        self.is_cleansing
    }

    pub fn new() -> (r: Self)
        ensures
            !r.busy(),
    {
        CleanseGuard { is_cleansing: false }
    }

    /// Whether a polish request is running.
    pub fn is_busy(&self) -> (r: bool)
        ensures
            r == self.busy(),
    {
        self.is_cleansing
    }

    /// A polish request with the clipboard's text. While another one runs
    /// it does nothing, whatever the clipboard holds.
    pub fn begin(&mut self, clipboard: &str) -> (r: CleanseStart)
        ensures
            old(self).busy() ==> {
                &&& r == CleanseStart::AlreadyCleansing
                &&& final(self).busy()
            },
            !old(self).busy() && clipboard@.len() == 0 ==> {
                &&& r == CleanseStart::EmptyClipboard
                &&& !final(self).busy()
            },
            !old(self).busy() && clipboard@.len() != 0 ==> {
                &&& r == CleanseStart::Begin
                &&& final(self).busy()
            },
    {
        if self.is_cleansing {
            return CleanseStart::AlreadyCleansing;
        }
        if clipboard.is_empty() {
            return CleanseStart::EmptyClipboard;
        }
        self.is_cleansing = true;
        CleanseStart::Begin
    }

    /// The running polish request ended.
    pub fn release(&mut self)
        ensures
            !final(self).busy(),
    {
        self.is_cleansing = false;
    }
}

pub open spec fn cleanse_steps_of(cleaned: bool, paste: bool) -> Seq<FlowStep> {
    if !cleaned {
        seq![
            FlowStep::Notify(Notification::ApiError),
            FlowStep::ShowIcon(Icon::Default),
            FlowStep::ReleaseCleanseGuard,
        ]
    } else if paste {
        seq![
            FlowStep::SendUndoAndWait,
            FlowStep::WriteClipboard,
            FlowStep::SendPaste,
            FlowStep::ShowIcon(Icon::Default),
            FlowStep::ReleaseCleanseGuard,
        ]
    } else {
        seq![
            FlowStep::WriteClipboard,
            FlowStep::Notify(Notification::PolishSuccess),
            FlowStep::ReleaseCleanseGuard,
            FlowStep::ShowIcon(Icon::Default),
        ]
    }
}

/// The steps after the polishing service answered (`cleaned`) or failed.
/// When pasting, the undo is acknowledged before the clipboard is written.
pub fn after_cleanse(cleaned: bool, paste: bool) -> (r: Vec<FlowStep>)
    ensures
        r@ == cleanse_steps_of(cleaned, paste),
{
    let r = if !cleaned {
        vec![
            FlowStep::Notify(Notification::ApiError),
            FlowStep::ShowIcon(Icon::Default),
            FlowStep::ReleaseCleanseGuard,
        ]
    } else if paste {
        vec![
            FlowStep::SendUndoAndWait,
            FlowStep::WriteClipboard,
            FlowStep::SendPaste,
            FlowStep::ShowIcon(Icon::Default),
            FlowStep::ReleaseCleanseGuard,
        ]
    } else {
        vec![
            FlowStep::WriteClipboard,
            FlowStep::Notify(Notification::PolishSuccess),
            FlowStep::ReleaseCleanseGuard,
            FlowStep::ShowIcon(Icon::Default),
        ]
    };
    assert(r@ =~= cleanse_steps_of(cleaned, paste));
    r
}

} // verus!
