//! The notifications presented to the user.

use vstd::prelude::*;

verus! {

/// A notification presented to the user.
#[derive(Clone, Copy, Debug, PartialEq, Eq, Structural)]
pub enum Notification {
    StartPolishing,
    PolishSuccess,
    TranscribeSuccess,  // when not pasting from clipboard
    ApiError,
    AccessibilityError,
    CancelledSilence,
    EmptyClipboard,
}

pub open spec fn title_of(n: Notification) -> Seq<char> {
    match n {
        Notification::StartPolishing => "Loading..."@,
        Notification::PolishSuccess => "Polishing complete"@,
        Notification::TranscribeSuccess => "Transcription complete"@,
        Notification::ApiError => "Error"@,
        Notification::AccessibilityError => "Error"@,
        Notification::CancelledSilence => "Recording cancelled"@,
        Notification::EmptyClipboard => "Empty clipboard"@,
    }
}

pub open spec fn body_of(n: Notification) -> Seq<char> {
    match n {
        Notification::StartPolishing => "We're starting to polish your text. Please wait"@,
        Notification::PolishSuccess => "Your polished text is ready and in your clipboard"@,
        Notification::TranscribeSuccess => "Your transcription is ready in your clipboard"@,
        Notification::ApiError => "Failed to connect to the API. Please try again later"@,
        Notification::AccessibilityError =>
            "Please grant accessibility permissions to the app and restart it"@,
        Notification::CancelledSilence => "No sound detected for a while, recording cancelled"@,
        Notification::EmptyClipboard => "We couldn't find any text in your clipboard to polish"@,
    }
}

impl Notification {
    /// The notification's title.
    pub fn title(&self) -> (r: &'static str)
        ensures
            r@ == title_of(*self),
    {
        match self {
            Notification::StartPolishing => "Loading...",
            Notification::PolishSuccess => "Polishing complete",
            Notification::TranscribeSuccess => "Transcription complete",
            Notification::ApiError => "Error",
            Notification::AccessibilityError => "Error",
            Notification::CancelledSilence => "Recording cancelled",
            Notification::EmptyClipboard => "Empty clipboard",
        }
    }

    /// The notification's text.
    pub fn body(&self) -> (r: &'static str)
        ensures
            r@ == body_of(*self),
    {
        match self {
            Notification::StartPolishing => "We're starting to polish your text. Please wait",
            Notification::PolishSuccess => "Your polished text is ready and in your clipboard",
            Notification::TranscribeSuccess => "Your transcription is ready in your clipboard",
            Notification::ApiError => "Failed to connect to the API. Please try again later",
            Notification::AccessibilityError =>
                "Please grant accessibility permissions to the app and restart it",
            Notification::CancelledSilence => "No sound detected for a while, recording cancelled",
            Notification::EmptyClipboard => "We couldn't find any text in your clipboard to polish",
        }
    }
}

} // verus!
