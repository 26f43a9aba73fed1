//! The tray icon that shows the application's state.

use vstd::prelude::*;

verus! {

/// The tray icon, one per state of the application.
#[derive(Clone, Copy, Debug, PartialEq, Eq, Structural)]
pub enum Icon {
    Default,
    Recording,
    Transcribing,
    Cleansing,
}

pub open spec fn icon_file_of(icon: Icon) -> Seq<char> {
    match icon {
        Icon::Default => "whistle.png"@,
        Icon::Recording => "recording-icon.png"@,
        Icon::Transcribing => "transcribing-icon.png"@,
        Icon::Cleansing => "transcribing-icon.png"@,
    }
}

impl Icon {
    /// The image file shown for this icon.
    pub fn file_name(&self) -> (r: &'static str)
        ensures
            r@ == icon_file_of(*self),
    {
        match self {
            Icon::Default => "whistle.png",
            Icon::Recording => "recording-icon.png",
            Icon::Transcribing => "transcribing-icon.png",
            Icon::Cleansing => "transcribing-icon.png",
        }
    }
}

} // verus!
