use whistle::flows::{
    after_cleanse, after_toggle_reply, after_transcription, CleanseGuard, CleanseStart, FlowStep,
    ReplyStep,
};
use whistle::media_manager::{MediaManager, PlayerStatus};
use whistle::enigo_instance::{Direction, EnigoCommand, InjectedKey, Keystroke};
use whistle::notifications::Notification;
use whistle::transcribe_icon::Icon;
use whistle::shortcuts::{AssignShortcutError, ShortcutSlot};

#[test]
fn media_paused_by_session_is_resumed_once() {
    let mut m = MediaManager::new();
    assert!(m.pause_spotify(PlayerStatus::Playing));
    assert!(!m.play_spotify());
    m.record_pause();
    assert!(m.play_spotify());
    assert!(!m.play_spotify());
}

#[test]
fn media_not_playing_is_left_alone() {
    let mut m = MediaManager::new();
    assert!(!m.pause_spotify(PlayerStatus::NotRunning));
    assert!(!m.pause_spotify(PlayerStatus::Idle));
    assert!(!m.play_spotify());
}

#[test]
fn notification_texts() {
    assert_eq!(Notification::CancelledSilence.title(), "Recording cancelled");
    assert_eq!(
        Notification::CancelledSilence.body(),
        "No sound detected for a while, recording cancelled"
    );
    assert_eq!(Notification::ApiError.title(), "Error");
    assert_eq!(Notification::EmptyClipboard.title(), "Empty clipboard");
    assert_eq!(Notification::PolishSuccess.title(), "Polishing complete");
}

#[test]
fn icon_files() {
    assert_eq!(Icon::Default.file_name(), "whistle.png");
    assert_eq!(Icon::Recording.file_name(), "recording-icon.png");
    assert_eq!(Icon::Cleansing.file_name(), Icon::Transcribing.file_name());
}

#[test]
fn paste_and_undo_keystrokes() {
    let paste = EnigoCommand::PasteFromClipboard.keystrokes();
    assert_eq!(
        paste,
        vec![
            Keystroke { key: InjectedKey::Meta, direction: Direction::Press },
            Keystroke { key: InjectedKey::Char('v'), direction: Direction::Click },
            Keystroke { key: InjectedKey::Meta, direction: Direction::Release },
        ]
    );
    let undo = EnigoCommand::UndoText.keystrokes();
    assert_eq!(undo[1], Keystroke { key: InjectedKey::Char('z'), direction: Direction::Click });
}

#[test]
fn toggle_reply_steps() {
    assert_eq!(after_toggle_reply(&None), ReplyStep::ShowDefault);
    assert_eq!(after_toggle_reply(&Some(vec![])), ReplyStep::ShowRecording);
    assert_eq!(after_toggle_reply(&Some(vec![1])), ReplyStep::Transcribe);
}

#[test]
fn transcription_steps() {
    assert_eq!(
        after_transcription(false, true),
        vec![FlowStep::ShowIcon(Icon::Default), FlowStep::Notify(Notification::ApiError)]
    );
    assert_eq!(
        after_transcription(true, true),
        vec![FlowStep::ShowIcon(Icon::Default), FlowStep::WriteClipboard, FlowStep::SendPaste]
    );
    assert_eq!(
        after_transcription(true, false).last(),
        Some(&FlowStep::Notify(Notification::TranscribeSuccess))
    );
}

#[test]
fn cleanse_guard_drops_second_request() {
    let mut g = CleanseGuard::new();
    assert_eq!(g.begin(""), CleanseStart::EmptyClipboard);
    assert_eq!(g.begin("some text"), CleanseStart::Begin);
    assert!(g.is_busy());
    assert_eq!(g.begin("more text"), CleanseStart::AlreadyCleansing);
    // While a polish runs, an empty clipboard is not reported either.
    assert_eq!(g.begin(""), CleanseStart::AlreadyCleansing);
    assert!(g.is_busy());
    g.release();
    assert!(!g.is_busy());
    assert_eq!(g.begin("more text"), CleanseStart::Begin);
}

#[test]
fn cleanse_undo_comes_before_clipboard_write() {
    let steps = after_cleanse(true, true);
    assert_eq!(steps[0], FlowStep::SendUndoAndWait);
    assert_eq!(steps[1], FlowStep::WriteClipboard);
    assert_eq!(steps[2], FlowStep::SendPaste);
    assert!(steps.contains(&FlowStep::ReleaseCleanseGuard));
    let failed = after_cleanse(false, true);
    assert_eq!(failed[0], FlowStep::Notify(Notification::ApiError));
    assert!(failed.contains(&FlowStep::ReleaseCleanseGuard));
    assert!(!failed.contains(&FlowStep::WriteClipboard));
    assert_eq!(after_cleanse(true, false)[1], FlowStep::Notify(Notification::PolishSuccess));
}

#[test]
fn shortcut_slots_by_name() {
    assert_eq!(ShortcutSlot::from_name("toggle-recording"), Some(ShortcutSlot::ToggleRecording));
    assert_eq!(ShortcutSlot::from_name("cleanse-clipboard"), Some(ShortcutSlot::CleanseClipboard));
    assert_eq!(ShortcutSlot::from_name("toggle_recording"), None);
    assert_eq!(ShortcutSlot::from_name(""), None);
    assert_eq!(AssignShortcutError::InvalidName.message(), "Invalid shortcut name");
    assert_eq!(AssignShortcutError::InvalidShortcut.message(), "Invalid shortcut");
}
