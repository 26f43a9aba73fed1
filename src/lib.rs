//! Core of a voice-capture tool: the capture session that buffers and encodes
//! microphone samples, the chord detector for trigger keys, the click
//! debouncer, the media-playback flag and the serial task handler that owns
//! them.

mod wav;

pub mod audio_recorder;
pub mod clock;
pub mod debouncer;
pub mod key_state_manager;
pub mod media_manager;
pub mod notifications;
pub mod transcribe_icon;
pub mod enigo_instance;
pub mod local_task_handler;
pub mod flows;
pub mod shortcuts;
