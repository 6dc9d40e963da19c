//! Text-to-speech and speech-to-text requests for a cloud speech service:
//! the voices, the request bodies, the upload content type, the status rule
//! and the decisions of one run, with their contracts.

pub mod json;
pub mod request;
pub mod session;
pub mod status;
pub mod upload;
pub mod voice;

pub use json::json_string;
pub use request::{
    bearer, speech_body, SPEECH_URL, TRANSCRIPTION_FORMAT, TRANSCRIPTION_MODEL, TRANSCRIPTION_URL,
};
pub use session::{Action, Command, Event, RunError, Session, Stage};
pub use status::is_failure_status;
pub use upload::{content_type_for, content_type_from_guess};
pub use voice::Voice;
