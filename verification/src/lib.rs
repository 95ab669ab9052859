//! The logic of a dictation app: what it records, how long it keeps the recordings, how it talks
//! to the transcription services, and what it makes of their replies.

pub mod api_key;
pub mod capture;
pub mod config;
pub mod feedback;
pub mod json;
pub mod level;
pub mod live;
pub mod pcm;
pub mod realtime;
pub mod recording;
pub mod retention;
pub mod text;
pub mod transcription;
