//! Core of a speech-recognition server: argument decoding, audio payload
//! normalisation, the transcription result model, the worker's per-job
//! decisions and the HTTP request gate.
pub mod args;
pub mod audio;
pub mod http;
pub mod result;
pub mod worker;
