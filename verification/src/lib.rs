//! Backend logic of a voice-recording desktop application: the speech-to-text,
//! summarization and webhook clients, their error taxonomies and the response
//! records handed to the user interface.

mod ambient;
pub mod commands;
pub mod external_service;
pub mod file_storage;
pub mod global_hotkey;
pub mod history;
pub mod json;
pub mod settings;
pub mod summarization;
pub mod text;
pub mod transcription;
pub mod transport;
