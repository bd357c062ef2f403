//! Per-user text-to-speech configuration: validated option schemas for two
//! TTS engines, a token builder that turns `key=value` command arguments into
//! a checked schema instance, and a cached per-user option store whose cache
//! only ever reflects durably persisted writes.

pub mod option_builder;
pub mod option_storage;
pub mod text;
pub mod tts;

pub use option_builder::{build_voice_text_options, build_voice_vox_options, BuildError};
pub use option_storage::{OptionStorage, StorageError};
