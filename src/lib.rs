//! Upload ingestion and audio decoding for the song key shifting service.
//!
//! The library decides where an uploaded file is stored, decodes stored
//! 16-bit PCM WAV data into samples, and keeps the session record of the
//! most recently loaded artifact. Reading and writing files is left to the
//! caller, which hands the library plain values.
pub mod settings;
pub mod songbites;
pub mod storage;
pub mod upload;
pub mod wav;
