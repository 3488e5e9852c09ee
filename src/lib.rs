//! Pacing and resumable streaming for a one-word-at-a-time speed reader.
//!
//! The library decides what a reading session shows and how long each word
//! stays on screen; reading the file, printing and sleeping are left to the
//! caller.

pub mod classify;
pub mod config;
pub mod pacer;
pub mod tokenize;
pub mod session;
