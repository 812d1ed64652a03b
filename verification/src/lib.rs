//! Reader-side sample pipeline of a DDS participant: turns raw cache changes
//! observed on a topic into typed, deduplicated samples, with reliability-aware
//! read pointers, key-hash tracking for disposes, and a pollable take interface.

pub mod cache;
pub mod dispatch;
pub mod channels;
pub mod error;
pub mod ids;
pub mod keys;
pub mod laws;
pub mod maps;
pub mod no_key;
pub mod operator_host;
pub mod participant;
pub mod paths;
pub mod reader;
pub mod readstate;
pub mod word_sample;
