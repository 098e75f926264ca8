//! Resumable, chunked retrieval of sequencing archives: metadata lookup,
//! chunk planning, progress tracking, retry policy and checksum verification.

pub mod text;
pub mod chunk;
pub mod progress;
pub mod xml;
pub mod metadata;
pub mod records;
pub mod config;
pub mod retry;
pub mod checksum;
pub mod job;
pub mod transfer;
pub mod commands;
pub mod filters;
