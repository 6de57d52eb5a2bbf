//! A word-, line-, and byte-counting library in the tradition of `wc`.
//!
//! The counters work on a raw byte buffer: a line is a newline-terminated
//! segment (a non-empty final segment with no newline still counts), a word
//! is a maximal run of bytes that are neither space nor newline, and the
//! byte count is the buffer's exact length. Around the counters stand the
//! row formatter and the per-file driver step that accumulates totals.

pub mod counts;
pub mod driver;
pub mod output;
