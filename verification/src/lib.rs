//! Core logic of a live media stream router.
//!
//! Decoded media units (video key/delta frames, audio frames) arrive from an
//! upstream camera-protocol decoder.  This crate classifies each unit's
//! codec, decides when the serving pipeline must be rebuilt, produces the
//! textual pipeline description for the external pipeline executor, retains
//! the last key frame for the freeze-frame fallback, and computes the
//! per-path access rules.  The executor itself (element instantiation, RTSP
//! transport, network I/O) is outside this crate; the surrounding glue hands
//! it the strings, byte buffers and rules this crate produces.

pub mod format;
pub mod pipeline;
pub mod selector;
pub mod access;
pub mod sink;
pub mod laws;
