//! Streaming detection of a file's character encoding and conversion of its
//! bytes to canonical UTF-8.
//!
//! Detection accumulates evidence from bounded byte windows under a fixed
//! scan limit, short-circuiting on a byte-order mark; a preview of the
//! decoded text is truncated to a byte budget without ever splitting a
//! codepoint; conversion strips the verdict's mark and passes content that
//! is already canonical UTF-8 through unchanged. Reading and rewriting the
//! files, and everything interactive, live outside this crate and hand in
//! plain bytes.

use vstd::prelude::*;

pub mod bom;
pub mod codec;
pub mod convert;
pub mod detect;
pub mod preview;

verus! {

/// The failures the verified pipeline reports.
///
/// `InvalidUtf8`: bytes claimed to be canonical UTF-8 do not decode as such;
/// the file is surfaced as failing rather than silently re-decoded under a
/// fallback. `BoundaryNotFound`: no codepoint boundary exists within three
/// bytes past a requested truncation offset, which well-formed text cannot
/// produce; an internal-invariant violation kept observable rather than
/// assumed unreachable.
#[derive(Clone, Copy, PartialEq, Eq, Structural, Debug)]
pub enum RecodeError {
    InvalidUtf8,
    BoundaryNotFound,
}

impl RecodeError {
    /// A short description, for error reports at the rim of the pipeline.
    pub fn describe(&self) -> (r: &'static str) {
        match self {
            RecodeError::InvalidUtf8 => "claimed UTF-8 content is not valid UTF-8",
            RecodeError::BoundaryNotFound => "no codepoint boundary within three bytes",
        }
    }
}

} // verus!
