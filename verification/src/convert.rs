use vstd::prelude::*;
use crate::RecodeError;
use crate::bom::{bom_probe, spec_bom, spec_bom_len};
use crate::codec::{
    EncodingClass, class_of_bom, decode_without_bom, decoded_of, no_four_continuations,
    spec_class_of_bom, utf8_check, utf8_ok,
};
use crate::detect::DetectedEncoding;

verus! {

/// The bytes of a file with its byte-order mark removed, when the file
/// begins with the mark of the given encoding class; otherwise the bytes
/// unchanged. A mark of some other encoding is left in place: the verdict's
/// encoding decides which mark is definitional for this file.
pub open spec fn spec_strip_bom(c: EncodingClass, s: Seq<u8>) -> Seq<u8> {
    match spec_bom(s) {
        Some(b) => if spec_class_of_bom(b) == c {
            s.skip(spec_bom_len(b))
        } else {
            s
        },
        None => s,
    }
}

/// What converting bytes already claimed to be canonical UTF-8 yields: the
/// bytes with a leading mark stripped, passed through unchanged — provided
/// they are well-formed UTF-8; `None` when they are not.
pub open spec fn spec_convert_utf8(s: Seq<u8>) -> Option<Seq<u8>> {
    let stripped = spec_strip_bom(EncodingClass::Utf8, s);
    if utf8_ok(stripped) {
        Some(stripped)
    } else {
        None
    }
}

pub fn strip_bom_prefix<'a>(class: EncodingClass, bytes: &'a [u8]) -> (r: &'a [u8])
    ensures
        r@ == spec_strip_bom(class, bytes@),
{
    match bom_probe(bytes) {
        Some((b, n)) => {
            if class_of_bom(b) == class {
                let r = &bytes[n..bytes.len()];
                proof {
                    assert(r@ =~= bytes@.skip(n as int));
                }
                r
            } else {
                bytes
            }
        },
        None => bytes,
    }
}

/// Rewrite one file's bytes in the canonical encoding, under its verdict.
///
/// The verdict's byte-order mark, if the bytes begin with it, is stripped.
/// Content already in the canonical encoding passes through unchanged, but
/// must actually be well-formed UTF-8: malformed content is surfaced as
/// `InvalidUtf8`, never silently re-decoded under a fallback. Any other
/// encoding is decoded to the canonical one, malformed sequences becoming
/// U+FFFD, which never fails.
pub fn convert_bytes(det: &DetectedEncoding, bytes: &[u8]) -> (r: Result<Vec<u8>, RecodeError>)
    ensures
        det.class == EncodingClass::Utf8 ==> match r {
            Ok(v) => spec_convert_utf8(bytes@) == Some(v@),
            Err(e) => spec_convert_utf8(bytes@) is None && e == RecodeError::InvalidUtf8,
        },
        det.class != EncodingClass::Utf8 ==> {
            &&& r is Ok
            &&& r->Ok_0@ == decoded_of(det.encoding, spec_strip_bom(det.class, bytes@))
            &&& no_four_continuations(r->Ok_0@)
        },
{
    let stripped = strip_bom_prefix(det.class, bytes);
    if det.class == EncodingClass::Utf8 {
        if utf8_check(stripped) {
            Ok(vstd::slice::slice_to_vec(stripped))
        } else {
            Err(RecodeError::InvalidUtf8)
        }
    } else {
        Ok(decode_without_bom(det.encoding, stripped))
    }
}

/// Converting a file already encoded as canonical UTF-8 with no byte-order
/// mark passes its bytes through unchanged, so converting the result again
/// yields the same bytes: conversion is idempotent on such files.
pub proof fn lemma_convert_utf8_idempotent(s: Seq<u8>)
    requires
        spec_bom(s) is None,
        utf8_ok(s),
    ensures
        spec_convert_utf8(s) == Some(s),
        spec_convert_utf8(spec_convert_utf8(s)->Some_0) == Some(s),
{
    assert(spec_strip_bom(EncodingClass::Utf8, s) == s);
}

} // verus!
