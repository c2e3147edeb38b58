use vstd::prelude::*;
use crate::bom::Bom;

verus! {

#[verifier::external_type_specification]
#[verifier::external_body]
pub struct ExEncoding(encoding_rs::Encoding);

/// The identity of a detected encoding, as far as the verified logic needs
/// it: the canonical target, the two mark-bearing UTF-16 variants, or any
/// other member of the encoding registry.
#[derive(Clone, Copy, PartialEq, Eq, Structural, Debug)]
pub enum EncodingClass {
    Utf8,
    Utf16Le,
    Utf16Be,
    Other,
}

/// The class of the encoding implied by a byte-order mark.
pub open spec fn spec_class_of_bom(b: Bom) -> EncodingClass {
    match b {
        Bom::Utf8 => EncodingClass::Utf8,
        Bom::Utf16Le => EncodingClass::Utf16Le,
        Bom::Utf16Be => EncodingClass::Utf16Be,
    }
}

pub fn class_of_bom(b: Bom) -> (c: EncodingClass)
    ensures
        c == spec_class_of_bom(b),
{
    match b {
        Bom::Utf8 => EncodingClass::Utf8,
        Bom::Utf16Le => EncodingClass::Utf16Le,
        Bom::Utf16Be => EncodingClass::Utf16Be,
    }
}

/// A UTF-8 continuation byte: the second to fourth byte of a multi-byte
/// codepoint. A byte offset inside a well-formed UTF-8 string is a codepoint
/// boundary exactly when the byte there is not a continuation byte.
pub open spec fn is_continuation(b: u8) -> bool {
    0x80 <= b <= 0xbf
}

/// No four consecutive continuation bytes occur. Every well-formed UTF-8
/// byte string satisfies this, since a codepoint is at most four bytes long:
/// one lead byte followed by at most three continuation bytes.
pub open spec fn no_four_continuations(s: Seq<u8>) -> bool {
    forall|j: int|
        0 <= j && j + 4 <= s.len() ==> !(is_continuation(#[trigger] s[j]) && is_continuation(
            s[j + 1],
        ) && is_continuation(s[j + 2]) && is_continuation(s[j + 3]))
}

/// Whether a byte string is well-formed UTF-8, as `core::str::from_utf8`
/// decides it.
pub uninterp spec fn utf8_ok(s: Seq<u8>) -> bool;

/// Relies on core::str::from_utf8: it returns `Ok` exactly when the bytes
/// are well-formed UTF-8, and well-formed UTF-8 never holds four consecutive
/// continuation bytes.
#[verifier::external_body]
pub(crate) fn utf8_check(bytes: &[u8]) -> (r: bool)
    ensures
        r == utf8_ok(bytes@),
        r ==> no_four_continuations(bytes@),
{
    core::str::from_utf8(bytes).is_ok()
}

/// The encoding implied by each recognized byte-order mark: the value
/// `encoding_of_bom` returns for it.
pub uninterp spec fn spec_encoding_of_bom(b: Bom) -> &'static encoding_rs::Encoding;

/// Relies on encoding_rs's statics UTF_8, UTF_16LE and UTF_16BE: each
/// supported encoding exists as a unique static, and these three are the
/// encodings implied by the recognized byte-order marks.
#[verifier::external_body]
pub(crate) fn encoding_of_bom(b: Bom) -> (r: &'static encoding_rs::Encoding)
    ensures
        r == spec_encoding_of_bom(b),
{
    match b {
        Bom::Utf8 => encoding_rs::UTF_8,
        Bom::Utf16Le => encoding_rs::UTF_16LE,
        Bom::Utf16Be => encoding_rs::UTF_16BE,
    }
}

/// Relies on encoding_rs's statics UTF_8, UTF_16LE and UTF_16BE, and on
/// `Encoding`'s equality, which compares the identity of those statics: tells
/// the canonical target and the mark-bearing variants apart from the rest of
/// the registry.
#[verifier::external_body]
pub(crate) fn classify_encoding(e: &'static encoding_rs::Encoding) -> EncodingClass {
    if e == encoding_rs::UTF_8 {
        EncodingClass::Utf8
    } else if e == encoding_rs::UTF_16LE {
        EncodingClass::Utf16Le
    } else if e == encoding_rs::UTF_16BE {
        EncodingClass::Utf16Be
    } else {
        EncodingClass::Other
    }
}

/// The text that decoding a byte sequence under an encoding yields, given as
/// UTF-8 bytes: `Encoding::decode_without_bom_handling`'s result, a pure
/// function of the encoding and the bytes.
pub uninterp spec fn decoded_of(encoding: &'static encoding_rs::Encoding, s: Seq<u8>) -> Seq<u8>;

/// Relies on encoding_rs::Encoding::decode_without_bom_handling: decodes the
/// bytes under the given encoding, substituting U+FFFD for malformed
/// sequences, never failing, a pure function of its arguments. The decoded
/// text is returned as its UTF-8 bytes; being a well-formed UTF-8 string, it
/// never holds four consecutive continuation bytes.
#[verifier::external_body]
pub(crate) fn decode_without_bom(encoding: &'static encoding_rs::Encoding, bytes: &[u8]) -> (r: Vec<
    u8,
>)
    ensures
        r@ == decoded_of(encoding, bytes@),
        no_four_continuations(r@),
{
    let (text, _) = encoding.decode_without_bom_handling(bytes);
    text.into_owned().into_bytes()
}

} // verus!
