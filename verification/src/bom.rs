use vstd::prelude::*;

verus! {

/// A byte-order mark recognized at the start of a file.
///
/// A mark is definitional evidence for its encoding: when one is found,
/// detection short-circuits and no statistical analysis is consulted.
#[derive(Clone, Copy, PartialEq, Eq, Structural, Debug)]
pub enum Bom {
    Utf8,
    Utf16Le,
    Utf16Be,
}

/// The byte length of each recognized mark.
pub open spec fn spec_bom_len(b: Bom) -> int {
    match b {
        Bom::Utf8 => 3,
        Bom::Utf16Le => 2,
        Bom::Utf16Be => 2,
    }
}

/// Which byte-order mark, if any, the given bytes begin with.
///
/// The three recognized marks start with distinct first bytes, so at most
/// one can match.
pub open spec fn spec_bom(bytes: Seq<u8>) -> Option<Bom> {
    if bytes.len() >= 3 && bytes[0] == 0xef && bytes[1] == 0xbb && bytes[2] == 0xbf {
        Some(Bom::Utf8)
    } else if bytes.len() >= 2 && bytes[0] == 0xff && bytes[1] == 0xfe {
        Some(Bom::Utf16Le)
    } else if bytes.len() >= 2 && bytes[0] == 0xfe && bytes[1] == 0xff {
        Some(Bom::Utf16Be)
    } else {
        None
    }
}

/// Inspect the first bytes of a file for a recognized byte-order mark.
///
/// Returns the mark and its byte length, or `None` when the bytes do not
/// begin with a recognized mark.
pub fn bom_probe(chunk: &[u8]) -> (r: Option<(Bom, usize)>)
    ensures
        match r {
            Some((b, n)) => spec_bom(chunk@) == Some(b) && n == spec_bom_len(b),
            None => spec_bom(chunk@) is None,
        },
{
    if chunk.len() >= 3 && chunk[0] == 0xef && chunk[1] == 0xbb && chunk[2] == 0xbf {
        Some((Bom::Utf8, 3))
    } else if chunk.len() >= 2 && chunk[0] == 0xff && chunk[1] == 0xfe {
        Some((Bom::Utf16Le, 2))
    } else if chunk.len() >= 2 && chunk[0] == 0xfe && chunk[1] == 0xff {
        Some((Bom::Utf16Be, 2))
    } else {
        None
    }
}

} // verus!
