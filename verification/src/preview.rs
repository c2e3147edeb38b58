use vstd::prelude::*;
use crate::RecodeError;
use crate::codec::{decode_without_bom, decoded_of, is_continuation, no_four_continuations};

verus! {

/// A codepoint boundary in UTF-8 bytes: the start, the end, or any offset
/// whose byte is not a continuation byte. Slicing must never land strictly
/// inside a multi-byte codepoint, that is, on a continuation byte.
pub open spec fn is_boundary(s: Seq<u8>, i: int) -> bool {
    i == 0 || i == s.len() || (0 < i < s.len() && !is_continuation(s[i]))
}

fn at_boundary(s: &[u8], i: usize) -> (r: bool)
    requires
        i <= s@.len(),
    ensures
        r == is_boundary(s@, i as int),
{
    i == 0 || i == s.len() || !(0x80 <= s[i] && s[i] <= 0xbf)
}

/// Truncate UTF-8 text to a byte budget without splitting a codepoint.
///
/// Returns the prefix whose length is the least codepoint boundary at or
/// after `i` — at most three bytes past it, since a codepoint is at most
/// four bytes long — or the whole text when the budget covers it. When no
/// boundary lies within three bytes, the bytes are not well-formed UTF-8 and
/// the internal-invariant failure is reported rather than assumed
/// unreachable.
pub fn take_chars(s: &[u8], i: usize) -> (r: Result<&[u8], RecodeError>)
    ensures
        match r {
            Ok(p) => if i >= s@.len() {
                p@ == s@
            } else {
                &&& i <= p@.len() <= i + 3
                &&& p@.len() <= s@.len()
                &&& p@ == s@.take(p@.len() as int)
                &&& is_boundary(s@, p@.len() as int)
                &&& forall|j: int| i <= j < p@.len() ==> !is_boundary(s@, j)
            },
            Err(e) => {
                &&& e == RecodeError::BoundaryNotFound
                &&& i < s@.len()
                &&& forall|j: int| i <= j <= i + 3 ==> !is_boundary(s@, j)
            },
        },
        no_four_continuations(s@) ==> r is Ok,
{
    if i >= s.len() {
        proof {
            assert(s@.take(s@.len() as int) =~= s@);
        }
        return Ok(s);
    }
    if at_boundary(s, i) {
        return Ok(&s[0..i]);
    }
    if at_boundary(s, i + 1) {
        return Ok(&s[0..i + 1]);
    }
    if at_boundary(s, i + 2) {
        return Ok(&s[0..i + 2]);
    }
    if at_boundary(s, i + 3) {
        return Ok(&s[0..i + 3]);
    }
    proof {
        assert(is_continuation(s@[i as int]));
        assert(is_continuation(s@[i as int + 1]));
        assert(is_continuation(s@[i as int + 2]));
        assert(is_continuation(s@[i as int + 3]));
        assert(i as int + 4 <= s@.len());
        assert(!no_four_continuations(s@));
    }
    Err(RecodeError::BoundaryNotFound)
}

/// Line-terminator normalization: each CRLF pair becomes a lone LF, so a
/// preview's apparent length is stable across platforms. Scans left to
/// right; a CR not followed by LF is kept.
pub open spec fn spec_normalize_crlf(s: Seq<u8>) -> Seq<u8>
    decreases s.len(),
{
    if s.len() == 0 {
        Seq::empty()
    } else if s.len() >= 2 && s[0] == 0x0d && s[1] == 0x0a {
        seq![0x0au8] + spec_normalize_crlf(s.skip(2))
    } else {
        seq![s[0]] + spec_normalize_crlf(s.skip(1))
    }
}

pub fn normalize_crlf(s: &[u8]) -> (r: Vec<u8>)
    ensures
        r@ == spec_normalize_crlf(s@),
{
    let mut out: Vec<u8> = Vec::new();
    let mut i: usize = 0;
    proof {
        assert(s@.skip(0) =~= s@);
        assert(out@ + spec_normalize_crlf(s@) =~= spec_normalize_crlf(s@));
    }
    while i < s.len()
        invariant
            i <= s@.len(),
            spec_normalize_crlf(s@) == out@ + spec_normalize_crlf(s@.skip(i as int)),
        decreases s@.len() - i,
    {
        let ghost pre = out@;
        let ghost rest = s@.skip(i as int);
        if s[i] == 0x0d && i + 1 < s.len() && s[i + 1] == 0x0a {
            out.push(0x0a);
            proof {
                assert(rest[0] == 0x0d && rest[1] == 0x0a);
                assert(rest.skip(2) =~= s@.skip(i as int + 2));
                assert(spec_normalize_crlf(rest) == seq![0x0au8] + spec_normalize_crlf(
                    s@.skip(i as int + 2),
                ));
                assert(out@ + spec_normalize_crlf(s@.skip(i as int + 2)) =~= pre
                    + spec_normalize_crlf(rest));
            }
            i = i + 2;
        } else {
            out.push(s[i]);
            proof {
                assert(rest[0] == s@[i as int]);
                assert(rest.skip(1) =~= s@.skip(i as int + 1));
                assert(spec_normalize_crlf(rest) == seq![s@[i as int]] + spec_normalize_crlf(
                    s@.skip(i as int + 1),
                ));
                assert(out@ + spec_normalize_crlf(s@.skip(i as int + 1)) =~= pre
                    + spec_normalize_crlf(rest));
            }
            i = i + 1;
        }
    }
    proof {
        assert(s@.skip(s@.len() as int) =~= Seq::<u8>::empty());
        assert(out@ + Seq::<u8>::empty() =~= out@);
    }
    out
}

/// The first `m` bytes exist and are all continuation bytes.
pub open spec fn all_cont(s: Seq<u8>, m: int) -> bool {
    m <= s.len() && forall|j: int| 0 <= j < m ==> is_continuation(#[trigger] s[j])
}

proof fn lemma_no_four_skip(s: Seq<u8>, k: int)
    requires
        no_four_continuations(s),
        0 <= k <= s.len(),
    ensures
        no_four_continuations(s.skip(k)),
{
    let t = s.skip(k);
    assert forall|j: int| 0 <= j && j + 4 <= t.len() implies !(is_continuation(#[trigger] t[j])
        && is_continuation(t[j + 1]) && is_continuation(t[j + 2]) && is_continuation(
        t[j + 3],
    )) by {
        assert(t[j] == s[j + k] && t[j + 1] == s[j + k + 1] && t[j + 2] == s[j + k + 2] && t[j + 3]
            == s[j + k + 3]);
        assert(!(is_continuation(s[j + k]) && is_continuation(s[j + k + 1]) && is_continuation(
            s[j + k + 2],
        ) && is_continuation(s[j + k + 3])));
    }
}

/// Normalizing line terminators keeps text free of four consecutive
/// continuation bytes: removing a CR that precedes an LF never brings
/// continuation bytes together, since LF is not one.
pub proof fn lemma_normalize_keeps_no_four(s: Seq<u8>)
    requires
        no_four_continuations(s),
    ensures
        no_four_continuations(spec_normalize_crlf(s)),
        forall|m: int| 0 <= m <= 3 && all_cont(spec_normalize_crlf(s), m) ==> all_cont(s, m),
    decreases s.len(),
{
    let n = spec_normalize_crlf(s);
    if s.len() == 0 {
        assert(forall|m: int| 0 <= m <= 3 && all_cont(n, m) ==> all_cont(s, m));
    } else if s.len() >= 2 && s[0] == 0x0d && s[1] == 0x0a {
        let t = s.skip(2);
        lemma_no_four_skip(s, 2);
        lemma_normalize_keeps_no_four(t);
        let nt = spec_normalize_crlf(t);
        assert(n == seq![0x0au8] + nt);
        assert(n[0] == 0x0a);
        assert(!is_continuation(n[0]));
        assert forall|j: int| 0 <= j && j + 4 <= n.len() implies !(is_continuation(#[trigger] n[j])
            && is_continuation(n[j + 1]) && is_continuation(n[j + 2]) && is_continuation(
            n[j + 3],
        )) by {
            if j >= 1 {
                assert(n[j] == nt[j - 1] && n[j + 1] == nt[j] && n[j + 2] == nt[j + 1] && n[j + 3]
                    == nt[j + 2]);
                assert(!(is_continuation(nt[j - 1]) && is_continuation(nt[j]) && is_continuation(
                    nt[j + 1],
                ) && is_continuation(nt[j + 2])));
            }
        }
        assert forall|m: int| 0 <= m <= 3 && all_cont(n, m) implies all_cont(s, m) by {
            if m >= 1 {
                assert(is_continuation(n[0]));
            }
        }
    } else {
        let t = s.skip(1);
        lemma_no_four_skip(s, 1);
        lemma_normalize_keeps_no_four(t);
        let nt = spec_normalize_crlf(t);
        assert(n == seq![s[0]] + nt);
        assert(n[0] == s[0]);
        assert forall|j: int| 0 <= j && j + 4 <= n.len() implies !(is_continuation(#[trigger] n[j])
            && is_continuation(n[j + 1]) && is_continuation(n[j + 2]) && is_continuation(
            n[j + 3],
        )) by {
            if j >= 1 {
                assert(n[j] == nt[j - 1] && n[j + 1] == nt[j] && n[j + 2] == nt[j + 1] && n[j + 3]
                    == nt[j + 2]);
                assert(!(is_continuation(nt[j - 1]) && is_continuation(nt[j]) && is_continuation(
                    nt[j + 1],
                ) && is_continuation(nt[j + 2])));
            } else {
                if is_continuation(n[0]) && is_continuation(n[1]) && is_continuation(n[2])
                    && is_continuation(n[3]) {
                    assert(n[1] == nt[0] && n[2] == nt[1] && n[3] == nt[2]);
                    assert(all_cont(nt, 3));
                    assert(all_cont(t, 3));
                    assert(t[0] == s[1] && t[1] == s[2] && t[2] == s[3]);
                    assert(is_continuation(s[0]) && is_continuation(s[1]) && is_continuation(s[2])
                        && is_continuation(s[3]));
                    assert(false);
                }
            }
        }
        assert forall|m: int| 0 <= m <= 3 && all_cont(n, m) implies all_cont(s, m) by {
            if m >= 1 {
                assert(is_continuation(s[0]));
                assert(all_cont(nt, m - 1)) by {
                    assert(forall|j: int| 0 <= j < m - 1 ==> nt[j] == n[j + 1]);
                }
                assert(all_cont(t, m - 1));
                assert(forall|j: int| 1 <= j < m ==> s[j] == t[j - 1]);
            }
        }
    }
}

/// Build the preview of one file from its decoded leading window.
///
/// Normalizes line terminators, then truncates to the byte budget at the
/// least codepoint boundary at or after it. Fails only when the normalized
/// bytes offer no boundary within three bytes of the budget, which
/// well-formed UTF-8 cannot produce.
pub fn preview_from_decoded(decoded: &[u8], budget: usize) -> (r: Result<Vec<u8>, RecodeError>)
    ensures
        ({
            let n = spec_normalize_crlf(decoded@);
            match r {
                Ok(p) => if budget >= n.len() {
                    p@ == n
                } else {
                    &&& budget <= p@.len() <= budget + 3
                    &&& p@ == n.take(p@.len() as int)
                    &&& is_boundary(n, p@.len() as int)
                    &&& forall|j: int| budget <= j < p@.len() ==> !is_boundary(n, j)
                },
                Err(e) => {
                    &&& e == RecodeError::BoundaryNotFound
                    &&& budget < n.len()
                    &&& forall|j: int| budget <= j <= budget + 3 ==> !is_boundary(n, j)
                },
            }
        }),
        no_four_continuations(decoded@) ==> r is Ok,
{
    proof {
        if no_four_continuations(decoded@) {
            lemma_normalize_keeps_no_four(decoded@);
        }
    }
    let norm = normalize_crlf(decoded);
    match take_chars(norm.as_slice(), budget) {
        Ok(p) => Ok(vstd::slice::slice_to_vec(p)),
        Err(e) => Err(e),
    }
}

/// Decode one file's leading window under the detected encoding, for the
/// preview. Malformed sequences become U+FFFD; the result is the decoded
/// text's UTF-8 bytes.
pub fn decode_preview(encoding: &'static encoding_rs::Encoding, raw: &[u8]) -> (r: Vec<u8>)
    ensures
        r@ == decoded_of(encoding, raw@),
        no_four_continuations(r@),
{
    decode_without_bom(encoding, raw)
}

} // verus!
