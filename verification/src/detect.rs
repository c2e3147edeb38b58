use vstd::prelude::*;
use crate::bom::{Bom, bom_probe, spec_bom, spec_bom_len};
use crate::codec::{
    EncodingClass, class_of_bom, classify_encoding, encoding_of_bom, spec_class_of_bom,
    spec_encoding_of_bom,
};

verus! {

#[verifier::external_type_specification]
#[verifier::external_body]
pub struct ExEncodingDetector(chardetng::EncodingDetector);

/// The byte stream fed to a statistical detector so far: the concatenation
/// of the chunks passed to `feed`.
pub uninterp spec fn detector_fed(d: chardetng::EncodingDetector) -> Seq<u8>;

/// Whether the detector has been told that its stream ended, that is,
/// whether some chunk was fed with the end-of-stream flag set.
pub uninterp spec fn detector_done(d: chardetng::EncodingDetector) -> bool;

/// The confidence a statistical detector reports for a given fed stream and
/// end-of-stream flag. The guess is a pure function of those two alone, so
/// equal streams always yield the same confidence.
pub uninterp spec fn classifier_confident(fed: Seq<u8>, done: bool) -> bool;

/// Relies on chardetng::EncodingDetector::new: a fresh detector has been fed
/// nothing and its stream is still open.
#[verifier::external_body]
fn detector_new() -> (d: chardetng::EncodingDetector)
    ensures
        detector_fed(d) == Seq::<u8>::empty(),
        !detector_done(d),
{
    chardetng::EncodingDetector::new()
}

/// Relies on chardetng::EncodingDetector::feed: appends the chunk to the
/// byte stream under analysis; `last` marks the end of the stream, after
/// which the detector must not be fed again (it panics if it is).
#[verifier::external_body]
fn detector_feed(d: &mut chardetng::EncodingDetector, chunk: &[u8], last: bool)
    requires
        !detector_done(*old(d)),
    ensures
        detector_fed(*final(d)) == detector_fed(*old(d)) + chunk@,
        detector_done(*final(d)) == last,
{
    d.feed(chunk, last);
}

/// Relies on chardetng::EncodingDetector::guess_assess with no top-level
/// domain and UTF-8 allowed: returns the best guess for the fed stream, and
/// true when that guess is not a low-confidence fallback. The result is a
/// pure function of the fed bytes and of the end-of-stream flag.
#[verifier::external_body]
fn detector_guess(d: &chardetng::EncodingDetector) -> (r: (&'static encoding_rs::Encoding, bool))
    ensures
        r.1 == classifier_confident(detector_fed(*d), detector_done(*d)),
{
    d.guess_assess(None, true)
}

/// The verdict of encoding detection for one file.
///
/// `size` counts the bytes consumed by detection — the length of the mark
/// when detection short-circuited on a byte-order mark, the bytes fed to the
/// statistical detector otherwise. The statistical count never exceeds the
/// configured scan limit; a mark's length can, since a mark is definitional
/// evidence and is honored whatever the limit. `likely_wrong` is true when
/// the statistical guess is a low-confidence fallback; a verdict from a
/// byte-order mark is never marked likely wrong.
#[derive(Debug)]
pub struct DetectedEncoding {
    pub encoding: &'static encoding_rs::Encoding,
    pub size: usize,
    pub likely_wrong: bool,
    pub class: EncodingClass,
}

/// How many bytes of a chunk detection consumes: the whole chunk, unless the
/// scan limit would be passed.
pub open spec fn spec_take(cur: int, limit: int, len: int) -> int {
    if len <= limit - cur {
        len
    } else {
        limit - cur
    }
}

/// Streaming detection of one file's encoding under a fixed scan limit.
///
/// The caller reads the file in chunks and feeds each one while `wants_more`
/// holds; `finish` then produces the verdict. The first chunk is probed for
/// a byte-order mark; a recognized mark is definitional evidence, so it ends
/// detection at once and the statistical detector is never consulted for
/// that file.
pub struct DetectState {
    /// The opaque statistical detector being fed.
    pub det: chardetng::EncodingDetector,
    /// Bytes consumed so far; never exceeds `limit`.
    pub cur: usize,
    /// The scan limit: detection consumes at most this many bytes.
    pub limit: usize,
    /// The file's total byte size, when known; lets the final chunk be
    /// marked as ending the stream.
    pub total: Option<usize>,
    /// Whether the first chunk has been seen.
    pub started: bool,
    /// The byte-order mark found in the first chunk, with its byte length.
    pub found: Option<(Bom, usize)>,
    /// Whether the statistical detector was told its stream ended.
    pub done: bool,
}

impl DetectState {
    /// The fed byte stream, for contracts: what the statistical detector has
    /// seen so far.
    pub open spec fn fed(self) -> Seq<u8> {
        detector_fed(self.det)
    }

    pub open spec fn wf(self) -> bool {
        &&& 1 <= self.limit
        &&& self.cur <= self.limit
        &&& self.done == detector_done(self.det)
        &&& !self.started ==> self.cur == 0 && self.found is None && !self.done && self.fed()
            == Seq::<u8>::empty()
        &&& match self.found {
            Some((b, n)) => n == spec_bom_len(b),
            None => self.fed().len() == self.cur,
        }
    }

    pub open spec fn spec_wants_more(self) -> bool {
        self.found is None && self.cur < self.limit && !self.done
    }

    /// Begin detection of a file of the given total size (when known), with
    /// the given strictly positive scan limit.
    pub fn new(total: Option<usize>, limit: usize) -> (r: DetectState)
        requires
            1 <= limit,
        ensures
            r.wf(),
            r.total == total,
            r.limit == limit,
            r.cur == 0,
            !r.started,
            r.found is None,
            !r.done,
            r.fed() == Seq::<u8>::empty(),
    {
        DetectState {
            det: detector_new(),
            cur: 0,
            limit,
            total,
            started: false,
            found: None,
            done: false,
        }
    }

    /// Whether detection still wants input: no byte-order mark has decided
    /// the verdict, the scan limit is not reached, and the stream's end has
    /// not been passed to the detector.
    pub fn wants_more(&self) -> (r: bool)
        ensures
            r == self.spec_wants_more(),
    {
        self.found.is_none() && self.cur < self.limit && !self.done
    }

    /// Consume one chunk of the file.
    ///
    /// The whole first chunk is probed for a byte-order mark before the scan
    /// limit is applied: a mark is definitional evidence, so a recognized
    /// one is recorded whatever the limit, and nothing is ever fed to the
    /// statistical detector for this file. Otherwise at most `limit - cur`
    /// bytes of the chunk are fed — the scan bound governs the statistical
    /// analysis whatever the caller's chunk size — marked as ending the
    /// stream exactly when the bytes consumed reach the file's known total.
    pub fn feed_chunk(&mut self, chunk: &[u8])
        requires
            old(self).wf(),
            old(self).spec_wants_more(),
            chunk@.len() > 0,
        ensures
            final(self).wf(),
            final(self).limit == old(self).limit,
            final(self).total == old(self).total,
            final(self).started,
            ({
                let take = spec_take(old(self).cur as int, old(self).limit as int, chunk@.len() as int);
                &&& final(self).cur == old(self).cur + take
                &&& if !old(self).started && spec_bom(chunk@) is Some {
                    &&& final(self).found == Some(
                        (spec_bom(chunk@)->Some_0, spec_bom_len(spec_bom(chunk@)->Some_0) as usize),
                    )
                    &&& final(self).fed() == old(self).fed()
                    &&& final(self).done == old(self).done
                } else {
                    &&& final(self).found is None
                    &&& final(self).fed() == old(self).fed() + chunk@.take(take)
                    &&& final(self).done == (final(self).total == Some(final(self).cur))
                }
            }),
    {
        let room = self.limit - self.cur;
        let take: usize = if chunk.len() <= room {
            chunk.len()
        } else {
            room
        };
        let first = !self.started;
        self.started = true;
        self.cur = self.cur + take;
        if first {
            if let Some((b, n)) = bom_probe(chunk) {
                self.found = Some((b, n));
                return ;
            }
        }
        let fed_part = &chunk[0..take];
        proof {
            assert(fed_part@ =~= chunk@.take(take as int));
        }
        let last = match self.total {
            Some(t) => t == self.cur,
            None => false,
        };
        detector_feed(&mut self.det, fed_part, last);
        self.done = last;
    }

    /// Produce the verdict once scanning has stopped.
    ///
    /// A byte-order mark found on the first chunk decides the verdict alone:
    /// exactly the encoding the mark implies, its mark length as the
    /// consumed size, and full confidence. Otherwise the statistical
    /// detector's best guess decides, with `likely_wrong` set exactly when
    /// that guess is a low-confidence fallback, and the consumed size never
    /// exceeds the scan limit.
    pub fn finish(self) -> (r: DetectedEncoding)
        requires
            self.wf(),
        ensures
            match self.found {
                Some((b, n)) => {
                    &&& !r.likely_wrong
                    &&& r.encoding == spec_encoding_of_bom(b)
                    &&& r.class == spec_class_of_bom(b)
                    &&& r.size == n
                    &&& r.size == spec_bom_len(b)
                },
                None => {
                    &&& r.size == self.cur
                    &&& r.size <= self.limit
                    &&& r.likely_wrong == !classifier_confident(self.fed(), self.done)
                },
            },
    {
        match self.found {
            Some((b, n)) => DetectedEncoding {
                encoding: encoding_of_bom(b),
                size: n,
                likely_wrong: false,
                class: class_of_bom(b),
            },
            None => {
                let (encoding, confident) = detector_guess(&self.det);
                DetectedEncoding {
                    encoding,
                    size: self.cur,
                    likely_wrong: !confident,
                    class: classify_encoding(encoding),
                }
            },
        }
    }
}

} // verus!
