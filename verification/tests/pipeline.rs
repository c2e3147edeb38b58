use recode::RecodeError;
use recode::bom::Bom;
use recode::codec::EncodingClass;
use recode::convert::convert_bytes;
use recode::detect::{DetectState, DetectedEncoding};
use recode::preview::{decode_preview, normalize_crlf, preview_from_decoded, take_chars};

fn detect_all(bytes: &[u8], chunk: usize, limit: usize) -> DetectedEncoding {
    let mut st = DetectState::new(Some(bytes.len()), limit);
    let mut off = 0;
    while st.wants_more() && off < bytes.len() {
        let end = (off + chunk).min(bytes.len());
        st.feed_chunk(&bytes[off..end]);
        off = end;
    }
    st.finish()
}

#[test]
fn bom_probe_recognizes_each_mark() {
    assert_eq!(recode::bom::bom_probe(&[0xef, 0xbb, 0xbf, 0x41]), Some((Bom::Utf8, 3)));
    assert_eq!(recode::bom::bom_probe(&[0xff, 0xfe, 0x41, 0x00]), Some((Bom::Utf16Le, 2)));
    assert_eq!(recode::bom::bom_probe(&[0xfe, 0xff, 0x00, 0x41]), Some((Bom::Utf16Be, 2)));
    assert_eq!(recode::bom::bom_probe(b"plain text"), None);
    assert_eq!(recode::bom::bom_probe(&[0xef, 0xbb]), None);
    assert_eq!(recode::bom::bom_probe(&[]), None);
}

#[test]
fn utf16le_mark_decides_and_converts() {
    let bytes = [0xff, 0xfe, 0x41, 0x00, 0x42, 0x00, 0x43, 0x00, 0x44, 0x00];
    let v = detect_all(&bytes, 8192, 16384);
    assert_eq!(v.class, EncodingClass::Utf16Le);
    assert!(!v.likely_wrong);
    assert_eq!(v.size, 2);
    assert_eq!(v.encoding.name(), "UTF-16LE");
    let out = convert_bytes(&v, &bytes).unwrap();
    assert_eq!(out, b"ABCD".to_vec());
}

#[test]
fn utf16be_mark_decides_and_converts() {
    let bytes = [0xfe, 0xff, 0x00, 0x41];
    let v = detect_all(&bytes, 8192, 16384);
    assert_eq!(v.class, EncodingClass::Utf16Be);
    assert!(!v.likely_wrong);
    assert_eq!(v.encoding.name(), "UTF-16BE");
    let out = convert_bytes(&v, &bytes).unwrap();
    assert_eq!(out, b"A".to_vec());
}

#[test]
fn utf8_mark_decides_and_is_stripped() {
    let mut bytes = vec![0xef, 0xbb, 0xbf];
    bytes.extend_from_slice("héllo".as_bytes());
    let v = detect_all(&bytes, 8192, 16384);
    assert_eq!(v.class, EncodingClass::Utf8);
    assert!(!v.likely_wrong);
    assert_eq!(v.size, 3);
    assert_eq!(v.encoding.name(), "UTF-8");
    let out = convert_bytes(&v, &bytes).unwrap();
    assert_eq!(out, "héllo".as_bytes().to_vec());
}

#[test]
fn mark_overrides_statistics_whatever_follows() {
    // The mark decides even when the body would be classified otherwise.
    let mut bytes = vec![0xff, 0xfe];
    bytes.extend_from_slice(&[0xe9; 100]);
    let v = detect_all(&bytes, 16, 16384);
    assert_eq!(v.class, EncodingClass::Utf16Le);
    assert!(!v.likely_wrong);
    assert_eq!(v.size, 2);
}

#[test]
fn plain_ascii_detects_confidently_and_converts_unchanged() {
    let bytes = vec![b'a'; 1000];
    let v = detect_all(&bytes, 100, 16384);
    assert!(!v.likely_wrong);
    let out = convert_bytes(&v, &bytes).unwrap();
    assert_eq!(out, bytes);
}

#[test]
fn utf8_text_detects_as_utf8() {
    let text = "héllo wörld, ŝtrange text";
    let v = detect_all(text.as_bytes(), 7, 16384);
    assert_eq!(v.encoding.name(), "UTF-8");
    assert_eq!(v.class, EncodingClass::Utf8);
    assert!(!v.likely_wrong);
    let out = convert_bytes(&v, text.as_bytes()).unwrap();
    assert_eq!(out, text.as_bytes().to_vec());
}

#[test]
fn scan_stops_at_limit() {
    let mut bytes = Vec::new();
    for i in 0..5000u32 {
        bytes.push((i % 251) as u8);
    }
    let v = detect_all(&bytes, 300, 1000);
    assert!(v.size <= 1000);
    assert_eq!(v.size, 1000);
}

#[test]
fn mark_decides_even_when_the_limit_is_smaller() {
    let bytes = [0xff, 0xfe, 0x41, 0x00];
    let v = detect_all(&bytes, 8192, 1);
    assert_eq!(v.class, EncodingClass::Utf16Le);
    assert!(!v.likely_wrong);
    assert_eq!(v.size, 2);
    assert_eq!(v.encoding.name(), "UTF-16LE");
}

#[test]
fn unknown_total_never_marks_the_stream_final() {
    let mut st = DetectState::new(None, 16384);
    st.feed_chunk(b"hello");
    assert!(st.wants_more());
    let v = st.finish();
    assert_eq!(v.size, 5);
}

#[test]
fn empty_file_yields_deterministic_default() {
    let a = detect_all(&[], 8192, 16384);
    let b = detect_all(&[], 8192, 16384);
    assert_eq!(a.size, 0);
    assert_eq!(a.encoding.name(), b.encoding.name());
    assert_eq!(a.likely_wrong, b.likely_wrong);
    assert_eq!(a.class, b.class);
}

#[test]
fn converting_clean_utf8_twice_is_identity() {
    let v = DetectedEncoding {
        encoding: encoding_rs::UTF_8,
        size: 0,
        likely_wrong: false,
        class: EncodingClass::Utf8,
    };
    let bytes = "plain UTF-8, no mark: é ü ñ".as_bytes();
    let once = convert_bytes(&v, bytes).unwrap();
    assert_eq!(once, bytes.to_vec());
    let twice = convert_bytes(&v, &once).unwrap();
    assert_eq!(twice, once);
}

#[test]
fn invalid_utf8_is_surfaced_not_replaced() {
    let v = DetectedEncoding {
        encoding: encoding_rs::UTF_8,
        size: 0,
        likely_wrong: false,
        class: EncodingClass::Utf8,
    };
    let bytes = [0x61, 0xc3, 0x28];
    assert_eq!(convert_bytes(&v, &bytes), Err(RecodeError::InvalidUtf8));
}

#[test]
fn legacy_encoding_round_trips_to_original_text() {
    let v = DetectedEncoding {
        encoding: encoding_rs::WINDOWS_1252,
        size: 5,
        likely_wrong: false,
        class: EncodingClass::Other,
    };
    let bytes = [0x68, 0xe9, 0x6c, 0x6c, 0x6f];
    let out = convert_bytes(&v, &bytes).unwrap();
    assert_eq!(out, "héllo".as_bytes().to_vec());
}

#[test]
fn take_chars_respects_codepoint_boundaries() {
    // "hé": a budget inside the two-byte codepoint extends forward to 3.
    let he = [0x68, 0xc3, 0xa9];
    assert_eq!(take_chars(&he, 2).unwrap(), &he[..]);
    // "héllo": byte 5 is already a boundary, so the prefix is exact.
    let hello = "héllo".as_bytes();
    assert_eq!(hello.len(), 6);
    assert_eq!(take_chars(hello, 5).unwrap(), &hello[..5]);
    // "hellé": a budget of 5 lands inside 'é', so the slice is 6 bytes.
    let helle = "hellé".as_bytes();
    assert_eq!(take_chars(helle, 5).unwrap().len(), 6);
    // A budget past the end returns the whole text.
    assert_eq!(take_chars(hello, 100).unwrap(), hello);
    assert_eq!(take_chars(&[], 0).unwrap(), &[] as &[u8]);
}

#[test]
fn take_chars_reports_missing_boundary() {
    let bad = [0x61, 0x80, 0x81, 0x82, 0x83, 0x62];
    assert_eq!(take_chars(&bad, 1), Err(RecodeError::BoundaryNotFound));
}

#[test]
fn crlf_collapses_to_lf() {
    assert_eq!(normalize_crlf(b"a\r\nb\r\nc"), b"a\nb\nc".to_vec());
    assert_eq!(normalize_crlf(b"\r\n"), b"\n".to_vec());
    assert_eq!(normalize_crlf(b"\r\r\n"), b"\r\n".to_vec());
    assert_eq!(normalize_crlf(b"no terminators"), b"no terminators".to_vec());
    assert_eq!(normalize_crlf(b""), Vec::<u8>::new());
}

#[test]
fn preview_normalizes_then_truncates() {
    let p = preview_from_decoded(b"a\r\nb\r\nc", 100).unwrap();
    assert_eq!(p, b"a\nb\nc".to_vec());
    let q = preview_from_decoded("hellé and more".as_bytes(), 5).unwrap();
    assert_eq!(q, "hellé".as_bytes().to_vec());
    assert_eq!(q.len(), 6);
}

#[test]
fn preview_decodes_under_the_verdict_encoding() {
    let raw = [0xe9, 0x0d, 0x0a, 0x61];
    let decoded = decode_preview(encoding_rs::WINDOWS_1252, &raw);
    assert_eq!(decoded, "é\r\na".as_bytes().to_vec());
    let p = preview_from_decoded(&decoded, 100).unwrap();
    assert_eq!(p, "é\na".as_bytes().to_vec());
}

#[test]
fn errors_describe_themselves() {
    assert!(!RecodeError::InvalidUtf8.describe().is_empty());
    assert!(!RecodeError::BoundaryNotFound.describe().is_empty());
}
