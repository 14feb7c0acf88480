use vst3_host::cstring::{extract_cstring, extract_cstring_utf16};

fn field(text: &str, size: usize) -> Vec<i8> {
    let mut f: Vec<i8> = text.bytes().map(|b| b as i8).collect();
    f.resize(size, 0);
    f
}

#[test]
fn cstring_stops_at_first_nul() {
    assert_eq!(extract_cstring(&[104, 105, 0, 120, 121]), "hi");
}

#[test]
fn cstring_without_nul_takes_whole_field() {
    assert_eq!(extract_cstring(&[97, 98, 99]), "abc");
}

#[test]
fn cstring_empty_and_leading_nul() {
    assert_eq!(extract_cstring(&[]), "");
    assert_eq!(extract_cstring(&[0, 65, 66]), "");
}

#[test]
fn cstring_padded_field_round_trip() {
    assert_eq!(extract_cstring(&field("Audio Module Class", 32)), "Audio Module Class");
    let mut f = field("Surge XT", 64);
    f[20] = 33;
    assert_eq!(extract_cstring(&f), "Surge XT");
}

#[test]
fn cstring_reads_bytes_as_unsigned_utf8() {
    // "é" is 0xC3 0xA9 in UTF-8, which are negative as i8.
    assert_eq!(extract_cstring(&[0xC3u8 as i8, 0xA9u8 as i8, 0]), "é");
}

#[test]
fn cstring_replaces_invalid_utf8() {
    assert_eq!(extract_cstring(&[65, -1, 66, 0]), "A\u{FFFD}B");
}

#[test]
fn utf16_stops_at_first_nul() {
    assert_eq!(extract_cstring_utf16(&[0x4F, 0x75, 0x74, 0, 0x58]), "Out");
}

#[test]
fn utf16_without_nul_and_non_ascii() {
    assert_eq!(extract_cstring_utf16(&[0x00E9, 0x4E2D]), "é中");
    assert_eq!(extract_cstring_utf16(&[]), "");
}

#[test]
fn utf16_surrogate_pairs_and_lone_surrogates() {
    assert_eq!(extract_cstring_utf16(&[0xD83D, 0xDE00, 0]), "😀");
    assert_eq!(extract_cstring_utf16(&[0x41, 0xD800, 0x42, 0]), "A\u{FFFD}B");
}

#[test]
fn cstring_ignores_everything_after_first_nul() {
    let text: Vec<i8> = "Surge".bytes().map(|b| b as i8).collect();
    let with_tail = |tail: &[i8]| [text.as_slice(), &[0], tail].concat();
    assert_eq!(extract_cstring(&with_tail(&[65, 66])), extract_cstring(&text));
    assert_eq!(extract_cstring(&with_tail(&[-1, 0, 7])), "Surge");
    assert!(!extract_cstring(&[65, -1, -62, 66]).contains('\0'));
}

#[test]
fn utf16_round_trip_with_and_without_nul() {
    for s in ["Main Out", "Ausgang é", "🎹 Keys 😀", ""] {
        let mut v: Vec<u16> = s.encode_utf16().collect();
        assert_eq!(extract_cstring_utf16(&v), s);
        v.push(0);
        assert_eq!(extract_cstring_utf16(&v), s);
        v.extend([0xD800, 0x41, 0]);
        assert_eq!(extract_cstring_utf16(&v), s);
    }
}

#[test]
fn utf16_high_surrogate_before_plain_unit() {
    assert_eq!(extract_cstring_utf16(&[0xD800, 0x41]), "\u{FFFD}A");
    assert_eq!(extract_cstring_utf16(&[0xDC00, 0xD800]), "\u{FFFD}\u{FFFD}");
    assert!(!extract_cstring_utf16(&[0xD800, 0xDC00, 0xDFFF]).contains('\0'));
}

#[test]
fn utf8_round_trip_with_and_without_nul() {
    for s in ["Surge XT", "Ausgang é", "中文 🎹", ""] {
        let mut v: Vec<i8> = s.bytes().map(|b| b as i8).collect();
        assert_eq!(extract_cstring(&v), s);
        v.push(0);
        assert_eq!(extract_cstring(&v), s);
        v.extend([-1, 65, 0]);
        assert_eq!(extract_cstring(&v), s);
    }
}
