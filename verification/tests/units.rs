use prefetch::strings::{read_sized_utf16, read_utf16_exact, read_utf16_list};
use prefetch::{ByteSource, DecodeError, PrefetchPlugin, Results, Timestamp};

fn u16s(units: &[u16]) -> Vec<u8> {
    let mut v = Vec::new();
    for u in units {
        v.extend_from_slice(&u.to_le_bytes());
    }
    v
}

#[test]
fn little_endian_reads() {
    let mut src = ByteSource::new(vec![0x78, 0x56, 0x34, 0x12, 0xAA, 0xBB]);
    assert_eq!(src.read_u32_le().unwrap(), 0x12345678);
    assert_eq!(src.read_u16_le().unwrap(), 0xBBAA);
    let mut src = ByteSource::new(vec![1, 0, 0, 0, 0, 0, 0, 0x80]);
    assert_eq!(src.read_u64_le().unwrap(), 0x8000_0000_0000_0001);
}

#[test]
fn read_past_end_is_truncated() {
    let mut src = ByteSource::new(vec![1, 2, 3]);
    assert_eq!(src.read_u32_le().unwrap_err(), DecodeError::Truncated);
    src.seek_to(100);
    assert_eq!(src.read_u16_le().unwrap_err(), DecodeError::Truncated);
    src.seek_to(1);
    assert_eq!(src.read_u16_le().unwrap(), 0x0302);
}

#[test]
fn fixed_field_cuts_at_first_null() {
    let mut bytes = u16s(&[0x41, 0x42, 0, 0xFFFF]); // "AB", null, garbage
    bytes.push(9); // a trailing odd byte inside the field is ignored
    let mut src = ByteSource::new(bytes);
    assert_eq!(read_utf16_exact(&mut src, 9).unwrap(), "AB");
}

#[test]
fn fixed_field_shorter_than_span_is_truncated() {
    let mut src = ByteSource::new(u16s(&[0x41, 0x42]));
    assert_eq!(read_utf16_exact(&mut src, 6).unwrap_err(), DecodeError::Truncated);
}

#[test]
fn sized_string_reads_its_count() {
    let mut bytes = vec![3, 0]; // three units follow
    bytes.extend(u16s(&[0x68, 0x65, 0x79, 0x7A])); // "hey" and one unit beyond
    let mut src = ByteSource::new(bytes);
    assert_eq!(read_sized_utf16(&mut src).unwrap(), "hey");
    assert_eq!(src.read_u16_le().unwrap(), 0x7A);
}

#[test]
fn sized_string_count_past_end_is_truncated() {
    let mut src = ByteSource::new(vec![9, 0, 0x41, 0]);
    assert_eq!(read_sized_utf16(&mut src).unwrap_err(), DecodeError::Truncated);
}

#[test]
fn list_without_trailing_null_keeps_last_string() {
    let mut src = ByteSource::new(u16s(&[0x61, 0, 0x62]));
    assert_eq!(read_utf16_list(&mut src, 6).unwrap(), vec!["a".to_string(), "b".to_string()]);
}

#[test]
fn list_with_consecutive_nulls_holds_an_empty_string() {
    let mut src = ByteSource::new(u16s(&[0x61, 0, 0]));
    assert_eq!(read_utf16_list(&mut src, 6).unwrap(), vec!["a".to_string(), "".to_string()]);
}

#[test]
fn list_span_with_odd_byte_ignores_it() {
    let mut src = ByteSource::new(vec![0x41, 0, 0xFF]);
    assert_eq!(read_utf16_list(&mut src, 3).unwrap(), vec!["A".to_string()]);
}

#[test]
fn list_span_past_end_is_truncated() {
    let mut src = ByteSource::new(u16s(&[0x61, 0]));
    assert_eq!(read_utf16_list(&mut src, 64).unwrap_err(), DecodeError::Truncated);
}

#[test]
fn surrogate_pair_decodes_in_list() {
    // U+1F600 as its surrogate pair, then a terminator
    let mut src = ByteSource::new(u16s(&[0xD83D, 0xDE00, 0]));
    assert_eq!(read_utf16_list(&mut src, 6).unwrap(), vec!["\u{1F600}".to_string()]);
}

#[test]
fn high_surrogate_cut_by_span_is_invalid() {
    let mut src = ByteSource::new(u16s(&[0xD83D, 0xDE00]));
    // the span ends between the two halves of the pair
    assert_eq!(read_utf16_list(&mut src, 2).unwrap_err(), DecodeError::InvalidStringEncoding);
}

#[test]
fn windows_tick_conversion_is_exact() {
    assert_eq!(
        Timestamp::from_windows_ticks(0),
        Timestamp { unix_seconds: -11_644_473_600, subsec_nanos: 0 }
    );
    assert_eq!(
        Timestamp::from_windows_ticks(131_290_827_120_000_123),
        Timestamp { unix_seconds: 1_484_609_112, subsec_nanos: 12_300 }
    );
    // one tick before a whole second
    assert_eq!(
        Timestamp::from_windows_ticks(9_999_999),
        Timestamp { unix_seconds: -11_644_473_600, subsec_nanos: 999_999_900 }
    );
    assert_eq!(
        Timestamp::from_windows_ticks(u64::MAX),
        Timestamp { unix_seconds: 1_833_029_933_770, subsec_nanos: 955_161_500 }
    );
}

#[test]
fn plugin_markers_default() {
    assert_eq!(Results::default(), Results {});
    assert_eq!(PrefetchPlugin::default(), PrefetchPlugin {});
}
