use prefetch::{ByteSource, DecodeError, Prefetch, PrefetchVersion, Timestamp};

fn ensure_len(buf: &mut Vec<u8>, n: usize) {
    while buf.len() < n {
        buf.push(0);
    }
}

fn put_bytes(buf: &mut Vec<u8>, off: usize, bytes: &[u8]) {
    ensure_len(buf, off + bytes.len());
    for (i, b) in bytes.iter().enumerate() {
        buf[off + i] = *b;
    }
}

fn put_u16(buf: &mut Vec<u8>, off: usize, v: u16) {
    put_bytes(buf, off, &v.to_le_bytes());
}

fn put_u32(buf: &mut Vec<u8>, off: usize, v: u32) {
    put_bytes(buf, off, &v.to_le_bytes());
}

fn put_u64(buf: &mut Vec<u8>, off: usize, v: u64) {
    put_bytes(buf, off, &v.to_le_bytes());
}

fn utf16le(s: &str) -> Vec<u8> {
    let mut v = Vec::new();
    for u in s.encode_utf16() {
        v.extend_from_slice(&u.to_le_bytes());
    }
    v
}

/// A complete, well-formed buffer: the execution-info fields go to the
/// offsets the caller names, so each layout generation can be exercised.
fn build_buffer(version: u32, ts_off: usize, cnt_off: usize, ticks: u64, runs: u32) -> Vec<u8> {
    let mut buf = Vec::new();
    put_u32(&mut buf, 0x0, version);
    put_bytes(&mut buf, 0x4, b"SCCA");
    put_u32(&mut buf, 0xC, 1000);
    put_bytes(&mut buf, 0x10, &utf16le("TEST.EXE"));
    ensure_len(&mut buf, 0x10 + 60);
    put_u32(&mut buf, 0x4C, 0xDEADBEEF);
    put_u32(&mut buf, 0x64, 0x100); // file-path list offset
    put_u32(&mut buf, 0x68, 36); // file-path list size in bytes
    put_u32(&mut buf, 0x6C, 0x200); // volume-information offset
    put_u64(&mut buf, ts_off, ticks);
    put_u32(&mut buf, cnt_off, runs);
    let list = [utf16le("\\C\\a.dll\0"), utf16le("\\C\\b.dll\0")].concat();
    assert_eq!(list.len(), 36);
    put_bytes(&mut buf, 0x100, &list);
    // volume record at 0x200; its offsets are relative to 0x200
    put_u32(&mut buf, 0x200, 0x60); // volume path offset
    put_u32(&mut buf, 0x204, 0); // volume path size
    put_u64(&mut buf, 0x208, 0); // volume creation time, the zero sentinel
    put_u32(&mut buf, 0x210, 0x12345678); // serial number
    put_u32(&mut buf, 0x214, 0); // auxiliary blob offset
    put_u32(&mut buf, 0x218, 0); // auxiliary blob size
    put_u32(&mut buf, 0x21C, 0x40); // folder table at 0x200 + 0x40
    put_u32(&mut buf, 0x220, 1); // one folder string
    let volume_name = "\\Device\\HarddiskVolume1";
    put_u16(&mut buf, 0x240, volume_name.encode_utf16().count() as u16);
    put_bytes(&mut buf, 0x242, &utf16le(volume_name));
    buf
}

fn decode(buf: Vec<u8>) -> Result<Prefetch, DecodeError> {
    let mut src = ByteSource::new(buf);
    Prefetch::from_file(&mut src)
}

#[test]
fn decodes_crafted_xp_buffer() {
    let p = decode(build_buffer(0x11, 0x78, 0x90, 0, 7)).unwrap();
    assert_eq!(p.header.version, PrefetchVersion::WindowsXP);
    assert_eq!(p.header.signature, "SCCA");
    assert_eq!(p.header.file_size, 1000);
    assert_eq!(p.header.file_name, "TEST.EXE");
    assert_eq!(p.header.hash, 0xDEADBEEF);
    assert_eq!(p.files, vec!["\\C\\a.dll".to_string(), "\\C\\b.dll".to_string()]);
    assert_eq!(p.volumes, vec!["\\Device\\HarddiskVolume1".to_string()]);
    assert_eq!(p.volume_information.volume_serial_number, 0x12345678);
    assert_eq!(p.volume_information.folder_path_count, 1);
    assert_eq!(p.file_information.number_of_execution(), 7);
}

#[test]
fn zero_ticks_decode_to_windows_epoch() {
    let p = decode(build_buffer(0x11, 0x78, 0x90, 0, 1)).unwrap();
    let t = p.file_information.last_execution_time();
    assert_eq!(t, Timestamp { unix_seconds: -11_644_473_600, subsec_nanos: 0 });
    assert_eq!(p.volume_information.volume_creation_date, t);
}

#[test]
fn xp_layout_reads_its_own_offsets() {
    let mut buf = build_buffer(0x11, 0x78, 0x90, 131_290_827_120_000_000, 7);
    // decoy values at the offsets of the other generations
    put_u32(&mut buf, 0x98, 1111);
    put_u32(&mut buf, 0xD0, 2222);
    let p = decode(buf).unwrap();
    assert_eq!(p.file_information.number_of_execution(), 7);
    assert_eq!(
        p.file_information.last_execution_time(),
        Timestamp { unix_seconds: 1_484_609_112, subsec_nanos: 0 }
    );
}

#[test]
fn vista_layout_reads_its_own_offsets() {
    let mut buf = build_buffer(0x17, 0x80, 0x98, 131_290_827_120_000_123, 42);
    put_u32(&mut buf, 0x90, 1111);
    put_u32(&mut buf, 0xD0, 2222);
    let p = decode(buf).unwrap();
    assert_eq!(p.header.version, PrefetchVersion::WindowsVista);
    assert_eq!(p.file_information.number_of_execution(), 42);
    assert_eq!(
        p.file_information.last_execution_time(),
        Timestamp { unix_seconds: 1_484_609_112, subsec_nanos: 12_300 }
    );
}

#[test]
fn windows8_layout_reads_its_own_offsets() {
    let mut buf = build_buffer(0x1a, 0x80, 0xD0, 0, 99);
    put_u32(&mut buf, 0x90, 1111);
    put_u32(&mut buf, 0x98, 2222);
    let p = decode(buf).unwrap();
    assert_eq!(p.header.version, PrefetchVersion::Windows8);
    assert_eq!(p.file_information.number_of_execution(), 99);
}

#[test]
fn windows10_code_is_recognized_but_unsupported() {
    let r = decode(build_buffer(0x30, 0x80, 0x98, 0, 1));
    assert_eq!(r.unwrap_err(), DecodeError::UnsupportedVersion);
}

#[test]
fn unknown_version_code_is_unsupported() {
    let mut buf = build_buffer(0x11, 0x78, 0x90, 0, 1);
    put_u32(&mut buf, 0, 0x99);
    assert_eq!(decode(buf).unwrap_err(), DecodeError::UnsupportedVersion);
}

#[test]
fn empty_buffer_is_truncated() {
    assert_eq!(decode(Vec::new()).unwrap_err(), DecodeError::Truncated);
}

#[test]
fn three_bytes_are_truncated() {
    assert_eq!(decode(vec![0x11, 0, 0]).unwrap_err(), DecodeError::Truncated);
}

#[test]
fn short_header_is_truncated() {
    // a well-formed start, cut inside the three coordinate fields
    let mut buf = build_buffer(0x11, 0x78, 0x90, 0, 1);
    buf.truncate(0x68);
    assert_eq!(decode(buf).unwrap_err(), DecodeError::Truncated);
}

#[test]
fn decoding_twice_yields_identical_records() {
    let buf = build_buffer(0x17, 0x80, 0x98, 123_456_789, 3);
    let a = decode(buf.clone()).unwrap();
    let b = decode(buf).unwrap();
    assert_eq!(a, b);
}

#[test]
fn folder_count_past_available_bytes_is_truncated() {
    let mut buf = build_buffer(0x11, 0x78, 0x90, 0, 1);
    put_u32(&mut buf, 0x220, 1000); // far more strings than the buffer holds
    assert_eq!(decode(buf).unwrap_err(), DecodeError::Truncated);
}

#[test]
fn non_utf8_signature_is_malformed() {
    let mut buf = build_buffer(0x11, 0x78, 0x90, 0, 1);
    put_bytes(&mut buf, 0x4, &[0xFF, 0xFF, 0xFF, 0xFF]);
    assert_eq!(decode(buf).unwrap_err(), DecodeError::MalformedSignature);
}

#[test]
fn lone_surrogate_in_name_is_invalid_encoding() {
    let mut buf = build_buffer(0x11, 0x78, 0x90, 0, 1);
    // a high surrogate followed by an ordinary unit, before the first null
    put_u16(&mut buf, 0x10, 0xD800);
    put_u16(&mut buf, 0x12, 0x0041);
    put_u16(&mut buf, 0x14, 0);
    assert_eq!(decode(buf).unwrap_err(), DecodeError::InvalidStringEncoding);
}

#[test]
fn lone_surrogate_in_file_list_is_invalid_encoding() {
    let mut buf = build_buffer(0x11, 0x78, 0x90, 0, 1);
    put_u16(&mut buf, 0x100, 0xDC00); // low surrogate with no lead
    assert_eq!(decode(buf).unwrap_err(), DecodeError::InvalidStringEncoding);
}

#[test]
fn surrogate_pair_in_name_decodes() {
    let mut buf = build_buffer(0x11, 0x78, 0x90, 0, 1);
    let name = "A\u{1F600}";
    let encoded = utf16le(name);
    assert_eq!(encoded.len(), 6);
    put_bytes(&mut buf, 0x10, &encoded);
    put_u16(&mut buf, 0x16, 0);
    let p = decode(buf).unwrap();
    assert_eq!(p.header.file_name, name);
}

#[test]
fn empty_path_lists_decode_to_empty_vectors() {
    let mut buf = build_buffer(0x11, 0x78, 0x90, 0, 1);
    put_u32(&mut buf, 0x68, 0); // no file-path bytes
    put_u32(&mut buf, 0x220, 0); // no folder strings
    let p = decode(buf).unwrap();
    assert!(p.files.is_empty());
    assert!(p.volumes.is_empty());
}

#[test]
fn file_list_order_and_duplicates_are_kept() {
    let mut buf = build_buffer(0x11, 0x78, 0x90, 0, 1);
    let list = [utf16le("b\0"), utf16le("a\0"), utf16le("a\0")].concat();
    put_u32(&mut buf, 0x68, list.len() as u32);
    put_bytes(&mut buf, 0x100, &list);
    let p = decode(buf).unwrap();
    assert_eq!(p.files, vec!["b".to_string(), "a".to_string(), "a".to_string()]);
}

#[test]
fn volume_offsets_are_relative_to_the_record() {
    // move the folder table: only the relative offset in the record changes
    let mut buf = build_buffer(0x11, 0x78, 0x90, 0, 1);
    put_u32(&mut buf, 0x21C, 0x80); // now at absolute 0x280
    let name = "X";
    put_u16(&mut buf, 0x280, 1);
    put_bytes(&mut buf, 0x282, &utf16le(name));
    let p = decode(buf).unwrap();
    assert_eq!(p.volumes, vec!["X".to_string()]);
}
