use theaterd::proxy::compress_volume;
use theaterd::proxy::inspect_frame;
use theaterd::proxy::frame_fits;
use theaterd::proxy::frame_kind;
use theaterd::proxy::get_json_val;
use theaterd::proxy::parse_decimal;
use theaterd::proxy::parse_frame_header;
use theaterd::proxy::settings_muted;
use theaterd::proxy::settings_volume;
use theaterd::proxy::ActivityTracker;
use theaterd::proxy::FrameKind;
use theaterd::proxy::HEADER_LEN;

#[test]
fn frame_kinds_classify() {
    assert_eq!(frame_kind(1), FrameKind::CodecHeader);
    assert_eq!(frame_kind(2), FrameKind::WireChunk);
    assert_eq!(frame_kind(3), FrameKind::ServerSettings);
    assert_eq!(frame_kind(4), FrameKind::Time);
    assert_eq!(frame_kind(0), FrameKind::Other);
    assert_eq!(frame_kind(7), FrameKind::Other);
}

fn header(typ: u16, len: u32) -> Vec<u8> {
    let mut h = vec![0u8; HEADER_LEN];
    h[0] = (typ & 0xff) as u8;
    h[1] = (typ >> 8) as u8;
    h[22] = (len & 0xff) as u8;
    h[23] = ((len >> 8) & 0xff) as u8;
    h[24] = ((len >> 16) & 0xff) as u8;
    h[25] = ((len >> 24) & 0xff) as u8;
    h
}

#[test]
fn header_fields_decode_little_endian() {
    let h = header(3, 0x0102_0304);
    let parsed = parse_frame_header(&h);
    assert_eq!(parsed.typ, 3);
    assert_eq!(parsed.len, 0x0102_0304);
}

#[test]
fn oversized_frame_is_rejected() {
    // the receive buffer of the forwarding loop holds 17 KiB
    let cap = 1024 * 17;
    let h = header(2, 65536);
    let parsed = parse_frame_header(&h);
    assert!(!frame_fits(parsed.len, cap));
    // the largest payload that still fits
    assert!(frame_fits((cap - HEADER_LEN) as u32, cap));
    assert!(!frame_fits((cap - HEADER_LEN) as u32 + 1, cap));
}

#[test]
fn volume_extraction_ignores_key_order() {
    let a = br#"{"bufferMs":1000,"muted":false,"volume":57}"#;
    let b = br#"{"volume":57,"bufferMs":1000,"muted":false}"#;
    assert_eq!(get_json_val(a, b"volume"), Some(&b"57"[..]));
    assert_eq!(get_json_val(b, b"volume"), Some(&b"57"[..]));
    // 57 compressed: (57 + 34) * 6 / 10 = 54
    assert_eq!(settings_volume(a), Some(54));
    assert_eq!(settings_volume(b), Some(54));
}

#[test]
fn json_scan_finds_first_occurrence() {
    let s = br#"{"volume":11,"volume":22}"#;
    assert_eq!(get_json_val(s, b"volume"), Some(&b"11"[..]));
}

#[test]
fn json_scan_misses() {
    assert_eq!(get_json_val(br#"{"muted":false}"#, b"volume"), None);
    // no delimiter after the value
    assert_eq!(get_json_val(br#"{"volume":57"#, b"volume"), None);
    // a quoted key is required
    assert_eq!(get_json_val(br#"{volume:57}"#, b"volume"), None);
    assert_eq!(get_json_val(b"", b"volume"), None);
}

#[test]
fn non_numeric_volume_is_dropped() {
    assert_eq!(settings_volume(br#"{"volume":false}"#), None);
    assert_eq!(settings_volume(br#"{"volume":}"#), None);
    assert_eq!(settings_volume(br#"{"muted":true}"#), None);
}

#[test]
fn decimal_runs_parse() {
    assert_eq!(parse_decimal(b"0"), Some(0));
    assert_eq!(parse_decimal(b"57"), Some(57));
    assert_eq!(parse_decimal(b"100"), Some(100));
    assert_eq!(parse_decimal(b"999999999"), Some(999_999_999));
    assert_eq!(parse_decimal(b""), None);
    assert_eq!(parse_decimal(b"1234567890"), None);
    assert_eq!(parse_decimal(b"12a"), None);
    assert_eq!(parse_decimal(b"-4"), None);
}

#[test]
fn mute_flag_extracts() {
    assert!(settings_muted(br#"{"muted":true,"volume":57}"#));
    assert!(!settings_muted(br#"{"muted":false,"volume":57}"#));
    assert!(!settings_muted(br#"{"volume":57}"#));
}

#[test]
fn range_compression_keeps_ears_intact() {
    assert_eq!(compress_volume(100), 80);
    assert_eq!(compress_volume(1), 21);
    assert_eq!(compress_volume(0), 20);
    assert_eq!(compress_volume(57), 54);
    // out-of-range server values stay capped at a full percent scale
    assert_eq!(compress_volume(1000), 100);
}

#[test]
fn settings_frame_volume_end_to_end() {
    // a whole settings frame as it stands in the receive buffer: the
    // 26-byte header, a four-byte size prefix, then the text
    let json = br#"{"bufferMs":1000,"muted":false,"volume":100}"#;
    let mut frame = header(3, (json.len() + 4) as u32);
    frame.extend_from_slice(&(json.len() as u32).to_le_bytes());
    frame.extend_from_slice(json);
    let parsed = parse_frame_header(&frame);
    assert_eq!(frame_kind(parsed.typ), FrameKind::ServerSettings);
    assert_eq!(settings_volume(&frame), Some(80));
}

#[test]
fn inspection_combines_activity_and_settings() {
    let mut t = ActivityTracker::new();
    // a chunk: activity on, no volume
    assert_eq!(inspect_frame(&mut t, 2, b"", 1000), None);
    assert!(t.playing);
    // a settings frame: volume out, activity untouched
    let json = br#"{"volume":57}"#;
    assert_eq!(inspect_frame(&mut t, 3, json, 1500), Some(54));
    assert!(t.playing);
    assert_eq!(t.last_chunk_ms, 1000);
    // a late heartbeat: activity off, no volume
    assert_eq!(inspect_frame(&mut t, 4, b"", 7000), None);
    assert!(!t.playing);
}

#[test]
fn chunk_frames_flip_activity_on() {
    let mut t = ActivityTracker::new();
    assert!(!t.playing);
    t.on_frame(FrameKind::WireChunk, 1000);
    assert!(t.playing);
    assert_eq!(t.last_chunk_ms, 1000);
}

#[test]
fn heartbeats_within_quiet_window_keep_activity() {
    // one chunk, then only heartbeats for four seconds: still playing
    let mut t = ActivityTracker::new();
    t.on_frame(FrameKind::WireChunk, 1000);
    let mut now = 1000;
    while now < 5000 {
        now += 500;
        t.on_frame(FrameKind::Time, now);
        assert!(t.playing);
    }
}

#[test]
fn quiet_gap_flips_activity_off() {
    // after six seconds of heartbeats only, activity goes off
    let mut t = ActivityTracker::new();
    t.on_frame(FrameKind::WireChunk, 1000);
    t.on_frame(FrameKind::Time, 6000);
    assert!(t.playing, "at the threshold the debounce still holds");
    t.on_frame(FrameKind::Time, 7000);
    assert!(!t.playing);
}

#[test]
fn new_chunk_restarts_the_window() {
    let mut t = ActivityTracker::new();
    t.on_frame(FrameKind::WireChunk, 1000);
    t.on_frame(FrameKind::WireChunk, 8000);
    t.on_frame(FrameKind::Time, 12000);
    assert!(t.playing);
}

#[test]
fn heartbeats_alone_never_start_activity() {
    let mut t = ActivityTracker::new();
    t.on_frame(FrameKind::Time, 10000);
    t.on_frame(FrameKind::Time, 20000);
    assert!(!t.playing);
    // settings and codec frames change nothing either
    t.on_frame(FrameKind::ServerSettings, 21000);
    t.on_frame(FrameKind::CodecHeader, 22000);
    t.on_frame(FrameKind::Other, 23000);
    assert!(!t.playing);
    assert_eq!(t.last_chunk_ms, 0);
}
