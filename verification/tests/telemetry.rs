use scoreboard_core::telemetry::{decode_value, Decoder, TelemetryClock};

#[test]
fn decode_formula_examples() {
    // value = 255 - raw / 2, truncating
    assert_eq!(decode_value(0x0A), 250);
    assert_eq!(decode_value(0x64), 205);
    assert_eq!(decode_value(0), 255);
    assert_eq!(decode_value(255), 128);
    assert_eq!(decode_value(1), 255); // truncation: 1 / 2 == 0
}

#[test]
fn marker_opens_frame() {
    let d = Decoder::new();
    assert!(d.marker_found(0x00));
    assert!(!d.marker_found(0x3F));
    assert!(!d.marker_found(0xFF));
}

#[test]
fn commit_decodes_and_suppresses_repeats() {
    let mut d = Decoder::new();
    let mut clock = TelemetryClock::new();
    let mut updates = 0u32;

    // first frame with raw pair (0x0A, 0x64) commits (250, 205)
    if d.on_frame(&[0x0A, 0x64, 0x17, 0x3F], &mut clock) {
        updates += 1;
    }
    assert_eq!((clock.min, clock.sec), (250, 205));
    assert_eq!(updates, 1);

    // the identical raw pair performs no second commit
    if d.on_frame(&[0x0A, 0x64, 0x00, 0x00], &mut clock) {
        updates += 1;
    }
    assert_eq!(updates, 1);
    assert_eq!((clock.min, clock.sec), (250, 205));

    // a differing pair commits again
    if d.on_frame(&[0x0A, 0x62, 0x17, 0x3F], &mut clock) {
        updates += 1;
    }
    assert_eq!(updates, 2);
    assert_eq!((clock.min, clock.sec), (250, 206));
}

#[test]
fn trailer_bytes_are_not_validated() {
    // frames that differ only in shot-clock/trailer bytes count as repeats
    let mut d = Decoder::new();
    let mut clock = TelemetryClock::new();
    assert!(d.on_frame(&[4, 6, 0, 0], &mut clock));
    assert!(!d.on_frame(&[4, 6, 99, 77], &mut clock));
}

#[test]
fn stream_scans_frames_and_resynchronizes() {
    let mut d = Decoder::new();
    let mut clock = TelemetryClock::new();
    let mut bytes = Vec::new();
    bytes.extend_from_slice(&[0x55, 0xAA]); // line noise: scanned past
    bytes.extend_from_slice(&[0x00, 0x0A, 0x64, 0x17, 0x3F]); // frame (250, 205)
    bytes.extend_from_slice(&[0x99]); // more noise between frames
    bytes.extend_from_slice(&[0x00, 0x0A, 0x64, 0x00, 0x00]); // repeat: no commit
    bytes.extend_from_slice(&[0x00, 0x08, 0x64, 0x17, 0x3F]); // frame (251, 205)
    let commits = d.process_stream(&mut clock, &bytes);
    assert_eq!(commits, 2);
    assert_eq!((clock.min, clock.sec), (251, 205));
}

#[test]
fn stream_leaves_incomplete_frame_pending() {
    let mut d = Decoder::new();
    let mut clock = TelemetryClock::new();
    // a marker arrives but only two of the four payload bytes have: nothing
    // is committed until the rest of the frame shows up
    let commits = d.process_stream(&mut clock, &[0x00, 0x0A, 0x64]);
    assert_eq!(commits, 0);
    assert_eq!((clock.min, clock.sec), (0, 0));
}

#[test]
fn initial_raw_pair_is_zero() {
    // a first frame whose raw pair is (0, 0) matches the decoder's initial
    // state and is not committed
    let mut d = Decoder::new();
    let mut clock = TelemetryClock::new();
    assert!(!d.on_frame(&[0, 0, 0, 0], &mut clock));
    assert_eq!((clock.min, clock.sec), (0, 0));
}
