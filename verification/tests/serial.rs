//! Serial framing.

use voicetastic_web::serial::{frame_serial, next_frame, Deframer, BAUD, MAX_PAYLOAD, START1, START2};

#[test]
fn frame_roundtrip() {
    let f = frame_serial(b"hi");
    assert_eq!(&f[..4], &[0x94, 0xc3, 0x00, 0x02]);
    let (p, n) = next_frame(&f).unwrap();
    assert_eq!(p, b"hi");
    assert_eq!(n, f.len());
}

#[test]
fn skips_leading_noise() {
    let mut data = b"debug log\n".to_vec();
    data.extend(frame_serial(b"ok"));
    assert_eq!(next_frame(&data).unwrap().0, b"ok");
}

#[test]
fn constants_of_the_wire() {
    assert_eq!((START1, START2), (0x94, 0xc3));
    assert_eq!(MAX_PAYLOAD, 512);
    assert_eq!(BAUD, 115_200);
}

#[test]
fn header_is_big_endian() {
    let f = frame_serial(&[7u8; 300]);
    assert_eq!(&f[..4], &[0x94, 0xc3, 0x01, 0x2c]);
    assert_eq!(f.len(), 304);
}

#[test]
fn header_wraps_at_sixteen_bits() {
    let f = frame_serial(&vec![1u8; 65_537]);
    assert_eq!(&f[..4], &[0x94, 0xc3, 0x00, 0x01]);
    assert_eq!(f.len(), 65_541);
}

#[test]
fn incomplete_input_waits() {
    assert_eq!(next_frame(&[]), None);
    assert_eq!(next_frame(&[0x94]), None);
    assert_eq!(next_frame(&[0x94, 0xc3]), None);
    assert_eq!(next_frame(&[0x94, 0xc3, 0x00]), None);
    assert_eq!(next_frame(&[0x94, 0xc3, 0x00, 0x02, 0x41]), None);
    assert_eq!(next_frame(b"no frame here"), None);
}

#[test]
fn bad_length_is_a_resync_marker() {
    assert_eq!(next_frame(&[0x94, 0xc3, 0x00, 0x00]), Some((vec![], 1)));
    assert_eq!(next_frame(&[0x94, 0xc3, 0x02, 0x01]), Some((vec![], 1)));
    assert_eq!(next_frame(&[0x00, 0x94, 0xc3, 0xff, 0xff]), Some((vec![], 2)));
}

#[test]
fn largest_payload_is_delivered() {
    let f = frame_serial(&[9u8; 512]);
    assert_eq!(next_frame(&f), Some((vec![9u8; 512], 516)));
    let g = frame_serial(&[9u8; 513]);
    assert_eq!(next_frame(&g), Some((vec![], 1)));
}

#[test]
fn repeated_first_start_byte_is_noise() {
    let mut data = vec![0x94, 0x94];
    data.extend(frame_serial(b"x"));
    assert_eq!(next_frame(&data), Some((b"x".to_vec(), 7)));
}

#[test]
fn deframer_joins_chunks() {
    let mut stream = b"boot\n".to_vec();
    stream.extend(frame_serial(b"one"));
    stream.extend(b"log");
    stream.extend(frame_serial(b"two"));
    stream.extend(b"!");
    let mut whole = Deframer::new();
    assert_eq!(whole.push(&stream), vec![b"one".to_vec(), b"two".to_vec()]);
    for size in 1..stream.len() {
        let mut d = Deframer::new();
        let mut out = Vec::new();
        for chunk in stream.chunks(size) {
            out.extend(d.push(chunk));
        }
        assert_eq!(out, vec![b"one".to_vec(), b"two".to_vec()], "chunks of {size}");
    }
}

#[test]
fn deframer_recovers_from_a_bad_length() {
    let mut d = Deframer::new();
    let mut stream = vec![0x94, 0xc3, 0xff, 0xff];
    stream.extend(frame_serial(b"after"));
    assert_eq!(d.push(&stream), vec![b"after".to_vec()]);
}

#[test]
fn deframer_keeps_the_rest() {
    let mut d = Deframer::new();
    let f = frame_serial(b"late");
    assert!(d.push(&f[..5]).is_empty());
    assert_eq!(d.push(&f[5..]), vec![b"late".to_vec()]);
    assert!(d.push(&[]).is_empty());
}
