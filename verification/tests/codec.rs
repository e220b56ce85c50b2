//! Codec2 and AMR-NB framing.

use voicetastic_web::amrnb::{whole_frames, AMRNB_RATE, FRAME_SAMPLES};
use voicetastic_web::codec::{
    decode, decode_frames, encode, encode_frames, mode_from_param, Mode, CODEC2_RATE,
};

fn to_i16(pcm: &[f32]) -> Vec<i16> {
    pcm.iter().map(|s| (s.clamp(-1.0, 1.0) * i16::MAX as f32) as i16).collect()
}

fn sine(len: usize) -> Vec<i16> {
    let pcm: Vec<f32> = (0..len).map(|i| (i as f32 * 0.1).sin() * 0.3).collect();
    to_i16(&pcm)
}

#[test]
fn roundtrip_is_plausible() {
    // 0.5 s of 8 kHz sine → encode → decode → similar length back.
    let pcm: Vec<f32> = (0..4000).map(|i| (i as f32 * 0.1).sin() * 0.3).collect();
    let bytes = encode(&to_i16(&pcm), 5).expect("encode");
    assert!(!bytes.is_empty());
    let (out, rate) = decode(&bytes, 5).expect("decode");
    assert_eq!(rate, 8_000);
    assert!(!out.is_empty());
}

#[test]
fn bad_mode_errors() {
    assert_eq!(CODEC2_RATE, 8_000);
    assert!(encode(&to_i16(&[0.0; 320]), 9).is_err());
}

#[test]
fn bad_mode_is_named() {
    assert_eq!(encode(&[0; 320], 9), Err("unknown codec2 mode index 9".to_string()));
    assert_eq!(decode(&[0; 8], 6), Err("unknown codec2 mode index 6".to_string()));
    assert_eq!(mode_from_param(255), Err("unknown codec2 mode index 255".to_string()));
}

#[test]
fn modes_by_index() {
    let modes = [
        Mode::Mode3200,
        Mode::Mode2400,
        Mode::Mode1600,
        Mode::Mode1400,
        Mode::Mode1300,
        Mode::Mode1200,
    ];
    for (i, m) in modes.iter().enumerate() {
        assert_eq!(mode_from_param(i as u8), Ok(*m));
    }
}

#[test]
fn frame_sizes_of_every_mode() {
    // (samples, bytes) of one frame, by mode.
    let sizes = [(160, 8), (160, 6), (320, 8), (320, 7), (320, 7), (320, 6)];
    for (mode, (samples, bytes)) in sizes.iter().enumerate() {
        let mode = mode as u8;
        assert_eq!(encode(&sine(*samples - 1), mode).unwrap().len(), 0);
        assert_eq!(encode(&sine(*samples), mode).unwrap().len(), *bytes);
        assert_eq!(encode(&sine(3 * samples + 5), mode).unwrap().len(), 3 * bytes);
        let payload = encode(&sine(3 * samples), mode).unwrap();
        assert_eq!(decode(&payload, mode).unwrap().0.len(), 3 * samples);
        assert_eq!(decode(&payload[..bytes * 2 + 1], mode).unwrap().0.len(), 2 * samples);
        assert_eq!(decode(&payload[..bytes - 1], mode).unwrap().0.len(), 0);
    }
}

#[test]
fn roundtrip_keeps_the_length() {
    for mode in 0..=5u8 {
        let samples = if mode <= 1 { 160 } else { 320 };
        for len in [0, 1, 159, 160, 1000, 4001] {
            let bytes = encode(&sine(len), mode).unwrap();
            let (out, _) = decode(&bytes, mode).unwrap();
            assert_eq!(out.len(), len / samples * samples);
        }
    }
}

#[test]
fn coder_is_really_called() {
    // A loud clip does not come out as zero bytes, nor its frames as silence.
    for mode in 0..=5u8 {
        let bytes = encode(&sine(3200), mode).unwrap();
        assert!(bytes.iter().any(|b| *b != 0));
        let (out, _) = decode(&bytes, mode).unwrap();
        assert!(out.iter().any(|s| *s != 0));
    }
}

#[test]
fn coder_takes_extreme_samples() {
    for mode in 0..=5u8 {
        for value in [i16::MIN, -1, 0, 1, i16::MAX] {
            let bytes = encode(&[value; 640], mode).unwrap();
            assert_eq!(decode(&bytes, mode).unwrap().0.len(), 640);
        }
        let square: Vec<i16> =
            (0..3200).map(|i| if i / 20 % 2 == 0 { i16::MAX } else { i16::MIN }).collect();
        let bytes = encode(&square, mode).unwrap();
        assert_eq!(decode(&bytes, mode).unwrap().0.len(), 3200);
    }
}

#[test]
fn coder_takes_any_bytes() {
    let mut x: u32 = 1;
    let bytes: Vec<u8> = (0..5040)
        .map(|_| {
            x = x.wrapping_mul(1_664_525).wrapping_add(1_013_904_223);
            (x >> 24) as u8
        })
        .collect();
    for (mode, (samples, size)) in
        [(160, 8), (160, 6), (320, 8), (320, 7), (320, 7), (320, 6)].iter().enumerate()
    {
        let (out, rate) = decode(&bytes, mode as u8).unwrap();
        assert_eq!(out.len(), 5040 / size * samples);
        assert_eq!(rate, 8_000);
    }
}

#[test]
fn one_coder_goes_on_over_several_clips() {
    let mut c2 = codec2::Codec2::new(codec2::Codec2Mode::MODE_1200);
    let first = encode_frames(&mut c2, &sine(700));
    let second = encode_frames(&mut c2, &sine(320));
    assert_eq!(first.len(), 12);
    assert_eq!(second.len(), 6);
    let mut d2 = codec2::Codec2::new(codec2::Codec2Mode::MODE_1200);
    assert_eq!(decode_frames(&mut d2, &first).len(), 640);
    assert_eq!(decode_frames(&mut d2, &second).len(), 320);
}

#[test]
fn one_clip_is_the_same_as_two_halves() {
    // The encoder is deterministic in one process, and cutting at a frame border
    // changes nothing.
    let clip = sine(1600);
    let mut a = codec2::Codec2::new(codec2::Codec2Mode::MODE_3200);
    let whole = encode_frames(&mut a, &clip);
    let mut b = codec2::Codec2::new(codec2::Codec2Mode::MODE_3200);
    let mut halves = encode_frames(&mut b, &clip[..800]);
    halves.extend(encode_frames(&mut b, &clip[800..]));
    assert_eq!(whole, halves);
    assert_eq!(whole, encode(&clip, 0).unwrap());
}

#[test]
fn trailing_samples_and_bytes_are_dropped() {
    for mode in 0..=5u8 {
        let samples = if mode <= 1 { 160 } else { 320 };
        let clip = sine(4 * samples + samples - 1);
        let bytes = encode(&clip, mode).unwrap();
        assert_eq!(bytes, encode(&clip[..4 * samples], mode).unwrap());
        assert_eq!(encode(&clip[..samples - 1], mode), Ok(vec![]));
        let mut longer = bytes.clone();
        longer.push(0xff);
        assert_eq!(decode(&longer, mode).unwrap().0.len(), 4 * samples);
    }
}

#[test]
fn amrnb_clips_are_cut_to_whole_frames() {
    assert_eq!(AMRNB_RATE, 8_000);
    assert_eq!(FRAME_SAMPLES, 160);
    let clip: Vec<i16> = (0..500).collect();
    assert_eq!(whole_frames(&clip), clip[..480].to_vec());
    assert_eq!(whole_frames(&clip[..480]), clip[..480].to_vec());
    assert_eq!(whole_frames(&clip[..159]), Vec::<i16>::new());
    assert_eq!(whole_frames(&clip[..160]), clip[..160].to_vec());
    assert_eq!(whole_frames(&[]), Vec::<i16>::new());
}
