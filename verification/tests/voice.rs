//! Voice messages.

use voicetastic_web::events::{Event, FieldValue, VoiceDestination};
use voicetastic_web::voice::{
    clip_fields, codec_name, fec_mode_from_u8, handle_voice, pacing, plan_retransmit,
    tick_should_exit, voice_dest_str, AssemblyEvent, Clip, DecodeJob, SentMessage, VoiceCodec,
    VoiceFecMode, VoiceMessage, VoiceReaction, DEFAULT_PACING_MS, DENOISE_RATE, TICK_MS,
};

fn line(e: &Event) -> String {
    assert_eq!(e.fields.len(), 2);
    assert_eq!(e.fields[0].key, "type");
    assert_eq!(e.fields[0].value, FieldValue::Text("log".to_string()));
    assert_eq!(e.fields[1].key, "text");
    match &e.fields[1].value {
        FieldValue::Text(t) => t.clone(),
        FieldValue::Number(_) => panic!("a summary is text"),
    }
}

fn message(codec: VoiceCodec) -> VoiceMessage {
    VoiceMessage {
        to: VoiceDestination::Node(0xab),
        channel: 3,
        total_data: 12,
        codec,
        codec_param: 4,
        audio: vec![1, 2, 3],
    }
}

#[test]
fn destinations_as_text() {
    assert_eq!(voice_dest_str(VoiceDestination::Broadcast), "0xffffffff");
    assert_eq!(voice_dest_str(VoiceDestination::Node(0)), "0x0");
    assert_eq!(voice_dest_str(VoiceDestination::Node(0xab)), "0xab");
    assert_eq!(voice_dest_str(VoiceDestination::Node(u32::MAX)), "0xffffffff");
    assert_ne!(
        voice_dest_str(VoiceDestination::Node(0xffff_fffe)),
        voice_dest_str(VoiceDestination::Broadcast)
    );
}

#[test]
fn codec_names() {
    assert_eq!(codec_name(VoiceCodec::Codec2), "codec2");
    assert_eq!(codec_name(VoiceCodec::Opus), "opus");
    assert_eq!(codec_name(VoiceCodec::AmrNb), "amrnb");
    assert_eq!(codec_name(VoiceCodec::Other), "other");
}

#[test]
fn policy_numbers() {
    assert_eq!((DEFAULT_PACING_MS, TICK_MS, DENOISE_RATE), (250, 500, 48_000));
    assert_eq!(pacing(None), 250);
    assert_eq!(pacing(Some(900)), 900);
    assert!(tick_should_exit(0));
    assert!(tick_should_exit(1));
    assert!(!tick_should_exit(2));
}

#[test]
fn fec_modes() {
    assert_eq!(fec_mode_from_u8(0), VoiceFecMode::Auto);
    assert_eq!(fec_mode_from_u8(1), VoiceFecMode::Off);
    assert_eq!(fec_mode_from_u8(2), VoiceFecMode::Light);
    assert_eq!(fec_mode_from_u8(3), VoiceFecMode::Medium);
    assert_eq!(fec_mode_from_u8(4), VoiceFecMode::Heavy);
    assert_eq!(fec_mode_from_u8(5), VoiceFecMode::Auto);
}

#[test]
fn a_complete_message_is_played() {
    let jobs = [
        (VoiceCodec::Codec2, DecodeJob::Codec2 { audio: vec![1, 2, 3], codec_param: 4 }),
        (VoiceCodec::Opus, DecodeJob::Opus { audio: vec![1, 2, 3], codec_param: 4 }),
        (VoiceCodec::AmrNb, DecodeJob::AmrNb { audio: vec![1, 2, 3] }),
    ];
    for (codec, wanted) in jobs {
        match handle_voice("!00000007", AssemblyEvent::Complete(message(codec))) {
            VoiceReaction::Play { line: l, job, clip } => {
                assert_eq!(
                    line(&l),
                    "🎙️ voice complete from !00000007 to 0xab ch3 (12 chunks)"
                );
                assert_eq!(job, wanted);
                assert_eq!(
                    clip,
                    Clip {
                        from: "!00000007".to_string(),
                        to: "0xab".to_string(),
                        channel: 3,
                        codec
                    }
                );
            }
            other => panic!("{other:?}"),
        }
    }
}

#[test]
fn an_unknown_codec_is_only_announced() {
    match handle_voice("x", AssemblyEvent::Complete(message(VoiceCodec::Other))) {
        VoiceReaction::NotPlayable { line: l } => {
            assert_eq!(line(&l), "🎙️ voice complete from x to 0xab ch3 (12 chunks)");
        }
        other => panic!("{other:?}"),
    }
}

#[test]
fn progress_is_shown() {
    match handle_voice("x", AssemblyEvent::Pending { received_data: 2, total_data: 5 }) {
        VoiceReaction::Show { line: l } => assert_eq!(line(&l), "🎙️ voice 2/5 from x"),
        other => panic!("{other:?}"),
    }
}

#[test]
fn other_outcomes_are_ignored() {
    assert_eq!(handle_voice("x", AssemblyEvent::Rejected), VoiceReaction::Ignore);
    assert_eq!(handle_voice("x", AssemblyEvent::Other), VoiceReaction::Ignore);
}

#[test]
fn a_nack_asks_for_retransmission() {
    assert_eq!(
        handle_voice("x", AssemblyEvent::Nack { message_id: 9, missing: vec![1, 4] }),
        VoiceReaction::Retransmit { message_id: 9, missing: vec![1, 4] }
    );
}

#[test]
fn a_burst_carries_the_missing_chunks() {
    let sent = SentMessage { channel: 1, to: Some(5), total_data: 20 };
    let frames = vec![(1u8, vec![0xaa]), (4, vec![0xbb, 0xcc])];
    let b = plan_retransmit("!00000005", 0xbeef, Some(sent), Some(frames.clone())).unwrap();
    assert_eq!(
        line(&b.line),
        "  ⟶ retransmitting 2 chunk(s) for msg 0xbeef (NACK from !00000005)"
    );
    assert_eq!(b.frames, frames);
    assert_eq!((b.message_id, b.total_data, b.channel, b.to), (0xbeef, 20, 1, Some(5)));
    let none = plan_retransmit("y", 1, Some(sent), Some(vec![])).unwrap();
    assert_eq!(line(&none.line), "  ⟶ retransmitting 0 chunk(s) for msg 0x1 (NACK from y)");
}

#[test]
fn unknown_or_refused_retransmissions_do_nothing() {
    let sent = SentMessage { channel: 1, to: None, total_data: 20 };
    assert_eq!(plan_retransmit("x", 1, None, Some(vec![])), None);
    assert_eq!(plan_retransmit("x", 1, Some(sent), None), None);
    assert_eq!(plan_retransmit("x", 1, None, None), None);
}

#[test]
fn clips_are_described() {
    let clip = Clip {
        from: "!00000001".to_string(),
        to: "0xffffffff".to_string(),
        channel: 2,
        codec: VoiceCodec::Opus,
    };
    let fields = clip_fields(&clip, 48_000);
    let keys: Vec<&str> = fields.iter().map(|f| f.key.as_str()).collect();
    assert_eq!(keys, ["rate", "from", "to", "channel", "codec"]);
    assert_eq!(fields[0].value, FieldValue::Number(48_000));
    assert_eq!(fields[1].value, FieldValue::Text("!00000001".to_string()));
    assert_eq!(fields[2].value, FieldValue::Text("0xffffffff".to_string()));
    assert_eq!(fields[3].value, FieldValue::Number(2));
    assert_eq!(fields[4].value, FieldValue::Text("opus".to_string()));
}
