//! Sending a voice message.

use voicetastic_web::client::{connect_with, Packet, Transport, WebClient};
use voicetastic_web::sending::{
    begin_frames, FrameEvent, FrameRun, FrameStage, FrameStep, VoicePlan, VoiceSend,
    VoiceSendEvent, VoiceSendStep, VoiceStage, VoiceTxAction,
};
use voicetastic_web::state::LoraConfig;
use voicetastic_web::voice::{VoiceCodec, VoiceFecMode};

fn serial(seed: u32) -> WebClient {
    connect_with(Transport::Serial, seed, 0).0
}

fn lora(modem_preset: i32) -> LoraConfig {
    LoraConfig {
        use_preset: true,
        modem_preset,
        region: 0,
        hop_limit: 0,
        tx_power: 0,
        tx_enabled: false,
        ignore_mqtt: false,
        channel_num: 0,
        bandwidth: 0,
        spread_factor: 0,
        coding_rate: 0,
        frequency_offset_bits: 0,
        extra: vec![],
    }
}

fn send(is_data: bool) -> FrameEvent {
    FrameEvent::Action(VoiceTxAction::Send {
        chunk_index: 3,
        frame: vec![1, 2],
        channel: 1,
        to: Some(9),
        want_ack: true,
        is_data,
    })
}

fn packet(id: u32) -> Packet {
    Packet::PrivateData {
        id,
        frame: vec![1, 2],
        channel: 1,
        to: Some(9),
        want_ack: true,
        want_response: false,
    }
}

#[test]
fn voice_plans() {
    let mut c = serial(1);
    assert_eq!(
        c.send_voice(48_000, 2, None),
        VoiceSend {
            plan: VoicePlan {
                denoise: true,
                codec: VoiceCodec::Codec2,
                codec_param: 0,
                broadcast: true,
                fec: VoiceFecMode::Auto,
                channel: 2,
                to: None,
            },
            stage: VoiceStage::New,
        }
    );
    c.fec_mode = 3;
    c.set_send_codec("amrnb");
    assert_eq!(
        c.send_voice(44_100, 0, Some(8)).plan,
        VoicePlan {
            denoise: false,
            codec: VoiceCodec::AmrNb,
            codec_param: 5,
            broadcast: false,
            fec: VoiceFecMode::Medium,
            channel: 0,
            to: Some(8),
        }
    );
    c.set_send_codec("opus");
    c.set_denoise_enabled(false);
    let plan = c.send_voice(48_000, 0, None).plan;
    assert!(!plan.denoise);
    assert_eq!((plan.codec, plan.codec_param), (VoiceCodec::Opus, 12));
}

#[test]
fn a_message_from_clip_to_last_frame() {
    let mut c = serial(5);
    let mut v = c.send_voice(48_000, 2, Some(9));
    assert_eq!(c.advance_voice(&mut v, VoiceSendEvent::Start), VoiceSendStep::Denoise);
    // A setting that changes meanwhile does not touch the clip; the modem preset that
    // counts is the one after encoding.
    c.set_codec2_mode(5);
    assert_eq!(
        c.advance_voice(&mut v, VoiceSendEvent::Denoised),
        VoiceSendStep::Encode { codec: VoiceCodec::Codec2, codec_param: 0 }
    );
    c.state.lora = Some(lora(4));
    assert_eq!(
        c.advance_voice(&mut v, VoiceSendEvent::Encoded),
        VoiceSendStep::Prepare {
            codec: VoiceCodec::Codec2,
            codec_param: 0,
            modem_preset: Some(4),
            broadcast: false,
            fec: VoiceFecMode::Auto,
        }
    );
    // Nothing is written before the registration.
    assert_eq!(
        c.advance_voice(&mut v, VoiceSendEvent::Frame(send(true))),
        VoiceSendStep::Nothing
    );
    assert_eq!(
        c.advance_voice(&mut v, VoiceSendEvent::Prepared { message_id: 0xbeef, total_data: 7 }),
        VoiceSendStep::Register { message_id: 0xbeef, channel: 2, to: Some(9) }
    );
    assert_eq!(
        c.advance_voice(&mut v, VoiceSendEvent::Frame(send(true))),
        VoiceSendStep::Nothing
    );
    assert_eq!(c.next_id, 5);
    assert_eq!(
        c.advance_voice(&mut v, VoiceSendEvent::Registered),
        VoiceSendStep::BeginFrames { message_id: 0xbeef, total_data: 7, channel: 2, to: Some(9) }
    );
    assert_eq!(
        c.advance_voice(&mut v, VoiceSendEvent::Frame(send(true))),
        VoiceSendStep::Frame(FrameStep::Write { packet: packet(6) })
    );
    assert_eq!(
        c.advance_voice(&mut v, VoiceSendEvent::Frame(FrameEvent::Written)),
        VoiceSendStep::Frame(FrameStep::Mark { message_id: 0xbeef, chunk_index: 3 })
    );
    assert_eq!(
        c.advance_voice(&mut v, VoiceSendEvent::Frame(FrameEvent::Action(VoiceTxAction::Done))),
        VoiceSendStep::Frame(FrameStep::Finish)
    );
    assert_eq!(
        c.advance_voice(&mut v, VoiceSendEvent::Frame(send(true))),
        VoiceSendStep::Frame(FrameStep::Nothing)
    );
    assert_eq!(c.next_id, 6);
}

#[test]
fn a_failed_encode_leaves_nothing_behind() {
    for (codec, text) in [("codec2", "why"), ("amrnb", "amrnb encode: why"), ("opus", "opus encode: why")] {
        let mut c = serial(5);
        c.set_send_codec(codec);
        let mut v = c.send_voice(8_000, 0, None);
        assert!(matches!(
            c.advance_voice(&mut v, VoiceSendEvent::Start),
            VoiceSendStep::Encode { .. }
        ));
        assert_eq!(
            c.advance_voice(&mut v, VoiceSendEvent::EncodeFailed("why".to_string())),
            VoiceSendStep::Fail(text.to_string())
        );
        for event in [
            VoiceSendEvent::Encoded,
            VoiceSendEvent::Prepared { message_id: 1, total_data: 1 },
            VoiceSendEvent::Registered,
            VoiceSendEvent::Frame(send(true)),
        ] {
            assert_eq!(c.advance_voice(&mut v, event), VoiceSendStep::Nothing);
        }
        assert_eq!(c.next_id, 5);
    }
}

#[test]
fn a_failed_framing_leaves_nothing_behind() {
    let mut c = serial(5);
    let mut v = c.send_voice(8_000, 0, None);
    c.advance_voice(&mut v, VoiceSendEvent::Start);
    c.advance_voice(&mut v, VoiceSendEvent::Encoded);
    assert_eq!(
        c.advance_voice(&mut v, VoiceSendEvent::PrepareFailed("too long".to_string())),
        VoiceSendStep::Fail("prepare voice: too long".to_string())
    );
    assert_eq!(v.stage, VoiceStage::Ended);
    assert_eq!(
        c.advance_voice(&mut v, VoiceSendEvent::Prepared { message_id: 1, total_data: 1 }),
        VoiceSendStep::Nothing
    );
}

#[test]
fn voice_frames_are_sent_and_marked() {
    let mut c = serial(5);
    let mut run = begin_frames(0xbeef);
    assert_eq!(run, FrameRun { message_id: 0xbeef, stage: FrameStage::Ready });
    assert_eq!(
        c.send_voice_frames(&mut run, send(true)),
        FrameStep::Write { packet: packet(6) }
    );
    assert_eq!(run.stage, FrameStage::Writing { mark: Some(3) });
    // One write at a time.
    assert_eq!(c.send_voice_frames(&mut run, send(true)), FrameStep::Nothing);
    assert_eq!(
        c.send_voice_frames(&mut run, FrameEvent::Written),
        FrameStep::Mark { message_id: 0xbeef, chunk_index: 3 }
    );
    assert_eq!(
        c.send_voice_frames(&mut run, send(false)),
        FrameStep::Write { packet: packet(7) }
    );
    assert_eq!(c.send_voice_frames(&mut run, FrameEvent::Written), FrameStep::Next);
    assert_eq!(
        c.send_voice_frames(&mut run, FrameEvent::Action(VoiceTxAction::Wait(250))),
        FrameStep::Sleep(250)
    );
    assert_eq!(c.send_voice_frames(&mut run, FrameEvent::Written), FrameStep::Nothing);
    assert_eq!(
        c.send_voice_frames(&mut run, FrameEvent::Action(VoiceTxAction::Done)),
        FrameStep::Finish
    );
    assert_eq!(run.stage, FrameStage::Ended);
    assert_eq!(c.next_id, 7);
}

#[test]
fn a_failed_write_ends_the_run() {
    let mut c = serial(5);
    let mut run = begin_frames(1);
    c.send_voice_frames(&mut run, send(true));
    assert_eq!(c.send_voice_frames(&mut run, FrameEvent::WriteFailed), FrameStep::Fail);
    for event in [send(true), FrameEvent::Written, FrameEvent::WriteFailed] {
        assert_eq!(c.send_voice_frames(&mut run, event), FrameStep::Nothing);
    }
    assert_eq!(c.next_id, 6);
}
