//! Laws of sending voice: a clip is labelled with the codec that encoded it, goes where it
//! was meant to go, and its frames go out as they were built.

use vstd::prelude::*;

use crate::client::{Packet, SendCodec, WebClient};
use crate::laws::settings::id_after;
use crate::sending::{
    begin_frames, FrameEvent, FrameRun, FrameStage, FrameStep, VoiceSend, VoiceSendEvent,
    VoiceSendStep, VoiceStage, VoiceTxAction,
};
use crate::voice::{VoiceCodec, VoiceFecMode};

verus! {

/// A clip is planned with the codec that was picked and that codec's own setting, for the
/// addressee and channel that were given. The noise filter runs on 48 kHz clips, where it
/// is turned on.
pub proof fn a_clip_is_planned_as_set(
    c: &WebClient,
    in_rate: u32,
    channel: u32,
    to: Option<u32>,
    r: VoiceSend,
)
    requires
        call_ensures(WebClient::send_voice, (c, in_rate, channel, to), r),
    ensures
        r.stage is New,
        r.plan.denoise <==> c.denoise_enabled && in_rate == 48000,
        c.send_codec is Codec2 ==> r.plan.codec is Codec2 && r.plan.codec_param == c.codec_param,
        c.send_codec is AmrNb ==> r.plan.codec is AmrNb && r.plan.codec_param == c.amrnb_mode,
        c.send_codec is Opus ==> r.plan.codec is Opus && r.plan.codec_param == c.opus_kbps,
        r.plan.channel == channel,
        r.plan.to == to,
        r.plan.broadcast <==> to is None,
        c.fec_mode == 0 ==> r.plan.fec is Auto,
        c.fec_mode == 1 ==> r.plan.fec is Off,
        c.fec_mode == 2 ==> r.plan.fec is Light,
        c.fec_mode == 3 ==> r.plan.fec is Medium,
        c.fec_mode == 4 ==> r.plan.fec is Heavy,
        c.fec_mode > 4 ==> r.plan.fec is Auto,
{
}

/// A plan is never changed on the way, and whatever is asked for follows it: encoding and
/// framing name the planned codec and its setting, framing the planned addressee kind and
/// parity and the modem preset of the moment, the registry and the frames the planned
/// channel and addressee.
pub proof fn what_is_asked_for_follows_the_plan(
    c: &mut WebClient,
    send: &mut VoiceSend,
    event: VoiceSendEvent,
    r: VoiceSendStep,
)
    requires
        call_ensures(WebClient::advance_voice, (c, send, event), r),
    ensures
        final(send).plan == old(send).plan,
        r matches VoiceSendStep::Encode { codec, codec_param } ==> codec == old(send).plan.codec
            && codec_param == old(send).plan.codec_param,
        r matches VoiceSendStep::Prepare { codec, codec_param, modem_preset, broadcast, fec } ==> {
            &&& codec == old(send).plan.codec
            &&& codec_param == old(send).plan.codec_param
            &&& broadcast == old(send).plan.broadcast
            &&& fec == old(send).plan.fec
            &&& modem_preset is Some <==> old(c).state.lora is Some
            &&& old(c).state.lora matches Some(l) ==> modem_preset == Some(l.modem_preset)
        },
        r matches VoiceSendStep::Register { channel, to, .. } ==> channel == old(
            send,
        ).plan.channel && to == old(send).plan.to,
        r matches VoiceSendStep::BeginFrames { channel, to, .. } ==> channel == old(
            send,
        ).plan.channel && to == old(send).plan.to,
{
}

/// The order of a message: the noise filter first where it is planned, then encoding, then
/// framing, then the registry, then the frames. Each step comes just when the one before
/// it is done, and at no other time.
pub proof fn each_step_comes_in_its_turn(
    c: &mut WebClient,
    send: &mut VoiceSend,
    event: VoiceSendEvent,
    r: VoiceSendStep,
)
    requires
        call_ensures(WebClient::advance_voice, (c, send, event), r),
    ensures
        r is Denoise <==> old(send).stage is New && event is Start && old(send).plan.denoise,
        r is Encode <==> (old(send).stage is New && event is Start && !old(send).plan.denoise)
            || (old(send).stage is Denoising && event is Denoised),
        r is Prepare <==> old(send).stage is Encoding && event is Encoded,
        r is Register <==> old(send).stage is Preparing && event is Prepared,
        r is BeginFrames <==> old(send).stage is Registering && event is Registered,
        r is Frame <==> old(send).stage is Sending && event is Frame,
        r is Fail <==> (old(send).stage is Encoding && event is EncodeFailed) || (old(
            send,
        ).stage is Preparing && event is PrepareFailed),
        r is Denoise ==> final(send).stage is Denoising,
        r is Encode ==> final(send).stage is Encoding,
        r is Prepare ==> final(send).stage is Preparing,
        r is Register ==> final(send).stage is Registering,
        r is BeginFrames ==> final(send).stage is Sending,
        r is Frame ==> final(send).stage is Sending,
        r is Fail ==> final(send).stage is Ended,
        r is Nothing ==> final(send).stage == old(send).stage,
        !(r is Frame) ==> *final(c) == *old(c),
{
}

/// A message keeps its number from framing to its last frame, and its count of chunks.
pub proof fn a_message_keeps_its_number(
    c: &mut WebClient,
    send: &mut VoiceSend,
    event: VoiceSendEvent,
    r: VoiceSendStep,
)
    requires
        call_ensures(WebClient::advance_voice, (c, send, event), r),
    ensures
        r matches VoiceSendStep::Register { message_id, .. } ==> {
            &&& event matches VoiceSendEvent::Prepared { message_id: m, total_data: t }
            &&& m == message_id
            &&& final(send).stage == (VoiceStage::Registering { message_id, total_data: t })
        },
        r matches VoiceSendStep::BeginFrames { message_id, total_data, .. } ==> {
            &&& old(send).stage == (VoiceStage::Registering { message_id, total_data })
            &&& final(send).stage matches VoiceStage::Sending { run }
            &&& run.message_id == message_id
            &&& run.stage is Ready
        },
        r is Frame ==> final(send).stage->run.message_id == old(send).stage->run.message_id,
{
}

/// The bytes are labelled with the codec that produced them: from the clip on, the codec
/// and the setting that it is encoded with are those that were picked when it was
/// planned, and those that it is framed under.
pub proof fn the_label_is_the_codec_that_encoded(
    planner: &WebClient,
    in_rate: u32,
    channel: u32,
    to: Option<u32>,
    planned: VoiceSend,
    c1: &mut WebClient,
    encoding: &mut VoiceSend,
    e1: VoiceSendEvent,
    r1: VoiceSendStep,
    c2: &mut WebClient,
    framing: &mut VoiceSend,
    e2: VoiceSendEvent,
    r2: VoiceSendStep,
)
    requires
        call_ensures(WebClient::send_voice, (planner, in_rate, channel, to), planned),
        call_ensures(WebClient::advance_voice, (c1, encoding, e1), r1),
        call_ensures(WebClient::advance_voice, (c2, framing, e2), r2),
        old(encoding).plan == planned.plan,
        *old(framing) == *final(encoding),
        r1 is Encode,
        e2 is Encoded,
    ensures
        r2 is Prepare,
        r1->Encode_codec == r2->Prepare_codec,
        r1->Encode_codec_param == r2->Prepare_codec_param,
        planner.send_codec is Codec2 ==> r1->Encode_codec is Codec2 && r1->Encode_codec_param
            == planner.codec_param,
        planner.send_codec is AmrNb ==> r1->Encode_codec is AmrNb && r1->Encode_codec_param
            == planner.amrnb_mode,
        planner.send_codec is Opus ==> r1->Encode_codec is Opus && r1->Encode_codec_param
            == planner.opus_kbps,
{
    a_clip_is_planned_as_set(planner, in_rate, channel, to, planned);
    what_is_asked_for_follows_the_plan(c1, encoding, e1, r1);
    each_step_comes_in_its_turn(c1, encoding, e1, r1);
    what_is_asked_for_follows_the_plan(c2, framing, e2, r2);
    each_step_comes_in_its_turn(c2, framing, e2, r2);
}

/// An error names what failed, and ends with the reason.
pub proof fn an_error_names_what_failed(
    c: &mut WebClient,
    send: &mut VoiceSend,
    event: VoiceSendEvent,
    text: String,
)
    requires
        call_ensures(WebClient::advance_voice, (c, send, event), VoiceSendStep::Fail(text)),
    ensures
        event matches VoiceSendEvent::PrepareFailed(why) ==> text@ == "prepare voice: "@ + why@,
        event matches VoiceSendEvent::EncodeFailed(why) ==> match old(send).plan.codec {
            VoiceCodec::AmrNb => text@ == "amrnb encode: "@ + why@,
            VoiceCodec::Opus => text@ == "opus encode: "@ + why@,
            VoiceCodec::Codec2 => text@ == why@,
            VoiceCodec::Other => text@ == why@,
        },
{
}

/// One event of a run of frames: the frame that the pacing machine hands out goes out as
/// it is, in a packet with the next id, to where the machine says; it asks for no
/// answer; a pause is as long as asked for; a data chunk is marked under its own number
/// once it was written, and no other is.
pub open spec fn frame_goes_out(
    before: WebClient,
    run: FrameRun,
    event: FrameEvent,
    r: FrameStep,
    after: WebClient,
    then_run: FrameRun,
) -> bool {
    &&& then_run.message_id == run.message_id
    &&& r is Write <==> run.stage is Ready && (event matches FrameEvent::Action(
        VoiceTxAction::Send { .. },
    ))
    &&& r matches FrameStep::Write { packet } ==> {
        &&& event matches FrameEvent::Action(a)
        &&& a matches VoiceTxAction::Send { chunk_index, frame, channel, to, want_ack, is_data }
        &&& packet matches Packet::PrivateData {
            id,
            frame: f,
            channel: ch,
            to: t,
            want_ack: w,
            want_response,
        }
        &&& id == id_after(before.next_id)
        &&& f@ == frame@
        &&& ch == channel
        &&& t == to
        &&& w == want_ack
        &&& !want_response
        &&& is_data ==> then_run.stage == (FrameStage::Writing { mark: Some(chunk_index) })
        &&& !is_data ==> then_run.stage == (FrameStage::Writing { mark: None })
        &&& after == (WebClient { next_id: id, ..before })
    }
    &&& !(r is Write) ==> after == before
    &&& r is Sleep <==> run.stage is Ready && (event matches FrameEvent::Action(
        VoiceTxAction::Wait(_),
    ))
    &&& r matches FrameStep::Sleep(ms) ==> (event matches FrameEvent::Action(
        VoiceTxAction::Wait(asked),
    ) && ms == asked as i32) && then_run.stage is Ready
    &&& r is Finish <==> run.stage is Ready && event == FrameEvent::Action(VoiceTxAction::Done)
    &&& r is Finish ==> then_run.stage is Ended
    &&& r is Mark || r is Next <==> run.stage is Writing && event is Written
    &&& r matches FrameStep::Mark { message_id, chunk_index } ==> message_id == run.message_id
        && run.stage == (FrameStage::Writing { mark: Some(chunk_index) }) && then_run.stage is Ready
    &&& r is Next ==> run.stage == (FrameStage::Writing { mark: None }) && then_run.stage is Ready
    &&& r is Fail <==> run.stage is Writing && event is WriteFailed
    &&& r is Fail ==> then_run.stage is Ended
    &&& r is Nothing ==> then_run.stage == run.stage
}

/// A run of frames sends what the pacing machine hands out.
pub proof fn frames_go_out_as_they_are(
    c: &mut WebClient,
    run: &mut FrameRun,
    event: FrameEvent,
    r: FrameStep,
)
    requires
        call_ensures(WebClient::send_voice_frames, (c, run, event), r),
    ensures
        frame_goes_out(*old(c), *old(run), event, r, *final(c), *final(run)),
{
}

/// The frames of a message that is being sent go out in the same way.
pub proof fn frames_of_a_message_go_out_as_they_are(
    c: &mut WebClient,
    send: &mut VoiceSend,
    event: FrameEvent,
    r: FrameStep,
)
    requires
        call_ensures(
            WebClient::advance_voice,
            (c, send, VoiceSendEvent::Frame(event)),
            VoiceSendStep::Frame(r),
        ),
    ensures
        old(send).stage matches VoiceStage::Sending { run } && (
        final(send).stage matches VoiceStage::Sending { run: then_run } && frame_goes_out(
            *old(c),
            run,
            event,
            r,
            *final(c),
            then_run,
        )),
{
}

/// A new run of frames belongs to the message and waits for the pacing machine.
pub proof fn a_new_run_belongs_to_its_message(message_id: u32, r: FrameRun)
    requires
        call_ensures(begin_frames, (message_id,), r),
    ensures
        r.message_id == message_id,
        r.stage is Ready,
{
}

} // verus!
