//! Sending a voice message: from the captured clip to the last frame. Coding, framing,
//! the registry of sent messages and the pacing machine are the page's; the order of
//! what is done, and what an error leaves undone, is decided here.

use vstd::prelude::*;

use crate::client::{following_id, id_taken, preset_of, Packet, SendCodec, WebClient};
use crate::voice::{fec_mode_from_u8, fec_of, VoiceCodec, VoiceFecMode, DENOISE_RATE};

verus! {

/// How a voice clip is to be encoded and framed.
#[derive(Clone, Copy, Debug, PartialEq, Eq, Structural)]
pub struct VoicePlan {
    /// Run the noise filter first.
    pub denoise: bool,
    pub codec: VoiceCodec,
    /// The mode or bit rate of the codec.
    pub codec_param: u8,
    pub broadcast: bool,
    pub fec: VoiceFecMode,
    pub channel: u32,
    pub to: Option<u32>,
}

/// What the pacing machine of the send path asks for.
#[derive(Debug, PartialEq, Eq)]
pub enum VoiceTxAction {
    Send {
        chunk_index: u8,
        frame: Vec<u8>,
        channel: u32,
        to: Option<u32>,
        want_ack: bool,
        is_data: bool,
    },
    /// Pause for so many milliseconds.
    Wait(u64),
    Done,
}

/// What a run of frames waits for.
#[derive(Clone, Copy, Debug, PartialEq, Eq, Structural)]
pub enum FrameStage {
    /// The next word of the pacing machine.
    Ready,
    /// The outcome of a write; a data chunk is then marked as sent.
    Writing { mark: Option<u8> },
    /// Nothing any more.
    Ended,
}

/// A run of frames of one message: its first burst, or chunks that are sent again.
#[derive(Clone, Copy, Debug, PartialEq, Eq, Structural)]
pub struct FrameRun {
    pub message_id: u32,
    pub stage: FrameStage,
}

/// What happens to a run of frames.
#[derive(Debug, PartialEq, Eq)]
pub enum FrameEvent {
    /// The pacing machine asks for this.
    Action(VoiceTxAction),
    /// The packet was written.
    Written,
    /// The packet could not be written.
    WriteFailed,
}

/// What a run of frames does next.
#[derive(Debug, PartialEq, Eq)]
pub enum FrameStep {
    /// Write the packet.
    Write { packet: Packet },
    /// Mark the chunk of the message as sent, and ask the pacing machine again.
    Mark { message_id: u32, chunk_index: u8 },
    /// Ask the pacing machine again; parity chunks are not marked.
    Next,
    /// Pause for so many milliseconds, and ask the pacing machine again.
    Sleep(i32),
    /// All frames were sent.
    Finish,
    /// Give up with the error of the write.
    Fail,
    /// Nothing: the run does not wait for this.
    Nothing,
}

/// What the sending of a voice message waits for.
#[derive(Clone, Copy, Debug, PartialEq, Eq, Structural)]
pub enum VoiceStage {
    /// The word to start.
    New,
    /// The filtered samples.
    Denoising,
    /// The encoded clip.
    Encoding,
    /// The framed message.
    Preparing,
    /// The message's entry in the registry.
    Registering { message_id: u32, total_data: u8 },
    /// The course of its frames.
    Sending { run: FrameRun },
    /// Nothing any more.
    Ended,
}

/// A voice message that is being sent.
#[derive(Clone, Copy, Debug, PartialEq, Eq, Structural)]
pub struct VoiceSend {
    pub plan: VoicePlan,
    pub stage: VoiceStage,
}

/// What happens to a voice message that is being sent. An error carries its reason.
#[derive(Debug, PartialEq, Eq)]
pub enum VoiceSendEvent {
    Start,
    Denoised,
    Encoded,
    EncodeFailed(String),
    Prepared { message_id: u32, total_data: u8 },
    PrepareFailed(String),
    Registered,
    Frame(FrameEvent),
}

/// What is done next about a voice message that is being sent.
#[derive(Debug, PartialEq, Eq)]
pub enum VoiceSendStep {
    /// Run the noise filter over the samples.
    Denoise,
    /// Encode the samples.
    Encode { codec: VoiceCodec, codec_param: u8 },
    /// Cut the encoded clip into frames. The modem preset, where it is known, sets
    /// their size.
    Prepare {
        codec: VoiceCodec,
        codec_param: u8,
        modem_preset: Option<i32>,
        broadcast: bool,
        fec: VoiceFecMode,
    },
    /// Enter the message in the registry, where requests for missing chunks find it.
    Register { message_id: u32, channel: u32, to: Option<u32> },
    /// Hand the frames to the pacing machine.
    BeginFrames { message_id: u32, total_data: u8, channel: u32, to: Option<u32> },
    /// Go on with the frames.
    Frame(FrameStep),
    /// Give up with this error.
    Fail(String),
    /// Nothing: the message does not wait for this.
    Nothing,
}

/// What a run of frames waits for after an event.
pub open spec fn frame_stage_after(stage: FrameStage, event: FrameEvent) -> FrameStage {
    match (stage, event) {
        (
            FrameStage::Ready,
            FrameEvent::Action(VoiceTxAction::Send { chunk_index, is_data, .. }),
        ) => FrameStage::Writing {
            mark: if is_data {
                Some(chunk_index)
            } else {
                None
            },
        },
        (FrameStage::Ready, FrameEvent::Action(VoiceTxAction::Done)) => FrameStage::Ended,
        (FrameStage::Writing { .. }, FrameEvent::Written) => FrameStage::Ready,
        (FrameStage::Writing { .. }, FrameEvent::WriteFailed) => FrameStage::Ended,
        _ => stage,
    }
}

/// The event makes a run of frames write a packet.
pub open spec fn frame_writes(stage: FrameStage, event: FrameEvent) -> bool {
    stage is Ready && event matches FrameEvent::Action(VoiceTxAction::Send { .. })
}

/// `r` is what a run of frames of a client does next.
pub open spec fn frame_steps(
    client: WebClient,
    run: FrameRun,
    event: FrameEvent,
    r: FrameStep,
) -> bool {
    match (run.stage, event) {
        (
            FrameStage::Ready,
            FrameEvent::Action(
                VoiceTxAction::Send { chunk_index, frame, channel, to, want_ack, is_data },
            ),
        ) => r matches FrameStep::Write { packet } && packet@ == (Packet::<
            Seq<char>,
            Seq<u8>,
        >::PrivateData {
            id: following_id(client.next_id),
            frame: frame@,
            channel,
            to,
            want_ack,
            want_response: false,
        }),
        (FrameStage::Ready, FrameEvent::Action(VoiceTxAction::Wait(ms))) => r
            == FrameStep::Sleep(ms as i32),
        (FrameStage::Ready, FrameEvent::Action(VoiceTxAction::Done)) => r is Finish,
        (FrameStage::Writing { mark: Some(chunk_index) }, FrameEvent::Written) => r == (
        FrameStep::Mark { message_id: run.message_id, chunk_index }),
        (FrameStage::Writing { mark: None }, FrameEvent::Written) => r is Next,
        (FrameStage::Writing { .. }, FrameEvent::WriteFailed) => r is Fail,
        _ => r is Nothing,
    }
}

/// The client after an event of a run of frames: a write takes a packet id.
pub open spec fn client_after_frame(
    client: WebClient,
    stage: FrameStage,
    event: FrameEvent,
) -> WebClient {
    if frame_writes(stage, event) {
        id_taken(client)
    } else {
        client
    }
}

/// The text of the error when a clip could not be encoded.
pub open spec fn encode_error(codec: VoiceCodec, reason: Seq<char>) -> Seq<char> {
    match codec {
        VoiceCodec::AmrNb => "amrnb encode: "@ + reason,
        VoiceCodec::Opus => "opus encode: "@ + reason,
        _ => reason,
    }
}

/// The text of the error when a clip could not be framed.
pub open spec fn prepare_error(reason: Seq<char>) -> Seq<char> {
    "prepare voice: "@ + reason
}

/// What the sending of a message waits for after an event.
pub open spec fn voice_stage_after(
    plan: VoicePlan,
    stage: VoiceStage,
    event: VoiceSendEvent,
) -> VoiceStage {
    match (stage, event) {
        (VoiceStage::New, VoiceSendEvent::Start) => if plan.denoise {
            VoiceStage::Denoising
        } else {
            VoiceStage::Encoding
        },
        (VoiceStage::Denoising, VoiceSendEvent::Denoised) => VoiceStage::Encoding,
        (VoiceStage::Encoding, VoiceSendEvent::Encoded) => VoiceStage::Preparing,
        (VoiceStage::Encoding, VoiceSendEvent::EncodeFailed(_)) => VoiceStage::Ended,
        (
            VoiceStage::Preparing,
            VoiceSendEvent::Prepared { message_id, total_data },
        ) => VoiceStage::Registering { message_id, total_data },
        (VoiceStage::Preparing, VoiceSendEvent::PrepareFailed(_)) => VoiceStage::Ended,
        (
            VoiceStage::Registering { message_id, .. },
            VoiceSendEvent::Registered,
        ) => VoiceStage::Sending { run: FrameRun { message_id, stage: FrameStage::Ready } },
        (VoiceStage::Sending { run }, VoiceSendEvent::Frame(e)) => VoiceStage::Sending {
            run: FrameRun { stage: frame_stage_after(run.stage, e), ..run },
        },
        _ => stage,
    }
}

/// `r` is what is done next about a message of a client.
pub open spec fn voice_steps(
    client: WebClient,
    send: VoiceSend,
    event: VoiceSendEvent,
    r: VoiceSendStep,
) -> bool {
    let plan = send.plan;
    let encode = VoiceSendStep::Encode { codec: plan.codec, codec_param: plan.codec_param };
    match (send.stage, event) {
        (VoiceStage::New, VoiceSendEvent::Start) => r == (if plan.denoise {
            VoiceSendStep::Denoise
        } else {
            encode
        }),
        (VoiceStage::Denoising, VoiceSendEvent::Denoised) => r == encode,
        (VoiceStage::Encoding, VoiceSendEvent::Encoded) => r == (VoiceSendStep::Prepare {
            codec: plan.codec,
            codec_param: plan.codec_param,
            modem_preset: preset_of(client.state@),
            broadcast: plan.broadcast,
            fec: plan.fec,
        }),
        (VoiceStage::Encoding, VoiceSendEvent::EncodeFailed(e)) => r matches VoiceSendStep::Fail(t)
            && t@ == encode_error(plan.codec, e@),
        (
            VoiceStage::Preparing,
            VoiceSendEvent::Prepared { message_id, .. },
        ) => r == (VoiceSendStep::Register { message_id, channel: plan.channel, to: plan.to }),
        (
            VoiceStage::Preparing,
            VoiceSendEvent::PrepareFailed(e),
        ) => r matches VoiceSendStep::Fail(t) && t@ == prepare_error(e@),
        (
            VoiceStage::Registering { message_id, total_data },
            VoiceSendEvent::Registered,
        ) => r == (VoiceSendStep::BeginFrames {
            message_id,
            total_data,
            channel: plan.channel,
            to: plan.to,
        }),
        (
            VoiceStage::Sending { run },
            VoiceSendEvent::Frame(e),
        ) => r matches VoiceSendStep::Frame(step) && frame_steps(client, run, e, step),
        _ => r is Nothing,
    }
}

/// The client after an event of a message that is being sent.
pub open spec fn client_after_voice(
    client: WebClient,
    stage: VoiceStage,
    event: VoiceSendEvent,
) -> WebClient {
    match (stage, event) {
        (VoiceStage::Sending { run }, VoiceSendEvent::Frame(e)) => client_after_frame(
            client,
            run.stage,
            e,
        ),
        _ => client,
    }
}

/// A new run of frames of a message.
pub fn begin_frames(message_id: u32) -> (r: FrameRun)
    ensures
        r == (FrameRun { message_id, stage: FrameStage::Ready }),
{
    FrameRun { message_id, stage: FrameStage::Ready }
}

impl WebClient {
    /// Plans a voice clip that was captured at `in_rate` Hz. The noise filter is used
    /// where it is turned on and the rate is the one that it works at. Nothing is done
    /// yet: see [`WebClient::advance_voice`].
    pub fn send_voice(&self, in_rate: u32, channel: u32, to: Option<u32>) -> (r: VoiceSend)
        ensures
            r.plan == (VoicePlan {
                denoise: self.denoise_enabled && in_rate == DENOISE_RATE,
                codec: match self.send_codec {
                    SendCodec::Codec2 => VoiceCodec::Codec2,
                    SendCodec::AmrNb => VoiceCodec::AmrNb,
                    SendCodec::Opus => VoiceCodec::Opus,
                },
                codec_param: match self.send_codec {
                    SendCodec::Codec2 => self.codec_param,
                    SendCodec::AmrNb => self.amrnb_mode,
                    SendCodec::Opus => self.opus_kbps,
                },
                broadcast: to is None,
                fec: fec_of(self.fec_mode),
                channel,
                to,
            }),
            r.stage == VoiceStage::New,
    {
        let (codec, codec_param): (VoiceCodec, u8) = match self.send_codec {
            SendCodec::Codec2 => (VoiceCodec::Codec2, self.codec_param),
            SendCodec::AmrNb => (VoiceCodec::AmrNb, self.amrnb_mode),
            SendCodec::Opus => (VoiceCodec::Opus, self.opus_kbps),
        };
        VoiceSend {
            plan: VoicePlan {
                denoise: self.denoise_enabled && in_rate == DENOISE_RATE,
                codec,
                codec_param,
                broadcast: to.is_none(),
                fec: fec_mode_from_u8(self.fec_mode),
                channel,
                to,
            },
            stage: VoiceStage::New,
        }
    }

    /// Decides what is done next about a message that is being sent: filter, encode,
    /// frame, register, then send the frames. An error before the registration ends
    /// it. An event that the message does not wait for changes nothing.
    pub fn advance_voice(&mut self, send: &mut VoiceSend, event: VoiceSendEvent) -> (r:
        VoiceSendStep)
        ensures
            voice_steps(*old(self), *old(send), event, r),
            *final(send) == (VoiceSend {
                stage: voice_stage_after(old(send).plan, old(send).stage, event),
                ..*old(send)
            }),
            *final(self) == client_after_voice(*old(self), old(send).stage, event),
            old(self).wf() ==> final(self).wf(),
    {
        let plan: VoicePlan = send.plan;
        match (send.stage, event) {
            (VoiceStage::New, VoiceSendEvent::Start) => {
                if plan.denoise {
                    send.stage = VoiceStage::Denoising;
                    VoiceSendStep::Denoise
                } else {
                    send.stage = VoiceStage::Encoding;
                    VoiceSendStep::Encode { codec: plan.codec, codec_param: plan.codec_param }
                }
            },
            (VoiceStage::Denoising, VoiceSendEvent::Denoised) => {
                send.stage = VoiceStage::Encoding;
                VoiceSendStep::Encode { codec: plan.codec, codec_param: plan.codec_param }
            },
            (VoiceStage::Encoding, VoiceSendEvent::Encoded) => {
                send.stage = VoiceStage::Preparing;
                VoiceSendStep::Prepare {
                    codec: plan.codec,
                    codec_param: plan.codec_param,
                    modem_preset: self.modem_preset(),
                    broadcast: plan.broadcast,
                    fec: plan.fec,
                }
            },
            (VoiceStage::Encoding, VoiceSendEvent::EncodeFailed(reason)) => {
                send.stage = VoiceStage::Ended;
                let mut text: String = match plan.codec {
                    VoiceCodec::AmrNb => "amrnb encode: ".to_owned(),
                    VoiceCodec::Opus => "opus encode: ".to_owned(),
                    _ => String::new(),
                };
                text.append(reason.as_str());
                assert(text@ =~= encode_error(plan.codec, reason@));
                VoiceSendStep::Fail(text)
            },
            (VoiceStage::Preparing, VoiceSendEvent::Prepared { message_id, total_data }) => {
                send.stage = VoiceStage::Registering { message_id, total_data };
                VoiceSendStep::Register { message_id, channel: plan.channel, to: plan.to }
            },
            (VoiceStage::Preparing, VoiceSendEvent::PrepareFailed(reason)) => {
                send.stage = VoiceStage::Ended;
                let mut text: String = "prepare voice: ".to_owned();
                text.append(reason.as_str());
                VoiceSendStep::Fail(text)
            },
            (VoiceStage::Registering { message_id, total_data }, VoiceSendEvent::Registered) => {
                send.stage = VoiceStage::Sending { run: begin_frames(message_id) };
                VoiceSendStep::BeginFrames {
                    message_id,
                    total_data,
                    channel: plan.channel,
                    to: plan.to,
                }
            },
            (VoiceStage::Sending { run }, VoiceSendEvent::Frame(e)) => {
                let mut going: FrameRun = run;
                let step: FrameStep = self.send_voice_frames(&mut going, e);
                send.stage = VoiceStage::Sending { run: going };
                VoiceSendStep::Frame(step)
            },
            _ => VoiceSendStep::Nothing,
        }
    }

    /// Decides one step of sending the frames of a message, for the first burst and
    /// for chunks that are sent again alike. A failed write ends the run and leaves
    /// its chunk unmarked. An event that the run does not wait for changes nothing.
    pub fn send_voice_frames(&mut self, run: &mut FrameRun, event: FrameEvent) -> (r: FrameStep)
        ensures
            frame_steps(*old(self), *old(run), event, r),
            *final(run) == (FrameRun {
                stage: frame_stage_after(old(run).stage, event),
                ..*old(run)
            }),
            *final(self) == client_after_frame(*old(self), old(run).stage, event),
            old(self).wf() ==> final(self).wf(),
    {
        match (run.stage, event) {
            (
                FrameStage::Ready,
                FrameEvent::Action(
                    VoiceTxAction::Send { chunk_index, frame, channel, to, want_ack, is_data },
                ),
            ) => {
                run.stage = FrameStage::Writing {
                    mark: if is_data {
                        Some(chunk_index)
                    } else {
                        None
                    },
                };
                let id: u32 = self.alloc_id();
                FrameStep::Write {
                    packet: Packet::PrivateData {
                        id,
                        frame,
                        channel,
                        to,
                        want_ack,
                        want_response: false,
                    },
                }
            },
            (FrameStage::Ready, FrameEvent::Action(VoiceTxAction::Wait(ms))) => FrameStep::Sleep(
                #[verifier::truncate]
                (ms as i32),
            ),
            (FrameStage::Ready, FrameEvent::Action(VoiceTxAction::Done)) => {
                run.stage = FrameStage::Ended;
                FrameStep::Finish
            },
            (FrameStage::Writing { mark }, FrameEvent::Written) => {
                run.stage = FrameStage::Ready;
                match mark {
                    Some(chunk_index) => FrameStep::Mark {
                        message_id: run.message_id,
                        chunk_index,
                    },
                    None => FrameStep::Next,
                }
            },
            (FrameStage::Writing { .. }, FrameEvent::WriteFailed) => {
                run.stage = FrameStage::Ended;
                FrameStep::Fail
            },
            _ => FrameStep::Nothing,
        }
    }
}

/// What a new run of frames waits for after a course of events.
pub open spec fn frame_stage_at(events: Seq<FrameEvent>) -> FrameStage
    decreases events.len(),
{
    if events.len() == 0 {
        FrameStage::Ready
    } else {
        frame_stage_after(frame_stage_at(events.drop_last()), events.last())
    }
}

/// The `k`-th event of a course is the failure of a write.
pub open spec fn frame_fails_at(events: Seq<FrameEvent>, k: int) -> bool {
    frame_stage_at(events.take(k)) is Writing && events[k] is WriteFailed
}

/// The `k`-th event of a course makes the run mark this chunk as sent.
pub open spec fn frame_marks_at(events: Seq<FrameEvent>, k: int, chunk_index: u8) -> bool {
    frame_stage_at(events.take(k)) == (FrameStage::Writing { mark: Some(chunk_index) })
        && events[k] is Written
}

/// The `k`-th event of a course makes the run write the packet of this data chunk.
pub open spec fn frame_writes_at(events: Seq<FrameEvent>, k: int, chunk_index: u8) -> bool {
    frame_writes(frame_stage_at(events.take(k)), events[k]) && frame_stage_after(
        FrameStage::Ready,
        events[k],
    ) == (FrameStage::Writing { mark: Some(chunk_index) })
}

proof fn lemma_frame_stage_step(events: Seq<FrameEvent>, k: int)
    requires
        0 <= k < events.len(),
    ensures
        frame_stage_at(events.take(k + 1)) == frame_stage_after(
            frame_stage_at(events.take(k)),
            events[k],
        ),
{
    assert(events.take(k + 1).drop_last() =~= events.take(k));
}

proof fn lemma_frames_ended(events: Seq<FrameEvent>, k: int, j: int)
    requires
        0 <= k < j <= events.len(),
        frame_fails_at(events, k),
    ensures
        frame_stage_at(events.take(j)) is Ended,
    decreases j,
{
    lemma_frame_stage_step(events, j - 1);
    if j - 1 > k {
        lemma_frames_ended(events, k, j - 1);
    }
}

/// A failed write ends a run of frames: whatever happens afterwards, nothing is
/// written or marked, and the packet ids stay as they are. The chunk that could not be
/// written is not marked either.
pub proof fn nothing_follows_a_failed_write(
    client: WebClient,
    message_id: u32,
    events: Seq<FrameEvent>,
    k: int,
    j: int,
    r: FrameStep,
)
    requires
        0 <= k <= j < events.len(),
        frame_fails_at(events, k),
        frame_steps(
            client,
            FrameRun { message_id, stage: frame_stage_at(events.take(j)) },
            events[j],
            r,
        ),
    ensures
        j == k ==> r is Fail,
        j > k ==> r is Nothing,
        client_after_frame(client, frame_stage_at(events.take(j)), events[j]) == client,
{
    if j > k {
        lemma_frames_ended(events, k, j);
    }
}

proof fn lemma_write_in_flight(events: Seq<FrameEvent>, k: int, chunk_index: u8) -> (i: int)
    requires
        0 <= k <= events.len(),
        frame_stage_at(events.take(k)) == (FrameStage::Writing { mark: Some(chunk_index) }),
    ensures
        0 <= i < k,
        frame_writes_at(events, i, chunk_index),
        forall|m: int| i < m < k ==> !((#[trigger] events[m]) is Written) && !(
        events[m] is WriteFailed),
    decreases k,
{
    assert(k > 0);
    lemma_frame_stage_step(events, k - 1);
    if frame_stage_at(events.take(k - 1)) is Writing {
        lemma_write_in_flight(events, k - 1, chunk_index)
    } else {
        k - 1
    }
}

/// A chunk is marked as sent only when its packet was written: the write comes first,
/// and the mark answers its success.
pub proof fn only_written_chunks_are_marked(events: Seq<FrameEvent>, k: int, chunk_index: u8)
    requires
        0 <= k < events.len(),
        frame_marks_at(events, k, chunk_index),
    ensures
        events[k] is Written,
        exists|i: int|
            0 <= i < k && #[trigger] frame_writes_at(events, i, chunk_index) && (forall|m: int|
                i < m < k ==> !((#[trigger] events[m]) is Written) && !(events[m] is WriteFailed)),
{
    let i = lemma_write_in_flight(events, k, chunk_index);
    assert(frame_writes_at(events, i, chunk_index));
}

/// What the sending of a new message waits for after a course of events.
pub open spec fn voice_stage_at(plan: VoicePlan, events: Seq<VoiceSendEvent>) -> VoiceStage
    decreases events.len(),
{
    if events.len() == 0 {
        VoiceStage::New
    } else {
        voice_stage_after(plan, voice_stage_at(plan, events.drop_last()), events.last())
    }
}

/// The `k`-th event of a course makes the message enter the registry.
pub open spec fn registers_at(plan: VoicePlan, events: Seq<VoiceSendEvent>, k: int) -> bool {
    voice_stage_at(plan, events.take(k)) is Preparing && events[k] is Prepared
}

/// The `k`-th event of a course makes the message write a frame.
pub open spec fn writes_at(plan: VoicePlan, events: Seq<VoiceSendEvent>, k: int) -> bool {
    match (voice_stage_at(plan, events.take(k)), events[k]) {
        (VoiceStage::Sending { run }, VoiceSendEvent::Frame(e)) => frame_writes(run.stage, e),
        _ => false,
    }
}

/// The `k`-th event of a course is a failure to encode or to frame the clip.
pub open spec fn fails_at(plan: VoicePlan, events: Seq<VoiceSendEvent>, k: int) -> bool {
    ||| voice_stage_at(plan, events.take(k)) is Encoding && events[k] is EncodeFailed
    ||| voice_stage_at(plan, events.take(k)) is Preparing && events[k] is PrepareFailed
}

/// The predicates on a course say what [`WebClient::advance_voice`] does: it enters the
/// message in the registry, writes a packet, or fails, at just these events.
pub proof fn a_course_is_what_is_done(
    client: WebClient,
    plan: VoicePlan,
    events: Seq<VoiceSendEvent>,
    k: int,
    r: VoiceSendStep,
)
    requires
        0 <= k < events.len(),
        voice_steps(
            client,
            VoiceSend { plan, stage: voice_stage_at(plan, events.take(k)) },
            events[k],
            r,
        ),
    ensures
        registers_at(plan, events, k) <==> r is Register,
        writes_at(plan, events, k) <==> (r matches VoiceSendStep::Frame(s) && s is Write),
        fails_at(plan, events, k) <==> r is Fail,
{
}

proof fn lemma_voice_stage_step(plan: VoicePlan, events: Seq<VoiceSendEvent>, k: int)
    requires
        0 <= k < events.len(),
    ensures
        voice_stage_at(plan, events.take(k + 1)) == voice_stage_after(
            plan,
            voice_stage_at(plan, events.take(k)),
            events[k],
        ),
{
    assert(events.take(k + 1).drop_last() =~= events.take(k));
}

proof fn lemma_registering(plan: VoicePlan, events: Seq<VoiceSendEvent>, k: int, message_id: u32)
    -> (j: int)
    requires
        0 <= k <= events.len(),
        voice_stage_at(plan, events.take(k)) matches VoiceStage::Registering { message_id: m, .. }
            && m == message_id,
    ensures
        0 <= j < k,
        registers_at(plan, events, j),
        events[j]->message_id == message_id,
    decreases k,
{
    assert(k > 0);
    lemma_voice_stage_step(plan, events, k - 1);
    if voice_stage_at(plan, events.take(k - 1)) is Registering {
        lemma_registering(plan, events, k - 1, message_id)
    } else {
        k - 1
    }
}

proof fn lemma_registered(plan: VoicePlan, events: Seq<VoiceSendEvent>, k: int, message_id: u32)
    -> (r: (int, int))
    requires
        0 <= k <= events.len(),
        voice_stage_at(plan, events.take(k)) matches VoiceStage::Sending { run } && run.message_id
            == message_id,
    ensures
        0 <= r.0 < r.1 < k,
        registers_at(plan, events, r.0),
        events[r.0]->message_id == message_id,
        events[r.1] is Registered,
    decreases k,
{
    assert(k > 0);
    lemma_voice_stage_step(plan, events, k - 1);
    if voice_stage_at(plan, events.take(k - 1)) is Sending {
        lemma_registered(plan, events, k - 1, message_id)
    } else {
        (lemma_registering(plan, events, k - 1, message_id), k - 1)
    }
}

/// A message is registered before its first frame is written: every write comes after
/// the registration of that very message was asked for and after it was done.
pub proof fn registered_before_the_first_frame(
    plan: VoicePlan,
    events: Seq<VoiceSendEvent>,
    k: int,
)
    requires
        0 <= k < events.len(),
        writes_at(plan, events, k),
    ensures
        exists|j: int, i: int|
            0 <= j < i < k && #[trigger] registers_at(plan, events, j) && #[trigger] events[i] is Registered
                && events[j]->message_id == voice_stage_at(
                plan,
                events.take(k),
            )->run.message_id,
{
    let id = voice_stage_at(plan, events.take(k))->run.message_id;
    let (j, i) = lemma_registered(plan, events, k, id);
    assert(registers_at(plan, events, j) && events[i] is Registered);
}

proof fn lemma_past_framing(plan: VoicePlan, events: Seq<VoiceSendEvent>, j: int, k: int)
    requires
        0 <= j < k <= events.len(),
        registers_at(plan, events, j) || fails_at(plan, events, j),
    ensures
        fails_at(plan, events, j) ==> voice_stage_at(plan, events.take(k)) is Ended,
        registers_at(plan, events, j) ==> voice_stage_at(plan, events.take(k)) is Registering
            || voice_stage_at(plan, events.take(k)) is Sending,
    decreases k,
{
    lemma_voice_stage_step(plan, events, k - 1);
    if k - 1 > j {
        lemma_past_framing(plan, events, j, k - 1);
    }
}

/// A failure to encode or to frame a clip leaves nothing behind: in the whole course,
/// before it and after it, nothing is registered and nothing is written.
pub proof fn a_failure_leaves_nothing(
    plan: VoicePlan,
    events: Seq<VoiceSendEvent>,
    k: int,
    j: int,
)
    requires
        0 <= k < events.len(),
        0 <= j < events.len(),
        fails_at(plan, events, k),
    ensures
        !registers_at(plan, events, j),
        !writes_at(plan, events, j),
{
    if j > k {
        lemma_past_framing(plan, events, k, j);
    }
    if j < k {
        if registers_at(plan, events, j) {
            lemma_past_framing(plan, events, j, k);
        }
        if writes_at(plan, events, j) {
            let id = voice_stage_at(plan, events.take(j))->run.message_id;
            let (m, n) = lemma_registered(plan, events, j, id);
            lemma_past_framing(plan, events, m, k);
        }
    }
}

/// The `k`-th event of a course is the failure to write a frame of the message.
pub open spec fn write_fails_at(plan: VoicePlan, events: Seq<VoiceSendEvent>, k: int) -> bool {
    match voice_stage_at(plan, events.take(k)) {
        VoiceStage::Sending { run } => run.stage is Writing && events[k]
            == VoiceSendEvent::Frame(FrameEvent::WriteFailed),
        _ => false,
    }
}

proof fn lemma_message_ended(plan: VoicePlan, events: Seq<VoiceSendEvent>, k: int, j: int)
    requires
        0 <= k < j <= events.len(),
        write_fails_at(plan, events, k),
    ensures
        voice_stage_at(plan, events.take(j)) matches VoiceStage::Sending { run }
            && run.stage is Ended,
    decreases j,
{
    lemma_voice_stage_step(plan, events, j - 1);
    if j - 1 > k {
        lemma_message_ended(plan, events, k, j - 1);
    }
}

/// A failed write ends the sending of a message: whatever happens afterwards, nothing
/// is done about it any more.
pub proof fn a_failed_write_ends_the_message(
    client: WebClient,
    plan: VoicePlan,
    events: Seq<VoiceSendEvent>,
    k: int,
    j: int,
    r: VoiceSendStep,
)
    requires
        0 <= k < j < events.len(),
        write_fails_at(plan, events, k),
        voice_steps(
            client,
            VoiceSend { plan, stage: voice_stage_at(plan, events.take(j)) },
            events[j],
            r,
        ),
    ensures
        r is Nothing || r == VoiceSendStep::Frame(FrameStep::Nothing),
        client_after_voice(client, voice_stage_at(plan, events.take(j)), events[j]) == client,
{
    lemma_message_ended(plan, events, k, j);
}

} // verus!
