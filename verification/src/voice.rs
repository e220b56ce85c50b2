//! Voice messages: what becomes of an inbound voice frame, how a finished clip is
//! described to the page, and the policy numbers of the send path. Reassembly, the
//! registry of sent messages and the speech coders are the page's; this module
//! decides what they are asked for.

use vstd::prelude::*;

use crate::events::{
    emit_log, log_of, number_of, text_of, Event, Field, FieldValue, VoiceDestination, BROADCAST,
};
use crate::text::{dec, hex, hex_injective, push_dec, push_hex};

verus! {

/// Pause between frames before the radio's modem preset is known.
pub const DEFAULT_PACING_MS: u64 = 250;

/// Period of the loop that asks for missing chunks.
pub const TICK_MS: i32 = 500;

/// How long a radio may be quiet before it is probed.
pub const QUIET_WINDOW_MS: u64 = 60_000;

/// Sample rate that the noise filter works at.
pub const DENOISE_RATE: u32 = 48_000;

/// The codec of a voice message. `Other` stands for codecs without a player here.
#[derive(Clone, Copy, Debug, PartialEq, Eq, Structural)]
pub enum VoiceCodec {
    Codec2,
    Opus,
    AmrNb,
    Other,
}

/// How much parity an outgoing message carries.
#[derive(Clone, Copy, Debug, PartialEq, Eq, Structural)]
pub enum VoiceFecMode {
    Auto,
    Off,
    Light,
    Medium,
    Heavy,
}

/// A voice message whose data chunks have all arrived.
#[derive(Debug, PartialEq, Eq)]
pub struct VoiceMessage<B = Vec<u8>> {
    pub to: VoiceDestination,
    pub channel: u32,
    pub total_data: u32,
    pub codec: VoiceCodec,
    pub codec_param: u8,
    pub audio: B,
}

/// What the reassembler made of a frame.
#[derive(Debug, PartialEq, Eq)]
pub enum AssemblyEvent<B = Vec<u8>> {
    /// The message is complete.
    Complete(VoiceMessage<B>),
    /// Chunks are still missing.
    Pending { received_data: u32, total_data: u32 },
    /// The frame was refused.
    Rejected,
    /// A peer misses these chunks of a message of ours.
    Nack { message_id: u32, missing: B },
    /// Anything else.
    Other,
}

/// Where a clip belongs: the routing that goes to the page with its samples.
#[derive(Debug, PartialEq, Eq)]
pub struct Clip<S = String> {
    pub from: S,
    pub to: S,
    pub channel: u32,
    pub codec: VoiceCodec,
}

/// The coder that plays a clip, with what it is given.
#[derive(Debug, PartialEq, Eq)]
pub enum DecodeJob<B = Vec<u8>> {
    Codec2 { audio: B, codec_param: u8 },
    Opus { audio: B, codec_param: u8 },
    AmrNb { audio: B },
}

/// What is to be done about a frame.
#[derive(Debug, PartialEq, Eq)]
pub enum VoiceReaction {
    /// Show the line, decode the clip and hand it to the page.
    Play { line: Event, job: DecodeJob, clip: Clip },
    /// Show the line; the clip cannot be played here.
    NotPlayable { line: Event },
    /// Show the line.
    Show { line: Event },
    /// Look the message up, and send the missing chunks again.
    Retransmit { message_id: u32, missing: Vec<u8> },
    /// Nothing.
    Ignore,
}

/// What is known of a message of ours that was sent before.
#[derive(Clone, Copy, Debug, PartialEq, Eq, Structural)]
pub struct SentMessage {
    pub channel: u32,
    pub to: Option<u32>,
    pub total_data: u8,
}

/// A burst of chunks that are sent again.
#[derive(Debug, PartialEq, Eq)]
pub struct Burst {
    pub line: Event,
    pub message_id: u32,
    pub total_data: u8,
    pub frames: Vec<(u8, Vec<u8>)>,
    pub channel: u32,
    pub to: Option<u32>,
}

impl View for VoiceMessage<Vec<u8>> {
    type V = VoiceMessage<Seq<u8>>;

    open spec fn view(&self) -> VoiceMessage<Seq<u8>> {
        VoiceMessage {
            to: self.to,
            channel: self.channel,
            total_data: self.total_data,
            codec: self.codec,
            codec_param: self.codec_param,
            audio: self.audio@,
        }
    }
}

impl View for DecodeJob<Vec<u8>> {
    type V = DecodeJob<Seq<u8>>;

    open spec fn view(&self) -> DecodeJob<Seq<u8>> {
        match *self {
            DecodeJob::Codec2 { audio, codec_param } => DecodeJob::Codec2 {
                audio: audio@,
                codec_param,
            },
            DecodeJob::Opus { audio, codec_param } => DecodeJob::Opus {
                audio: audio@,
                codec_param,
            },
            DecodeJob::AmrNb { audio } => DecodeJob::AmrNb { audio: audio@ },
        }
    }
}

impl View for Clip<String> {
    type V = Clip<Seq<char>>;

    open spec fn view(&self) -> Clip<Seq<char>> {
        Clip { from: self.from@, to: self.to@, channel: self.channel, codec: self.codec }
    }
}

/// The name of a codec, as the page knows it.
pub open spec fn codec_text(codec: VoiceCodec) -> Seq<char> {
    match codec {
        VoiceCodec::Codec2 => "codec2"@,
        VoiceCodec::Opus => "opus"@,
        VoiceCodec::AmrNb => "amrnb"@,
        VoiceCodec::Other => "other"@,
    }
}

/// The text of a destination: `0x` and the address in lower-case hexadecimal digits,
/// where the broadcast address stands for everyone.
pub open spec fn dest_text(dest: VoiceDestination) -> Seq<char> {
    match dest {
        VoiceDestination::Broadcast => "0xffffffff"@,
        VoiceDestination::Node(id) => "0x"@ + hex(id as nat),
    }
}

/// The line for a complete message.
pub open spec fn complete_text(from: Seq<char>, msg: VoiceMessage<Seq<u8>>) -> Seq<char> {
    "🎙️ voice complete from "@ + from + " to "@ + dest_text(msg.to) + " ch"@ + dec(
        msg.channel as nat,
    ) + " ("@ + dec(msg.total_data as nat) + " chunks)"@
}

/// The line for a message with missing chunks.
pub open spec fn pending_text(from: Seq<char>, received: u32, total: u32) -> Seq<char> {
    "🎙️ voice "@ + dec(received as nat) + "/"@ + dec(total as nat) + " from "@ + from
}

/// The line for chunks that are sent again.
pub open spec fn retransmit_text(from: Seq<char>, message_id: u32, count: nat) -> Seq<char> {
    "  ⟶ retransmitting "@ + dec(count) + " chunk(s) for msg 0x"@ + hex(message_id as nat)
        + " (NACK from "@ + from + ")"@
}

/// The job that plays a message; none for a codec without a player.
pub open spec fn job_of(msg: VoiceMessage<Seq<u8>>) -> Option<DecodeJob<Seq<u8>>> {
    match msg.codec {
        VoiceCodec::Codec2 => Some(
            DecodeJob::Codec2 { audio: msg.audio, codec_param: msg.codec_param },
        ),
        VoiceCodec::Opus => Some(
            DecodeJob::Opus { audio: msg.audio, codec_param: msg.codec_param },
        ),
        VoiceCodec::AmrNb => Some(DecodeJob::AmrNb { audio: msg.audio }),
        VoiceCodec::Other => None,
    }
}

/// The fields that describe a clip with this sample rate.
pub open spec fn clip_fields_of(clip: Clip<Seq<char>>, rate: u32) -> Seq<Field<Seq<char>>> {
    seq![
        number_of("rate"@, rate as int),
        text_of("from"@, clip.from),
        text_of("to"@, clip.to),
        number_of("channel"@, clip.channel as int),
        text_of("codec"@, codec_text(clip.codec)),
    ]
}

/// The error-correction policy with this number; any other number means automatic.
pub open spec fn fec_of(mode: u8) -> VoiceFecMode {
    if mode == 1 {
        VoiceFecMode::Off
    } else if mode == 2 {
        VoiceFecMode::Light
    } else if mode == 3 {
        VoiceFecMode::Medium
    } else if mode == 4 {
        VoiceFecMode::Heavy
    } else {
        VoiceFecMode::Auto
    }
}

/// The name of a codec, as the page knows it.
pub fn codec_name(codec: VoiceCodec) -> (r: &'static str)
    ensures
        r@ == codec_text(codec),
{
    match codec {
        VoiceCodec::Codec2 => "codec2",
        VoiceCodec::Opus => "opus",
        VoiceCodec::AmrNb => "amrnb",
        VoiceCodec::Other => "other",
    }
}

/// The text of a destination.
pub fn voice_dest_str(dest: VoiceDestination) -> (r: String)
    ensures
        r@ == dest_text(dest),
{
    match dest {
        VoiceDestination::Broadcast => "0xffffffff".to_owned(),
        VoiceDestination::Node(id) => {
            let mut out: String = "0x".to_owned();
            push_hex(&mut out, id);
            out
        },
    }
}

/// The error-correction policy with this number: automatic, off, light, medium, heavy;
/// any other number means automatic.
pub fn fec_mode_from_u8(mode: u8) -> (r: VoiceFecMode)
    ensures
        r == fec_of(mode),
{
    match mode {
        1 => VoiceFecMode::Off,
        2 => VoiceFecMode::Light,
        3 => VoiceFecMode::Medium,
        4 => VoiceFecMode::Heavy,
        _ => VoiceFecMode::Auto,
    }
}

/// The pause between frames: that of the radio's modem preset, or a safe one before
/// the preset is known.
pub fn pacing(preset_pacing_ms: Option<u64>) -> (r: u64)
    ensures
        r == (match preset_pacing_ms {
            Some(ms) => ms,
            None => DEFAULT_PACING_MS,
        }),
{
    match preset_pacing_ms {
        Some(ms) => ms,
        None => DEFAULT_PACING_MS,
    }
}

/// Whether the loop that asks for missing chunks ends: nobody but the loop itself
/// holds the client any more.
pub fn tick_should_exit(holders: usize) -> (r: bool)
    ensures
        r == (holders <= 1),
{
    holders <= 1
}

/// The fields that describe a clip, but for its samples and its duration.
pub fn clip_fields(clip: &Clip, rate: u32) -> (r: Vec<Field>)
    ensures
        r@.map_values(|f: Field| f@) == clip_fields_of(clip@, rate),
{
    let r: Vec<Field> = vec![
        Field { key: "rate".to_owned(), value: FieldValue::Number(rate as i64) },
        Field { key: "from".to_owned(), value: FieldValue::Text(clip.from.clone()) },
        Field { key: "to".to_owned(), value: FieldValue::Text(clip.to.clone()) },
        Field { key: "channel".to_owned(), value: FieldValue::Number(clip.channel as i64) },
        Field {
            key: "codec".to_owned(),
            value: FieldValue::Text(codec_name(clip.codec).to_owned()),
        },
    ];
    assert(r@.map_values(|f: Field| f@) =~= clip_fields_of(clip@, rate));
    r
}

fn complete_line(from: &str, msg: &VoiceMessage) -> (r: Event)
    ensures
        r@ == log_of(complete_text(from@, msg@)),
{
    let mut out: String = "🎙️ voice complete from ".to_owned();
    out.append(from);
    out.append(" to ");
    out.append(voice_dest_str(msg.to).as_str());
    out.append(" ch");
    push_dec(&mut out, msg.channel as u64);
    out.append(" (");
    push_dec(&mut out, msg.total_data as u64);
    out.append(" chunks)");
    emit_log(out.as_str())
}

fn pending_line(from: &str, received: u32, total: u32) -> (r: Event)
    ensures
        r@ == log_of(pending_text(from@, received, total)),
{
    let mut out: String = "🎙️ voice ".to_owned();
    push_dec(&mut out, received as u64);
    out.append("/");
    push_dec(&mut out, total as u64);
    out.append(" from ");
    out.append(from);
    emit_log(out.as_str())
}

fn retransmit_line(from: &str, message_id: u32, count: usize) -> (r: Event)
    ensures
        r@ == log_of(retransmit_text(from@, message_id, count as nat)),
{
    let mut out: String = "  ⟶ retransmitting ".to_owned();
    push_dec(&mut out, count as u64);
    out.append(" chunk(s) for msg 0x");
    push_hex(&mut out, message_id);
    out.append(" (NACK from ");
    out.append(from);
    out.append(")");
    emit_log(out.as_str())
}

/// `r` is what is to be done about a frame from `from` of which the reassembler made
/// `ev`.
pub open spec fn reacts(from: Seq<char>, ev: AssemblyEvent, r: VoiceReaction) -> bool {
    match ev {
        AssemblyEvent::Complete(msg) => match job_of(msg@) {
            Some(wanted) => {
                &&& r matches VoiceReaction::Play { line, job, clip }
                &&& line@ == log_of(complete_text(from, msg@))
                &&& job@ == wanted
                &&& clip@ == (Clip {
                    from,
                    to: dest_text(msg.to),
                    channel: msg.channel,
                    codec: msg.codec,
                })
            },
            None => r matches VoiceReaction::NotPlayable { line } && line@ == log_of(
                complete_text(from, msg@),
            ),
        },
        AssemblyEvent::Pending { received_data, total_data } =>
            r matches VoiceReaction::Show { line } && line@ == log_of(
                pending_text(from, received_data, total_data),
            ),
        AssemblyEvent::Nack { message_id, missing } => r == (VoiceReaction::Retransmit {
            message_id,
            missing,
        }),
        AssemblyEvent::Rejected => r is Ignore,
        AssemblyEvent::Other => r is Ignore,
    }
}

/// Decides what is to be done about a voice frame. A complete message is announced
/// and played, whatever codec is chosen for sending.
pub fn handle_voice(from: &str, ev: AssemblyEvent) -> (r: VoiceReaction)
    ensures
        reacts(from@, ev, r),
{
    match ev {
        AssemblyEvent::Complete(msg) => {
            let line: Event = complete_line(from, &msg);
            let clip = Clip {
                from: from.to_owned(),
                to: voice_dest_str(msg.to),
                channel: msg.channel,
                codec: msg.codec,
            };
            match msg.codec {
                VoiceCodec::Codec2 => VoiceReaction::Play {
                    line,
                    job: DecodeJob::Codec2 { audio: msg.audio, codec_param: msg.codec_param },
                    clip,
                },
                VoiceCodec::Opus => VoiceReaction::Play {
                    line,
                    job: DecodeJob::Opus { audio: msg.audio, codec_param: msg.codec_param },
                    clip,
                },
                VoiceCodec::AmrNb => VoiceReaction::Play {
                    line,
                    job: DecodeJob::AmrNb { audio: msg.audio },
                    clip,
                },
                VoiceCodec::Other => VoiceReaction::NotPlayable { line },
            }
        },
        AssemblyEvent::Pending { received_data, total_data } => VoiceReaction::Show {
            line: pending_line(from, received_data, total_data),
        },
        AssemblyEvent::Nack { message_id, missing } => VoiceReaction::Retransmit {
            message_id,
            missing,
        },
        AssemblyEvent::Rejected => VoiceReaction::Ignore,
        AssemblyEvent::Other => VoiceReaction::Ignore,
    }
}

/// Plans the answer to a peer that misses chunks: nothing for a message that is not
/// known, or of which the registry gives out no chunks now.
pub fn plan_retransmit(
    from: &str,
    message_id: u32,
    sent: Option<SentMessage>,
    frames: Option<Vec<(u8, Vec<u8>)>>,
) -> (r: Option<Burst>)
    ensures
        r is Some <==> sent is Some && frames is Some,
        r matches Some(b) ==> {
            &&& b.line@ == log_of(retransmit_text(from@, message_id, frames->0@.len()))
            &&& b.message_id == message_id
            &&& b.total_data == sent->0.total_data
            &&& b.frames == frames->0
            &&& b.channel == sent->0.channel
            &&& b.to == sent->0.to
        },
{
    match (sent, frames) {
        (Some(meta), Some(frames)) => Some(
            Burst {
                line: retransmit_line(from, message_id, frames.len()),
                message_id,
                total_data: meta.total_data,
                frames,
                channel: meta.channel,
                to: meta.to,
            },
        ),
        _ => None,
    }
}

/// The text of a destination tells the addressee: two destinations with the same text
/// are the same, where the broadcast address is taken for everyone.
pub proof fn destination_text_is_unique(a: VoiceDestination, b: VoiceDestination)
    requires
        dest_text(a) == dest_text(b),
        a != VoiceDestination::Node(BROADCAST),
        b != VoiceDestination::Node(BROADCAST),
    ensures
        a == b,
{
    broadcast_text();
    reveal_strlit("0x");
    match (a, b) {
        (VoiceDestination::Node(x), VoiceDestination::Node(y)) => {
            assert(dest_text(a).skip(2) =~= hex(x as nat));
            assert(dest_text(b).skip(2) =~= hex(y as nat));
            hex_injective(x as nat, y as nat);
        },
        (VoiceDestination::Node(x), VoiceDestination::Broadcast) => {
            assert(dest_text(a).skip(2) =~= hex(x as nat));
            assert(dest_text(VoiceDestination::Node(BROADCAST)).skip(2) =~= hex(BROADCAST as nat));
            hex_injective(x as nat, BROADCAST as nat);
        },
        (VoiceDestination::Broadcast, VoiceDestination::Node(y)) => {
            assert(dest_text(b).skip(2) =~= hex(y as nat));
            assert(dest_text(VoiceDestination::Node(BROADCAST)).skip(2) =~= hex(BROADCAST as nat));
            hex_injective(y as nat, BROADCAST as nat);
        },
        _ => {},
    }
}

/// Everyone is addressed by the text of the broadcast address, as in text events.
pub proof fn broadcast_text()
    ensures
        dest_text(VoiceDestination::Broadcast) == dest_text(VoiceDestination::Node(BROADCAST)),
{
    reveal_strlit("0xffffffff");
    reveal_strlit("0x");
    reveal_with_fuel(hex, 9);
    assert(hex(BROADCAST as nat) =~= seq!['f', 'f', 'f', 'f', 'f', 'f', 'f', 'f']);
    assert(dest_text(VoiceDestination::Broadcast) =~= dest_text(VoiceDestination::Node(BROADCAST)));
}

} // verus!
