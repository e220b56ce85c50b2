//! Laws of received voice: a clip is played by the coder and in the mode that it was sent
//! in, and goes where it belongs.

use vstd::prelude::*;

use crate::events::{Event, Field, FieldValue, VoiceDestination};
use crate::laws::events::{is_object, summary};
use crate::laws::text::{hex_is_the_numeral, numeral_of};
use crate::text::{dec, hex};
use crate::voice::{
    clip_fields, codec_name, dest_text, fec_mode_from_u8, handle_voice, pacing, plan_retransmit,
    tick_should_exit, voice_dest_str, AssemblyEvent, Burst, Clip, DecodeJob, SentMessage,
    VoiceCodec, VoiceFecMode, VoiceMessage, VoiceReaction,
};

verus! {

/// `t` is a destination as text: `0x` and the hexadecimal numeral of the address, where
/// the broadcast address stands for everyone.
pub open spec fn is_destination(t: Seq<char>, to: VoiceDestination) -> bool {
    let id = match to {
        VoiceDestination::Broadcast => 0xffff_ffffu32,
        VoiceDestination::Node(id) => id,
    };
    &&& t.len() > 2
    &&& t[0] == '0'
    &&& t[1] == 'x'
    &&& numeral_of(t.skip(2), 16, id as int)
}

/// The text of a destination is its address.
pub proof fn destination_is_the_address(to: VoiceDestination)
    ensures
        is_destination(dest_text(to), to),
{
    reveal_strlit("0x");
    crate::voice::broadcast_text();
    let id = match to {
        VoiceDestination::Broadcast => 0xffff_ffffu32,
        VoiceDestination::Node(id) => id,
    };
    hex_is_the_numeral(id as nat);
    assert(dest_text(to) == "0x"@ + hex(id as nat));
    assert(dest_text(to).skip(2) =~= hex(id as nat));
}

/// A rendered destination is its address.
pub proof fn a_rendered_destination_is_the_address(to: VoiceDestination, r: String)
    requires
        call_ensures(voice_dest_str, (to,), r),
    ensures
        is_destination(r@, to),
{
    destination_is_the_address(to);
}

/// `name` is what the page calls the codec.
pub open spec fn codec_called(codec: VoiceCodec, name: Seq<char>) -> bool {
    match codec {
        VoiceCodec::Codec2 => name == "codec2"@,
        VoiceCodec::Opus => name == "opus"@,
        VoiceCodec::AmrNb => name == "amrnb"@,
        VoiceCodec::Other => name == "other"@,
    }
}

/// Every codec goes by its own name.
pub proof fn codecs_go_by_their_names(codec: VoiceCodec, r: &'static str)
    requires
        call_ensures(codec_name, (codec,), r),
    ensures
        codec_called(codec, r@),
{
}

/// The numbers of the error-correction policies, in the order of their strength.
pub proof fn parity_policies_are_counted(mode: u8, r: VoiceFecMode)
    requires
        call_ensures(fec_mode_from_u8, (mode,), r),
    ensures
        mode == 0 || mode > 4 <==> r is Auto,
        mode == 1 <==> r is Off,
        mode == 2 <==> r is Light,
        mode == 3 <==> r is Medium,
        mode == 4 <==> r is Heavy,
{
}

/// The pause between frames is the preset's, or 250 ms where none is known.
pub proof fn the_preset_sets_the_pace(preset_ms: Option<u64>, r: u64)
    requires
        call_ensures(pacing, (preset_ms,), r),
    ensures
        preset_ms matches Some(ms) ==> r == ms,
        preset_ms is None ==> r == 250,
{
}

/// The loop for missing chunks goes on as long as anyone else holds the client.
pub proof fn the_loop_outlives_no_one(holders: usize, r: bool)
    requires
        call_ensures(tick_should_exit, (holders,), r),
    ensures
        r <==> holders == 0 || holders == 1,
{
}

/// A complete message with a player is played from its own audio, by its own codec and,
/// where the codec has modes, in its own mode; its routing goes with it.
pub proof fn a_message_is_played_as_it_was_sent(
    from: &str,
    msg: VoiceMessage,
    r: VoiceReaction,
)
    requires
        call_ensures(handle_voice, (from, AssemblyEvent::Complete(msg)), r),
    ensures
        msg.codec is Other <==> r is NotPlayable,
        !(msg.codec is Other) <==> r is Play,
        r matches VoiceReaction::Play { line, job, clip } ==> {
            &&& msg.codec is Codec2 ==> (job matches DecodeJob::Codec2 { audio, codec_param }
                && audio@ == msg.audio@ && codec_param == msg.codec_param)
            &&& msg.codec is Opus ==> (job matches DecodeJob::Opus { audio, codec_param } && audio@
                == msg.audio@ && codec_param == msg.codec_param)
            &&& msg.codec is AmrNb ==> (job matches DecodeJob::AmrNb { audio } && audio@
                == msg.audio@)
            &&& clip.from@ == from@
            &&& is_destination(clip.to@, msg.to)
            &&& clip.channel == msg.channel
            &&& clip.codec == msg.codec
        },
{
    destination_is_the_address(msg.to);
}

/// Messages that differ in their mode alone are played in different modes.
pub proof fn the_mode_is_told_apart(
    from: &str,
    a: VoiceMessage,
    b: VoiceMessage,
    ra: VoiceReaction,
    rb: VoiceReaction,
)
    requires
        call_ensures(handle_voice, (from, AssemblyEvent::Complete(a)), ra),
        call_ensures(handle_voice, (from, AssemblyEvent::Complete(b)), rb),
        a.codec == b.codec,
        a.codec is Codec2 || a.codec is Opus,
        a.codec_param != b.codec_param,
    ensures
        ra->job != rb->job,
{
    a_message_is_played_as_it_was_sent(from, a, ra);
    a_message_is_played_as_it_was_sent(from, b, rb);
}

/// A complete message is announced with its sender, its destination, its channel and the
/// number of its chunks, whether it can be played or not.
pub proof fn a_message_is_announced(from: &str, msg: VoiceMessage, r: VoiceReaction, to: String)
    requires
        call_ensures(handle_voice, (from, AssemblyEvent::Complete(msg)), r),
        call_ensures(voice_dest_str, (msg.to,), to),
    ensures
        ({
            let line = match r {
                VoiceReaction::Play { line, .. } => line,
                VoiceReaction::NotPlayable { line } => line,
                VoiceReaction::Show { line } => line,
                _ => arbitrary(),
            };
            &&& is_object(line, "log"@, 2)
            &&& summary(line) == "🎙️ voice complete from "@ + from@ + " to "@ + to@ + " ch"@ + dec(
                msg.channel as nat,
            ) + " ("@ + dec(msg.total_data as nat) + " chunks)"@
        }),
{
    let line = match r {
        VoiceReaction::Play { line, .. } => line,
        VoiceReaction::NotPlayable { line } => line,
        VoiceReaction::Show { line } => line,
        _ => arbitrary(),
    };
    lemma_log_line(line);
}

proof fn lemma_log_line(line: Event)
    requires
        line@.len() == 2,
    ensures
        line.fields@.len() == 2,
        line.fields@[0]@ == line@[0],
        line.fields@[1]@ == line@[1],
{
    assert(line@.len() == line.fields@.len());
}

/// While chunks are missing, how many there are of how many is shown.
pub proof fn progress_is_shown(from: &str, received_data: u32, total_data: u32, r: VoiceReaction)
    requires
        call_ensures(
            handle_voice,
            (from, AssemblyEvent::<Vec<u8>>::Pending { received_data, total_data }),
            r,
        ),
    ensures
        r matches VoiceReaction::Show { line } && is_object(line, "log"@, 2) && summary(line)
            == "🎙️ voice "@ + dec(received_data as nat) + "/"@ + dec(total_data as nat) + " from "@
            + from@,
{
    lemma_log_line(r->Show_line);
}

/// A request for missing chunks is passed on as it came, and nothing else asks for any:
/// what was refused, and anything else, is ignored.
pub proof fn only_a_request_is_answered(from: &str, ev: AssemblyEvent, r: VoiceReaction)
    requires
        call_ensures(handle_voice, (from, ev), r),
    ensures
        ev matches AssemblyEvent::Nack { message_id, missing } ==> (
        r matches VoiceReaction::Retransmit { message_id: m, missing: c } && m == message_id && c@
            == missing@),
        ev is Nack <==> r is Retransmit,
        ev is Rejected || ev is Other <==> r is Ignore,
        ev is Pending <==> r is Show,
{
}

/// Chunks go out again if and only if the message is known and the registry gives them
/// out: just those chunks, to where the message went, under its own number.
pub proof fn missing_chunks_go_where_the_message_went(
    from: &str,
    message_id: u32,
    sent: Option<SentMessage>,
    frames: Option<Vec<(u8, Vec<u8>)>>,
    r: Option<Burst>,
)
    requires
        call_ensures(plan_retransmit, (from, message_id, sent, frames), r),
    ensures
        r is Some <==> sent is Some && frames is Some,
        r matches Some(b) ==> {
            &&& b.message_id == message_id
            &&& b.frames@ == frames->Some_0@
            &&& b.channel == sent->Some_0.channel
            &&& b.to == sent->Some_0.to
            &&& b.total_data == sent->Some_0.total_data
            &&& is_object(b.line, "log"@, 2)
            &&& summary(b.line) == "  ⟶ retransmitting "@ + dec(frames->Some_0@.len())
                + " chunk(s) for msg 0x"@ + hex(message_id as nat) + " (NACK from "@ + from@ + ")"@
        },
{
    if let Some(b) = r {
        lemma_log_line(b.line);
    }
}

/// A clip is described under its own names.
pub proof fn a_clip_is_described(clip: &Clip, rate: u32, r: Vec<Field>)
    requires
        call_ensures(clip_fields, (clip, rate), r),
    ensures
        r@.len() == 5,
        r@[0].key@ == "rate"@ && r@[0].value == FieldValue::<String>::Number(rate as i64),
        r@[1].key@ == "from"@ && (r@[1].value matches FieldValue::Text(t) && t@ == clip.from@),
        r@[2].key@ == "to"@ && (r@[2].value matches FieldValue::Text(t) && t@ == clip.to@),
        r@[3].key@ == "channel"@ && r@[3].value == FieldValue::<String>::Number(
            clip.channel as i64,
        ),
        r@[4].key@ == "codec"@ && (r@[4].value matches FieldValue::Text(t) && codec_called(
            clip.codec,
            t@,
        )),
{
    let views = r@.map_values(|f: Field| f@);
    assert(views.len() == r@.len());
    assert(views[0] == r@[0]@ && views[1] == r@[1]@ && views[2] == r@[2]@ && views[3] == r@[3]@
        && views[4] == r@[4]@);
}

} // verus!
