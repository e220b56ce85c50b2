//! Laws of the event objects: each field holds what the radio sent, under its own name,
//! and the summary line names it.

use vstd::prelude::*;

use crate::events::{
    build_event, emit_log, fmt_node, node_text, AckResult, ConfigSection, Event, Field, FieldValue,
    InboundEvent,
};
use crate::laws::text::{all_digits, hex_padded_is_the_number, number};
use crate::state::ProtocolState;
use crate::text::{dec, dec_signed, hex_padded};

verus! {

/// The `k`-th field of the object has this name and holds this number.
pub open spec fn number_at(e: Event, k: int, key: Seq<char>, n: int) -> bool {
    &&& e.fields@[k].key@ == key
    &&& e.fields@[k].value matches FieldValue::Number(v) && v == n
}

/// The `k`-th field of the object has this name and holds this text.
pub open spec fn text_at(e: Event, k: int, key: Seq<char>, t: Seq<char>) -> bool {
    &&& e.fields@[k].key@ == key
    &&& e.fields@[k].value matches FieldValue::Text(v) && v@ == t
}

/// The summary line of an object: its last field.
pub open spec fn summary(e: Event) -> Seq<char> {
    match e.fields@.last().value {
        FieldValue::Text(v) => v@,
        FieldValue::Number(_) => Seq::empty(),
    }
}

/// The object has this type, so many fields, and the summary as its last field.
pub open spec fn is_object(e: Event, kind: Seq<char>, fields: int) -> bool {
    &&& e.fields@.len() == fields
    &&& fields >= 2
    &&& text_at(e, 0, "type"@, kind)
    &&& text_at(e, fields - 1, "text"@, summary(e))
}

/// `t` is the address of a node as text: the word for everyone, or a mark and the eight
/// digits that stand for the address.
pub open spec fn is_address(t: Seq<char>, id: u32) -> bool {
    &&& id == 0xffff_ffff ==> t == "broadcast"@
    &&& id != 0xffff_ffff ==> t.len() == 9 && t[0] == '!' && all_digits(t.skip(1), 16) && number(
        t.skip(1),
        16,
    ) == id
}

/// The text of a node address.
pub open spec fn address(id: u32) -> Seq<char> {
    node_text(id)
}

/// The text of a name that may be missing.
pub open spec fn named(name: Option<String>) -> Seq<char> {
    match name {
        Some(n) => n@,
        None => "?"@,
    }
}

/// The text of a node address is its address.
pub proof fn address_is_the_address(id: u32)
    ensures
        is_address(address(id), id),
{
    if id != 0xffff_ffff {
        reveal_strlit("!");
        hex_padded_is_the_number(id as nat, 8);
        assert(vstd::arithmetic::power::pow(16, 8) == 0x1_0000_0000) by {
            reveal_with_fuel(vstd::arithmetic::power::pow, 9);
        }
        assert(address(id).skip(1) =~= hex_padded(id as nat, 8));
    }
}

/// A formatted node address is its address.
pub proof fn a_formatted_address_is_the_address(id: u32, r: String)
    requires
        call_ensures(fmt_node, (id,), r),
    ensures
        is_address(r@, id),
        r@ == address(id),
{
    address_is_the_address(id);
}

proof fn lemma_fields(e: Event, view: Seq<Field<Seq<char>>>)
    requires
        e@ == view,
    ensures
        e.fields@.len() == view.len(),
        forall|k: int| 0 <= k < view.len() ==> (#[trigger] e.fields@[k])@ == view[k],
{
    assert(e@.len() == e.fields@.len());
    assert forall|k: int| 0 <= k < view.len() implies (#[trigger] e.fields@[k])@ == view[k] by {
        assert(e@[k] == e.fields@[k]@);
    }
}

/// A log line holds its text.
pub proof fn a_log_line_holds_its_text(text: &str, r: Event)
    requires
        call_ensures(emit_log, (text,), r),
    ensures
        is_object(r, "log"@, 2),
        summary(r) == text@,
{
    lemma_fields(r, r@);
    assert(r.fields@[0]@ == r@[0] && r.fields@[1]@ == r@[1]);
}

/// The name of a configuration section.
pub open spec fn section_called(section: ConfigSection, name: Seq<char>) -> bool {
    match section {
        ConfigSection::Lora => name == "lora"@,
        ConfigSection::Device => name == "device"@,
        ConfigSection::Position => name == "position"@,
        ConfigSection::Power => name == "power"@,
        ConfigSection::Network => name == "network"@,
        ConfigSection::Display => name == "display"@,
        ConfigSection::Bluetooth => name == "bluetooth"@,
        ConfigSection::Other => name == "other"@,
    }
}

/// The object of a configuration event names its section.
pub proof fn a_config_event_names_its_section(
    section: ConfigSection,
    state: &ProtocolState,
    r: Event,
)
    requires
        call_ensures(build_event, (&InboundEvent::Config(section), state), r),
    ensures
        is_object(r, "config"@, 3),
        r.fields@[1].key@ == "section"@,
        r.fields@[1].value matches FieldValue::Text(name) && section_called(section, name@)
            && summary(r) == "Config: "@ + name@,
{
    lemma_fields(r, r@);
    assert(r.fields@[0]@ == r@[0] && r.fields@[1]@ == r@[1] && r.fields@[2]@ == r@[2]);
}

/// The object of a delivery report names the request and how it ended; the reason of a
/// failure stands in the summary.
pub proof fn a_delivery_report_tells_how_it_ended(
    request_id: u32,
    result: AckResult,
    state: &ProtocolState,
    r: Event,
)
    requires
        call_ensures(build_event, (&InboundEvent::AckOrNak { request_id, result }, state), r),
    ensures
        is_object(r, "ack_or_nak"@, 4),
        number_at(r, 1, "request_id"@, request_id as int),
        result is Delivered ==> text_at(r, 2, "status"@, "delivered"@) && summary(r) == "ack id=0x"@
            + hex_padded(request_id as nat, 8) + ": "@ + "delivered"@,
        result matches AckResult::Failed(e) ==> text_at(r, 2, "status"@, "failed"@) && summary(r)
            == "ack id=0x"@ + hex_padded(request_id as nat, 8) + ": "@ + ("failed: "@ + e@),
        result is TimedOut ==> text_at(r, 2, "status"@, "timed_out"@) && summary(r) == "ack id=0x"@
            + hex_padded(request_id as nat, 8) + ": "@ + "timed out"@,
        result is Cancelled ==> text_at(r, 2, "status"@, "cancelled"@) && summary(r)
            == "ack id=0x"@ + hex_padded(request_id as nat, 8) + ": "@ + "cancelled"@,
{
    lemma_fields(r, r@);
    assert(r.fields@[0]@ == r@[0] && r.fields@[1]@ == r@[1] && r.fields@[2]@ == r@[2]
        && r.fields@[3]@ == r@[3]);
}

/// The object for our own node holds each value under its own name, and sums it up.
pub proof fn a_my_info_event_names_our_node(ev: &InboundEvent, state: &ProtocolState, r: Event)
    requires
        call_ensures(build_event, (ev, state), r),
    ensures
        *ev matches InboundEvent::MyInfo { node_num } ==> {
            &&& is_object(r, "my_info"@, 3)
            &&& number_at(r, 1, "node_num"@, node_num as int)
            &&& summary(r) == "MyNodeInfo node_num="@ + address(node_num)
        },
{
    lemma_fields(r, r@);
    if ev is MyInfo {
        assert(r.fields@[0]@ == r@[0]);
        assert(r.fields@[1]@ == r@[1]);
        assert(r.fields@[2]@ == r@[2]);
    }
}

/// The object for a node holds each value under its own name, and sums it up.
pub proof fn a_node_event_names_the_node(ev: &InboundEvent, state: &ProtocolState, r: Event)
    requires
        call_ensures(build_event, (ev, state), r),
    ensures
        *ev matches InboundEvent::NodeInfo { num, long_name } ==> {
            &&& is_object(r, "node_info"@, 4)
            &&& number_at(r, 1, "node_num"@, num as int)
            &&& text_at(r, 2, "long_name"@, named(long_name))
            &&& summary(r) == "NodeInfo "@
                + address(num)
                + " \""@
                + named(long_name)
                + "\" (known nodes: "@
                + dec(state.node_count as nat)
                + ")"@
        },
{
    lemma_fields(r, r@);
    if ev is NodeInfo {
        assert(r.fields@[0]@ == r@[0]);
        assert(r.fields@[1]@ == r@[1]);
        assert(r.fields@[2]@ == r@[2]);
        assert(r.fields@[3]@ == r@[3]);
    }
}

/// The object for the owner holds each value under its own name, and sums it up.
pub proof fn an_owner_event_names_the_owner(ev: &InboundEvent, state: &ProtocolState, r: Event)
    requires
        call_ensures(build_event, (ev, state), r),
    ensures
        *ev matches InboundEvent::Owner { long_name } ==> {
            &&& is_object(r, "owner"@, 3)
            &&& text_at(r, 1, "long_name"@, long_name@)
            &&& summary(r) == "Owner \""@ + long_name@ + "\""@
        },
{
    lemma_fields(r, r@);
    if ev is Owner {
        assert(r.fields@[0]@ == r@[0]);
        assert(r.fields@[1]@ == r@[1]);
        assert(r.fields@[2]@ == r@[2]);
    }
}

/// The object for a channel holds each value under its own name, and sums it up.
pub proof fn a_channel_event_names_the_channel(ev: &InboundEvent, state: &ProtocolState, r: Event)
    requires
        call_ensures(build_event, (ev, state), r),
    ensures
        *ev matches InboundEvent::Channel { index } ==> {
            &&& is_object(r, "channel"@, 3)
            &&& number_at(r, 1, "index"@, index as int)
            &&& summary(r) == "Channel["@
                + dec_signed(index as int)
                + "] (total: "@
                + dec(state.channels@.len())
                + ")"@
        },
{
    lemma_fields(r, r@);
    if ev is Channel {
        assert(r.fields@[0]@ == r@[0]);
        assert(r.fields@[1]@ == r@[1]);
        assert(r.fields@[2]@ == r@[2]);
    }
}

/// The object for the firmware holds each value under its own name, and sums it up.
pub proof fn a_metadata_event_names_the_firmware(ev: &InboundEvent, state: &ProtocolState, r: Event)
    requires
        call_ensures(build_event, (ev, state), r),
    ensures
        *ev matches InboundEvent::Metadata { firmware_version } ==> {
            &&& is_object(r, "metadata"@, 3)
            &&& text_at(r, 1, "firmware_version"@, firmware_version@)
            &&& summary(r) == "Metadata fw="@ + firmware_version@
        },
{
    lemma_fields(r, r@);
    if ev is Metadata {
        assert(r.fields@[0]@ == r@[0]);
        assert(r.fields@[1]@ == r@[1]);
        assert(r.fields@[2]@ == r@[2]);
    }
}

/// The object for a complete configuration holds each value under its own name, and sums it up.
pub proof fn a_complete_configuration_is_summed_up(ev: &InboundEvent, state: &ProtocolState, r: Event)
    requires
        call_ensures(build_event, (ev, state), r),
    ensures
        *ev matches InboundEvent::ConfigComplete { nonce } ==> {
            &&& is_object(r, "config_complete"@, 3)
            &&& number_at(r, 1, "nonce"@, nonce as int)
            &&& summary(r) == "✅ ConfigComplete nonce="@
                + dec(nonce as nat)
                + " — READY (nodes="@
                + dec(state.node_count as nat)
                + ", channels="@
                + dec(state.channels@.len())
                + ", fw="@
                + named(state.firmware_version)
                + ")"@
        },
{
    lemma_fields(r, r@);
    if ev is ConfigComplete {
        assert(r.fields@[0]@ == r@[0]);
        assert(r.fields@[1]@ == r@[1]);
        assert(r.fields@[2]@ == r@[2]);
    }
}

/// The object for an incoming text holds its sender, its addressee, its channel and its
/// body, each under its own name, and sums it up.
pub proof fn an_incoming_text_tells_sender_addressee_and_body(
    ev: &InboundEvent,
    state: &ProtocolState,
    r: Event,
)
    requires
        call_ensures(build_event, (ev, state), r),
    ensures
        *ev matches InboundEvent::IncomingText { from, to, channel, text: body } ==> {
            &&& is_object(r, "incoming_text"@, 6)
            &&& number_at(r, 1, "from"@, from as int)
            &&& number_at(r, 2, "to"@, to as int)
            &&& number_at(r, 3, "channel"@, channel as int)
            &&& text_at(r, 4, "body"@, body@)
            &&& summary(r) == "💬 text from "@
                + address(from)
                + " to "@
                + address(to)
                + " ch"@
                + dec(channel as nat)
                + ": "@
                + body@
        },
{
    lemma_fields(r, r@);
    if ev is IncomingText {
        assert(r.fields@[0]@ == r@[0]);
        assert(r.fields@[1]@ == r@[1]);
        assert(r.fields@[2]@ == r@[2]);
        assert(r.fields@[3]@ == r@[3]);
        assert(r.fields@[4]@ == r@[4]);
        assert(r.fields@[5]@ == r@[5]);
    }
}

/// The object for incoming data holds each value under its own name, and sums it up.
pub proof fn incoming_data_tells_port_sender_and_length(ev: &InboundEvent, state: &ProtocolState, r: Event)
    requires
        call_ensures(build_event, (ev, state), r),
    ensures
        *ev matches InboundEvent::IncomingData { portnum, from, payload } ==> {
            &&& is_object(r, "incoming_data"@, 5)
            &&& number_at(r, 1, "port"@, portnum as int)
            &&& number_at(r, 2, "from"@, from as int)
            &&& number_at(r, 3, "len"@, (payload@.len() % 0x1_0000_0000) as int)
            &&& summary(r) == "data port="@
                + dec_signed(portnum as int)
                + " from="@
                + address(from)
                + " ("@
                + dec(payload@.len())
                + " bytes)"@
        },
{
    lemma_fields(r, r@);
    if ev is IncomingData {
        assert(r.fields@[0]@ == r@[0]);
        assert(r.fields@[1]@ == r@[1]);
        assert(r.fields@[2]@ == r@[2]);
        assert(r.fields@[3]@ == r@[3]);
        assert(r.fields@[4]@ == r@[4]);
    }
}

/// The object for a voice frame holds each value under its own name, and sums it up.
pub proof fn a_voice_frame_is_a_log_line(ev: &InboundEvent, state: &ProtocolState, r: Event)
    requires
        call_ensures(build_event, (ev, state), r),
    ensures
        *ev matches InboundEvent::Voice { from, payload, .. } ==> {
            &&& is_object(r, "log"@, 2)
            &&& summary(r) == "🎙️ voice from "@ + from@ + " ("@ + dec(payload@.len()) + " bytes)"@
        },
{
    lemma_fields(r, r@);
    if ev is Voice {
        assert(r.fields@[0]@ == r@[0]);
        assert(r.fields@[1]@ == r@[1]);
    }
}

/// The object for the radio's queue holds each value under its own name, and sums it up.
pub proof fn a_queue_report_tells_the_free_slots(ev: &InboundEvent, state: &ProtocolState, r: Event)
    requires
        call_ensures(build_event, (ev, state), r),
    ensures
        *ev matches InboundEvent::QueueStatus { free } ==> {
            &&& is_object(r, "queue_status"@, 3)
            &&& number_at(r, 1, "free"@, free as int)
            &&& summary(r) == "queue free="@ + dec(free as nat)
        },
{
    lemma_fields(r, r@);
    if ev is QueueStatus {
        assert(r.fields@[0]@ == r@[0]);
        assert(r.fields@[1]@ == r@[1]);
        assert(r.fields@[2]@ == r@[2]);
    }
}

/// The objects of two texts that differ in their addressee differ in that field, and a
/// text is shown as sent to everyone only if it was.
pub proof fn the_addressee_is_told_apart(
    a: &InboundEvent,
    b: &InboundEvent,
    state: &ProtocolState,
    ra: Event,
    rb: Event,
)
    requires
        call_ensures(build_event, (a, state), ra),
        call_ensures(build_event, (b, state), rb),
        a is IncomingText,
        b is IncomingText,
        a->IncomingText_to != b->IncomingText_to,
    ensures
        ra.fields@[2].key@ == "to"@,
        rb.fields@[2].key@ == "to"@,
        ra.fields@[2].value != rb.fields@[2].value,
        ra.fields@[2].value == FieldValue::<String>::Number(0xffff_ffff) ==> a->IncomingText_to
            == 0xffff_ffff,
{
    an_incoming_text_tells_sender_addressee_and_body(a, state, ra);
    an_incoming_text_tells_sender_addressee_and_body(b, state, rb);
}

} // verus!
