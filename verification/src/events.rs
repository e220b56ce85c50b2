//! Events for the page: every inbound event becomes a flat object whose first field
//! is `type` and whose last field is `text`, a one-line summary for the event log.

use vstd::prelude::*;

use crate::state::{viewed, ProtocolState, StateView};
use crate::text::{
    dec, dec_signed, hex_padded, hex_padded_injective, hex_padded_len, push_dec, push_dec_signed,
    push_hex_padded,
};

verus! {

/// The value of one field of an event object.
#[derive(Debug, PartialEq, Eq)]
pub enum FieldValue<S = String> {
    Text(S),
    Number(i64),
}

/// One field of an event object.
#[derive(Debug, PartialEq, Eq)]
pub struct Field<S = String> {
    pub key: S,
    pub value: FieldValue<S>,
}

impl View for Field<String> {
    type V = Field<Seq<char>>;

    open spec fn view(&self) -> Field<Seq<char>> {
        Field {
            key: self.key@,
            value: match self.value {
                FieldValue::Text(t) => FieldValue::Text(t@),
                FieldValue::Number(n) => FieldValue::Number(n),
            },
        }
    }
}

/// An event object: its fields in the order in which they are set.
#[derive(Debug, PartialEq, Eq)]
pub struct Event {
    pub fields: Vec<Field>,
}

impl View for Event {
    type V = Seq<Field<Seq<char>>>;

    open spec fn view(&self) -> Seq<Field<Seq<char>>> {
        self.fields@.map_values(|f: Field| f@)
    }
}

/// The configuration section that an event is about.
#[derive(Clone, Copy, Debug, PartialEq, Eq, Structural)]
pub enum ConfigSection {
    Lora,
    Device,
    Position,
    Power,
    Network,
    Display,
    Bluetooth,
    Other,
}

/// How the delivery of a message ended; a failure carries its reason as text.
#[derive(Debug, PartialEq, Eq)]
pub enum AckResult<S = String> {
    Delivered,
    Failed(S),
    TimedOut,
    Cancelled,
}

/// To whom a voice message is addressed.
#[derive(Clone, Copy, Debug, PartialEq, Eq, Structural)]
pub enum VoiceDestination {
    Broadcast,
    Node(u32),
}

/// What the radio has told the client. A voice frame names its sender by text.
#[derive(Debug, PartialEq, Eq)]
pub enum InboundEvent<S = String, B = Vec<u8>> {
    MyInfo { node_num: u32 },
    NodeInfo { num: u32, long_name: Option<S> },
    Owner { long_name: S },
    Config(ConfigSection),
    Channel { index: i32 },
    Metadata { firmware_version: S },
    ConfigComplete { nonce: u32 },
    IncomingText { from: u32, to: u32, channel: u32, text: S },
    IncomingData { portnum: i32, from: u32, payload: B },
    Voice { from: S, to: VoiceDestination, channel: u32, payload: B },
    QueueStatus { free: u32 },
    AckOrNak { request_id: u32, result: AckResult<S> },
}

impl View for AckResult<String> {
    type V = AckResult<Seq<char>>;

    open spec fn view(&self) -> AckResult<Seq<char>> {
        match *self {
            AckResult::Delivered => AckResult::Delivered,
            AckResult::Failed(e) => AckResult::Failed(e@),
            AckResult::TimedOut => AckResult::TimedOut,
            AckResult::Cancelled => AckResult::Cancelled,
        }
    }
}

impl View for InboundEvent<String, Vec<u8>> {
    type V = InboundEvent<Seq<char>, Seq<u8>>;

    open spec fn view(&self) -> InboundEvent<Seq<char>, Seq<u8>> {
        match *self {
            InboundEvent::MyInfo { node_num } => InboundEvent::MyInfo { node_num },
            InboundEvent::NodeInfo { num, long_name } => InboundEvent::NodeInfo {
                num,
                long_name: viewed(long_name),
            },
            InboundEvent::Owner { long_name } => InboundEvent::Owner { long_name: long_name@ },
            InboundEvent::Config(section) => InboundEvent::Config(section),
            InboundEvent::Channel { index } => InboundEvent::Channel { index },
            InboundEvent::Metadata { firmware_version } => InboundEvent::Metadata {
                firmware_version: firmware_version@,
            },
            InboundEvent::ConfigComplete { nonce } => InboundEvent::ConfigComplete { nonce },
            InboundEvent::IncomingText { from, to, channel, text } => InboundEvent::IncomingText {
                from,
                to,
                channel,
                text: text@,
            },
            InboundEvent::IncomingData { portnum, from, payload } => InboundEvent::IncomingData {
                portnum,
                from,
                payload: payload@,
            },
            InboundEvent::Voice { from, to, channel, payload } => InboundEvent::Voice {
                from: from@,
                to,
                channel,
                payload: payload@,
            },
            InboundEvent::QueueStatus { free } => InboundEvent::QueueStatus { free },
            InboundEvent::AckOrNak { request_id, result } => InboundEvent::AckOrNak {
                request_id,
                result: result@,
            },
        }
    }
}

/// The address that stands for every node.
pub const BROADCAST: u32 = 0xffff_ffff;

/// The canonical text of a node address: `!` and eight lower-case hexadecimal
/// digits, or the word `broadcast` for the broadcast address.
pub open spec fn node_text(id: u32) -> Seq<char> {
    if id == BROADCAST {
        "broadcast"@
    } else {
        "!"@ + hex_padded(id as nat, 8)
    }
}

/// A field that holds text.
pub open spec fn text_of(key: Seq<char>, text: Seq<char>) -> Field<Seq<char>> {
    Field { key, value: FieldValue::Text(text) }
}

/// A field that holds a number.
pub open spec fn number_of(key: Seq<char>, n: int) -> Field<Seq<char>> {
    Field { key, value: FieldValue::Number(n as i64) }
}

/// The value of an optional text, or a question mark.
pub open spec fn or_unknown(o: Option<Seq<char>>) -> Seq<char> {
    match o {
        Some(t) => t,
        None => "?"@,
    }
}

/// The name of a configuration section.
pub open spec fn section_text(section: ConfigSection) -> Seq<char> {
    match section {
        ConfigSection::Lora => "lora"@,
        ConfigSection::Device => "device"@,
        ConfigSection::Position => "position"@,
        ConfigSection::Power => "power"@,
        ConfigSection::Network => "network"@,
        ConfigSection::Display => "display"@,
        ConfigSection::Bluetooth => "bluetooth"@,
        ConfigSection::Other => "other"@,
    }
}

/// The word for a delivery result.
pub open spec fn ack_status(result: AckResult<Seq<char>>) -> Seq<char> {
    match result {
        AckResult::Delivered => "delivered"@,
        AckResult::Failed(_) => "failed"@,
        AckResult::TimedOut => "timed_out"@,
        AckResult::Cancelled => "cancelled"@,
    }
}

/// The summary of a delivery result.
pub open spec fn ack_summary(result: AckResult<Seq<char>>) -> Seq<char> {
    match result {
        AckResult::Delivered => "delivered"@,
        AckResult::Failed(e) => "failed: "@ + e,
        AckResult::TimedOut => "timed out"@,
        AckResult::Cancelled => "cancelled"@,
    }
}

/// The object of a line for the event log.
pub open spec fn log_of(text: Seq<char>) -> Seq<Field<Seq<char>>> {
    seq![text_of("type"@, "log"@), text_of("text"@, text)]
}

/// The one-line summary of an event.
pub open spec fn summary_of(ev: InboundEvent<Seq<char>, Seq<u8>>, state: StateView) -> Seq<char> {
    match ev {
        InboundEvent::MyInfo { node_num } => "MyNodeInfo node_num="@ + node_text(node_num),
        InboundEvent::NodeInfo { num, long_name } => "NodeInfo "@ + node_text(num) + " \""@
            + or_unknown(long_name) + "\" (known nodes: "@ + dec(state.node_count) + ")"@,
        InboundEvent::Owner { long_name } => "Owner \""@ + long_name + "\""@,
        InboundEvent::Config(section) => "Config: "@ + section_text(section),
        InboundEvent::Channel { index } => "Channel["@ + dec_signed(index as int) + "] (total: "@
            + dec(state.channels.len()) + ")"@,
        InboundEvent::Metadata { firmware_version } => "Metadata fw="@ + firmware_version,
        InboundEvent::ConfigComplete { nonce } => "✅ ConfigComplete nonce="@ + dec(nonce as nat)
            + " — READY (nodes="@ + dec(state.node_count) + ", channels="@ + dec(
            state.channels.len(),
        ) + ", fw="@ + or_unknown(state.firmware_version) + ")"@,
        InboundEvent::IncomingText { from, to, channel, text } => "💬 text from "@ + node_text(
            from,
        ) + " to "@ + node_text(to) + " ch"@ + dec(channel as nat) + ": "@ + text,
        InboundEvent::IncomingData { portnum, from, payload } => "data port="@ + dec_signed(
            portnum as int,
        ) + " from="@ + node_text(from) + " ("@ + dec(payload.len()) + " bytes)"@,
        InboundEvent::Voice { from, to, channel, payload } => "🎙️ voice from "@ + from + " ("@
            + dec(payload.len()) + " bytes)"@,
        InboundEvent::QueueStatus { free } => "queue free="@ + dec(free as nat),
        InboundEvent::AckOrNak { request_id, result } => "ack id=0x"@ + hex_padded(
            request_id as nat,
            8,
        ) + ": "@ + ack_summary(result),
    }
}

/// The fields of an event between its type and its summary.
pub open spec fn details_of(ev: InboundEvent<Seq<char>, Seq<u8>>) -> Seq<Field<Seq<char>>> {
    match ev {
        InboundEvent::MyInfo { node_num } => seq![number_of("node_num"@, node_num as int)],
        InboundEvent::NodeInfo { num, long_name } => seq![
            number_of("node_num"@, num as int),
            text_of("long_name"@, or_unknown(long_name)),
        ],
        InboundEvent::Owner { long_name } => seq![text_of("long_name"@, long_name)],
        InboundEvent::Config(section) => seq![text_of("section"@, section_text(section))],
        InboundEvent::Channel { index } => seq![number_of("index"@, index as int)],
        InboundEvent::Metadata { firmware_version } => seq![
            text_of("firmware_version"@, firmware_version),
        ],
        InboundEvent::ConfigComplete { nonce } => seq![number_of("nonce"@, nonce as int)],
        InboundEvent::IncomingText { from, to, channel, text } => seq![
            number_of("from"@, from as int),
            number_of("to"@, to as int),
            number_of("channel"@, channel as int),
            text_of("body"@, text),
        ],
        InboundEvent::IncomingData { portnum, from, payload } => seq![
            number_of("port"@, portnum as int),
            number_of("from"@, from as int),
            number_of("len"@, (payload.len() % 0x1_0000_0000) as int),
        ],
        InboundEvent::Voice { .. } => seq![],
        InboundEvent::QueueStatus { free } => seq![number_of("free"@, free as int)],
        InboundEvent::AckOrNak { request_id, result } => seq![
            number_of("request_id"@, request_id as int),
            text_of("status"@, ack_status(result)),
        ],
    }
}

/// The value of the `type` field of an event.
pub open spec fn type_of(ev: InboundEvent<Seq<char>, Seq<u8>>) -> Seq<char> {
    match ev {
        InboundEvent::MyInfo { .. } => "my_info"@,
        InboundEvent::NodeInfo { .. } => "node_info"@,
        InboundEvent::Owner { .. } => "owner"@,
        InboundEvent::Config(_) => "config"@,
        InboundEvent::Channel { .. } => "channel"@,
        InboundEvent::Metadata { .. } => "metadata"@,
        InboundEvent::ConfigComplete { .. } => "config_complete"@,
        InboundEvent::IncomingText { .. } => "incoming_text"@,
        InboundEvent::IncomingData { .. } => "incoming_data"@,
        InboundEvent::Voice { .. } => "log"@,
        InboundEvent::QueueStatus { .. } => "queue_status"@,
        InboundEvent::AckOrNak { .. } => "ack_or_nak"@,
    }
}

/// The object of an event: type, details, summary.
pub open spec fn event_of(
    ev: InboundEvent<Seq<char>, Seq<u8>>,
    state: StateView,
) -> Seq<Field<Seq<char>>> {
    seq![text_of("type"@, type_of(ev))] + details_of(ev) + seq![
        text_of("text"@, summary_of(ev, state)),
    ]
}

/// The canonical text of a node address.
pub fn fmt_node(id: u32) -> (r: String)
    ensures
        r@ == node_text(id),
{
    if id == BROADCAST {
        "broadcast".to_owned()
    } else {
        let mut out: String = "!".to_owned();
        push_hex_padded(&mut out, id, 8);
        out
    }
}

fn text_field(key: &str, text: String) -> (r: Field)
    ensures
        r@ == text_of(key@, text@),
{
    Field { key: key.to_owned(), value: FieldValue::Text(text) }
}

fn str_field(key: &str, text: &str) -> (r: Field)
    ensures
        r@ == text_of(key@, text@),
{
    Field { key: key.to_owned(), value: FieldValue::Text(text.to_owned()) }
}

fn number_field(key: &str, n: i64) -> (r: Field)
    ensures
        r@ == number_of(key@, n as int),
{
    Field { key: key.to_owned(), value: FieldValue::Number(n) }
}

fn section_name(section: ConfigSection) -> (r: &'static str)
    ensures
        r@ == section_text(section),
{
    match section {
        ConfigSection::Lora => "lora",
        ConfigSection::Device => "device",
        ConfigSection::Position => "position",
        ConfigSection::Power => "power",
        ConfigSection::Network => "network",
        ConfigSection::Display => "display",
        ConfigSection::Bluetooth => "bluetooth",
        ConfigSection::Other => "other",
    }
}

/// The object of a line for the event log, for text without structured fields.
pub fn emit_log(text: &str) -> (r: Event)
    ensures
        r@ == log_of(text@),
{
    let r = Event { fields: vec![str_field("type", "log"), str_field("text", text)] };
    assert(r@ =~= log_of(text@));
    r
}

fn event_type(ev: &InboundEvent) -> (r: &'static str)
    ensures
        r@ == type_of(ev@),
{
    match ev {
        InboundEvent::MyInfo { .. } => "my_info",
        InboundEvent::NodeInfo { .. } => "node_info",
        InboundEvent::Owner { .. } => "owner",
        InboundEvent::Config(_) => "config",
        InboundEvent::Channel { .. } => "channel",
        InboundEvent::Metadata { .. } => "metadata",
        InboundEvent::ConfigComplete { .. } => "config_complete",
        InboundEvent::IncomingText { .. } => "incoming_text",
        InboundEvent::IncomingData { .. } => "incoming_data",
        InboundEvent::Voice { .. } => "log",
        InboundEvent::QueueStatus { .. } => "queue_status",
        InboundEvent::AckOrNak { .. } => "ack_or_nak",
    }
}

fn event_details(ev: &InboundEvent) -> (r: Vec<Field>)
    ensures
        r@.map_values(|f: Field| f@) == details_of(ev@),
{
    let r: Vec<Field> = match ev {
        InboundEvent::MyInfo { node_num } => vec![number_field("node_num", *node_num as i64)],
        InboundEvent::NodeInfo { num, long_name } => {
            let name: Field = match long_name {
                Some(n) => text_field("long_name", n.clone()),
                None => str_field("long_name", "?"),
            };
            vec![number_field("node_num", *num as i64), name]
        },
        InboundEvent::Owner { long_name } => vec![text_field("long_name", long_name.clone())],
        InboundEvent::Config(section) => vec![str_field("section", section_name(*section))],
        InboundEvent::Channel { index } => vec![number_field("index", *index as i64)],
        InboundEvent::Metadata { firmware_version } => vec![
            text_field("firmware_version", firmware_version.clone()),
        ],
        InboundEvent::ConfigComplete { nonce } => vec![number_field("nonce", *nonce as i64)],
        InboundEvent::IncomingText { from, to, channel, text } => vec![
            number_field("from", *from as i64),
            number_field("to", *to as i64),
            number_field("channel", *channel as i64),
            text_field("body", text.clone()),
        ],
        InboundEvent::IncomingData { portnum, from, payload } => {
            let len: u64 = payload.len() as u64 % 0x1_0000_0000;
            vec![
                number_field("port", *portnum as i64),
                number_field("from", *from as i64),
                number_field("len", len as i64),
            ]
        },
        InboundEvent::Voice { .. } => Vec::new(),
        InboundEvent::QueueStatus { free } => vec![number_field("free", *free as i64)],
        InboundEvent::AckOrNak { request_id, result } => {
            let status: &str = match result {
                AckResult::Delivered => "delivered",
                AckResult::Failed(_) => "failed",
                AckResult::TimedOut => "timed_out",
                AckResult::Cancelled => "cancelled",
            };
            vec![number_field("request_id", *request_id as i64), str_field("status", status)]
        },
    };
    assert(r@.map_values(|f: Field| f@) =~= details_of(ev@));
    r
}

fn event_summary(ev: &InboundEvent, state: &ProtocolState) -> (r: String)
    ensures
        r@ == summary_of(ev@, state@),
{
    let mut out: String = String::new();
    match ev {
        InboundEvent::MyInfo { node_num } => {
            out = "MyNodeInfo node_num=".to_owned();
            out.append(fmt_node(*node_num).as_str());
        },
        InboundEvent::NodeInfo { num, long_name } => {
            out = "NodeInfo ".to_owned();
            out.append(fmt_node(*num).as_str());
            out.append(" \"");
            match long_name {
                Some(n) => out.append(n.as_str()),
                None => out.append("?"),
            }
            out.append("\" (known nodes: ");
            push_dec(&mut out, state.node_count as u64);
            out.append(")");
        },
        InboundEvent::Owner { long_name } => {
            out = "Owner \"".to_owned();
            out.append(long_name.as_str());
            out.append("\"");
        },
        InboundEvent::Config(section) => {
            out = "Config: ".to_owned();
            out.append(section_name(*section));
        },
        InboundEvent::Channel { index } => {
            out = "Channel[".to_owned();
            push_dec_signed(&mut out, *index);
            out.append("] (total: ");
            push_dec(&mut out, state.channels.len() as u64);
            out.append(")");
        },
        InboundEvent::Metadata { firmware_version } => {
            out = "Metadata fw=".to_owned();
            out.append(firmware_version.as_str());
        },
        InboundEvent::ConfigComplete { nonce } => {
            out = "✅ ConfigComplete nonce=".to_owned();
            push_dec(&mut out, *nonce as u64);
            out.append(" — READY (nodes=");
            push_dec(&mut out, state.node_count as u64);
            out.append(", channels=");
            push_dec(&mut out, state.channels.len() as u64);
            out.append(", fw=");
            match &state.firmware_version {
                Some(v) => out.append(v.as_str()),
                None => out.append("?"),
            }
            out.append(")");
        },
        InboundEvent::IncomingText { from, to, channel, text } => {
            out = "💬 text from ".to_owned();
            out.append(fmt_node(*from).as_str());
            out.append(" to ");
            out.append(fmt_node(*to).as_str());
            out.append(" ch");
            push_dec(&mut out, *channel as u64);
            out.append(": ");
            out.append(text.as_str());
        },
        InboundEvent::IncomingData { portnum, from, payload } => {
            out = "data port=".to_owned();
            push_dec_signed(&mut out, *portnum);
            out.append(" from=");
            out.append(fmt_node(*from).as_str());
            out.append(" (");
            push_dec(&mut out, payload.len() as u64);
            out.append(" bytes)");
        },
        InboundEvent::Voice { from, payload, .. } => {
            out = "🎙️ voice from ".to_owned();
            out.append(from.as_str());
            out.append(" (");
            push_dec(&mut out, payload.len() as u64);
            out.append(" bytes)");
        },
        InboundEvent::QueueStatus { free } => {
            out = "queue free=".to_owned();
            push_dec(&mut out, *free as u64);
        },
        InboundEvent::AckOrNak { request_id, result } => {
            out = "ack id=0x".to_owned();
            push_hex_padded(&mut out, *request_id, 8);
            out.append(": ");
            let ghost before = out@;
            match result {
                AckResult::Delivered => out.append("delivered"),
                AckResult::Failed(e) => {
                    out.append("failed: ");
                    out.append(e.as_str());
                },
                AckResult::TimedOut => out.append("timed out"),
                AckResult::Cancelled => out.append("cancelled"),
            }
            assert(out@ =~= before + ack_summary(result@));
        },
    }
    out
}

/// Builds the event object of an inbound event. Counts and the firmware version in
/// the summary come from the state.
pub fn build_event(ev: &InboundEvent, state: &ProtocolState) -> (r: Event)
    ensures
        r@ == event_of(ev@, state@),
{
    let mut fields: Vec<Field> = vec![str_field("type", event_type(ev))];
    let mut details: Vec<Field> = event_details(ev);
    let ghost middle = details@;
    fields.append(&mut details);
    fields.push(text_field("text", event_summary(ev, state)));
    let r = Event { fields };
    proof {
        assert(middle.map_values(|f: Field| f@) == details_of(ev@));
        assert forall|i: int| 0 <= i < middle.len() implies (#[trigger] middle[i])@ == details_of(
            ev@,
        )[i] by {
            assert(middle.map_values(|f: Field| f@)[i] == middle[i]@);
        }
        assert(details_of(ev@).len() == middle.len());
        assert(r@ =~= event_of(ev@, state@));
    }
    r
}

/// Every event object begins with its type and ends with its one-line summary.
pub proof fn every_event_has_type_and_text(
    ev: InboundEvent<Seq<char>, Seq<u8>>,
    state: StateView,
)
    ensures
        event_of(ev, state).len() >= 2,
        event_of(ev, state).first() == text_of("type"@, type_of(ev)),
        event_of(ev, state).last() == text_of("text"@, summary_of(ev, state)),
{
}

/// No field of an event object is set twice.
pub proof fn fields_are_set_once(
    ev: InboundEvent<Seq<char>, Seq<u8>>,
    state: StateView,
    i: int,
    j: int,
)
    requires
        0 <= i < j < event_of(ev, state).len(),
    ensures
        event_of(ev, state)[i].key != event_of(ev, state)[j].key,
{
    reveal_strlit("type");
    reveal_strlit("text");
    reveal_strlit("node_num");
    reveal_strlit("long_name");
    reveal_strlit("section");
    reveal_strlit("index");
    reveal_strlit("firmware_version");
    reveal_strlit("nonce");
    reveal_strlit("from");
    reveal_strlit("to");
    reveal_strlit("channel");
    reveal_strlit("body");
    reveal_strlit("port");
    reveal_strlit("len");
    reveal_strlit("free");
    reveal_strlit("request_id");
    reveal_strlit("status");
    assert("type"@[0] == 't' && "type"@[1] == 'y');
    assert("text"@[0] == 't' && "text"@[1] == 'e');
    assert("from"@[0] == 'f' && "from"@[1] == 'r');
    assert("body"@[0] == 'b' && "port"@[0] == 'p' && "free"@[0] == 'f');
    let e = event_of(ev, state);
    let d = details_of(ev);
    let n = d.len() as int;
    assert(e.len() == n + 2 && n <= 4);
    assert(e[0].key == "type"@ && e[n + 1].key == "text"@);
    assert forall|k: int| 1 <= k <= n implies (#[trigger] e[k]) == d[k - 1] by {}
    match ev {
        InboundEvent::IncomingText { .. } => {
            assert(e[1].key == "from"@ && e[2].key == "to"@ && e[3].key == "channel"@ && e[4].key
                == "body"@);
        },
        InboundEvent::IncomingData { .. } => {
            assert(e[1].key == "port"@ && e[2].key == "from"@ && e[3].key == "len"@);
        },
        InboundEvent::NodeInfo { .. } => {
            assert(e[1].key == "node_num"@ && e[2].key == "long_name"@);
        },
        InboundEvent::AckOrNak { .. } => {
            assert(e[1].key == "request_id"@ && e[2].key == "status"@);
        },
        InboundEvent::Voice { .. } => {
            assert(n == 0);
        },
        _ => {
            assert(n == 1);
            assert(e[1] == d[0]);
        },
    }
}

/// Different node addresses have different texts.
pub proof fn node_text_is_unique(a: u32, b: u32)
    requires
        node_text(a) == node_text(b),
    ensures
        a == b,
{
    reveal_strlit("broadcast");
    reveal_strlit("!");
    hex_padded_len(a as nat, 8);
    hex_padded_len(b as nat, 8);
    if a != BROADCAST && b != BROADCAST {
        assert(node_text(a).skip(1) =~= hex_padded(a as nat, 8));
        assert(node_text(b).skip(1) =~= hex_padded(b as nat, 8));
        reveal_with_fuel(vstd::arithmetic::power::pow, 9);
        assert(vstd::arithmetic::power::pow(16, 8) == 0x1_0000_0000);
        hex_padded_injective(a as nat, b as nat, 8);
    } else if a != BROADCAST {
        assert(node_text(a)[0] == '!');
        assert(node_text(b)[0] == 'b');
    } else if b != BROADCAST {
        assert(node_text(b)[0] == '!');
        assert(node_text(a)[0] == 'b');
    }
}

/// The text of a node address other than broadcast has nine characters: the mark and
/// eight digits.
pub proof fn node_text_has_fixed_width(id: u32)
    requires
        id != BROADCAST,
    ensures
        node_text(id).len() == 9,
{
    reveal_strlit("!");
    hex_padded_len(id as nat, 8);
}

} // verus!
