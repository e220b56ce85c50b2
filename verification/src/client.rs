//! The client of one connection: what it knows about the radio, its send settings and
//! its packet ids. Its methods plan what is to be built, written or shown; the page
//! performs the plans and reports back.

use vstd::prelude::*;

use crate::ble::{campaign_starts, new_link, request_starts, BleLink};
use crate::events::{build_event, event_of, Event, InboundEvent, VoiceDestination};
use crate::serial::{frame_of, frame_serial};
use crate::settings::{
    bluetooth_overlay, bluetooth_payload, build_snapshot, channel_overlay, channel_payload,
    device_overlay, device_payload, display_overlay, display_payload, fixed_position_payload,
    lora_overlay, lora_payload, network_overlay, network_payload, owner_overlay, owner_payload,
    position_overlay, position_payload, power_overlay, power_payload, snapshot_of, AdminPayload,
    BluetoothDto, ChannelDto, ConfigPayload, DeviceDto, DisplayDto, FixedPositionDto, LoraDto,
    NetworkDto, OwnerDto, PositionDto, PowerDto, Snapshot,
};
use crate::state::{ProtocolState, StateView, User};
use crate::util::rand_u32;

verus! {

/// Codec2 mode of a new client: 3200 bit/s, the best quality.
pub const DEFAULT_CODEC2_MODE: u8 = 0;

/// AMR-NB mode of a new client: 7.95 kbit/s.
pub const DEFAULT_AMRNB_MODE: u8 = 5;

/// Opus bit rate of a new client in kbit/s.
pub const DEFAULT_OPUS_KBPS: u8 = 12;

/// The codecs that outgoing voice can use.
#[derive(Clone, Copy, Debug, PartialEq, Eq, Structural)]
pub enum SendCodec {
    Codec2,
    AmrNb,
    Opus,
}

/// How the radio is attached.
#[derive(Clone, Copy, Debug, PartialEq, Eq, Structural)]
pub enum Transport {
    Serial,
    Ble(BleLink),
}

/// A packet for the radio, by what it is built from.
#[derive(Debug, PartialEq, Eq)]
pub enum Packet<S = String, B = Vec<u8>> {
    /// Ask the radio for its whole configuration.
    WantConfig { nonce: u32 },
    /// A text message; without an addressee it is broadcast.
    Text { id: u32, text: S, channel: u32, to: Option<u32> },
    /// Our own identity, with a request that peers answer with theirs.
    NodeInfoRequest { id: u32, owner: User<S, B>, channel: u32 },
    /// An admin message to the node `to`.
    Admin { id: u32, to: u32, payload: AdminPayload<S, B> },
    /// A frame on the private application port.
    PrivateData {
        id: u32,
        frame: B,
        channel: u32,
        to: Option<u32>,
        want_ack: bool,
        want_response: bool,
    },
}

impl View for Packet<String, Vec<u8>> {
    type V = Packet<Seq<char>, Seq<u8>>;

    open spec fn view(&self) -> Packet<Seq<char>, Seq<u8>> {
        match *self {
            Packet::WantConfig { nonce } => Packet::WantConfig { nonce },
            Packet::Text { id, text, channel, to } => Packet::Text { id, text: text@, channel, to },
            Packet::NodeInfoRequest { id, owner, channel } => Packet::NodeInfoRequest {
                id,
                owner: owner@,
                channel,
            },
            Packet::Admin { id, to, payload } => Packet::Admin { id, to, payload: payload@ },
            Packet::PrivateData {
                id,
                frame,
                channel,
                to,
                want_ack,
                want_response,
            } => Packet::PrivateData { id, frame: frame@, channel, to, want_ack, want_response },
        }
    }
}

/// One step of bringing a connection up.
#[derive(Clone, Copy, Debug, PartialEq, Eq, Structural)]
pub enum StartStep {
    /// Listen for the loss of the Bluetooth link.
    ListenForDisconnect,
    /// Listen for announcements of data, and turn them on.
    ListenForNotifications,
    /// Start the loop that reads the serial stream.
    StartReadLoop,
    /// Drain what the radio holds already.
    Drain,
    /// Start the loop that polls the radio's outbox.
    StartPollLoop,
    /// Start the loop that asks for missing voice chunks.
    StartNackLoop,
    /// Load the AMR-NB coder.
    InitAmrnb,
    /// Load the Opus coder.
    InitOpus,
    /// Ask the radio for its whole configuration.
    WantConfig { nonce: u32 },
}

/// One step of taking a connection down. A step that fails does not keep the others
/// from being tried.
#[derive(Clone, Copy, Debug, PartialEq, Eq, Structural)]
pub enum StopStep {
    CancelReader,
    CloseWriter,
    ClosePort,
    StopNotifications,
    RemoveNotifyListener,
    RemoveDisconnectListener,
    DisconnectGatt,
    ForgetDevice,
}

/// One event of a payload, with the state that it leaves behind where it reports
/// something about the radio.
#[derive(Debug, PartialEq, Eq)]
pub struct Inbound {
    pub event: InboundEvent,
    pub state: Option<ProtocolState>,
}

/// What is to be done about an inbound event.
#[derive(Debug, PartialEq, Eq)]
pub enum Handling {
    /// Show the event object to the page.
    Emit(Event),
    /// Hand the voice frame to the reassembler. The modem preset, where it is known,
    /// sets the pace of chunks that are sent again.
    Voice {
        from: String,
        to: VoiceDestination,
        channel: u32,
        payload: Vec<u8>,
        modem_preset: Option<i32>,
    },
}

/// A request for missing chunks. The node is absent where its name is malformed.
#[derive(Debug, PartialEq, Eq)]
pub struct NackRequest {
    pub node: Option<u32>,
    pub frame: Vec<u8>,
    pub channel: u32,
}

/// What is to be done about a quiet radio.
#[derive(Clone, Copy, Debug, PartialEq, Eq, Structural)]
pub enum Probe {
    /// Nothing yet.
    Quiet,
    /// Ask for the configuration, to see whether the radio still answers.
    Send,
    /// Ask, and report that the radio has not answered before.
    SendAndReport,
}

/// The client of one connection.
#[derive(Debug, PartialEq, Eq)]
pub struct WebClient {
    pub transport: Transport,
    /// What the radio has reported.
    pub state: ProtocolState,
    /// The packet id that was given out last.
    pub next_id: u32,
    /// Free slots in the radio's send queue, as last reported.
    pub queue_free: u32,
    /// Run captured audio through the noise filter.
    pub denoise_enabled: bool,
    /// Codec2 mode for outgoing voice.
    pub codec_param: u8,
    pub send_codec: SendCodec,
    /// AMR-NB mode for outgoing voice.
    pub amrnb_mode: u8,
    /// Opus bit rate in kbit/s for outgoing voice.
    pub opus_kbps: u8,
    /// Error-correction policy for outgoing voice: automatic, off, light, medium, heavy.
    pub fec_mode: u8,
    /// Probes sent to a quiet radio since it was last heard.
    pub silent_probes: u32,
}

/// `client` is new: nothing is known of the radio, and every setting has its default.
pub open spec fn fresh(client: WebClient, transport: Transport, seed: u32) -> bool {
    &&& client.transport == transport
    &&& client.state@ == (StateView {
        my_node_num: None,
        firmware_version: None,
        owner: None,
        lora: None,
        device: None,
        position: None,
        power: None,
        network: None,
        display: None,
        bluetooth: None,
        channels: Seq::empty(),
        node_count: 0,
    })
    &&& client.next_id == seed
    &&& client.queue_free == u32::MAX
    &&& client.denoise_enabled
    &&& client.codec_param == DEFAULT_CODEC2_MODE
    &&& client.send_codec == SendCodec::Codec2
    &&& client.amrnb_mode == DEFAULT_AMRNB_MODE
    &&& client.opus_kbps == DEFAULT_OPUS_KBPS
    &&& client.fec_mode == 0
    &&& client.silent_probes == 0
}

/// A new client over the transport, with the steps that bring the connection up.
pub open spec fn connects(
    r: (WebClient, Vec<StartStep>),
    transport: Transport,
    seed: u32,
    nonce: u32,
) -> bool {
    &&& fresh(r.0, transport, seed)
    &&& r.1@ == start_steps(transport, nonce)
}

/// The packet id that follows `last`: the next number, passing over zero.
pub open spec fn following_id(last: u32) -> u32 {
    if last == u32::MAX {
        1
    } else {
        (last + 1) as u32
    }
}

/// The client with one more packet id given out.
pub open spec fn id_taken(client: WebClient) -> WebClient {
    WebClient { next_id: following_id(client.next_id), ..client }
}

/// The text of the error when the radio's own node number is not known.
pub open spec fn own_node_unknown() -> Seq<char> {
    "not connected — own node number unknown"@
}

/// The text of the error when the radio's owner is not known.
pub open spec fn owner_unknown() -> Seq<char> {
    "owner not yet known — wait for ConfigComplete"@
}

/// `r` is how an admin message is planned: it goes to our own node under the next
/// packet id, or is refused, with nothing changed, while our node is not known.
pub open spec fn plans_admin(
    before: WebClient,
    payload: AdminPayload<Seq<char>, Seq<u8>>,
    r: Result<Packet, String>,
    after: WebClient,
) -> bool {
    match before.state.my_node_num {
        Some(to) => {
            &&& r matches Ok(p) && p@ == (Packet::<Seq<char>, Seq<u8>>::Admin {
                id: following_id(before.next_id),
                to,
                payload,
            })
            &&& after == id_taken(before)
        },
        None => {
            &&& r matches Err(e) && e@ == own_node_unknown()
            &&& after == before
        },
    }
}

/// The name by which the page picks a codec; any other name picks none.
pub open spec fn codec_named(name: Seq<char>) -> Option<SendCodec> {
    if name == "codec2"@ {
        Some(SendCodec::Codec2)
    } else if name == "amrnb"@ || name == "amr-nb"@ || name == "AMR-NB"@ {
        Some(SendCodec::AmrNb)
    } else if name == "opus"@ || name == "Opus"@ || name == "OPUS"@ {
        Some(SendCodec::Opus)
    } else {
        None
    }
}

/// The steps that bring up a connection over the transport.
pub open spec fn start_steps(transport: Transport, nonce: u32) -> Seq<StartStep> {
    let common = seq![
        StartStep::StartNackLoop,
        StartStep::InitAmrnb,
        StartStep::InitOpus,
        StartStep::WantConfig { nonce },
    ];
    match transport {
        Transport::Serial => seq![StartStep::StartReadLoop] + common,
        Transport::Ble(link) => if link.has_from_num {
            seq![
                StartStep::ListenForDisconnect,
                StartStep::ListenForNotifications,
                StartStep::Drain,
            ] + common
        } else {
            seq![StartStep::ListenForDisconnect, StartStep::Drain, StartStep::StartPollLoop]
                + common
        },
    }
}

/// The steps that take down a connection over the transport.
pub open spec fn stop_steps(transport: Transport) -> Seq<StopStep> {
    match transport {
        Transport::Serial => seq![
            StopStep::CancelReader,
            StopStep::CloseWriter,
            StopStep::ClosePort,
        ],
        Transport::Ble(link) => if link.has_from_num {
            seq![
                StopStep::StopNotifications,
                StopStep::RemoveNotifyListener,
                StopStep::RemoveDisconnectListener,
                StopStep::DisconnectGatt,
            ]
        } else {
            seq![StopStep::RemoveDisconnectListener, StopStep::DisconnectGatt]
        },
    }
}

/// The transport after the user ended the connection.
pub open spec fn stopped(transport: Transport) -> Transport {
    match transport {
        Transport::Serial => Transport::Serial,
        Transport::Ble(link) => Transport::Ble(BleLink { stopped: true, ..link }),
    }
}

/// The `n`-th probe of a quiet radio is due after `n` quiet windows.
pub open spec fn probe_due(quiet_ms: u64, window_ms: u64, sent: u32) -> bool {
    quiet_ms >= window_ms * (sent + 1)
}

/// The radio's modem preset, where it is known.
pub open spec fn preset_of(state: StateView) -> Option<i32> {
    match state.lora {
        Some(lora) => Some(lora.modem_preset),
        None => None,
    }
}

/// The state after an event of a payload.
pub open spec fn state_after(state: ProtocolState, inbound: Inbound) -> ProtocolState {
    match inbound.state {
        Some(s) => s,
        None => state,
    }
}

/// The client after an event of a payload.
pub open spec fn after_event(client: WebClient, inbound: Inbound) -> WebClient {
    WebClient {
        state: state_after(client.state, inbound),
        queue_free: match inbound.event {
            InboundEvent::QueueStatus { free } => free,
            _ => client.queue_free,
        },
        ..client
    }
}

/// The client after a number of events.
pub open spec fn after_events(client: WebClient, events: Seq<Inbound>) -> WebClient
    decreases events.len(),
{
    if events.len() == 0 {
        client
    } else {
        after_event(after_events(client, events.drop_last()), events.last())
    }
}

/// `r` is what is to be done about an event that comes to the client.
pub open spec fn handles(client: WebClient, inbound: Inbound, r: Handling) -> bool {
    let state = state_after(client.state, inbound)@;
    match inbound.event {
        InboundEvent::Voice { from, to, channel, payload } => r == (Handling::Voice {
            from,
            to,
            channel,
            payload,
            modem_preset: preset_of(state),
        }),
        _ => r matches Handling::Emit(e) && e@ == event_of(inbound.event@, state),
    }
}

fn same_text(a: &str, b: &str) -> (r: bool)
    ensures
        r == (a@ == b@),
{
    let x: String = a.to_owned();
    let y: String = b.to_owned();
    x == y
}

/// The request for the whole configuration under a given nonce.
pub fn want_config(nonce: u32) -> (r: Packet)
    ensures
        r@ == (Packet::<Seq<char>, Seq<u8>>::WantConfig { nonce }),
{
    Packet::WantConfig { nonce }
}

/// A new client over the transport: packet ids follow `seed`, and the configuration
/// is asked for under `nonce`.
pub fn connect_with(transport: Transport, seed: u32, nonce: u32) -> (r: (
    WebClient,
    Vec<StartStep>,
))
    ensures
        connects(r, transport, seed, nonce),
        r.0.wf(),
{
    let mut steps: Vec<StartStep> = Vec::new();
    match transport {
        Transport::Serial => {
            steps.push(StartStep::StartReadLoop);
        },
        Transport::Ble(link) => {
            steps.push(StartStep::ListenForDisconnect);
            if link.has_from_num {
                steps.push(StartStep::ListenForNotifications);
            }
            steps.push(StartStep::Drain);
            if !link.has_from_num {
                steps.push(StartStep::StartPollLoop);
            }
        },
    }
    steps.push(StartStep::StartNackLoop);
    steps.push(StartStep::InitAmrnb);
    steps.push(StartStep::InitOpus);
    steps.push(StartStep::WantConfig { nonce });
    assert(steps@ =~= start_steps(transport, nonce));
    (WebClient::new(transport, seed), steps)
}

/// Connects over a serial port that was opened: a new client with random packet ids,
/// and the steps that bring the connection up.
pub fn connect() -> (r: (WebClient, Vec<StartStep>))
    ensures
        exists|seed: u32, nonce: u32| #[trigger] connects(r, Transport::Serial, seed, nonce),
        r.0.wf(),
{
    let seed: u32 = rand_u32();
    let nonce: u32 = rand_u32();
    connect_with(Transport::Serial, seed, nonce)
}

/// Connects over a Bluetooth link that was opened. Without announcements of data the
/// radio's outbox is polled.
pub fn connect_ble(has_from_num: bool) -> (r: (WebClient, Vec<StartStep>))
    ensures
        exists|seed: u32, nonce: u32| #[trigger]
            connects(r, Transport::Ble(new_link(has_from_num)), seed, nonce),
        r.0.wf(),
{
    let seed: u32 = rand_u32();
    let nonce: u32 = rand_u32();
    let link: BleLink = BleLink::new(has_from_num);
    let r: (WebClient, Vec<StartStep>) = connect_with(Transport::Ble(link), seed, nonce);
    assert(connects(r, Transport::Ble(new_link(has_from_num)), seed, nonce));
    r
}

impl WebClient {
    /// The send settings are in range.
    pub open spec fn wf(self) -> bool {
        &&& self.codec_param <= 5
        &&& self.amrnb_mode <= 7
        &&& 6 <= self.opus_kbps <= 128
        &&& self.fec_mode <= 4
    }

    /// A new client over the transport, with packet ids that follow `seed`.
    pub fn new(transport: Transport, seed: u32) -> (r: Self)
        ensures
            fresh(r, transport, seed),
            r.wf(),
    {
        WebClient {
            transport,
            state: ProtocolState::new(),
            next_id: seed,
            queue_free: u32::MAX,
            denoise_enabled: true,
            codec_param: DEFAULT_CODEC2_MODE,
            send_codec: SendCodec::Codec2,
            amrnb_mode: DEFAULT_AMRNB_MODE,
            opus_kbps: DEFAULT_OPUS_KBPS,
            fec_mode: 0,
            silent_probes: 0,
        }
    }

    /// Gives out the next packet id, which is never zero.
    pub fn alloc_id(&mut self) -> (id: u32)
        ensures
            id == following_id(old(self).next_id),
            id != 0,
            *final(self) == id_taken(*old(self)),
            old(self).wf() ==> final(self).wf(),
    {
        let mut id: u32 = self.next_id.wrapping_add(1);
        if id == 0 {
            id = 1;
        }
        self.next_id = id;
        id
    }

    /// The bytes that carry an encoded packet to the radio: framed on a serial line,
    /// as they are over Bluetooth, where the write is noted for the polling loop.
    pub fn write_payload(&mut self, encoded: Vec<u8>) -> (r: Vec<u8>)
        ensures
            r@ == (match old(self).transport {
                Transport::Serial => frame_of(encoded@),
                Transport::Ble(_) => encoded@,
            }),
            *final(self) == (WebClient {
                transport: match old(self).transport {
                    Transport::Serial => Transport::Serial,
                    Transport::Ble(link) => Transport::Ble(BleLink { wrote: true, ..link }),
                },
                ..*old(self)
            }),
            old(self).wf() ==> final(self).wf(),
    {
        match self.transport {
            Transport::Serial => frame_serial(encoded.as_slice()),
            Transport::Ble(link) => {
                let mut noted: BleLink = link;
                noted.note_write();
                self.transport = Transport::Ble(noted);
                encoded
            },
        }
    }

    /// Plans a text message; without an addressee it is broadcast.
    pub fn send_text(&mut self, text: String, channel: u32, to: Option<u32>) -> (r: Packet)
        ensures
            r@ == (Packet::<Seq<char>, Seq<u8>>::Text {
                id: following_id(old(self).next_id),
                text: text@,
                channel,
                to,
            }),
            *final(self) == id_taken(*old(self)),
            old(self).wf() ==> final(self).wf(),
    {
        let id: u32 = self.alloc_id();
        Packet::Text { id, text, channel, to }
    }

    /// Plans an admin message to our own node.
    pub fn send_admin(&mut self, payload: AdminPayload) -> (r: Result<Packet, String>)
        ensures
            plans_admin(*old(self), payload@, r, *final(self)),
            old(self).wf() ==> final(self).wf(),
    {
        match self.state.my_node_num {
            None => Err("not connected — own node number unknown".to_owned()),
            Some(to) => {
                let id: u32 = self.alloc_id();
                Ok(Packet::Admin { id, to, payload })
            },
        }
    }

    /// Plans a request for the whole configuration, under a random nonce: the request
    /// of [`want_config`] for some nonce. Which one is left to chance.
    pub fn request_config(&self) -> (r: Packet)
        ensures
            r is WantConfig,
    {
        want_config(rand_u32())
    }

    /// Plans a search for nodes: our identity is sent on the first channel, and peers
    /// are asked to answer with theirs. Needs the owner to be known.
    pub fn discover_nodes(&mut self) -> (r: Result<Packet, String>)
        ensures
            match old(self).state.owner {
                Some(owner) => {
                    &&& r matches Ok(p) && p@ == (Packet::<Seq<char>, Seq<u8>>::NodeInfoRequest {
                        id: following_id(old(self).next_id),
                        owner: owner@,
                        channel: 0,
                    })
                    &&& *final(self) == id_taken(*old(self))
                },
                None => {
                    &&& r matches Err(e) && e@ == owner_unknown()
                    &&& *final(self) == *old(self)
                },
            },
            old(self).wf() ==> final(self).wf(),
    {
        let owner: User = match &self.state.owner {
            None => {
                return Err("owner not yet known — wait for ConfigComplete".to_owned());
            },
            Some(owner) => owner.copy(),
        };
        let id: u32 = self.alloc_id();
        Ok(Packet::NodeInfoRequest { id, owner, channel: 0 })
    }

    /// Plans a reboot of the radio after `secs` seconds.
    pub fn reboot(&mut self, secs: i32) -> (r: Result<Packet, String>)
        ensures
            plans_admin(*old(self), AdminPayload::RebootSeconds(secs), r, *final(self)),
            old(self).wf() ==> final(self).wf(),
    {
        self.send_admin(AdminPayload::RebootSeconds(secs))
    }

    /// Plans a reset of the radio's configuration.
    pub fn factory_reset(&mut self) -> (r: Result<Packet, String>)
        ensures
            plans_admin(*old(self), AdminPayload::FactoryResetConfig(1), r, *final(self)),
            old(self).wf() ==> final(self).wf(),
    {
        self.send_admin(AdminPayload::FactoryResetConfig(1))
    }

    /// Plans a wipe of the radio's node database. Once it is written, the client
    /// forgets the nodes too: see [`WebClient::nodedb_wiped`].
    pub fn reset_nodedb(&mut self) -> (r: Result<Packet, String>)
        ensures
            plans_admin(*old(self), AdminPayload::NodedbReset(true), r, *final(self)),
            old(self).wf() ==> final(self).wf(),
    {
        self.send_admin(AdminPayload::NodedbReset(true))
    }

    /// The radio's node database was wiped: forgets the nodes, and plans a request for
    /// the configuration.
    pub fn nodedb_wiped(&mut self) -> (r: Packet)
        ensures
            r is WantConfig,
            *final(self) == (WebClient {
                state: ProtocolState { node_count: 0, ..old(self).state },
                ..*old(self)
            }),
            old(self).wf() ==> final(self).wf(),
    {
        self.state.node_count = 0;
        self.request_config()
    }

    /// The settings as the settings page shows them.
    pub fn snapshot(&self) -> (r: Snapshot)
        ensures
            r@ == snapshot_of(self.state@),
    {
        build_snapshot(&self.state)
    }

    /// Plans a write of the owner's identity.
    pub fn write_owner(&mut self, dto: OwnerDto) -> (r: Result<Packet, String>)
        ensures
            plans_admin(
                *old(self),
                AdminPayload::SetOwner(owner_overlay(old(self).state@.owner, dto@)),
                r,
                *final(self),
            ),
            old(self).wf() ==> final(self).wf(),
    {
        let payload: AdminPayload = owner_payload(&self.state, dto);
        self.send_admin(payload)
    }

    /// Plans a write of the radio modem settings.
    pub fn write_lora_config(&mut self, dto: LoraDto) -> (r: Result<Packet, String>)
        ensures
            plans_admin(
                *old(self),
                AdminPayload::SetConfig(
                    ConfigPayload::Lora(lora_overlay(old(self).state@.lora, dto)),
                ),
                r,
                *final(self),
            ),
            old(self).wf() ==> final(self).wf(),
    {
        let payload: AdminPayload = lora_payload(&self.state, dto);
        self.send_admin(payload)
    }

    /// Plans a write of the device settings.
    pub fn write_device_config(&mut self, dto: DeviceDto) -> (r: Result<Packet, String>)
        ensures
            plans_admin(
                *old(self),
                AdminPayload::SetConfig(
                    ConfigPayload::Device(device_overlay(old(self).state@.device, dto)),
                ),
                r,
                *final(self),
            ),
            old(self).wf() ==> final(self).wf(),
    {
        let payload: AdminPayload = device_payload(&self.state, dto);
        self.send_admin(payload)
    }

    /// Plans a write of the position settings.
    pub fn write_position_config(&mut self, dto: PositionDto) -> (r: Result<Packet, String>)
        ensures
            plans_admin(
                *old(self),
                AdminPayload::SetConfig(
                    ConfigPayload::Position(position_overlay(old(self).state@.position, dto)),
                ),
                r,
                *final(self),
            ),
            old(self).wf() ==> final(self).wf(),
    {
        let payload: AdminPayload = position_payload(&self.state, dto);
        self.send_admin(payload)
    }

    /// Plans a write of the power settings.
    pub fn write_power_config(&mut self, dto: PowerDto) -> (r: Result<Packet, String>)
        ensures
            plans_admin(
                *old(self),
                AdminPayload::SetConfig(
                    ConfigPayload::Power(power_overlay(old(self).state@.power, dto)),
                ),
                r,
                *final(self),
            ),
            old(self).wf() ==> final(self).wf(),
    {
        let payload: AdminPayload = power_payload(&self.state, dto);
        self.send_admin(payload)
    }

    /// Plans a write of the network settings.
    pub fn write_network_config(&mut self, dto: NetworkDto) -> (r: Result<Packet, String>)
        ensures
            plans_admin(
                *old(self),
                AdminPayload::SetConfig(
                    ConfigPayload::Network(network_overlay(old(self).state@.network, dto@)),
                ),
                r,
                *final(self),
            ),
            old(self).wf() ==> final(self).wf(),
    {
        let payload: AdminPayload = network_payload(&self.state, dto);
        self.send_admin(payload)
    }

    /// Plans a write of the display settings.
    pub fn write_display_config(&mut self, dto: DisplayDto) -> (r: Result<Packet, String>)
        ensures
            plans_admin(
                *old(self),
                AdminPayload::SetConfig(
                    ConfigPayload::Display(display_overlay(old(self).state@.display, dto)),
                ),
                r,
                *final(self),
            ),
            old(self).wf() ==> final(self).wf(),
    {
        let payload: AdminPayload = display_payload(&self.state, dto);
        self.send_admin(payload)
    }

    /// Plans a write of the Bluetooth settings.
    pub fn write_bluetooth_config(&mut self, dto: BluetoothDto) -> (r: Result<Packet, String>)
        ensures
            plans_admin(
                *old(self),
                AdminPayload::SetConfig(ConfigPayload::Bluetooth(bluetooth_overlay(dto))),
                r,
                *final(self),
            ),
            old(self).wf() ==> final(self).wf(),
    {
        let payload: AdminPayload = bluetooth_payload(&self.state, dto);
        self.send_admin(payload)
    }

    /// Plans a write of a channel.
    pub fn write_channel(&mut self, dto: ChannelDto) -> (r: Result<Packet, String>)
        ensures
            plans_admin(
                *old(self),
                AdminPayload::SetChannel(channel_overlay(old(self).state@.channels, dto@)),
                r,
                *final(self),
            ),
            old(self).wf() ==> final(self).wf(),
    {
        let payload: AdminPayload = channel_payload(&self.state, dto);
        self.send_admin(payload)
    }

    /// Plans a write of a fixed location; nothing of the state goes into it.
    pub fn set_fixed_position(&mut self, dto: FixedPositionDto) -> (r: Result<Packet, String>)
        ensures
            plans_admin(*old(self), AdminPayload::SetFixedPosition(dto), r, *final(self)),
            old(self).wf() ==> final(self).wf(),
    {
        self.send_admin(fixed_position_payload(dto))
    }

    /// Turns the noise filter for captured audio on or off.
    pub fn set_denoise_enabled(&mut self, enabled: bool)
        ensures
            *final(self) == (WebClient { denoise_enabled: enabled, ..*old(self) }),
            old(self).wf() ==> final(self).wf(),
    {
        self.denoise_enabled = enabled;
    }

    /// Sets the Codec2 mode; a mode out of range becomes the last one.
    pub fn set_codec2_mode(&mut self, mode: u8)
        ensures
            *final(self) == (WebClient {
                codec_param: if mode <= 5 {
                    mode
                } else {
                    5
                },
                ..*old(self)
            }),
            old(self).wf() ==> final(self).wf(),
    {
        self.codec_param = if mode <= 5 {
            mode
        } else {
            5
        };
    }

    /// Picks the codec for outgoing voice by name; an unknown name is ignored.
    pub fn set_send_codec(&mut self, codec: &str)
        ensures
            *final(self) == (WebClient {
                send_codec: match codec_named(codec@) {
                    Some(c) => c,
                    None => old(self).send_codec,
                },
                ..*old(self)
            }),
            old(self).wf() ==> final(self).wf(),
    {
        if same_text(codec, "codec2") {
            self.send_codec = SendCodec::Codec2;
        } else if same_text(codec, "amrnb") || same_text(codec, "amr-nb") || same_text(
            codec,
            "AMR-NB",
        ) {
            self.send_codec = SendCodec::AmrNb;
        } else if same_text(codec, "opus") || same_text(codec, "Opus") || same_text(codec, "OPUS") {
            self.send_codec = SendCodec::Opus;
        }
    }

    /// Sets the AMR-NB mode; a mode out of range becomes the last one.
    pub fn set_amrnb_mode(&mut self, mode: u8)
        ensures
            *final(self) == (WebClient {
                amrnb_mode: if mode <= 7 {
                    mode
                } else {
                    7
                },
                ..*old(self)
            }),
            old(self).wf() ==> final(self).wf(),
    {
        self.amrnb_mode = if mode <= 7 {
            mode
        } else {
            7
        };
    }

    /// Sets the Opus bit rate in kbit/s; a rate out of range becomes the nearest one.
    pub fn set_opus_kbps(&mut self, kbps: u8)
        ensures
            *final(self) == (WebClient {
                opus_kbps: if kbps < 6 {
                    6
                } else if kbps > 128 {
                    128
                } else {
                    kbps
                },
                ..*old(self)
            }),
            old(self).wf() ==> final(self).wf(),
    {
        self.opus_kbps = if kbps < 6 {
            6
        } else if kbps > 128 {
            128
        } else {
            kbps
        };
    }

    /// The radio's modem preset, where it is known.
    pub fn modem_preset(&self) -> (r: Option<i32>)
        ensures
            r == preset_of(self.state@),
    {
        match &self.state.lora {
            Some(lora) => Some(lora.modem_preset),
            None => None,
        }
    }

    /// Decides about one inbound event, after taking over the state that it leaves
    /// behind. The queue depth is kept for voice; voice frames go to the reassembler;
    /// everything else is shown.
    pub fn process_event(&mut self, inbound: Inbound) -> (r: Handling)
        ensures
            handles(*old(self), inbound, r),
            *final(self) == after_event(*old(self), inbound),
            old(self).wf() ==> final(self).wf(),
    {
        if let Some(state) = inbound.state {
            self.state = state;
        }
        match inbound.event {
            InboundEvent::Voice { from, to, channel, payload } => Handling::Voice {
                from,
                to,
                channel,
                payload,
                modem_preset: self.modem_preset(),
            },
            other => {
                if let InboundEvent::QueueStatus { free } = &other {
                    self.queue_free = *free;
                }
                Handling::Emit(build_event(&other, &self.state))
            },
        }
    }

    /// Decides about a payload, given its events; `None` stands for a payload that
    /// could not be decoded, which changes nothing. Any other payload shows that the
    /// radio is not quiet. Each event is handled once, in order, against the state
    /// that it and the ones before it leave behind.
    pub fn process_payload(&mut self, decoded: Option<Vec<Inbound>>) -> (r: Vec<Handling>)
        ensures
            match decoded {
                None => r@.len() == 0 && *final(self) == *old(self),
                Some(events) => {
                    let heard = WebClient { silent_probes: 0, ..*old(self) };
                    &&& *final(self) == after_events(heard, events@)
                    &&& r@.len() == events@.len()
                    &&& forall|k: int|
                        0 <= k < events@.len() ==> handles(
                            after_events(heard, events@.take(k)),
                            events@[k],
                            #[trigger] r@[k],
                        )
                },
            },
            old(self).wf() ==> final(self).wf(),
    {
        let mut out: Vec<Handling> = Vec::new();
        let mut events: Vec<Inbound> = match decoded {
            None => {
                return out;
            },
            Some(events) => events,
        };
        self.silent_probes = 0;
        let ghost heard = *self;
        let ghost all = events@;
        assert(all.take(0) =~= Seq::empty());
        while events.len() > 0
            invariant
                events@ == all.skip(out@.len() as int),
                out@.len() <= all.len(),
                *self == after_events(heard, all.take(out@.len() as int)),
                forall|k: int|
                    0 <= k < out@.len() ==> handles(
                        after_events(heard, all.take(k)),
                        all[k],
                        #[trigger] out@[k],
                    ),
                old(self).wf() ==> self.wf(),
            decreases events@.len(),
        {
            let ghost n = out@.len() as int;
            let next: Inbound = events.remove(0);
            proof {
                assert(next == all[n]);
                assert(all.take(n + 1).drop_last() =~= all.take(n));
                assert(all.take(n + 1).last() == all[n]);
                assert(events@ =~= all.skip(n + 1));
            }
            let handling: Handling = self.process_event(next);
            out.push(handling);
        }
        assert(all.take(all.len() as int) =~= all);
        out
    }

    /// Plans a request for missing chunks to the sender of a message. It wants no
    /// acknowledgement, since the next round repeats it. A sender with a malformed
    /// name is passed over.
    pub fn nack_packet(&mut self, nack: NackRequest) -> (r: Option<Packet>)
        ensures
            match nack.node {
                Some(node) => {
                    &&& r matches Some(p) && p@ == (Packet::<Seq<char>, Seq<u8>>::PrivateData {
                        id: following_id(old(self).next_id),
                        frame: nack.frame@,
                        channel: nack.channel,
                        to: Some(node),
                        want_ack: false,
                        want_response: false,
                    })
                    &&& *final(self) == id_taken(*old(self))
                },
                None => r is None && *final(self) == *old(self),
            },
            old(self).wf() ==> final(self).wf(),
    {
        match nack.node {
            None => None,
            Some(node) => {
                let id: u32 = self.alloc_id();
                Some(
                    Packet::PrivateData {
                        id,
                        frame: nack.frame,
                        channel: nack.channel,
                        to: Some(node),
                        want_ack: false,
                        want_response: false,
                    },
                )
            },
        }
    }

    /// Decides about a radio that has been quiet for `quiet_ms`: the n-th probe without
    /// an answer is due after n windows of silence, and the second one is reported. A
    /// probe that is overdue is sent at once, so that several may follow on each other
    /// after a long gap between calls.
    pub fn idle_probe(&mut self, quiet_ms: u64, window_ms: u64) -> (r: Probe)
        ensures
            r == (if !probe_due(quiet_ms, window_ms, old(self).silent_probes) {
                Probe::Quiet
            } else if old(self).silent_probes == 1 {
                Probe::SendAndReport
            } else {
                Probe::Send
            }),
            *final(self) == (WebClient {
                silent_probes: if r is Quiet || old(self).silent_probes == u32::MAX {
                    old(self).silent_probes
                } else {
                    (old(self).silent_probes + 1) as u32
                },
                ..*old(self)
            }),
            old(self).wf() ==> final(self).wf(),
    {
        let sent: u32 = self.silent_probes;
        assert(window_ms * (sent + 1) <= u64::MAX * 0x1_0000_0000) by (nonlinear_arith)
            requires
                0 <= window_ms <= u64::MAX,
                0 <= sent <= u32::MAX,
        ;
        assert(0 <= window_ms * (sent + 1)) by (nonlinear_arith)
            requires
                0 <= window_ms,
                0 <= sent,
        ;
        if (quiet_ms as u128) < (window_ms as u128) * (sent as u128 + 1) {
            return Probe::Quiet;
        }
        if sent < u32::MAX {
            self.silent_probes = sent + 1;
        }
        if sent == 1 {
            Probe::SendAndReport
        } else {
            Probe::Send
        }
    }

    /// Ends the connection. Over Bluetooth the link is marked first, so that its loss
    /// is not taken for a fault.
    pub fn disconnect(&mut self) -> (r: Vec<StopStep>)
        ensures
            r@ == stop_steps(old(self).transport),
            *final(self) == (WebClient { transport: stopped(old(self).transport), ..*old(self) }),
            old(self).wf() ==> final(self).wf(),
    {
        match self.transport {
            Transport::Serial => {
                let r: Vec<StopStep> = vec![
                    StopStep::CancelReader,
                    StopStep::CloseWriter,
                    StopStep::ClosePort,
                ];
                assert(r@ =~= stop_steps(old(self).transport));
                r
            },
            Transport::Ble(link) => {
                let mut ended: BleLink = link;
                ended.stop();
                self.transport = Transport::Ble(ended);
                let mut r: Vec<StopStep> = Vec::new();
                if link.has_from_num {
                    r.push(StopStep::StopNotifications);
                    r.push(StopStep::RemoveNotifyListener);
                }
                r.push(StopStep::RemoveDisconnectListener);
                r.push(StopStep::DisconnectGatt);
                assert(r@ =~= stop_steps(old(self).transport));
                r
            },
        }
    }

    /// Ends a Bluetooth connection and gives up the permission for the device. On a
    /// serial line there is nothing to do.
    pub fn forget(&mut self) -> (r: Vec<StopStep>)
        ensures
            r@ == (match old(self).transport {
                Transport::Serial => Seq::<StopStep>::empty(),
                Transport::Ble(_) => seq![StopStep::DisconnectGatt, StopStep::ForgetDevice],
            }),
            *final(self) == (WebClient { transport: stopped(old(self).transport), ..*old(self) }),
            old(self).wf() ==> final(self).wf(),
    {
        match self.transport {
            Transport::Serial => Vec::new(),
            Transport::Ble(link) => {
                let mut ended: BleLink = link;
                ended.stop();
                self.transport = Transport::Ble(ended);
                let r: Vec<StopStep> = vec![StopStep::DisconnectGatt, StopStep::ForgetDevice];
                assert(r@ =~= seq![StopStep::DisconnectGatt, StopStep::ForgetDevice]);
                r
            },
        }
    }
}

/// The last packet id after `count` were given out.
pub open spec fn nth_id(seed: u32, count: nat) -> u32
    decreases count,
{
    if count == 0 {
        seed
    } else {
        following_id(nth_id(seed, (count - 1) as nat))
    }
}

/// Packet ids count up from the seed and run through all numbers but zero.
pub proof fn packet_ids_count_up(seed: u32, count: nat)
    requires
        count >= 1,
    ensures
        nth_id(seed, count) == (seed + count - 1) % (u32::MAX as int) + 1,
    decreases count,
{
    reveal_with_fuel(nth_id, 2);
    if count > 1 {
        packet_ids_count_up(seed, (count - 1) as nat);
        let before = seed + count - 2;
        let m = u32::MAX as int;
        assert((before + 1) % m == (if before % m == m - 1 {
            0
        } else {
            before % m + 1
        })) by (nonlinear_arith)
            requires
                m == 0xffff_ffff,
                before >= 0,
        ;
    }
}

/// A packet id is never zero, and comes again only after all the others.
pub proof fn packet_ids_do_not_repeat(seed: u32, i: nat, j: nat)
    requires
        1 <= i < j,
        j - i < u32::MAX,
    ensures
        nth_id(seed, i) != 0,
        nth_id(seed, i) != nth_id(seed, j),
{
    packet_ids_count_up(seed, i);
    packet_ids_count_up(seed, j);
    let m = u32::MAX as int;
    let a = seed + i - 1;
    let b = seed + j - 1;
    assert(a % m != b % m) by (nonlinear_arith)
        requires
            m == 0xffff_ffff,
            0 <= a < b,
            b - a < m,
    ;
}

/// The radio is asked for its configuration last, and once, on every transport.
pub proof fn the_handshake_comes_last(transport: Transport, nonce: u32, k: int)
    requires
        0 <= k < start_steps(transport, nonce).len(),
    ensures
        start_steps(transport, nonce)[k] is WantConfig <==> k == start_steps(transport, nonce).len()
            - 1,
        start_steps(transport, nonce).last() == (StartStep::WantConfig { nonce }),
{
}

/// Over Bluetooth the outbox is drained once at the start, and either announcements
/// are listened for or the outbox is polled, never both.
pub proof fn one_way_of_reading(link: BleLink, nonce: u32)
    ensures
        ({
            let steps = start_steps(Transport::Ble(link), nonce);
            &&& forall|k: int|
                0 <= k < steps.len() ==> ((#[trigger] steps[k]) is Drain <==> k == (
                if link.has_from_num {
                    2int
                } else {
                    1
                }))
            &&& steps.contains(StartStep::ListenForNotifications) <==> link.has_from_num
            &&& steps.contains(StartStep::StartPollLoop) <==> !link.has_from_num
        }),
{
    let steps = start_steps(Transport::Ble(link), nonce);
    if link.has_from_num {
        assert(steps[1] is ListenForNotifications);
    } else {
        assert(steps[2] is StartPollLoop);
    }
}

/// Once the user has ended a connection, its loss starts no reconnect campaign and
/// announcements start no drain.
pub proof fn an_ended_connection_stays_down(link: BleLink)
    ensures
        stopped(Transport::Ble(link)) matches Transport::Ble(l) && !campaign_starts(l)
            && !request_starts(l),
{
}

/// A radio that was just heard is first probed after a full quiet window.
pub proof fn the_first_probe_waits_a_full_window(quiet_ms: u64, window_ms: u64)
    ensures
        probe_due(quiet_ms, window_ms, 0) <==> quiet_ms >= window_ms,
{
}

} // verus!
