//! Laws of the client, call by call.

use vstd::prelude::*;

use crate::ble::BleLink;
use crate::client::{
    after_events, connect, connect_ble, connect_with, handles, want_config, Handling, Inbound,
    NackRequest, Packet, Probe, SendCodec, StartStep, StopStep, Transport, WebClient,
};
use crate::events::{build_event, Event, InboundEvent};
use crate::laws::serial::a_frame_is_header_and_payload;
use crate::laws::settings::{admin_of, id_after, is_admin_message, nothing_reported};
use crate::serial::frame_serial;
use crate::settings::AdminPayload;
use crate::state::ProtocolState;
use crate::util::u32_from_le;

verus! {

/// A client of which nothing was asked yet: nothing is known of the radio, and every
/// setting has its default.
pub open spec fn is_new(c: WebClient) -> bool {
    &&& nothing_reported(c.state)
    &&& c.queue_free == 0xffff_ffff
    &&& c.denoise_enabled
    &&& c.codec_param == 0
    &&& c.send_codec is Codec2
    &&& c.amrnb_mode == 5
    &&& c.opus_kbps == 12
    &&& c.fec_mode == 0
    &&& c.silent_probes == 0
}

/// The link of a transport has just been opened.
pub open spec fn is_new_ble(transport: Transport, has_from_num: bool) -> bool {
    &&& transport matches Transport::Ble(l)
    &&& l.has_from_num == has_from_num
    &&& !l.stopped && !l.drain_active && !l.drain_pending && !l.reconnecting && !l.wrote
}

/// The last four steps of bringing any connection up, from position `k` on.
pub open spec fn starts_with_common(steps: Seq<StartStep>, k: int) -> bool {
    &&& steps.len() == k + 4
    &&& steps[k] is StartNackLoop
    &&& steps[k + 1] is InitAmrnb
    &&& steps[k + 2] is InitOpus
    &&& steps[k + 3] is WantConfig
}

/// The steps of bringing up a connection: over a serial line the read loop; over Bluetooth
/// the handler for a lost link, that for announcements where there are any, a drain, and
/// polling where there are no announcements; then what every connection needs.
pub open spec fn brings_up(transport: Transport, steps: Seq<StartStep>) -> bool {
    match transport {
        Transport::Serial => steps[0] is StartReadLoop && starts_with_common(steps, 1),
        Transport::Ble(l) => {
            &&& steps[0] is ListenForDisconnect
            &&& l.has_from_num ==> steps[1] is ListenForNotifications && steps[2] is Drain
            &&& !l.has_from_num ==> steps[1] is Drain && steps[2] is StartPollLoop
            &&& starts_with_common(steps, 3)
        },
    }
}

proof fn lemma_nothing_reported(c: WebClient)
    requires
        c.state@.my_node_num is None,
        c.state@.firmware_version is None,
        c.state@.owner is None,
        c.state@.lora is None,
        c.state@.device is None,
        c.state@.position is None,
        c.state@.power is None,
        c.state@.network is None,
        c.state@.display is None,
        c.state@.bluetooth is None,
        c.state@.channels.len() == 0,
        c.state@.node_count == 0,
    ensures
        nothing_reported(c.state),
{
    assert(c.state@.channels.len() == c.state.channels@.len());
}

/// A new client is over its transport, and counts its packets from the seed.
pub proof fn a_new_client_has_its_defaults(transport: Transport, seed: u32, r: WebClient)
    requires
        call_ensures(WebClient::new, (transport, seed), r),
    ensures
        is_new(r),
        r.transport == transport,
        r.next_id == seed,
{
    lemma_nothing_reported(r);
}

/// Connecting gives a new client and the steps that bring the connection up; the radio is
/// asked for its configuration under the given nonce.
pub proof fn connecting_brings_the_connection_up(
    transport: Transport,
    seed: u32,
    nonce: u32,
    r: (WebClient, Vec<StartStep>),
)
    requires
        call_ensures(connect_with, (transport, seed, nonce), r),
    ensures
        is_new(r.0),
        r.0.transport == transport,
        r.0.next_id == seed,
        brings_up(transport, r.1@),
        r.1@.last() == (StartStep::WantConfig { nonce }),
{
    lemma_nothing_reported(r.0);
}

/// Connecting over a serial line.
pub proof fn connecting_over_serial(r: (WebClient, Vec<StartStep>))
    requires
        call_ensures(connect, (), r),
    ensures
        is_new(r.0),
        r.0.transport is Serial,
        brings_up(r.0.transport, r.1@),
{
    lemma_nothing_reported(r.0);
}

/// Connecting over Bluetooth.
pub proof fn connecting_over_bluetooth(has_from_num: bool, r: (WebClient, Vec<StartStep>))
    requires
        call_ensures(connect_ble, (has_from_num,), r),
    ensures
        is_new(r.0),
        is_new_ble(r.0.transport, has_from_num),
        brings_up(r.0.transport, r.1@),
{
    lemma_nothing_reported(r.0);
}

/// A request for the configuration carries its nonce.
pub proof fn a_request_carries_its_nonce(nonce: u32, r: Packet)
    requires
        call_ensures(want_config, (nonce,), r),
    ensures
        r matches Packet::WantConfig { nonce: n } && n == nonce,
{
}

/// A request for the configuration is one.
pub proof fn a_request_is_a_request(c: &WebClient, r: Packet)
    requires
        call_ensures(WebClient::request_config, (c,), r),
    ensures
        r is WantConfig,
{
}

/// Packet ids follow on each other, passing over zero, and nothing else changes.
pub proof fn packet_ids_follow_on_each_other(c: &mut WebClient, id: u32)
    requires
        call_ensures(WebClient::alloc_id, (c,), id),
    ensures
        id == id_after(old(c).next_id),
        id != 0,
        *final(c) == (WebClient { next_id: id, ..*old(c) }),
{
}

/// What is written over a serial line is the frame of the packet; over Bluetooth it is the
/// packet itself, and the write is noted.
pub proof fn serial_frames_and_bluetooth_does_not(
    c: &mut WebClient,
    encoded: Vec<u8>,
    r: Vec<u8>,
    framed: Vec<u8>,
    payload: &[u8],
)
    requires
        call_ensures(WebClient::write_payload, (c, encoded), r),
        call_ensures(frame_serial, (payload,), framed),
        payload@ == encoded@,
    ensures
        old(c).transport is Serial ==> r@ == framed@ && *final(c) == *old(c),
        old(c).transport matches Transport::Ble(l) ==> r@ == encoded@ && *final(c) == (WebClient {
            transport: Transport::Ble(BleLink { wrote: true, ..l }),
            ..*old(c)
        }),
{
    a_frame_is_header_and_payload(payload, framed);
}

/// A text message carries its text to its addressee on its channel.
pub proof fn a_text_goes_to_its_addressee(
    c: &mut WebClient,
    text: String,
    channel: u32,
    to: Option<u32>,
    r: Packet,
)
    requires
        call_ensures(WebClient::send_text, (c, text, channel, to), r),
    ensures
        r matches Packet::Text { id, text: t, channel: ch, to: a } && id == id_after(
            old(c).next_id,
        ) && t@ == text@ && ch == channel && a == to,
        final(c).next_id == id_after(old(c).next_id),
        *final(c) == (WebClient { next_id: final(c).next_id, ..*old(c) }),
{
}

/// An admin message goes to our own node as it was given.
pub proof fn an_admin_message_goes_to_our_node(
    c: &mut WebClient,
    payload: AdminPayload,
    r: Result<Packet, String>,
)
    requires
        call_ensures(WebClient::send_admin, (c, payload), r),
    ensures
        is_admin_message(*old(c), r, *final(c)),
        r matches Ok(p) ==> admin_of(p)@ == payload@,
{
}

/// A reboot comes after the seconds that were asked for.
pub proof fn a_reboot_comes_when_asked_for(c: &mut WebClient, secs: i32, r: Result<Packet, String>)
    requires
        call_ensures(WebClient::reboot, (c, secs), r),
    ensures
        is_admin_message(*old(c), r, *final(c)),
        r matches Ok(p) ==> (admin_of(p) matches AdminPayload::RebootSeconds(s) && s == secs),
{
}

/// A factory reset resets the configuration, and a wipe of the node database wipes it.
pub proof fn resets_are_what_was_asked_for(
    c: &mut WebClient,
    r: Result<Packet, String>,
    d: &mut WebClient,
    s: Result<Packet, String>,
)
    requires
        call_ensures(WebClient::factory_reset, (c,), r),
        call_ensures(WebClient::reset_nodedb, (d,), s),
    ensures
        is_admin_message(*old(c), r, *final(c)),
        r matches Ok(p) ==> (admin_of(p) matches AdminPayload::FactoryResetConfig(n) && n == 1),
        is_admin_message(*old(d), s, *final(d)),
        s matches Ok(p) ==> (admin_of(p) matches AdminPayload::NodedbReset(b) && b),
{
}

/// After a wipe the nodes are forgotten, and nothing else is; the configuration is asked
/// for.
pub proof fn a_wipe_forgets_the_nodes(c: &mut WebClient, r: Packet)
    requires
        call_ensures(WebClient::nodedb_wiped, (c,), r),
    ensures
        r is WantConfig,
        final(c).state.node_count == 0,
        *final(c) == (WebClient {
            state: ProtocolState { node_count: 0, ..old(c).state },
            ..*old(c)
        }),
{
}

/// A search for nodes sends our own identity on the first channel; while it is not known
/// the search is refused and nothing changes.
pub proof fn a_search_sends_our_identity(c: &mut WebClient, r: Result<Packet, String>)
    requires
        call_ensures(WebClient::discover_nodes, (c,), r),
    ensures
        old(c).state.owner is None ==> (r matches Err(e) && e@
            == "owner not yet known — wait for ConfigComplete"@) && *final(c) == *old(c),
        old(c).state.owner matches Some(u) ==> {
            &&& r matches Ok(Packet::NodeInfoRequest { id, owner, channel })
            &&& id == id_after(old(c).next_id)
            &&& owner.long_name@ == u.long_name@
            &&& owner.short_name@ == u.short_name@
            &&& owner.is_licensed == u.is_licensed
            &&& owner.extra@ == u.extra@
            &&& channel == 0
            &&& *final(c) == (WebClient { next_id: id, ..*old(c) })
        },
{
}

/// Each setting is kept as given where it is in range, else at the nearest end of its
/// range, and no other setting changes with it.
pub proof fn settings_are_kept_in_range(
    a: &mut WebClient,
    b: &mut WebClient,
    c: &mut WebClient,
    d: &mut WebClient,
    value: u8,
    on: bool,
)
    requires
        call_ensures(WebClient::set_codec2_mode, (a, value), ()),
        call_ensures(WebClient::set_amrnb_mode, (b, value), ()),
        call_ensures(WebClient::set_opus_kbps, (c, value), ()),
        call_ensures(WebClient::set_denoise_enabled, (d, on), ()),
    ensures
        value <= 5 ==> final(a).codec_param == value,
        value > 5 ==> final(a).codec_param == 5,
        *final(a) == (WebClient { codec_param: final(a).codec_param, ..*old(a) }),
        value <= 7 ==> final(b).amrnb_mode == value,
        value > 7 ==> final(b).amrnb_mode == 7,
        *final(b) == (WebClient { amrnb_mode: final(b).amrnb_mode, ..*old(b) }),
        6 <= value <= 128 ==> final(c).opus_kbps == value,
        value < 6 ==> final(c).opus_kbps == 6,
        value > 128 ==> final(c).opus_kbps == 128,
        *final(c) == (WebClient { opus_kbps: final(c).opus_kbps, ..*old(c) }),
        final(d).denoise_enabled == on,
        *final(d) == (WebClient { denoise_enabled: on, ..*old(d) }),
{
}

/// A codec is picked by any of its names; any other name changes nothing.
pub proof fn a_codec_is_picked_by_name(c: &mut WebClient, name: &str)
    requires
        call_ensures(WebClient::set_send_codec, (c, name), ()),
    ensures
        name@ == "codec2"@ ==> final(c).send_codec is Codec2,
        name@ == "amrnb"@ || name@ == "amr-nb"@ || name@ == "AMR-NB"@
            ==> final(c).send_codec is AmrNb,
        name@ == "opus"@ || name@ == "Opus"@ || name@ == "OPUS"@ ==> final(c).send_codec is Opus,
        !(name@ == "codec2"@ || name@ == "amrnb"@ || name@ == "amr-nb"@ || name@ == "AMR-NB"@
            || name@ == "opus"@ || name@ == "Opus"@ || name@ == "OPUS"@) ==> *final(c) == *old(c),
        *final(c) == (WebClient { send_codec: final(c).send_codec, ..*old(c) }),
{
    reveal_strlit("codec2");
    reveal_strlit("amrnb");
    reveal_strlit("amr-nb");
    reveal_strlit("AMR-NB");
    reveal_strlit("opus");
    reveal_strlit("Opus");
    reveal_strlit("OPUS");
    assert("codec2"@.len() == 6 && "codec2"@[0] == 'c');
    assert("amrnb"@.len() == 5);
    assert("amr-nb"@.len() == 6 && "amr-nb"@[0] == 'a');
    assert("AMR-NB"@.len() == 6 && "AMR-NB"@[0] == 'A');
    assert("opus"@.len() == 4 && "Opus"@.len() == 4 && "OPUS"@.len() == 4);
}

/// The modem preset is the radio's, where its modem settings are known.
pub proof fn the_preset_is_the_radios(c: &WebClient, r: Option<i32>)
    requires
        call_ensures(WebClient::modem_preset, (c,), r),
    ensures
        r is Some <==> c.state.lora is Some,
        c.state.lora matches Some(l) ==> r == Some(l.modem_preset),
{
}

/// The state after the first `n` events of a payload: that of the last one that reported
/// anything, or the one before the payload.
pub open spec fn is_latest(
    before: ProtocolState,
    events: Seq<Inbound>,
    n: int,
    s: ProtocolState,
) -> bool {
    ||| s == before && forall|j: int| 0 <= j < n ==> (#[trigger] events[j]).state is None
    ||| exists|k: int|
        0 <= k < n && (#[trigger] events[k]).state == Some(s) && forall|j: int|
            k < j < n ==> (#[trigger] events[j]).state is None
}

/// The queue depth after a payload: that of its last report, or the one before.
pub open spec fn is_latest_depth(before: u32, events: Seq<Inbound>, n: int, depth: u32) -> bool {
    ||| depth == before && forall|j: int|
        0 <= j < n ==> !((#[trigger] events[j]).event is QueueStatus)
    ||| exists|k: int|
        0 <= k < n && (#[trigger] events[k]).event == (InboundEvent::<
            String,
            Vec<u8>,
        >::QueueStatus { free: depth }) && forall|j: int|
            k < j < n ==> !((#[trigger] events[j]).event is QueueStatus)
}

/// An event is handled as it should be, where `state` is known after it: a voice frame is
/// handed on as it came, with the preset of the moment; anything else is shown, just as
/// the page's object of the event and the state has it.
pub open spec fn is_handled(
    event: InboundEvent,
    state: ProtocolState,
    r: Handling,
    shown: Event,
) -> bool {
    match event {
        InboundEvent::Voice { from, to, channel, payload } => {
            &&& r matches Handling::Voice {
                from: f,
                to: t,
                channel: c,
                payload: p,
                modem_preset,
            }
            &&& f@ == from@
            &&& t == to
            &&& c == channel
            &&& p@ == payload@
            &&& modem_preset is Some <==> state.lora is Some
            &&& state.lora matches Some(l) ==> modem_preset == Some(l.modem_preset)
        },
        _ => r matches Handling::Emit(e) && e@ == shown@,
    }
}

proof fn lemma_latest(c: WebClient, events: Seq<Inbound>, n: int)
    requires
        0 <= n <= events.len(),
    ensures
        is_latest(c.state, events, n, after_events(c, events.take(n)).state),
        is_latest_depth(c.queue_free, events, n, after_events(c, events.take(n)).queue_free),
        after_events(c, events.take(n)) == (WebClient {
            state: after_events(c, events.take(n)).state,
            queue_free: after_events(c, events.take(n)).queue_free,
            ..c
        }),
    decreases n,
{
    if n > 0 {
        lemma_latest(c, events, n - 1);
        assert(events.take(n).drop_last() =~= events.take(n - 1));
        let x = events[n - 1];
        let prev = after_events(c, events.take(n - 1));
        if x.state is None {
            if !(prev.state == c.state && forall|j: int|
                0 <= j < n - 1 ==> (#[trigger] events[j]).state is None) {
                let k = choose|k: int|
                    0 <= k < n - 1 && (#[trigger] events[k]).state == Some(prev.state) && forall|
                        j: int,
                    |
                        k < j < n - 1 ==> (#[trigger] events[j]).state is None;
                assert(events[k].state == Some(prev.state));
            }
        } else {
            assert(events[n - 1].state == Some(after_events(c, events.take(n)).state));
        }
        if x.event is QueueStatus {
            assert(events[n - 1].event == (InboundEvent::<String, Vec<u8>>::QueueStatus {
                free: after_events(c, events.take(n)).queue_free,
            }));
        } else if !(prev.queue_free == c.queue_free && forall|j: int|
            0 <= j < n - 1 ==> !((#[trigger] events[j]).event is QueueStatus)) {
            let k = choose|k: int|
                0 <= k < n - 1 && (#[trigger] events[k]).event == (InboundEvent::<
                    String,
                    Vec<u8>,
                >::QueueStatus { free: prev.queue_free }) && forall|j: int|
                    k < j < n - 1 ==> !((#[trigger] events[j]).event is QueueStatus);
            assert(!(events[n - 1].event is QueueStatus));
            assert(events[k].event is QueueStatus);
        }
    } else {
        assert(events.take(0) =~= Seq::empty());
    }
}

/// An event is handled against the state that it leaves behind, and only that state and a
/// reported queue depth are taken over.
pub proof fn an_event_is_handled_against_its_state(
    c: &mut WebClient,
    inbound: Inbound,
    r: Handling,
    shown: Event,
)
    requires
        call_ensures(WebClient::process_event, (c, inbound), r),
        call_ensures(build_event, (&inbound.event, &final(c).state), shown),
    ensures
        inbound.state matches Some(s) ==> final(c).state == s,
        inbound.state is None ==> final(c).state == old(c).state,
        is_handled(inbound.event, final(c).state, r, shown),
        inbound.event matches InboundEvent::QueueStatus { free } ==> final(c).queue_free == free,
        !(inbound.event is QueueStatus) ==> final(c).queue_free == old(c).queue_free,
        *final(c) == (WebClient {
            state: final(c).state,
            queue_free: final(c).queue_free,
            ..*old(c)
        }),
{
}

/// A payload that could not be decoded changes nothing. After any other the client keeps
/// the last state and the last queue depth that were reported, and the radio counts as
/// heard; every event was handled once.
pub proof fn a_payload_leaves_the_last_reports(
    c: &mut WebClient,
    decoded: Option<Vec<Inbound>>,
    r: Vec<Handling>,
)
    requires
        call_ensures(WebClient::process_payload, (c, decoded), r),
    ensures
        decoded is None ==> r@.len() == 0 && *final(c) == *old(c),
        decoded matches Some(events) ==> {
            &&& r@.len() == events@.len()
            &&& is_latest(old(c).state, events@, events@.len() as int, final(c).state)
            &&& is_latest_depth(
                old(c).queue_free,
                events@,
                events@.len() as int,
                final(c).queue_free,
            )
            &&& *final(c) == (WebClient {
                state: final(c).state,
                queue_free: final(c).queue_free,
                silent_probes: 0,
                ..*old(c)
            })
        },
{
    if let Some(events) = decoded {
        let es = events@;
        let heard = WebClient { silent_probes: 0, ..*old(c) };
        lemma_latest(heard, es, es.len() as int);
        assert(es.take(es.len() as int) =~= es);
    }
}

/// The `k`-th event of a payload is handled against the last state that was reported up to
/// it.
pub proof fn a_payload_is_handled_event_by_event(
    c: &mut WebClient,
    events: Vec<Inbound>,
    r: Vec<Handling>,
    k: int,
    event: &InboundEvent,
    state: &ProtocolState,
    shown: Event,
)
    requires
        call_ensures(WebClient::process_payload, (c, Some(events)), r),
        0 <= k < events@.len(),
        *event == events@[k].event,
        is_latest(old(c).state, events@, k + 1, *state),
        call_ensures(build_event, (event, state), shown),
    ensures
        is_handled(*event, *state, r@[k], shown),
{
    let es = events@;
    let heard = WebClient { silent_probes: 0, ..*old(c) };
    lemma_latest(heard, es, k + 1);
    lemma_latest_is_one(old(c).state, es, k + 1, *state, after_events(heard, es.take(k + 1)).state);
    assert(es.take(k + 1).drop_last() =~= es.take(k));
    assert(handles(after_events(heard, es.take(k)), es[k], r@[k]));
}

proof fn lemma_latest_is_one(
    before: ProtocolState,
    events: Seq<Inbound>,
    n: int,
    s: ProtocolState,
    t: ProtocolState,
)
    requires
        is_latest(before, events, n, s),
        is_latest(before, events, n, t),
    ensures
        s == t,
{
    if exists|k: int| 0 <= k < n && (#[trigger] events[k]).state is Some {
        let a = choose|k: int|
            0 <= k < n && (#[trigger] events[k]).state == Some(s) && forall|j: int|
                k < j < n ==> (#[trigger] events[j]).state is None;
        let b = choose|k: int|
            0 <= k < n && (#[trigger] events[k]).state == Some(t) && forall|j: int|
                k < j < n ==> (#[trigger] events[j]).state is None;
        assert(events[a].state == Some(s) && events[b].state == Some(t));
        assert(a == b);
    }
}

/// A request for missing chunks goes to the node that it is for, as it was built, and asks
/// for no acknowledgement; without a node nothing is sent.
pub proof fn a_chunk_request_goes_to_the_sender(
    c: &mut WebClient,
    nack: NackRequest,
    r: Option<Packet>,
)
    requires
        call_ensures(WebClient::nack_packet, (c, nack), r),
    ensures
        nack.node is None ==> r is None && *final(c) == *old(c),
        nack.node matches Some(node) ==> {
            &&& r matches Some(Packet::PrivateData {
                id,
                frame,
                channel,
                to,
                want_ack,
                want_response,
            })
            &&& id == id_after(old(c).next_id)
            &&& frame@ == nack.frame@
            &&& channel == nack.channel
            &&& to == Some(node)
            &&& !want_ack
            &&& !want_response
            &&& *final(c) == (WebClient { next_id: id, ..*old(c) })
        },
{
}

/// The next probe of a quiet radio is due after one window more than there were probes;
/// the second one is reported. Each is counted once, and nothing else changes.
pub proof fn a_quiet_radio_is_probed(
    c: &mut WebClient,
    quiet_ms: u64,
    window_ms: u64,
    r: Probe,
)
    requires
        call_ensures(WebClient::idle_probe, (c, quiet_ms, window_ms), r),
    ensures
        r is Quiet <==> quiet_ms < window_ms * (old(c).silent_probes + 1),
        r is SendAndReport <==> !(r is Quiet) && old(c).silent_probes == 1,
        r is Quiet ==> *final(c) == *old(c),
        !(r is Quiet) && old(c).silent_probes < u32::MAX ==> final(c).silent_probes == old(
            c,
        ).silent_probes + 1,
        old(c).silent_probes == u32::MAX ==> final(c).silent_probes == u32::MAX,
        *final(c) == (WebClient { silent_probes: final(c).silent_probes, ..*old(c) }),
{
}

/// The transport after the user ended the connection: a Bluetooth link is marked.
pub open spec fn is_ended(before: WebClient, after: WebClient) -> bool {
    &&& before.transport is Serial ==> after == before
    &&& before.transport matches Transport::Ble(l) ==> after == (WebClient {
        transport: Transport::Ble(BleLink { stopped: true, ..l }),
        ..before
    })
}

/// Ending a connection closes a serial line from the reader to the port, and a Bluetooth
/// link from its announcements to the link itself.
pub proof fn ending_a_connection_has_its_order(c: &mut WebClient, r: Vec<StopStep>)
    requires
        call_ensures(WebClient::disconnect, (c,), r),
    ensures
        is_ended(*old(c), *final(c)),
        old(c).transport is Serial ==> r@.len() == 3 && r@[0] is CancelReader
            && r@[1] is CloseWriter && r@[2] is ClosePort,
        old(c).transport matches Transport::Ble(l) ==> {
            &&& l.has_from_num ==> r@.len() == 4 && r@[0] is StopNotifications
                && r@[1] is RemoveNotifyListener && r@[2] is RemoveDisconnectListener
                && r@[3] is DisconnectGatt
            &&& !l.has_from_num ==> r@.len() == 2 && r@[0] is RemoveDisconnectListener
                && r@[1] is DisconnectGatt
        },
{
}

/// Forgetting a device closes its link first; on a serial line nothing is done.
pub proof fn forgetting_closes_the_link_first(c: &mut WebClient, r: Vec<StopStep>)
    requires
        call_ensures(WebClient::forget, (c,), r),
    ensures
        is_ended(*old(c), *final(c)),
        old(c).transport is Serial ==> r@.len() == 0,
        old(c).transport is Ble ==> r@.len() == 2 && r@[0] is DisconnectGatt
            && r@[1] is ForgetDevice,
{
}

/// A number is made of its bytes, least significant first.
pub proof fn a_number_is_made_of_its_bytes(b: [u8; 4], r: u32)
    requires
        call_ensures(u32_from_le, (b,), r),
    ensures
        r as int % 256 == b@[0],
        (r as int / 256) % 256 == b@[1],
        (r as int / 65536) % 256 == b@[2],
        r as int / 16777216 == b@[3],
{
}

} // verus!
