//! The client of one connection.

use voicetastic_web::ble::{BleLink, PollStep, ReadOutcome};
use voicetastic_web::client::{
    connect, connect_ble, connect_with, want_config, Handling, Inbound, NackRequest, Packet, Probe,
    SendCodec, StartStep, StopStep, Transport, WebClient,
};
use voicetastic_web::events::{build_event, InboundEvent, VoiceDestination};
use voicetastic_web::serial::{frame_serial, Deframer};
use voicetastic_web::settings::{
    AdminPayload, BluetoothDto, ChannelDto, ConfigPayload, DeviceDto, DisplayDto,
    FixedPositionDto, LoraDto, NetworkDto, OwnerDto, PositionDto, PowerDto,
};
use voicetastic_web::state::{LoraConfig, ProtocolState, User};
use voicetastic_web::util::{rand_u32, u32_from_le};
use voicetastic_web::voice::QUIET_WINDOW_MS;

fn serial(seed: u32) -> WebClient {
    connect_with(Transport::Serial, seed, 0).0
}

fn known(seed: u32) -> WebClient {
    let mut c = serial(seed);
    c.state.my_node_num = Some(0x55);
    c
}

fn lora(modem_preset: i32) -> LoraConfig {
    LoraConfig {
        use_preset: true,
        modem_preset,
        region: 0,
        hop_limit: 0,
        tx_power: 0,
        tx_enabled: false,
        ignore_mqtt: false,
        channel_num: 0,
        bandwidth: 0,
        spread_factor: 0,
        coding_rate: 0,
        frequency_offset_bits: 0,
        extra: vec![],
    }
}

fn unknown_node() -> Result<Packet, String> {
    Err("not connected — own node number unknown".to_string())
}

#[test]
fn a_new_client() {
    let c = serial(9);
    assert_eq!(c.transport, Transport::Serial);
    assert_eq!(c.state, ProtocolState::new());
    assert_eq!(c.next_id, 9);
    assert_eq!(c.queue_free, u32::MAX);
    assert!(c.denoise_enabled);
    assert_eq!((c.codec_param, c.amrnb_mode, c.opus_kbps, c.fec_mode), (0, 5, 12, 0));
    assert_eq!(c.send_codec, SendCodec::Codec2);
    assert_eq!(c.silent_probes, 0);
}

#[test]
fn serial_start() {
    let (_, steps) = connect_with(Transport::Serial, 1, 77);
    assert_eq!(
        steps,
        vec![
            StartStep::StartReadLoop,
            StartStep::StartNackLoop,
            StartStep::InitAmrnb,
            StartStep::InitOpus,
            StartStep::WantConfig { nonce: 77 },
        ]
    );
    let (c, steps) = connect();
    assert_eq!(c.transport, Transport::Serial);
    assert_eq!(steps.len(), 5);
    assert_eq!(steps[0], StartStep::StartReadLoop);
}

#[test]
fn bluetooth_start() {
    let (c, steps) = connect_ble(true);
    assert_eq!(c.transport, Transport::Ble(BleLink::new(true)));
    assert_eq!(
        steps[..6],
        [
            StartStep::ListenForDisconnect,
            StartStep::ListenForNotifications,
            StartStep::Drain,
            StartStep::StartNackLoop,
            StartStep::InitAmrnb,
            StartStep::InitOpus,
        ]
    );
    assert!(matches!(steps[6], StartStep::WantConfig { .. }));
    assert_eq!(steps.len(), 7);
    let (_, steps) = connect_with(Transport::Ble(BleLink::new(false)), 1, 2);
    assert_eq!(
        steps,
        vec![
            StartStep::ListenForDisconnect,
            StartStep::Drain,
            StartStep::StartPollLoop,
            StartStep::StartNackLoop,
            StartStep::InitAmrnb,
            StartStep::InitOpus,
            StartStep::WantConfig { nonce: 2 },
        ]
    );
}

#[test]
fn packet_ids_pass_over_zero() {
    let mut c = serial(u32::MAX - 1);
    assert_eq!(c.alloc_id(), u32::MAX);
    assert_eq!(c.alloc_id(), 1);
    assert_eq!(c.alloc_id(), 2);
    let mut c = serial(0);
    assert_eq!(c.alloc_id(), 1);
}

#[test]
fn text_messages() {
    let mut c = serial(10);
    assert_eq!(
        c.send_text("hi".to_string(), 2, None),
        Packet::Text { id: 11, text: "hi".to_string(), channel: 2, to: None }
    );
    assert_eq!(
        c.send_text(String::new(), 0, Some(4)),
        Packet::Text { id: 12, text: String::new(), channel: 0, to: Some(4) }
    );
    assert_eq!(c.next_id, 12);
}

#[test]
fn writes_are_framed_on_serial_only() {
    let mut c = serial(1);
    let bytes = c.write_payload(b"abc".to_vec());
    assert_eq!(bytes, frame_serial(b"abc"));
    let mut stream = bytes;
    stream.extend(c.write_payload(b"de".to_vec()));
    assert_eq!(Deframer::new().push(&stream), vec![b"abc".to_vec(), b"de".to_vec()]);
    let mut b = connect_ble(false).0;
    assert_eq!(b.write_payload(b"abc".to_vec()), b"abc".to_vec());
    match &mut b.transport {
        Transport::Ble(link) => {
            assert_eq!(link.poll_step(ReadOutcome::Empty), PollStep::Sleep(50))
        }
        Transport::Serial => unreachable!(),
    }
}

#[test]
fn discovery_needs_the_owner() {
    let mut c = serial(1);
    assert_eq!(
        c.discover_nodes(),
        Err("owner not yet known — wait for ConfigComplete".to_string())
    );
    assert_eq!(c.next_id, 1);
    let user = || User {
        long_name: "Long".to_string(),
        short_name: "L".to_string(),
        is_licensed: true,
        extra: vec![1, 2],
    };
    c.state.owner = Some(user());
    assert_eq!(
        c.discover_nodes(),
        Ok(Packet::NodeInfoRequest { id: 2, owner: user(), channel: 0 })
    );
    assert_eq!(c.state.owner, Some(user()));
}

#[test]
fn admin_messages_need_our_node() {
    let mut c = serial(1);
    assert_eq!(c.reboot(5), unknown_node());
    assert_eq!(c.factory_reset(), unknown_node());
    assert_eq!(c.reset_nodedb(), unknown_node());
    assert_eq!(c.send_admin(AdminPayload::RebootSeconds(1)), unknown_node());
    assert_eq!(
        c.set_fixed_position(FixedPositionDto { latitude_i: 1, longitude_i: 2, altitude: 3 }),
        unknown_node()
    );
    // A refused message uses up no packet id.
    assert_eq!(c.next_id, 1);
}

#[test]
fn admin_messages_go_to_our_node() {
    let mut c = known(1);
    assert_eq!(
        c.reboot(-5),
        Ok(Packet::Admin { id: 2, to: 0x55, payload: AdminPayload::RebootSeconds(-5) })
    );
    assert_eq!(
        c.factory_reset(),
        Ok(Packet::Admin { id: 3, to: 0x55, payload: AdminPayload::FactoryResetConfig(1) })
    );
    assert_eq!(
        c.reset_nodedb(),
        Ok(Packet::Admin { id: 4, to: 0x55, payload: AdminPayload::NodedbReset(true) })
    );
    let p = FixedPositionDto { latitude_i: 1, longitude_i: 2, altitude: 3 };
    assert_eq!(
        c.set_fixed_position(p),
        Ok(Packet::Admin { id: 5, to: 0x55, payload: AdminPayload::SetFixedPosition(p) })
    );
}

#[test]
fn a_wiped_node_database_is_forgotten() {
    let mut c = known(1);
    c.state.node_count = 7;
    assert!(matches!(c.nodedb_wiped(), Packet::WantConfig { .. }));
    assert_eq!(c.state.node_count, 0);
    assert_eq!(c.state.my_node_num, Some(0x55));
    assert_eq!(c.next_id, 1);
    assert!(matches!(c.request_config(), Packet::WantConfig { .. }));
}

#[test]
fn settings_are_written_by_section() {
    let mut c = known(0);
    let payload = |r: Result<Packet, String>| match r {
        Ok(Packet::Admin { to: 0x55, payload, .. }) => payload,
        other => panic!("{other:?}"),
    };
    let owner = OwnerDto {
        long_name: "A".to_string(),
        short_name: "B".to_string(),
        is_licensed: false,
    };
    assert!(matches!(payload(c.write_owner(owner)), AdminPayload::SetOwner(_)));
    let l = LoraDto {
        use_preset: true,
        modem_preset: 6,
        region: 0,
        hop_limit: 0,
        tx_power: 0,
        tx_enabled: false,
        ignore_mqtt: false,
        channel_num: 0,
        bandwidth: 0,
        spread_factor: 0,
        coding_rate: 0,
        frequency_offset_bits: 0,
    };
    assert_eq!(
        payload(c.write_lora_config(l)),
        AdminPayload::SetConfig(ConfigPayload::Lora(lora(6)))
    );
    let d = DeviceDto {
        role: 1,
        rebroadcast_mode: 0,
        node_info_broadcast_secs: 0,
        double_tap_as_button_press: false,
        disable_triple_click: false,
        button_gpio: 0,
        buzzer_gpio: 0,
    };
    assert!(matches!(
        payload(c.write_device_config(d)),
        AdminPayload::SetConfig(ConfigPayload::Device(_))
    ));
    let p = PositionDto {
        position_broadcast_secs: 0,
        position_broadcast_smart_enabled: false,
        fixed_position: false,
        gps_enabled: true,
        gps_update_interval: 0,
        broadcast_smart_minimum_distance: 0,
        broadcast_smart_minimum_interval_secs: 0,
    };
    assert!(matches!(
        payload(c.write_position_config(p)),
        AdminPayload::SetConfig(ConfigPayload::Position(_))
    ));
    let p = PowerDto {
        is_power_saving: true,
        on_battery_shutdown_after_secs: 0,
        wait_bluetooth_secs: 0,
        sds_secs: 0,
        ls_secs: 0,
        min_wake_secs: 0,
    };
    assert!(matches!(
        payload(c.write_power_config(p)),
        AdminPayload::SetConfig(ConfigPayload::Power(_))
    ));
    let n = NetworkDto {
        wifi_enabled: true,
        wifi_ssid: String::new(),
        wifi_psk: String::new(),
        eth_enabled: false,
        address_mode: 0,
        ntp_server: String::new(),
        rsyslog_server: String::new(),
    };
    assert!(matches!(
        payload(c.write_network_config(n)),
        AdminPayload::SetConfig(ConfigPayload::Network(_))
    ));
    let d = DisplayDto {
        screen_on_secs: 0,
        auto_screen_carousel_secs: 0,
        units: 0,
        oled: 0,
        displaymode: 0,
        flip_screen: false,
        heading_bold: false,
        wake_on_tap_or_motion: false,
        use_12h_clock: false,
    };
    assert!(matches!(
        payload(c.write_display_config(d)),
        AdminPayload::SetConfig(ConfigPayload::Display(_))
    ));
    let b = BluetoothDto { enabled: true, mode: 0, fixed_pin: 1 };
    assert!(matches!(
        payload(c.write_bluetooth_config(b)),
        AdminPayload::SetConfig(ConfigPayload::Bluetooth(_))
    ));
    let ch = ChannelDto {
        index: 0,
        role: 1,
        name: String::new(),
        uplink_enabled: false,
        downlink_enabled: false,
    };
    assert!(matches!(payload(c.write_channel(ch)), AdminPayload::SetChannel(_)));
    assert_eq!(c.next_id, 9);
    assert_eq!(c.snapshot().my_node_num, Some(0x55));
}

#[test]
fn send_settings_are_clamped() {
    let mut c = serial(1);
    for (given, kept) in [(0, 0), (5, 5), (6, 5), (255, 5)] {
        c.set_codec2_mode(given);
        assert_eq!(c.codec_param, kept);
    }
    for (given, kept) in [(0, 0), (7, 7), (8, 7), (255, 7)] {
        c.set_amrnb_mode(given);
        assert_eq!(c.amrnb_mode, kept);
    }
    for (given, kept) in [(0, 6), (6, 6), (64, 64), (128, 128), (129, 128), (255, 128)] {
        c.set_opus_kbps(given);
        assert_eq!(c.opus_kbps, kept);
    }
    c.set_denoise_enabled(false);
    assert!(!c.denoise_enabled);
}

#[test]
fn codecs_are_picked_by_name() {
    let mut c = serial(1);
    for name in ["amrnb", "amr-nb", "AMR-NB"] {
        c.set_send_codec("codec2");
        c.set_send_codec(name);
        assert_eq!(c.send_codec, SendCodec::AmrNb);
    }
    for name in ["opus", "Opus", "OPUS"] {
        c.set_send_codec("codec2");
        assert_eq!(c.send_codec, SendCodec::Codec2);
        c.set_send_codec(name);
        assert_eq!(c.send_codec, SendCodec::Opus);
    }
    // Any other name is ignored.
    for name in ["", "Codec2", "speex", "opus "] {
        c.set_send_codec(name);
        assert_eq!(c.send_codec, SendCodec::Opus);
    }
}

#[test]
fn requests_for_missing_chunks() {
    let mut c = serial(5);
    assert_eq!(
        c.nack_packet(NackRequest { node: Some(3), frame: vec![7], channel: 2 }),
        Some(Packet::PrivateData {
            id: 6,
            frame: vec![7],
            channel: 2,
            to: Some(3),
            want_ack: false,
            want_response: false,
        })
    );
    assert_eq!(c.nack_packet(NackRequest { node: None, frame: vec![7], channel: 2 }), None);
    assert_eq!(c.next_id, 6);
}

#[test]
fn a_payload_is_handled_in_order() {
    let mut c = serial(1);
    c.silent_probes = 3;
    let mut after = ProtocolState::new();
    after.lora = Some(lora(7));
    after.node_count = 2;
    let voice = |payload: Vec<u8>| InboundEvent::Voice {
        from: "!00000001".to_string(),
        to: VoiceDestination::Node(4),
        channel: 6,
        payload,
    };
    let out = c.process_payload(Some(vec![
        Inbound { event: voice(vec![1]), state: None },
        Inbound {
            event: InboundEvent::NodeInfo { num: 1, long_name: None },
            state: Some(after),
        },
        Inbound { event: InboundEvent::QueueStatus { free: 4 }, state: None },
        Inbound { event: voice(vec![2]), state: None },
    ]));
    assert_eq!(c.silent_probes, 0);
    assert_eq!(c.queue_free, 4);
    assert_eq!(c.state.node_count, 2);
    assert_eq!(out.len(), 4);
    let handled = |payload, modem_preset| Handling::Voice {
        from: "!00000001".to_string(),
        to: VoiceDestination::Node(4),
        channel: 6,
        payload,
        modem_preset,
    };
    assert_eq!(out[0], handled(vec![1], None));
    assert_eq!(
        out[1],
        Handling::Emit(build_event(
            &InboundEvent::NodeInfo { num: 1, long_name: None },
            &c.state
        ))
    );
    assert_eq!(
        out[2],
        Handling::Emit(build_event(&InboundEvent::QueueStatus { free: 4 }, &c.state))
    );
    assert_eq!(out[3], handled(vec![2], Some(7)));
}

#[test]
fn a_malformed_payload_changes_nothing() {
    let mut c = serial(1);
    c.silent_probes = 3;
    assert_eq!(c.process_payload(None), vec![]);
    assert_eq!(c.silent_probes, 3);
    assert_eq!(c.process_payload(Some(vec![])), vec![]);
    assert_eq!(c.silent_probes, 0);
}

#[test]
fn a_quiet_radio_is_probed() {
    let mut c = serial(1);
    assert_eq!(QUIET_WINDOW_MS, 60_000);
    assert_eq!(c.idle_probe(59_999, QUIET_WINDOW_MS), Probe::Quiet);
    assert_eq!(c.idle_probe(60_000, QUIET_WINDOW_MS), Probe::Send);
    assert_eq!(c.idle_probe(60_500, 60_000), Probe::Quiet);
    assert_eq!(c.idle_probe(120_000, 60_000), Probe::SendAndReport);
    assert_eq!(c.idle_probe(180_000, 60_000), Probe::Send);
    assert_eq!(c.silent_probes, 3);
    c.process_payload(Some(vec![]));
    assert_eq!(c.idle_probe(0, 60_000), Probe::Quiet);
    c.silent_probes = u32::MAX;
    assert_eq!(c.idle_probe(u64::MAX, u64::MAX), Probe::Quiet);
    assert_eq!(c.idle_probe(u64::MAX, 1), Probe::Send);
    assert_eq!(c.silent_probes, u32::MAX);
}

#[test]
fn serial_teardown() {
    let mut c = serial(1);
    assert_eq!(c.forget(), vec![]);
    assert_eq!(
        c.disconnect(),
        vec![StopStep::CancelReader, StopStep::CloseWriter, StopStep::ClosePort]
    );
    assert_eq!(c.transport, Transport::Serial);
}

#[test]
fn bluetooth_teardown() {
    let stopped = |c: &WebClient| match c.transport {
        Transport::Ble(link) => link.stopped,
        Transport::Serial => false,
    };
    let mut c = connect_ble(true).0;
    assert!(!stopped(&c));
    assert_eq!(
        c.disconnect(),
        vec![
            StopStep::StopNotifications,
            StopStep::RemoveNotifyListener,
            StopStep::RemoveDisconnectListener,
            StopStep::DisconnectGatt,
        ]
    );
    assert!(stopped(&c));
    let mut c = connect_ble(false).0;
    assert_eq!(
        c.disconnect(),
        vec![StopStep::RemoveDisconnectListener, StopStep::DisconnectGatt]
    );
    let mut c = connect_ble(true).0;
    assert_eq!(c.forget(), vec![StopStep::DisconnectGatt, StopStep::ForgetDevice]);
    assert!(stopped(&c));
}

#[test]
fn an_ended_connection_is_not_brought_back() {
    for forget in [false, true] {
        let mut c = connect_ble(true).0;
        if forget {
            c.forget();
        } else {
            c.disconnect();
        }
        match &mut c.transport {
            Transport::Ble(link) => {
                assert_eq!(link.begin_reconnect(), None);
                assert!(!link.schedule_ble_drain());
            }
            Transport::Serial => unreachable!(),
        }
    }
}

#[test]
fn packet_ids_are_distinct() {
    let mut c = serial(u32::MAX - 500);
    let ids: Vec<u32> = (0..1000).map(|_| c.alloc_id()).collect();
    for (i, id) in ids.iter().enumerate() {
        assert_ne!(*id, 0);
        assert!(!ids[..i].contains(id));
    }
    assert_eq!(ids[499], u32::MAX);
    assert_eq!(ids[500], 1);
}

#[test]
fn configuration_requests_carry_their_nonce() {
    assert_eq!(want_config(7), Packet::WantConfig { nonce: 7 });
    let c = serial(1);
    let drawn: Vec<Packet> = (0..16).map(|_| c.request_config()).collect();
    assert!(drawn.iter().all(|p| matches!(p, Packet::WantConfig { .. })));
    assert!(drawn.iter().any(|p| *p != drawn[0]));
}

#[test]
fn random_numbers_differ() {
    assert_eq!(u32_from_le([0x78, 0x56, 0x34, 0x12]), 0x1234_5678);
    assert_eq!(u32_from_le([0xff; 4]), u32::MAX);
    let drawn: Vec<u32> = (0..16).map(|_| rand_u32()).collect();
    assert!(drawn.iter().any(|n| *n != drawn[0]));
}
