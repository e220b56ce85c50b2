//! Settings: the snapshot and the admin messages.

use voicetastic_web::settings::{
    bluetooth_payload, build_snapshot, channel_payload, device_payload, display_payload,
    fixed_position_payload, lora_payload, network_payload, owner_payload, position_payload,
    power_payload, AdminPayload, BluetoothDto, ChannelDto, ConfigPayload, DeviceDto, DisplayDto,
    FixedPositionDto, LoraDto, NetworkDto, OwnerDto, PositionDto, PowerDto,
};
use voicetastic_web::state::{
    BluetoothConfig, Channel, ChannelSettings, DeviceConfig, DisplayConfig, GpsMode, LoraConfig,
    NetworkConfig, PositionConfig, PowerConfig, ProtocolState, User,
};

fn lora() -> LoraConfig {
    LoraConfig {
        use_preset: true,
        modem_preset: 3,
        region: 1,
        hop_limit: 3,
        tx_power: -2,
        tx_enabled: true,
        ignore_mqtt: false,
        channel_num: 20,
        bandwidth: 250,
        spread_factor: 11,
        coding_rate: 5,
        frequency_offset_bits: 0x3f80_0000,
        extra: vec![1, 2],
    }
}

fn network(psk: &str) -> NetworkConfig {
    NetworkConfig {
        wifi_enabled: true,
        wifi_ssid: "home".to_string(),
        wifi_psk: psk.to_string(),
        eth_enabled: false,
        address_mode: 1,
        ntp_server: "ntp".to_string(),
        rsyslog_server: "sys".to_string(),
        extra: vec![7],
    }
}

fn position(gps_mode: GpsMode) -> PositionConfig {
    PositionConfig {
        position_broadcast_secs: 900,
        position_broadcast_smart_enabled: true,
        fixed_position: false,
        gps_mode,
        gps_update_interval: 120,
        broadcast_smart_minimum_distance: 100,
        broadcast_smart_minimum_interval_secs: 30,
        extra: vec![5],
    }
}

fn device() -> DeviceConfig {
    DeviceConfig {
        role: 2,
        rebroadcast_mode: 1,
        node_info_broadcast_secs: 10800,
        double_tap_as_button_press: true,
        disable_triple_click: true,
        button_gpio: 4,
        buzzer_gpio: 5,
        extra: vec![3],
    }
}

fn power() -> PowerConfig {
    PowerConfig {
        is_power_saving: true,
        on_battery_shutdown_after_secs: 1,
        wait_bluetooth_secs: 2,
        sds_secs: 3,
        ls_secs: 4,
        min_wake_secs: 5,
        extra: vec![6],
    }
}

fn display() -> DisplayConfig {
    DisplayConfig {
        screen_on_secs: 60,
        auto_screen_carousel_secs: 10,
        units: 1,
        oled: 2,
        displaymode: 3,
        flip_screen: true,
        heading_bold: false,
        wake_on_tap_or_motion: true,
        use_12h_clock: true,
        extra: vec![8],
    }
}

fn settings(name: &str, extra: Vec<u8>) -> Option<ChannelSettings> {
    Some(ChannelSettings {
        name: name.to_string(),
        uplink_enabled: true,
        downlink_enabled: false,
        extra,
    })
}

fn full() -> ProtocolState {
    let mut s = ProtocolState::new();
    s.my_node_num = Some(77);
    s.firmware_version = Some("2.5".to_string());
    s.owner = Some(User {
        long_name: "Long".to_string(),
        short_name: "L".to_string(),
        is_licensed: true,
        extra: vec![9, 9],
    });
    s.lora = Some(lora());
    s.device = Some(device());
    s.position = Some(position(GpsMode::Enabled));
    s.power = Some(power());
    s.network = Some(network("secret"));
    s.display = Some(display());
    s.bluetooth = Some(BluetoothConfig { enabled: true, mode: 1, fixed_pin: 123456 });
    s.channels = vec![
        Channel { index: 0, role: 1, settings: settings("a", vec![1]) },
        Channel { index: 1, role: 2, settings: None },
        Channel { index: 0, role: 2, settings: settings("b", vec![2]) },
    ];
    s
}

#[test]
fn empty_snapshot() {
    let snap = build_snapshot(&ProtocolState::new());
    assert_eq!(snap.my_node_num, None);
    assert_eq!(snap.fw, None);
    assert_eq!(snap.owner, None);
    assert_eq!(snap.lora, None);
    assert_eq!(snap.device, None);
    assert_eq!(snap.position, None);
    assert_eq!(snap.power, None);
    assert_eq!(snap.network, None);
    assert_eq!(snap.display, None);
    assert_eq!(snap.bluetooth, None);
    assert!(snap.channels.is_empty());
}

#[test]
fn full_snapshot() {
    let snap = build_snapshot(&full());
    assert_eq!(snap.my_node_num, Some(77));
    assert_eq!(snap.fw.as_deref(), Some("2.5"));
    assert_eq!(
        snap.owner,
        Some(OwnerDto {
            long_name: "Long".to_string(),
            short_name: "L".to_string(),
            is_licensed: true
        })
    );
    let l = snap.lora.unwrap();
    assert_eq!((l.modem_preset, l.tx_power, l.frequency_offset_bits), (3, -2, 0x3f80_0000));
    assert_eq!(snap.device.unwrap().buzzer_gpio, 5);
    assert!(snap.position.unwrap().gps_enabled);
    assert_eq!(snap.power.unwrap().min_wake_secs, 5);
    assert_eq!(snap.display.unwrap().units, 1);
    assert_eq!(snap.bluetooth, Some(BluetoothDto { enabled: true, mode: 1, fixed_pin: 123456 }));
    assert_eq!(snap.channels.len(), 3);
    assert_eq!(snap.channels[1].name, "");
    assert!(!snap.channels[1].uplink_enabled);
    assert_eq!(snap.channels[2].name, "b");
}

#[test]
fn the_key_is_not_shown() {
    let n = build_snapshot(&full()).network.unwrap();
    assert_eq!(n.wifi_psk, "");
    assert_eq!(n.wifi_ssid, "home");
    let mut other = full();
    other.network = Some(network("another"));
    assert_eq!(build_snapshot(&other), build_snapshot(&full()));
}

#[test]
fn gps_modes_as_a_switch() {
    for (mode, on) in
        [(GpsMode::Enabled, true), (GpsMode::Disabled, false), (GpsMode::Other(2), false)]
    {
        let mut s = full();
        s.position = Some(position(mode));
        assert_eq!(build_snapshot(&s).position.unwrap().gps_enabled, on);
    }
}

#[test]
fn writing_back_sections_changes_nothing() {
    let s = full();
    let snap = build_snapshot(&s);
    let sent = [
        owner_payload(&s, snap.owner.unwrap()),
        lora_payload(&s, snap.lora.unwrap()),
        device_payload(&s, snap.device.unwrap()),
        position_payload(&s, snap.position.unwrap()),
        power_payload(&s, snap.power.unwrap()),
        network_payload(&s, snap.network.unwrap()),
        display_payload(&s, snap.display.unwrap()),
        bluetooth_payload(&s, snap.bluetooth.unwrap()),
    ];
    let f = full();
    let wanted = [
        AdminPayload::SetOwner(f.owner.unwrap()),
        AdminPayload::SetConfig(ConfigPayload::Lora(f.lora.unwrap())),
        AdminPayload::SetConfig(ConfigPayload::Device(f.device.unwrap())),
        AdminPayload::SetConfig(ConfigPayload::Position(f.position.unwrap())),
        AdminPayload::SetConfig(ConfigPayload::Power(f.power.unwrap())),
        AdminPayload::SetConfig(ConfigPayload::Network(f.network.unwrap())),
        AdminPayload::SetConfig(ConfigPayload::Display(f.display.unwrap())),
        AdminPayload::SetConfig(ConfigPayload::Bluetooth(f.bluetooth.unwrap())),
    ];
    for (a, b) in sent.iter().zip(wanted.iter()) {
        assert_eq!(a, b);
    }
}

#[test]
fn a_gps_mode_without_a_switch_position_is_turned_off() {
    let mut s = full();
    s.position = Some(position(GpsMode::Other(2)));
    let dto = build_snapshot(&s).position.unwrap();
    assert_eq!(
        position_payload(&s, dto),
        AdminPayload::SetConfig(ConfigPayload::Position(position(GpsMode::Disabled)))
    );
}

#[test]
fn an_edit_keeps_the_rest() {
    let s = full();
    let dto = OwnerDto {
        long_name: "New".to_string(),
        short_name: "N".to_string(),
        is_licensed: false,
    };
    assert_eq!(
        owner_payload(&s, dto),
        AdminPayload::SetOwner(User {
            long_name: "New".to_string(),
            short_name: "N".to_string(),
            is_licensed: false,
            extra: vec![9, 9],
        })
    );
    let mut dto = build_snapshot(&s).lora.unwrap();
    dto.hop_limit = 7;
    let mut wanted = lora();
    wanted.hop_limit = 7;
    assert_eq!(
        lora_payload(&s, dto),
        AdminPayload::SetConfig(ConfigPayload::Lora(wanted))
    );
}

#[test]
fn writes_before_the_first_report_start_from_defaults() {
    let s = ProtocolState::new();
    assert_eq!(
        device_payload(
            &s,
            DeviceDto {
                role: 1,
                rebroadcast_mode: 2,
                node_info_broadcast_secs: 3,
                double_tap_as_button_press: false,
                disable_triple_click: true,
                button_gpio: 4,
                buzzer_gpio: 5,
            }
        ),
        AdminPayload::SetConfig(ConfigPayload::Device(DeviceConfig {
            role: 1,
            rebroadcast_mode: 2,
            node_info_broadcast_secs: 3,
            double_tap_as_button_press: false,
            disable_triple_click: true,
            button_gpio: 4,
            buzzer_gpio: 5,
            extra: vec![],
        }))
    );
    let p = PowerDto {
        is_power_saving: false,
        on_battery_shutdown_after_secs: 1,
        wait_bluetooth_secs: 2,
        sds_secs: 3,
        ls_secs: 4,
        min_wake_secs: 5,
    };
    let mut wanted = power();
    wanted.is_power_saving = false;
    wanted.extra = vec![];
    assert_eq!(power_payload(&s, p), AdminPayload::SetConfig(ConfigPayload::Power(wanted)));
    let d = DisplayDto {
        screen_on_secs: 60,
        auto_screen_carousel_secs: 10,
        units: 1,
        oled: 2,
        displaymode: 3,
        flip_screen: true,
        heading_bold: false,
        wake_on_tap_or_motion: true,
        use_12h_clock: true,
    };
    let mut wanted = display();
    wanted.extra = vec![];
    assert_eq!(display_payload(&s, d), AdminPayload::SetConfig(ConfigPayload::Display(wanted)));
    let p = PositionDto {
        position_broadcast_secs: 900,
        position_broadcast_smart_enabled: true,
        fixed_position: false,
        gps_enabled: true,
        gps_update_interval: 120,
        broadcast_smart_minimum_distance: 100,
        broadcast_smart_minimum_interval_secs: 30,
    };
    let mut wanted = position(GpsMode::Enabled);
    wanted.extra = vec![];
    assert_eq!(
        position_payload(&s, p),
        AdminPayload::SetConfig(ConfigPayload::Position(wanted))
    );
    let l = LoraDto {
        use_preset: true,
        modem_preset: 3,
        region: 1,
        hop_limit: 3,
        tx_power: -2,
        tx_enabled: true,
        ignore_mqtt: false,
        channel_num: 20,
        bandwidth: 250,
        spread_factor: 11,
        coding_rate: 5,
        frequency_offset_bits: 0x3f80_0000,
    };
    let mut wanted = lora();
    wanted.extra = vec![];
    assert_eq!(lora_payload(&s, l), AdminPayload::SetConfig(ConfigPayload::Lora(wanted)));
}

#[test]
fn an_empty_key_keeps_the_key() {
    let s = full();
    let dto = |psk: &str| NetworkDto {
        wifi_enabled: true,
        wifi_ssid: "home".to_string(),
        wifi_psk: psk.to_string(),
        eth_enabled: false,
        address_mode: 1,
        ntp_server: "ntp".to_string(),
        rsyslog_server: "sys".to_string(),
    };
    assert_eq!(
        network_payload(&s, dto("")),
        AdminPayload::SetConfig(ConfigPayload::Network(network("secret")))
    );
    assert_eq!(
        network_payload(&s, dto("new")),
        AdminPayload::SetConfig(ConfigPayload::Network(network("new")))
    );
    let mut wanted = network("");
    wanted.extra = vec![];
    assert_eq!(
        network_payload(&ProtocolState::new(), dto("")),
        AdminPayload::SetConfig(ConfigPayload::Network(wanted))
    );
}

fn channel_dto(index: i32) -> ChannelDto {
    ChannelDto {
        index,
        role: 2,
        name: "n".to_string(),
        uplink_enabled: false,
        downlink_enabled: true,
    }
}

fn written(index: i32, extra: Vec<u8>) -> AdminPayload {
    AdminPayload::SetChannel(Channel {
        index,
        role: 2,
        settings: Some(ChannelSettings {
            name: "n".to_string(),
            uplink_enabled: false,
            downlink_enabled: true,
            extra,
        }),
    })
}

#[test]
fn a_channel_keeps_its_key() {
    let s = full();
    // The first channel with the index gives the key.
    assert_eq!(channel_payload(&s, channel_dto(0)), written(0, vec![1]));
    assert_eq!(channel_payload(&s, channel_dto(1)), written(1, vec![]));
    assert_eq!(channel_payload(&s, channel_dto(5)), written(5, vec![]));
    let dto = build_snapshot(&s).channels.remove(0);
    assert_eq!(
        channel_payload(&s, dto),
        AdminPayload::SetChannel(Channel { index: 0, role: 1, settings: settings("a", vec![1]) })
    );
}

#[test]
fn a_fixed_position_stands_alone() {
    let p = FixedPositionDto { latitude_i: 525_000_000, longitude_i: -1, altitude: 34 };
    assert_eq!(fixed_position_payload(p), AdminPayload::SetFixedPosition(p));
}
