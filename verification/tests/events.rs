//! Event objects for the page.

use voicetastic_web::events::{
    build_event, emit_log, fmt_node, AckResult, ConfigSection, Event, FieldValue, InboundEvent,
    VoiceDestination,
};
use voicetastic_web::state::{Channel, ProtocolState};
use voicetastic_web::text::{push_dec, push_dec_signed, push_hex, push_hex_padded};

fn shown(e: &Event) -> Vec<(String, String)> {
    e.fields
        .iter()
        .map(|f| {
            let v = match &f.value {
                FieldValue::Text(t) => format!("{t:?}"),
                FieldValue::Number(n) => format!("{n}"),
            };
            (f.key.clone(), v)
        })
        .collect()
}

fn pairs(list: &[(&str, &str)]) -> Vec<(String, String)> {
    list.iter().map(|(k, v)| (k.to_string(), v.to_string())).collect()
}

fn known() -> ProtocolState {
    let mut s = ProtocolState::new();
    s.node_count = 3;
    s.firmware_version = Some("2.5.1".to_string());
    s.channels = vec![
        Channel { index: 0, role: 1, settings: None },
        Channel { index: 1, role: 0, settings: None },
    ];
    s
}

fn event(ev: InboundEvent) -> Vec<(String, String)> {
    shown(&build_event(&ev, &known()))
}

#[test]
fn node_addresses() {
    assert_eq!(fmt_node(0), "!00000000");
    assert_eq!(fmt_node(0xdead_beef), "!deadbeef");
    assert_eq!(fmt_node(0xab), "!000000ab");
    assert_eq!(fmt_node(0xffff_fffe), "!fffffffe");
    assert_eq!(fmt_node(0xffff_ffff), "broadcast");
}

#[test]
fn log_lines() {
    assert_eq!(shown(&emit_log("hello")), pairs(&[("type", "\"log\""), ("text", "\"hello\"")]));
}

#[test]
fn my_info_event() {
    assert_eq!(
        event(InboundEvent::MyInfo { node_num: 0xff }),
        pairs(&[
            ("type", "\"my_info\""),
            ("node_num", "255"),
            ("text", "\"MyNodeInfo node_num=!000000ff\""),
        ])
    );
}

#[test]
fn node_info_event() {
    assert_eq!(
        event(InboundEvent::NodeInfo { num: 16, long_name: Some("Ann".to_string()) }),
        pairs(&[
            ("type", "\"node_info\""),
            ("node_num", "16"),
            ("long_name", "\"Ann\""),
            ("text", "\"NodeInfo !00000010 \\\"Ann\\\" (known nodes: 3)\""),
        ])
    );
    assert_eq!(
        event(InboundEvent::NodeInfo { num: u32::MAX, long_name: None }),
        pairs(&[
            ("type", "\"node_info\""),
            ("node_num", "4294967295"),
            ("long_name", "\"?\""),
            ("text", "\"NodeInfo broadcast \\\"?\\\" (known nodes: 3)\""),
        ])
    );
}

#[test]
fn owner_event() {
    assert_eq!(
        event(InboundEvent::Owner { long_name: "Bo".to_string() }),
        pairs(&[
            ("type", "\"owner\""),
            ("long_name", "\"Bo\""),
            ("text", "\"Owner \\\"Bo\\\"\""),
        ])
    );
}

#[test]
fn config_events() {
    let names = [
        (ConfigSection::Lora, "lora"),
        (ConfigSection::Device, "device"),
        (ConfigSection::Position, "position"),
        (ConfigSection::Power, "power"),
        (ConfigSection::Network, "network"),
        (ConfigSection::Display, "display"),
        (ConfigSection::Bluetooth, "bluetooth"),
        (ConfigSection::Other, "other"),
    ];
    for (section, name) in names {
        assert_eq!(
            event(InboundEvent::Config(section)),
            pairs(&[
                ("type", "\"config\""),
                ("section", &format!("{name:?}")),
                ("text", &format!("{:?}", format!("Config: {name}"))),
            ])
        );
    }
}

#[test]
fn channel_event() {
    assert_eq!(
        event(InboundEvent::Channel { index: -1 }),
        pairs(&[
            ("type", "\"channel\""),
            ("index", "-1"),
            ("text", "\"Channel[-1] (total: 2)\""),
        ])
    );
}

#[test]
fn metadata_event() {
    assert_eq!(
        event(InboundEvent::Metadata { firmware_version: "2.6".to_string() }),
        pairs(&[
            ("type", "\"metadata\""),
            ("firmware_version", "\"2.6\""),
            ("text", "\"Metadata fw=2.6\""),
        ])
    );
}

#[test]
fn config_complete_event() {
    assert_eq!(
        event(InboundEvent::ConfigComplete { nonce: 42 }),
        pairs(&[
            ("type", "\"config_complete\""),
            ("nonce", "42"),
            ("text", "\"✅ ConfigComplete nonce=42 — READY (nodes=3, channels=2, fw=2.5.1)\""),
        ])
    );
    let e = build_event(&InboundEvent::ConfigComplete { nonce: 0 }, &ProtocolState::new());
    assert_eq!(
        shown(&e)[2].1,
        "\"✅ ConfigComplete nonce=0 — READY (nodes=0, channels=0, fw=?)\""
    );
}

#[test]
fn incoming_text_event() {
    assert_eq!(
        event(InboundEvent::IncomingText {
            from: 1,
            to: u32::MAX,
            channel: 2,
            text: "hi there".to_string()
        }),
        pairs(&[
            ("type", "\"incoming_text\""),
            ("from", "1"),
            ("to", "4294967295"),
            ("channel", "2"),
            ("body", "\"hi there\""),
            ("text", "\"💬 text from !00000001 to broadcast ch2: hi there\""),
        ])
    );
}

#[test]
fn incoming_data_event() {
    assert_eq!(
        event(InboundEvent::IncomingData { portnum: 67, from: 9, payload: vec![0; 5] }),
        pairs(&[
            ("type", "\"incoming_data\""),
            ("port", "67"),
            ("from", "9"),
            ("len", "5"),
            ("text", "\"data port=67 from=!00000009 (5 bytes)\""),
        ])
    );
}

#[test]
fn voice_event_is_a_log_line() {
    let e = build_event(
        &InboundEvent::Voice {
            from: "!00000007".to_string(),
            to: VoiceDestination::Broadcast,
            channel: 0,
            payload: vec![1, 2, 3],
        },
        &known(),
    );
    assert_eq!(shown(&e)[0], ("type".to_string(), "\"log\"".to_string()));
    assert_eq!(e.fields.len(), 2);
    assert_eq!(
        e.fields[1].value,
        FieldValue::Text("🎙️ voice from !00000007 (3 bytes)".to_string())
    );
}

#[test]
fn queue_status_event() {
    assert_eq!(
        event(InboundEvent::QueueStatus { free: 15 }),
        pairs(&[("type", "\"queue_status\""), ("free", "15"), ("text", "\"queue free=15\"")])
    );
}

#[test]
fn ack_events() {
    let cases = [
        (AckResult::Delivered, "delivered", "delivered"),
        (AckResult::Failed("no route".to_string()), "failed", "failed: no route"),
        (AckResult::TimedOut, "timed_out", "timed out"),
        (AckResult::Cancelled, "cancelled", "cancelled"),
    ];
    for (result, status, words) in cases {
        assert_eq!(
            event(InboundEvent::AckOrNak { request_id: 0x1f, result }),
            pairs(&[
                ("type", "\"ack_or_nak\""),
                ("request_id", "31"),
                ("status", &format!("{status:?}")),
                ("text", &format!("{:?}", format!("ack id=0x0000001f: {words}"))),
            ])
        );
    }
}

#[test]
fn no_event_sets_a_field_twice() {
    let all = [
        InboundEvent::MyInfo { node_num: 1 },
        InboundEvent::IncomingText { from: 1, to: 2, channel: 3, text: String::new() },
        InboundEvent::IncomingData { portnum: 1, from: 2, payload: vec![] },
        InboundEvent::AckOrNak { request_id: 1, result: AckResult::Delivered },
    ];
    for ev in all {
        let e = build_event(&ev, &known());
        for i in 0..e.fields.len() {
            for j in 0..i {
                assert_ne!(e.fields[i].key, e.fields[j].key);
            }
        }
        assert_eq!(e.fields[0].key, "type");
        assert_eq!(e.fields[e.fields.len() - 1].key, "text");
    }
}

#[test]
fn numbers_as_text() {
    let mut out = String::from("x");
    push_dec(&mut out, 0);
    push_dec(&mut out, u64::MAX);
    assert_eq!(out, "x018446744073709551615");
    let mut out = String::new();
    push_dec_signed(&mut out, i32::MIN);
    push_dec_signed(&mut out, 7);
    assert_eq!(out, "-21474836487");
    for n in [0u32, 9, 10, 15, 16, 255, 256, 0x1234_abcd, u32::MAX] {
        let mut out = String::new();
        push_hex(&mut out, n);
        assert_eq!(out, format!("{n:x}"));
        let mut out = String::new();
        push_hex_padded(&mut out, n, 8);
        assert_eq!(out, format!("{n:08x}"));
    }
    let mut out = String::new();
    push_hex_padded(&mut out, 0x123, 2);
    assert_eq!(out, "23");
}
