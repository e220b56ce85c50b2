//! What the client knows about the radio: its identity, its configuration sections
//! and its channels. Each section names the fields that the settings page edits;
//! everything else that the radio reported about the section travels in `extra` as
//! encoded protobuf fields, where an empty string stands for "all defaults".
//!
//! The types take the representation of text (`S`) and of byte strings (`B`) as
//! parameters, so that a type and its mathematical view are written once.

use vstd::prelude::*;

verus! {

/// The view of an optional value.
pub open spec fn viewed<T: View>(o: Option<T>) -> Option<T::V> {
    match o {
        Some(x) => Some(x@),
        None => None,
    }
}

/// A copy of a byte string.
pub fn copy_bytes(bytes: &Vec<u8>) -> (r: Vec<u8>)
    ensures
        r@ == bytes@,
{
    let mut out: Vec<u8> = Vec::new();
    out.extend_from_slice(bytes.as_slice());
    assert(out@ =~= bytes@);
    out
}

/// Identity of the radio's owner.
#[derive(Debug, PartialEq, Eq)]
pub struct User<S = String, B = Vec<u8>> {
    pub long_name: S,
    pub short_name: S,
    pub is_licensed: bool,
    pub extra: B,
}

impl View for User<String, Vec<u8>> {
    type V = User<Seq<char>, Seq<u8>>;

    open spec fn view(&self) -> User<Seq<char>, Seq<u8>> {
        User {
            long_name: self.long_name@,
            short_name: self.short_name@,
            is_licensed: self.is_licensed,
            extra: self.extra@,
        }
    }
}

/// Radio modem settings. The frequency offset is carried as the bit pattern of a
/// single-precision number.
#[derive(Debug, PartialEq, Eq)]
pub struct LoraConfig<B = Vec<u8>> {
    pub use_preset: bool,
    pub modem_preset: i32,
    pub region: i32,
    pub hop_limit: u32,
    pub tx_power: i32,
    pub tx_enabled: bool,
    pub ignore_mqtt: bool,
    pub channel_num: u32,
    pub bandwidth: u32,
    pub spread_factor: u32,
    pub coding_rate: u32,
    pub frequency_offset_bits: u32,
    pub extra: B,
}

impl View for LoraConfig<Vec<u8>> {
    type V = LoraConfig<Seq<u8>>;

    open spec fn view(&self) -> LoraConfig<Seq<u8>> {
        LoraConfig {
            use_preset: self.use_preset,
            modem_preset: self.modem_preset,
            region: self.region,
            hop_limit: self.hop_limit,
            tx_power: self.tx_power,
            tx_enabled: self.tx_enabled,
            ignore_mqtt: self.ignore_mqtt,
            channel_num: self.channel_num,
            bandwidth: self.bandwidth,
            spread_factor: self.spread_factor,
            coding_rate: self.coding_rate,
            frequency_offset_bits: self.frequency_offset_bits,
            extra: self.extra@,
        }
    }
}

/// Device role and buttons.
#[derive(Debug, PartialEq, Eq)]
pub struct DeviceConfig<B = Vec<u8>> {
    pub role: i32,
    pub rebroadcast_mode: i32,
    pub node_info_broadcast_secs: u32,
    pub double_tap_as_button_press: bool,
    pub disable_triple_click: bool,
    pub button_gpio: u32,
    pub buzzer_gpio: u32,
    pub extra: B,
}

impl View for DeviceConfig<Vec<u8>> {
    type V = DeviceConfig<Seq<u8>>;

    open spec fn view(&self) -> DeviceConfig<Seq<u8>> {
        DeviceConfig {
            role: self.role,
            rebroadcast_mode: self.rebroadcast_mode,
            node_info_broadcast_secs: self.node_info_broadcast_secs,
            double_tap_as_button_press: self.double_tap_as_button_press,
            disable_triple_click: self.disable_triple_click,
            button_gpio: self.button_gpio,
            buzzer_gpio: self.buzzer_gpio,
            extra: self.extra@,
        }
    }
}

/// How the radio uses its GPS receiver; `Other` keeps the number of any further mode.
#[derive(Clone, Copy, Debug, PartialEq, Eq, Structural)]
pub enum GpsMode {
    Disabled,
    Enabled,
    Other(i32),
}

/// Position reporting.
#[derive(Debug, PartialEq, Eq)]
pub struct PositionConfig<B = Vec<u8>> {
    pub position_broadcast_secs: u32,
    pub position_broadcast_smart_enabled: bool,
    pub fixed_position: bool,
    pub gps_mode: GpsMode,
    pub gps_update_interval: u32,
    pub broadcast_smart_minimum_distance: u32,
    pub broadcast_smart_minimum_interval_secs: u32,
    pub extra: B,
}

impl View for PositionConfig<Vec<u8>> {
    type V = PositionConfig<Seq<u8>>;

    open spec fn view(&self) -> PositionConfig<Seq<u8>> {
        PositionConfig {
            position_broadcast_secs: self.position_broadcast_secs,
            position_broadcast_smart_enabled: self.position_broadcast_smart_enabled,
            fixed_position: self.fixed_position,
            gps_mode: self.gps_mode,
            gps_update_interval: self.gps_update_interval,
            broadcast_smart_minimum_distance: self.broadcast_smart_minimum_distance,
            broadcast_smart_minimum_interval_secs: self.broadcast_smart_minimum_interval_secs,
            extra: self.extra@,
        }
    }
}

/// Power saving.
#[derive(Debug, PartialEq, Eq)]
pub struct PowerConfig<B = Vec<u8>> {
    pub is_power_saving: bool,
    pub on_battery_shutdown_after_secs: u32,
    pub wait_bluetooth_secs: u32,
    pub sds_secs: u32,
    pub ls_secs: u32,
    pub min_wake_secs: u32,
    pub extra: B,
}

impl View for PowerConfig<Vec<u8>> {
    type V = PowerConfig<Seq<u8>>;

    open spec fn view(&self) -> PowerConfig<Seq<u8>> {
        PowerConfig {
            is_power_saving: self.is_power_saving,
            on_battery_shutdown_after_secs: self.on_battery_shutdown_after_secs,
            wait_bluetooth_secs: self.wait_bluetooth_secs,
            sds_secs: self.sds_secs,
            ls_secs: self.ls_secs,
            min_wake_secs: self.min_wake_secs,
            extra: self.extra@,
        }
    }
}

/// Network access of the radio.
#[derive(Debug, PartialEq, Eq)]
pub struct NetworkConfig<S = String, B = Vec<u8>> {
    pub wifi_enabled: bool,
    pub wifi_ssid: S,
    pub wifi_psk: S,
    pub eth_enabled: bool,
    pub address_mode: i32,
    pub ntp_server: S,
    pub rsyslog_server: S,
    pub extra: B,
}

impl View for NetworkConfig<String, Vec<u8>> {
    type V = NetworkConfig<Seq<char>, Seq<u8>>;

    open spec fn view(&self) -> NetworkConfig<Seq<char>, Seq<u8>> {
        NetworkConfig {
            wifi_enabled: self.wifi_enabled,
            wifi_ssid: self.wifi_ssid@,
            wifi_psk: self.wifi_psk@,
            eth_enabled: self.eth_enabled,
            address_mode: self.address_mode,
            ntp_server: self.ntp_server@,
            rsyslog_server: self.rsyslog_server@,
            extra: self.extra@,
        }
    }
}

/// The radio's own display.
#[derive(Debug, PartialEq, Eq)]
pub struct DisplayConfig<B = Vec<u8>> {
    pub screen_on_secs: u32,
    pub auto_screen_carousel_secs: u32,
    pub units: i32,
    pub oled: i32,
    pub displaymode: i32,
    pub flip_screen: bool,
    pub heading_bold: bool,
    pub wake_on_tap_or_motion: bool,
    pub use_12h_clock: bool,
    pub extra: B,
}

impl View for DisplayConfig<Vec<u8>> {
    type V = DisplayConfig<Seq<u8>>;

    open spec fn view(&self) -> DisplayConfig<Seq<u8>> {
        DisplayConfig {
            screen_on_secs: self.screen_on_secs,
            auto_screen_carousel_secs: self.auto_screen_carousel_secs,
            units: self.units,
            oled: self.oled,
            displaymode: self.displaymode,
            flip_screen: self.flip_screen,
            heading_bold: self.heading_bold,
            wake_on_tap_or_motion: self.wake_on_tap_or_motion,
            use_12h_clock: self.use_12h_clock,
            extra: self.extra@,
        }
    }
}

/// Bluetooth pairing of the radio; the section has no further fields.
#[derive(Clone, Copy, Debug, PartialEq, Eq, Structural)]
pub struct BluetoothConfig {
    pub enabled: bool,
    pub mode: i32,
    pub fixed_pin: u32,
}

/// Settings of one channel; the key and the module settings travel in `extra`.
#[derive(Debug, PartialEq, Eq)]
pub struct ChannelSettings<S = String, B = Vec<u8>> {
    pub name: S,
    pub uplink_enabled: bool,
    pub downlink_enabled: bool,
    pub extra: B,
}

impl View for ChannelSettings<String, Vec<u8>> {
    type V = ChannelSettings<Seq<char>, Seq<u8>>;

    open spec fn view(&self) -> ChannelSettings<Seq<char>, Seq<u8>> {
        ChannelSettings {
            name: self.name@,
            uplink_enabled: self.uplink_enabled,
            downlink_enabled: self.downlink_enabled,
            extra: self.extra@,
        }
    }
}

/// One channel slot.
#[derive(Debug, PartialEq, Eq)]
pub struct Channel<S = String, B = Vec<u8>> {
    pub index: i32,
    pub role: i32,
    pub settings: Option<ChannelSettings<S, B>>,
}

impl View for Channel<String, Vec<u8>> {
    type V = Channel<Seq<char>, Seq<u8>>;

    open spec fn view(&self) -> Channel<Seq<char>, Seq<u8>> {
        Channel { index: self.index, role: self.role, settings: viewed(self.settings) }
    }
}

/// What the radio has reported so far. A section is absent until it was reported.
#[derive(Debug, PartialEq, Eq)]
pub struct ProtocolState {
    pub my_node_num: Option<u32>,
    pub firmware_version: Option<String>,
    pub owner: Option<User>,
    pub lora: Option<LoraConfig>,
    pub device: Option<DeviceConfig>,
    pub position: Option<PositionConfig>,
    pub power: Option<PowerConfig>,
    pub network: Option<NetworkConfig>,
    pub display: Option<DisplayConfig>,
    pub bluetooth: Option<BluetoothConfig>,
    pub channels: Vec<Channel>,
    /// Number of peers in the node database.
    pub node_count: usize,
}

/// The mathematical view of [`ProtocolState`].
pub struct StateView {
    pub my_node_num: Option<u32>,
    pub firmware_version: Option<Seq<char>>,
    pub owner: Option<User<Seq<char>, Seq<u8>>>,
    pub lora: Option<LoraConfig<Seq<u8>>>,
    pub device: Option<DeviceConfig<Seq<u8>>>,
    pub position: Option<PositionConfig<Seq<u8>>>,
    pub power: Option<PowerConfig<Seq<u8>>>,
    pub network: Option<NetworkConfig<Seq<char>, Seq<u8>>>,
    pub display: Option<DisplayConfig<Seq<u8>>>,
    pub bluetooth: Option<BluetoothConfig>,
    pub channels: Seq<Channel<Seq<char>, Seq<u8>>>,
    pub node_count: nat,
}

impl View for ProtocolState {
    type V = StateView;

    open spec fn view(&self) -> StateView {
        StateView {
            my_node_num: self.my_node_num,
            firmware_version: viewed(self.firmware_version),
            owner: viewed(self.owner),
            lora: viewed(self.lora),
            device: viewed(self.device),
            position: viewed(self.position),
            power: viewed(self.power),
            network: viewed(self.network),
            display: viewed(self.display),
            bluetooth: self.bluetooth,
            channels: self.channels@.map_values(|c: Channel| c@),
            node_count: self.node_count as nat,
        }
    }
}

impl User {
    /// A copy of the identity.
    pub fn copy(&self) -> (r: User)
        ensures
            r@ == self@,
    {
        User {
            long_name: self.long_name.clone(),
            short_name: self.short_name.clone(),
            is_licensed: self.is_licensed,
            extra: copy_bytes(&self.extra),
        }
    }
}

impl ProtocolState {
    /// The state before the radio has reported anything.
    pub fn new() -> (r: Self)
        ensures
            r@ == (StateView {
                my_node_num: None,
                firmware_version: None,
                owner: None,
                lora: None,
                device: None,
                position: None,
                power: None,
                network: None,
                display: None,
                bluetooth: None,
                channels: Seq::empty(),
                node_count: 0,
            }),
    {
        let r = ProtocolState {
            my_node_num: None,
            firmware_version: None,
            owner: None,
            lora: None,
            device: None,
            position: None,
            power: None,
            network: None,
            display: None,
            bluetooth: None,
            channels: Vec::new(),
            node_count: 0,
        };
        assert(r@.channels =~= Seq::empty());
        r
    }
}

} // verus!
