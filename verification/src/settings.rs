//! Settings: reading the radio's configuration as a [`Snapshot`], and building the
//! admin messages that write one section. A write lays the edited fields over what
//! the radio last reported, so that fields which the settings page does not show
//! keep their value.

use vstd::prelude::*;

use crate::state::{
    copy_bytes, viewed, BluetoothConfig, Channel, ChannelSettings, DeviceConfig, DisplayConfig,
    GpsMode, LoraConfig, NetworkConfig, PositionConfig, PowerConfig, ProtocolState, StateView, User,
};

verus! {

/// The owner's identity, as the settings page edits it.
#[derive(Debug, PartialEq, Eq)]
pub struct OwnerDto<S = String> {
    pub long_name: S,
    pub short_name: S,
    pub is_licensed: bool,
}

impl View for OwnerDto<String> {
    type V = OwnerDto<Seq<char>>;

    open spec fn view(&self) -> OwnerDto<Seq<char>> {
        OwnerDto {
            long_name: self.long_name@,
            short_name: self.short_name@,
            is_licensed: self.is_licensed,
        }
    }
}

/// Radio modem settings, as the settings page edits them.
#[derive(Clone, Copy, Debug, PartialEq, Eq, Structural)]
pub struct LoraDto {
    pub use_preset: bool,
    pub modem_preset: i32,
    pub region: i32,
    pub hop_limit: u32,
    pub tx_power: i32,
    pub tx_enabled: bool,
    pub ignore_mqtt: bool,
    pub channel_num: u32,
    pub bandwidth: u32,
    pub spread_factor: u32,
    pub coding_rate: u32,
    pub frequency_offset_bits: u32,
}

/// Device role and buttons, as the settings page edits them.
#[derive(Clone, Copy, Debug, PartialEq, Eq, Structural)]
pub struct DeviceDto {
    pub role: i32,
    pub rebroadcast_mode: i32,
    pub node_info_broadcast_secs: u32,
    pub double_tap_as_button_press: bool,
    pub disable_triple_click: bool,
    pub button_gpio: u32,
    pub buzzer_gpio: u32,
}

/// Position reporting, as the settings page edits it. The GPS mode is shown as a
/// switch: on exactly when the receiver is enabled.
#[derive(Clone, Copy, Debug, PartialEq, Eq, Structural)]
pub struct PositionDto {
    pub position_broadcast_secs: u32,
    pub position_broadcast_smart_enabled: bool,
    pub fixed_position: bool,
    pub gps_enabled: bool,
    pub gps_update_interval: u32,
    pub broadcast_smart_minimum_distance: u32,
    pub broadcast_smart_minimum_interval_secs: u32,
}

/// Power saving, as the settings page edits them.
#[derive(Clone, Copy, Debug, PartialEq, Eq, Structural)]
pub struct PowerDto {
    pub is_power_saving: bool,
    pub on_battery_shutdown_after_secs: u32,
    pub wait_bluetooth_secs: u32,
    pub sds_secs: u32,
    pub ls_secs: u32,
    pub min_wake_secs: u32,
}

/// Network access, as the settings page edits it. An empty key means "keep the key".
#[derive(Debug, PartialEq, Eq)]
pub struct NetworkDto<S = String> {
    pub wifi_enabled: bool,
    pub wifi_ssid: S,
    pub wifi_psk: S,
    pub eth_enabled: bool,
    pub address_mode: i32,
    pub ntp_server: S,
    pub rsyslog_server: S,
}

impl View for NetworkDto<String> {
    type V = NetworkDto<Seq<char>>;

    open spec fn view(&self) -> NetworkDto<Seq<char>> {
        NetworkDto {
            wifi_enabled: self.wifi_enabled,
            wifi_ssid: self.wifi_ssid@,
            wifi_psk: self.wifi_psk@,
            eth_enabled: self.eth_enabled,
            address_mode: self.address_mode,
            ntp_server: self.ntp_server@,
            rsyslog_server: self.rsyslog_server@,
        }
    }
}

/// The radio's own display, as the settings page edits them.
#[derive(Clone, Copy, Debug, PartialEq, Eq, Structural)]
pub struct DisplayDto {
    pub screen_on_secs: u32,
    pub auto_screen_carousel_secs: u32,
    pub units: i32,
    pub oled: i32,
    pub displaymode: i32,
    pub flip_screen: bool,
    pub heading_bold: bool,
    pub wake_on_tap_or_motion: bool,
    pub use_12h_clock: bool,
}

/// Bluetooth pairing, as the settings page edits it.
#[derive(Clone, Copy, Debug, PartialEq, Eq, Structural)]
pub struct BluetoothDto {
    pub enabled: bool,
    pub mode: i32,
    pub fixed_pin: u32,
}

/// One channel slot, as the settings page edits it.
#[derive(Debug, PartialEq, Eq)]
pub struct ChannelDto<S = String> {
    pub index: i32,
    pub role: i32,
    pub name: S,
    pub uplink_enabled: bool,
    pub downlink_enabled: bool,
}

impl View for ChannelDto<String> {
    type V = ChannelDto<Seq<char>>;

    open spec fn view(&self) -> ChannelDto<Seq<char>> {
        ChannelDto {
            index: self.index,
            role: self.role,
            name: self.name@,
            uplink_enabled: self.uplink_enabled,
            downlink_enabled: self.downlink_enabled,
        }
    }
}

/// A fixed location, in units of 1e-7 degrees and in metres.
#[derive(Clone, Copy, Debug, PartialEq, Eq, Structural)]
pub struct FixedPositionDto {
    pub latitude_i: i32,
    pub longitude_i: i32,
    pub altitude: i32,
}

/// The radio's identity, configuration and channels as the settings page shows them.
#[derive(Debug, PartialEq, Eq)]
pub struct Snapshot {
    pub my_node_num: Option<u32>,
    pub fw: Option<String>,
    pub owner: Option<OwnerDto>,
    pub lora: Option<LoraDto>,
    pub device: Option<DeviceDto>,
    pub position: Option<PositionDto>,
    pub power: Option<PowerDto>,
    pub network: Option<NetworkDto>,
    pub display: Option<DisplayDto>,
    pub bluetooth: Option<BluetoothDto>,
    pub channels: Vec<ChannelDto>,
}

/// The mathematical view of [`Snapshot`].
pub struct SnapshotView {
    pub my_node_num: Option<u32>,
    pub fw: Option<Seq<char>>,
    pub owner: Option<OwnerDto<Seq<char>>>,
    pub lora: Option<LoraDto>,
    pub device: Option<DeviceDto>,
    pub position: Option<PositionDto>,
    pub power: Option<PowerDto>,
    pub network: Option<NetworkDto<Seq<char>>>,
    pub display: Option<DisplayDto>,
    pub bluetooth: Option<BluetoothDto>,
    pub channels: Seq<ChannelDto<Seq<char>>>,
}

impl View for Snapshot {
    type V = SnapshotView;

    open spec fn view(&self) -> SnapshotView {
        SnapshotView {
            my_node_num: self.my_node_num,
            fw: viewed(self.fw),
            owner: viewed(self.owner),
            lora: self.lora,
            device: self.device,
            position: self.position,
            power: self.power,
            network: viewed(self.network),
            display: self.display,
            bluetooth: self.bluetooth,
            channels: self.channels@.map_values(|c: ChannelDto| c@),
        }
    }
}

/// One configuration section on its way to the radio.
#[derive(Debug, PartialEq, Eq)]
pub enum ConfigPayload<S = String, B = Vec<u8>> {
    Lora(LoraConfig<B>),
    Device(DeviceConfig<B>),
    Position(PositionConfig<B>),
    Power(PowerConfig<B>),
    Network(NetworkConfig<S, B>),
    Display(DisplayConfig<B>),
    Bluetooth(BluetoothConfig),
}

impl View for ConfigPayload<String, Vec<u8>> {
    type V = ConfigPayload<Seq<char>, Seq<u8>>;

    open spec fn view(&self) -> ConfigPayload<Seq<char>, Seq<u8>> {
        match *self {
            ConfigPayload::Lora(c) => ConfigPayload::Lora(c@),
            ConfigPayload::Device(c) => ConfigPayload::Device(c@),
            ConfigPayload::Position(c) => ConfigPayload::Position(c@),
            ConfigPayload::Power(c) => ConfigPayload::Power(c@),
            ConfigPayload::Network(c) => ConfigPayload::Network(c@),
            ConfigPayload::Display(c) => ConfigPayload::Display(c@),
            ConfigPayload::Bluetooth(c) => ConfigPayload::Bluetooth(c),
        }
    }
}

/// An admin message for the radio.
#[derive(Debug, PartialEq, Eq)]
pub enum AdminPayload<S = String, B = Vec<u8>> {
    SetOwner(User<S, B>),
    SetConfig(ConfigPayload<S, B>),
    SetChannel(Channel<S, B>),
    SetFixedPosition(FixedPositionDto),
    RebootSeconds(i32),
    FactoryResetConfig(i32),
    NodedbReset(bool),
}

impl View for AdminPayload<String, Vec<u8>> {
    type V = AdminPayload<Seq<char>, Seq<u8>>;

    open spec fn view(&self) -> AdminPayload<Seq<char>, Seq<u8>> {
        match *self {
            AdminPayload::SetOwner(u) => AdminPayload::SetOwner(u@),
            AdminPayload::SetConfig(c) => AdminPayload::SetConfig(c@),
            AdminPayload::SetChannel(c) => AdminPayload::SetChannel(c@),
            AdminPayload::SetFixedPosition(p) => AdminPayload::SetFixedPosition(p),
            AdminPayload::RebootSeconds(s) => AdminPayload::RebootSeconds(s),
            AdminPayload::FactoryResetConfig(n) => AdminPayload::FactoryResetConfig(n),
            AdminPayload::NodedbReset(b) => AdminPayload::NodedbReset(b),
        }
    }
}

/// The editable fields of the identity.
pub open spec fn owner_dto(u: User<Seq<char>, Seq<u8>>) -> OwnerDto<Seq<char>> {
    OwnerDto { long_name: u.long_name, short_name: u.short_name, is_licensed: u.is_licensed }
}

/// The identity with the edited fields laid over what the radio reported.
pub open spec fn owner_overlay(
    base: Option<User<Seq<char>, Seq<u8>>>,
    dto: OwnerDto<Seq<char>>,
) -> User<Seq<char>, Seq<u8>> {
    User {
        long_name: dto.long_name,
        short_name: dto.short_name,
        is_licensed: dto.is_licensed,
        extra: match base {
            Some(b) => b.extra,
            None => Seq::empty(),
        },
    }
}

/// The editable fields of the section.
pub open spec fn lora_dto(c: LoraConfig<Seq<u8>>) -> LoraDto {
    LoraDto {
        use_preset: c.use_preset,
        modem_preset: c.modem_preset,
        region: c.region,
        hop_limit: c.hop_limit,
        tx_power: c.tx_power,
        tx_enabled: c.tx_enabled,
        ignore_mqtt: c.ignore_mqtt,
        channel_num: c.channel_num,
        bandwidth: c.bandwidth,
        spread_factor: c.spread_factor,
        coding_rate: c.coding_rate,
        frequency_offset_bits: c.frequency_offset_bits,
    }
}

/// The section with the edited fields laid over what the radio reported.
pub open spec fn lora_overlay(base: Option<LoraConfig<Seq<u8>>>, dto: LoraDto) -> LoraConfig<Seq<u8>> {
    LoraConfig {
        use_preset: dto.use_preset,
        modem_preset: dto.modem_preset,
        region: dto.region,
        hop_limit: dto.hop_limit,
        tx_power: dto.tx_power,
        tx_enabled: dto.tx_enabled,
        ignore_mqtt: dto.ignore_mqtt,
        channel_num: dto.channel_num,
        bandwidth: dto.bandwidth,
        spread_factor: dto.spread_factor,
        coding_rate: dto.coding_rate,
        frequency_offset_bits: dto.frequency_offset_bits,
        extra: match base {
            Some(b) => b.extra,
            None => Seq::empty(),
        },
    }
}

/// The editable fields of the section.
pub open spec fn device_dto(c: DeviceConfig<Seq<u8>>) -> DeviceDto {
    DeviceDto {
        role: c.role,
        rebroadcast_mode: c.rebroadcast_mode,
        node_info_broadcast_secs: c.node_info_broadcast_secs,
        double_tap_as_button_press: c.double_tap_as_button_press,
        disable_triple_click: c.disable_triple_click,
        button_gpio: c.button_gpio,
        buzzer_gpio: c.buzzer_gpio,
    }
}

/// The section with the edited fields laid over what the radio reported.
pub open spec fn device_overlay(base: Option<DeviceConfig<Seq<u8>>>, dto: DeviceDto) -> DeviceConfig<Seq<u8>> {
    DeviceConfig {
        role: dto.role,
        rebroadcast_mode: dto.rebroadcast_mode,
        node_info_broadcast_secs: dto.node_info_broadcast_secs,
        double_tap_as_button_press: dto.double_tap_as_button_press,
        disable_triple_click: dto.disable_triple_click,
        button_gpio: dto.button_gpio,
        buzzer_gpio: dto.buzzer_gpio,
        extra: match base {
            Some(b) => b.extra,
            None => Seq::empty(),
        },
    }
}

/// The editable fields of the section.
pub open spec fn position_dto(c: PositionConfig<Seq<u8>>) -> PositionDto {
    PositionDto {
        position_broadcast_secs: c.position_broadcast_secs,
        position_broadcast_smart_enabled: c.position_broadcast_smart_enabled,
        fixed_position: c.fixed_position,
        gps_enabled: c.gps_mode == GpsMode::Enabled,
        gps_update_interval: c.gps_update_interval,
        broadcast_smart_minimum_distance: c.broadcast_smart_minimum_distance,
        broadcast_smart_minimum_interval_secs: c.broadcast_smart_minimum_interval_secs,
    }
}

/// The section with the edited fields laid over what the radio reported.
pub open spec fn position_overlay(
    base: Option<PositionConfig<Seq<u8>>>,
    dto: PositionDto,
) -> PositionConfig<Seq<u8>> {
    PositionConfig {
        position_broadcast_secs: dto.position_broadcast_secs,
        position_broadcast_smart_enabled: dto.position_broadcast_smart_enabled,
        fixed_position: dto.fixed_position,
        gps_mode: if dto.gps_enabled {
            GpsMode::Enabled
        } else {
            GpsMode::Disabled
        },
        gps_update_interval: dto.gps_update_interval,
        broadcast_smart_minimum_distance: dto.broadcast_smart_minimum_distance,
        broadcast_smart_minimum_interval_secs: dto.broadcast_smart_minimum_interval_secs,
        extra: match base {
            Some(b) => b.extra,
            None => Seq::empty(),
        },
    }
}

/// The editable fields of the section.
pub open spec fn power_dto(c: PowerConfig<Seq<u8>>) -> PowerDto {
    PowerDto {
        is_power_saving: c.is_power_saving,
        on_battery_shutdown_after_secs: c.on_battery_shutdown_after_secs,
        wait_bluetooth_secs: c.wait_bluetooth_secs,
        sds_secs: c.sds_secs,
        ls_secs: c.ls_secs,
        min_wake_secs: c.min_wake_secs,
    }
}

/// The section with the edited fields laid over what the radio reported.
pub open spec fn power_overlay(base: Option<PowerConfig<Seq<u8>>>, dto: PowerDto) -> PowerConfig<Seq<u8>> {
    PowerConfig {
        is_power_saving: dto.is_power_saving,
        on_battery_shutdown_after_secs: dto.on_battery_shutdown_after_secs,
        wait_bluetooth_secs: dto.wait_bluetooth_secs,
        sds_secs: dto.sds_secs,
        ls_secs: dto.ls_secs,
        min_wake_secs: dto.min_wake_secs,
        extra: match base {
            Some(b) => b.extra,
            None => Seq::empty(),
        },
    }
}

/// The editable fields of the section; the key is never shown.
pub open spec fn network_dto(c: NetworkConfig<Seq<char>, Seq<u8>>) -> NetworkDto<Seq<char>> {
    NetworkDto {
        wifi_enabled: c.wifi_enabled,
        wifi_ssid: c.wifi_ssid,
        wifi_psk: Seq::empty(),
        eth_enabled: c.eth_enabled,
        address_mode: c.address_mode,
        ntp_server: c.ntp_server,
        rsyslog_server: c.rsyslog_server,
    }
}

/// The section with the edited fields laid over what the radio reported; an empty
/// key keeps the key of the radio.
pub open spec fn network_overlay(
    base: Option<NetworkConfig<Seq<char>, Seq<u8>>>,
    dto: NetworkDto<Seq<char>>,
) -> NetworkConfig<Seq<char>, Seq<u8>> {
    NetworkConfig {
        wifi_enabled: dto.wifi_enabled,
        wifi_ssid: dto.wifi_ssid,
        wifi_psk: if dto.wifi_psk.len() > 0 {
            dto.wifi_psk
        } else {
            match base {
                Some(b) => b.wifi_psk,
                None => Seq::empty(),
            }
        },
        eth_enabled: dto.eth_enabled,
        address_mode: dto.address_mode,
        ntp_server: dto.ntp_server,
        rsyslog_server: dto.rsyslog_server,
        extra: match base {
            Some(b) => b.extra,
            None => Seq::empty(),
        },
    }
}

/// The editable fields of the section.
pub open spec fn display_dto(c: DisplayConfig<Seq<u8>>) -> DisplayDto {
    DisplayDto {
        screen_on_secs: c.screen_on_secs,
        auto_screen_carousel_secs: c.auto_screen_carousel_secs,
        units: c.units,
        oled: c.oled,
        displaymode: c.displaymode,
        flip_screen: c.flip_screen,
        heading_bold: c.heading_bold,
        wake_on_tap_or_motion: c.wake_on_tap_or_motion,
        use_12h_clock: c.use_12h_clock,
    }
}

/// The section with the edited fields laid over what the radio reported.
pub open spec fn display_overlay(base: Option<DisplayConfig<Seq<u8>>>, dto: DisplayDto) -> DisplayConfig<Seq<u8>> {
    DisplayConfig {
        screen_on_secs: dto.screen_on_secs,
        auto_screen_carousel_secs: dto.auto_screen_carousel_secs,
        units: dto.units,
        oled: dto.oled,
        displaymode: dto.displaymode,
        flip_screen: dto.flip_screen,
        heading_bold: dto.heading_bold,
        wake_on_tap_or_motion: dto.wake_on_tap_or_motion,
        use_12h_clock: dto.use_12h_clock,
        extra: match base {
            Some(b) => b.extra,
            None => Seq::empty(),
        },
    }
}

/// The editable fields of the section.
pub open spec fn bluetooth_dto(c: BluetoothConfig) -> BluetoothDto {
    BluetoothDto { enabled: c.enabled, mode: c.mode, fixed_pin: c.fixed_pin }
}

/// The section made of the edited fields, which are all that it has.
pub open spec fn bluetooth_overlay(dto: BluetoothDto) -> BluetoothConfig {
    BluetoothConfig { enabled: dto.enabled, mode: dto.mode, fixed_pin: dto.fixed_pin }
}

/// The editable fields of a channel; those of absent settings are empty and off.
pub open spec fn channel_dto(c: Channel<Seq<char>, Seq<u8>>) -> ChannelDto<Seq<char>> {
    ChannelDto {
        index: c.index,
        role: c.role,
        name: match c.settings {
            Some(s) => s.name,
            None => Seq::empty(),
        },
        uplink_enabled: c.settings is Some && c.settings->Some_0.uplink_enabled,
        downlink_enabled: c.settings is Some && c.settings->Some_0.downlink_enabled,
    }
}

/// The first channel of the list that has the index.
pub open spec fn first_with_index(
    channels: Seq<Channel<Seq<char>, Seq<u8>>>,
    index: i32,
) -> Option<Channel<Seq<char>, Seq<u8>>>
    decreases channels.len(),
{
    if channels.len() == 0 {
        None
    } else if channels[0].index == index {
        Some(channels[0])
    } else {
        first_with_index(channels.drop_first(), index)
    }
}

/// What the settings of the first channel with the index hold beyond the edited fields.
pub open spec fn channel_extra(channels: Seq<Channel<Seq<char>, Seq<u8>>>, index: i32) -> Seq<u8> {
    match first_with_index(channels, index) {
        Some(c) => match c.settings {
            Some(s) => s.extra,
            None => Seq::empty(),
        },
        None => Seq::empty(),
    }
}

/// The channel with the edited fields laid over what the radio reported for its index.
pub open spec fn channel_overlay(
    channels: Seq<Channel<Seq<char>, Seq<u8>>>,
    dto: ChannelDto<Seq<char>>,
) -> Channel<Seq<char>, Seq<u8>> {
    Channel {
        index: dto.index,
        role: dto.role,
        settings: Some(
            ChannelSettings {
                name: dto.name,
                uplink_enabled: dto.uplink_enabled,
                downlink_enabled: dto.downlink_enabled,
                extra: channel_extra(channels, dto.index),
            },
        ),
    }
}

/// `f` applied to what an optional value holds.
pub open spec fn applied<T, U>(o: Option<T>, f: spec_fn(T) -> U) -> Option<U> {
    match o {
        Some(x) => Some(f(x)),
        None => None,
    }
}

/// The snapshot of a state: every reported section by its editable fields.
pub open spec fn snapshot_of(s: StateView) -> SnapshotView {
    SnapshotView {
        my_node_num: s.my_node_num,
        fw: s.firmware_version,
        owner: applied(s.owner, |c| owner_dto(c)),
        lora: applied(s.lora, |c| lora_dto(c)),
        device: applied(s.device, |c| device_dto(c)),
        position: applied(s.position, |c| position_dto(c)),
        power: applied(s.power, |c| power_dto(c)),
        network: applied(s.network, |c| network_dto(c)),
        display: applied(s.display, |c| display_dto(c)),
        bluetooth: applied(s.bluetooth, |c| bluetooth_dto(c)),
        channels: s.channels.map_values(|c: Channel<Seq<char>, Seq<u8>>| channel_dto(c)),
    }
}

/// Reads the editable fields of the identity.
pub fn owner_to_dto(u: &User) -> (r: OwnerDto)
    ensures
        r@ == owner_dto(u@),
{
    OwnerDto {
        long_name: u.long_name.clone(),
        short_name: u.short_name.clone(),
        is_licensed: u.is_licensed,
    }
}

/// Reads the editable fields of the section.
pub fn lora_to_dto(c: &LoraConfig) -> (r: LoraDto)
    ensures
        r == lora_dto(c@),
{
    LoraDto {
        use_preset: c.use_preset,
        modem_preset: c.modem_preset,
        region: c.region,
        hop_limit: c.hop_limit,
        tx_power: c.tx_power,
        tx_enabled: c.tx_enabled,
        ignore_mqtt: c.ignore_mqtt,
        channel_num: c.channel_num,
        bandwidth: c.bandwidth,
        spread_factor: c.spread_factor,
        coding_rate: c.coding_rate,
        frequency_offset_bits: c.frequency_offset_bits,
    }
}

/// Reads the editable fields of the section.
pub fn device_to_dto(c: &DeviceConfig) -> (r: DeviceDto)
    ensures
        r == device_dto(c@),
{
    DeviceDto {
        role: c.role,
        rebroadcast_mode: c.rebroadcast_mode,
        node_info_broadcast_secs: c.node_info_broadcast_secs,
        double_tap_as_button_press: c.double_tap_as_button_press,
        disable_triple_click: c.disable_triple_click,
        button_gpio: c.button_gpio,
        buzzer_gpio: c.buzzer_gpio,
    }
}

/// Reads the editable fields of the section.
pub fn position_to_dto(c: &PositionConfig) -> (r: PositionDto)
    ensures
        r == position_dto(c@),
{
    PositionDto {
        position_broadcast_secs: c.position_broadcast_secs,
        position_broadcast_smart_enabled: c.position_broadcast_smart_enabled,
        fixed_position: c.fixed_position,
        gps_enabled: c.gps_mode == GpsMode::Enabled,
        gps_update_interval: c.gps_update_interval,
        broadcast_smart_minimum_distance: c.broadcast_smart_minimum_distance,
        broadcast_smart_minimum_interval_secs: c.broadcast_smart_minimum_interval_secs,
    }
}

/// Reads the editable fields of the section.
pub fn power_to_dto(c: &PowerConfig) -> (r: PowerDto)
    ensures
        r == power_dto(c@),
{
    PowerDto {
        is_power_saving: c.is_power_saving,
        on_battery_shutdown_after_secs: c.on_battery_shutdown_after_secs,
        wait_bluetooth_secs: c.wait_bluetooth_secs,
        sds_secs: c.sds_secs,
        ls_secs: c.ls_secs,
        min_wake_secs: c.min_wake_secs,
    }
}

/// Reads the editable fields of the section, without the key.
pub fn network_to_dto(c: &NetworkConfig) -> (r: NetworkDto)
    ensures
        r@ == network_dto(c@),
{
    NetworkDto {
        wifi_enabled: c.wifi_enabled,
        wifi_ssid: c.wifi_ssid.clone(),
        wifi_psk: String::new(),
        eth_enabled: c.eth_enabled,
        address_mode: c.address_mode,
        ntp_server: c.ntp_server.clone(),
        rsyslog_server: c.rsyslog_server.clone(),
    }
}

/// Reads the editable fields of the section.
pub fn display_to_dto(c: &DisplayConfig) -> (r: DisplayDto)
    ensures
        r == display_dto(c@),
{
    DisplayDto {
        screen_on_secs: c.screen_on_secs,
        auto_screen_carousel_secs: c.auto_screen_carousel_secs,
        units: c.units,
        oled: c.oled,
        displaymode: c.displaymode,
        flip_screen: c.flip_screen,
        heading_bold: c.heading_bold,
        wake_on_tap_or_motion: c.wake_on_tap_or_motion,
        use_12h_clock: c.use_12h_clock,
    }
}

/// Reads the fields of the section.
pub fn bluetooth_to_dto(c: &BluetoothConfig) -> (r: BluetoothDto)
    ensures
        r == bluetooth_dto(*c),
{
    BluetoothDto { enabled: c.enabled, mode: c.mode, fixed_pin: c.fixed_pin }
}

/// Reads the editable fields of a channel.
pub fn channel_to_dto(c: &Channel) -> (r: ChannelDto)
    ensures
        r@ == channel_dto(c@),
{
    match &c.settings {
        Some(s) => ChannelDto {
            index: c.index,
            role: c.role,
            name: s.name.clone(),
            uplink_enabled: s.uplink_enabled,
            downlink_enabled: s.downlink_enabled,
        },
        None => ChannelDto {
            index: c.index,
            role: c.role,
            name: String::new(),
            uplink_enabled: false,
            downlink_enabled: false,
        },
    }
}

/// Reads the whole state as a snapshot; sections that were not reported are absent.
pub fn build_snapshot(state: &ProtocolState) -> (r: Snapshot)
    ensures
        r@ == snapshot_of(state@),
{
    let mut channels: Vec<ChannelDto> = Vec::new();
    let mut i: usize = 0;
    while i < state.channels.len()
        invariant
            i <= state.channels@.len(),
            channels@.len() == i,
            forall|k: int|
                0 <= k < i ==> (#[trigger] channels@[k])@ == channel_dto(state.channels@[k]@),
        decreases state.channels@.len() - i,
    {
        channels.push(channel_to_dto(&state.channels[i]));
        i += 1;
    }
    let r = Snapshot {
        my_node_num: state.my_node_num,
        fw: match &state.firmware_version {
            Some(v) => Some(v.clone()),
            None => None,
        },
        owner: match &state.owner {
            Some(u) => Some(owner_to_dto(u)),
            None => None,
        },
        lora: match &state.lora {
            Some(c) => Some(lora_to_dto(c)),
            None => None,
        },
        device: match &state.device {
            Some(c) => Some(device_to_dto(c)),
            None => None,
        },
        position: match &state.position {
            Some(c) => Some(position_to_dto(c)),
            None => None,
        },
        power: match &state.power {
            Some(c) => Some(power_to_dto(c)),
            None => None,
        },
        network: match &state.network {
            Some(c) => Some(network_to_dto(c)),
            None => None,
        },
        display: match &state.display {
            Some(c) => Some(display_to_dto(c)),
            None => None,
        },
        bluetooth: match &state.bluetooth {
            Some(c) => Some(bluetooth_to_dto(c)),
            None => None,
        },
        channels,
    };
    assert(r@.channels =~= snapshot_of(state@).channels);
    r
}

/// The admin message that writes the edited identity, unedited fields kept.
pub fn owner_payload(state: &ProtocolState, dto: OwnerDto) -> (r: AdminPayload)
    ensures
        r@ == AdminPayload::<Seq<char>, Seq<u8>>::SetOwner(owner_overlay(state@.owner, dto@)),
{
    let extra: Vec<u8> = match &state.owner {
        Some(base) => copy_bytes(&base.extra),
        None => Vec::new(),
    };
    let ghost base = state@.owner;
    assert(extra@ == owner_overlay(base, dto@).extra);
    AdminPayload::SetOwner(
        User {
            long_name: dto.long_name,
            short_name: dto.short_name,
            is_licensed: dto.is_licensed,
            extra,
        },
    )
}

/// The admin message that writes the edited section, unedited fields kept.
pub fn lora_payload(state: &ProtocolState, dto: LoraDto) -> (r: AdminPayload)
    ensures
        r@ == AdminPayload::<Seq<char>, Seq<u8>>::SetConfig(
            ConfigPayload::Lora(lora_overlay(state@.lora, dto)),
        ),
{
    let extra: Vec<u8> = match &state.lora {
        Some(base) => copy_bytes(&base.extra),
        None => Vec::new(),
    };
    let ghost base = state@.lora;
    assert(extra@ == lora_overlay(base, dto).extra);
    AdminPayload::SetConfig(
        ConfigPayload::Lora(
            LoraConfig {
                use_preset: dto.use_preset,
                modem_preset: dto.modem_preset,
                region: dto.region,
                hop_limit: dto.hop_limit,
                tx_power: dto.tx_power,
                tx_enabled: dto.tx_enabled,
                ignore_mqtt: dto.ignore_mqtt,
                channel_num: dto.channel_num,
                bandwidth: dto.bandwidth,
                spread_factor: dto.spread_factor,
                coding_rate: dto.coding_rate,
                frequency_offset_bits: dto.frequency_offset_bits,
                extra,
            },
        ),
    )
}

/// The admin message that writes the edited section, unedited fields kept.
pub fn device_payload(state: &ProtocolState, dto: DeviceDto) -> (r: AdminPayload)
    ensures
        r@ == AdminPayload::<Seq<char>, Seq<u8>>::SetConfig(
            ConfigPayload::Device(device_overlay(state@.device, dto)),
        ),
{
    let extra: Vec<u8> = match &state.device {
        Some(base) => copy_bytes(&base.extra),
        None => Vec::new(),
    };
    let ghost base = state@.device;
    assert(extra@ == device_overlay(base, dto).extra);
    AdminPayload::SetConfig(
        ConfigPayload::Device(
            DeviceConfig {
                role: dto.role,
                rebroadcast_mode: dto.rebroadcast_mode,
                node_info_broadcast_secs: dto.node_info_broadcast_secs,
                double_tap_as_button_press: dto.double_tap_as_button_press,
                disable_triple_click: dto.disable_triple_click,
                button_gpio: dto.button_gpio,
                buzzer_gpio: dto.buzzer_gpio,
                extra,
            },
        ),
    )
}

/// The admin message that writes the edited section, unedited fields kept. The
/// switch of the settings page chooses between the enabled and the disabled mode.
pub fn position_payload(state: &ProtocolState, dto: PositionDto) -> (r: AdminPayload)
    ensures
        r@ == AdminPayload::<Seq<char>, Seq<u8>>::SetConfig(
            ConfigPayload::Position(position_overlay(state@.position, dto)),
        ),
{
    let extra: Vec<u8> = match &state.position {
        Some(base) => copy_bytes(&base.extra),
        None => Vec::new(),
    };
    let ghost base = state@.position;
    assert(extra@ == position_overlay(base, dto).extra);
    AdminPayload::SetConfig(
        ConfigPayload::Position(
            PositionConfig {
                position_broadcast_secs: dto.position_broadcast_secs,
                position_broadcast_smart_enabled: dto.position_broadcast_smart_enabled,
                fixed_position: dto.fixed_position,
                gps_mode: if dto.gps_enabled {
                    GpsMode::Enabled
                } else {
                    GpsMode::Disabled
                },
                gps_update_interval: dto.gps_update_interval,
                broadcast_smart_minimum_distance: dto.broadcast_smart_minimum_distance,
                broadcast_smart_minimum_interval_secs: dto.broadcast_smart_minimum_interval_secs,
                extra,
            },
        ),
    )
}

/// The admin message that writes the edited section, unedited fields kept.
pub fn power_payload(state: &ProtocolState, dto: PowerDto) -> (r: AdminPayload)
    ensures
        r@ == AdminPayload::<Seq<char>, Seq<u8>>::SetConfig(
            ConfigPayload::Power(power_overlay(state@.power, dto)),
        ),
{
    let extra: Vec<u8> = match &state.power {
        Some(base) => copy_bytes(&base.extra),
        None => Vec::new(),
    };
    let ghost base = state@.power;
    assert(extra@ == power_overlay(base, dto).extra);
    AdminPayload::SetConfig(
        ConfigPayload::Power(
            PowerConfig {
                is_power_saving: dto.is_power_saving,
                on_battery_shutdown_after_secs: dto.on_battery_shutdown_after_secs,
                wait_bluetooth_secs: dto.wait_bluetooth_secs,
                sds_secs: dto.sds_secs,
                ls_secs: dto.ls_secs,
                min_wake_secs: dto.min_wake_secs,
                extra,
            },
        ),
    )
}

/// The admin message that writes the edited section, unedited fields kept. An empty
/// key keeps the key that the radio has.
pub fn network_payload(state: &ProtocolState, dto: NetworkDto) -> (r: AdminPayload)
    ensures
        r@ == AdminPayload::<Seq<char>, Seq<u8>>::SetConfig(
            ConfigPayload::Network(network_overlay(state@.network, dto@)),
        ),
{
    let ghost base = state@.network;
    let ghost edited = dto@;
    let (kept_psk, extra): (String, Vec<u8>) = match &state.network {
        Some(base) => (base.wifi_psk.clone(), copy_bytes(&base.extra)),
        None => (String::new(), Vec::new()),
    };
    let wifi_psk: String = if dto.wifi_psk.as_str().is_empty() {
        kept_psk
    } else {
        dto.wifi_psk
    };
    assert(extra@ == network_overlay(base, edited).extra);
    assert(wifi_psk@ == network_overlay(base, edited).wifi_psk);
    AdminPayload::SetConfig(
        ConfigPayload::Network(
            NetworkConfig {
                wifi_enabled: dto.wifi_enabled,
                wifi_ssid: dto.wifi_ssid,
                wifi_psk,
                eth_enabled: dto.eth_enabled,
                address_mode: dto.address_mode,
                ntp_server: dto.ntp_server,
                rsyslog_server: dto.rsyslog_server,
                extra,
            },
        ),
    )
}

/// The admin message that writes the edited section, unedited fields kept.
pub fn display_payload(state: &ProtocolState, dto: DisplayDto) -> (r: AdminPayload)
    ensures
        r@ == AdminPayload::<Seq<char>, Seq<u8>>::SetConfig(
            ConfigPayload::Display(display_overlay(state@.display, dto)),
        ),
{
    let extra: Vec<u8> = match &state.display {
        Some(base) => copy_bytes(&base.extra),
        None => Vec::new(),
    };
    let ghost base = state@.display;
    assert(extra@ == display_overlay(base, dto).extra);
    AdminPayload::SetConfig(
        ConfigPayload::Display(
            DisplayConfig {
                screen_on_secs: dto.screen_on_secs,
                auto_screen_carousel_secs: dto.auto_screen_carousel_secs,
                units: dto.units,
                oled: dto.oled,
                displaymode: dto.displaymode,
                flip_screen: dto.flip_screen,
                heading_bold: dto.heading_bold,
                wake_on_tap_or_motion: dto.wake_on_tap_or_motion,
                use_12h_clock: dto.use_12h_clock,
                extra,
            },
        ),
    )
}

/// The admin message that writes the section.
pub fn bluetooth_payload(_state: &ProtocolState, dto: BluetoothDto) -> (r: AdminPayload)
    ensures
        r@ == AdminPayload::<Seq<char>, Seq<u8>>::SetConfig(
            ConfigPayload::Bluetooth(bluetooth_overlay(dto)),
        ),
{
    AdminPayload::SetConfig(
        ConfigPayload::Bluetooth(
            BluetoothConfig { enabled: dto.enabled, mode: dto.mode, fixed_pin: dto.fixed_pin },
        ),
    )
}

/// The admin message that writes an edited channel, its key and module settings kept.
pub fn channel_payload(state: &ProtocolState, dto: ChannelDto) -> (r: AdminPayload)
    ensures
        r@ == AdminPayload::<Seq<char>, Seq<u8>>::SetChannel(
            channel_overlay(state@.channels, dto@),
        ),
{
    let ghost all = state@.channels;
    let ghost edited = dto@;
    let mut i: usize = 0;
    assert(all.skip(0) =~= all);
    while i < state.channels.len() && state.channels[i].index != dto.index
        invariant
            all == state.channels@.map_values(|c: Channel| c@),
            i <= state.channels@.len(),
            first_with_index(all, dto.index) == first_with_index(all.skip(i as int), dto.index),
        decreases state.channels@.len() - i,
    {
        assert(all.skip(i as int)[0] == state.channels@[i as int]@);
        assert(all.skip(i as int).drop_first() =~= all.skip(i + 1));
        i += 1;
    }
    let extra: Vec<u8> = if i < state.channels.len() {
        assert(all.skip(i as int)[0] == state.channels@[i as int]@);
        match &state.channels[i].settings {
            Some(s) => copy_bytes(&s.extra),
            None => Vec::new(),
        }
    } else {
        Vec::new()
    };
    assert(extra@ == channel_extra(all, edited.index));
    AdminPayload::SetChannel(
        Channel {
            index: dto.index,
            role: dto.role,
            settings: Some(
                ChannelSettings {
                    name: dto.name,
                    uplink_enabled: dto.uplink_enabled,
                    downlink_enabled: dto.downlink_enabled,
                    extra,
                },
            ),
        },
    )
}

/// The admin message that fixes the radio's location.
pub fn fixed_position_payload(dto: FixedPositionDto) -> (r: AdminPayload)
    ensures
        r@ == AdminPayload::<Seq<char>, Seq<u8>>::SetFixedPosition(dto),
{
    AdminPayload::SetFixedPosition(dto)
}

/// Writing back a section just as it was read changes nothing of what the radio
/// reported, not even what the settings page does not show. (In the position section
/// a GPS mode that the switch cannot express would be turned off.)
pub proof fn writing_back_what_was_read_changes_nothing(s: StateView)
    ensures
        snapshot_of(s).owner matches Some(d) ==> owner_overlay(s.owner, d) == s.owner->Some_0,
        snapshot_of(s).lora matches Some(d) ==> lora_overlay(s.lora, d) == s.lora->Some_0,
        snapshot_of(s).device matches Some(d) ==> device_overlay(s.device, d) == s.device->Some_0,
        snapshot_of(s).position matches Some(d) ==> (!(s.position->Some_0.gps_mode is Other)
            ==> position_overlay(s.position, d) == s.position->Some_0),
        snapshot_of(s).power matches Some(d) ==> power_overlay(s.power, d) == s.power->Some_0,
        snapshot_of(s).network matches Some(d) ==> network_overlay(s.network, d)
            == s.network->Some_0,
        snapshot_of(s).display matches Some(d) ==> display_overlay(s.display, d)
            == s.display->Some_0,
        snapshot_of(s).bluetooth matches Some(d) ==> bluetooth_overlay(d) == s.bluetooth->Some_0,
{
}

/// Writing back a channel just as it was read changes nothing, if it has settings
/// and is the first one with its index.
pub proof fn writing_back_a_channel_changes_nothing(s: StateView, k: int)
    requires
        0 <= k < s.channels.len(),
        s.channels[k].settings is Some,
        forall|j: int| 0 <= j < k ==> (#[trigger] s.channels[j]).index != s.channels[k].index,
    ensures
        channel_overlay(s.channels, snapshot_of(s).channels[k]) == s.channels[k],
{
    lemma_first_with_index(s.channels, k);
}

proof fn lemma_first_with_index(channels: Seq<Channel<Seq<char>, Seq<u8>>>, k: int)
    requires
        0 <= k < channels.len(),
        forall|j: int| 0 <= j < k ==> (#[trigger] channels[j]).index != channels[k].index,
    ensures
        first_with_index(channels, channels[k].index) == Some(channels[k]),
    decreases channels.len(),
{
    if k > 0 {
        let rest = channels.drop_first();
        assert(channels[0].index != channels[k].index);
        assert(rest[k - 1] == channels[k]);
        assert forall|j: int| 0 <= j < k - 1 implies (#[trigger] rest[j]).index != rest[k
            - 1].index by {
            assert(rest[j] == channels[j + 1]);
        }
        lemma_first_with_index(rest, k - 1);
    }
}

/// Reading a section after a write shows exactly what was written, except that the
/// key is not shown, and fields that are not edited stay as the radio reported them (or
/// at their defaults where it has not): a channel keeps its key, too.
pub proof fn a_write_changes_the_edited_fields_only(
    s: StateView,
    owner: OwnerDto<Seq<char>>,
    lora: LoraDto,
    device: DeviceDto,
    position: PositionDto,
    power: PowerDto,
    network: NetworkDto<Seq<char>>,
    display: DisplayDto,
    bluetooth: BluetoothDto,
    channel: ChannelDto<Seq<char>>,
)
    ensures
        owner_dto(owner_overlay(s.owner, owner)) == owner,
        lora_dto(lora_overlay(s.lora, lora)) == lora,
        device_dto(device_overlay(s.device, device)) == device,
        position_dto(position_overlay(s.position, position)) == position,
        power_dto(power_overlay(s.power, power)) == power,
        network_dto(network_overlay(s.network, network)) == (NetworkDto {
            wifi_psk: Seq::empty(),
            ..network
        }),
        display_dto(display_overlay(s.display, display)) == display,
        bluetooth_dto(bluetooth_overlay(bluetooth)) == bluetooth,
        channel_dto(channel_overlay(s.channels, channel)) == channel,
        s.owner matches Some(b) ==> owner_overlay(s.owner, owner).extra == b.extra,
        s.lora matches Some(b) ==> lora_overlay(s.lora, lora).extra == b.extra,
        s.device matches Some(b) ==> device_overlay(s.device, device).extra == b.extra,
        s.position matches Some(b) ==> position_overlay(s.position, position).extra == b.extra,
        s.power matches Some(b) ==> power_overlay(s.power, power).extra == b.extra,
        s.network matches Some(b) ==> network_overlay(s.network, network).extra == b.extra,
        s.display matches Some(b) ==> display_overlay(s.display, display).extra == b.extra,
        channel_overlay(s.channels, channel).settings->Some_0.extra == (match first_with_index(
            s.channels,
            channel.index,
        ) {
            Some(Channel { settings: Some(b), .. }) => b.extra,
            _ => Seq::empty(),
        }),
        s.owner is None ==> owner_overlay(s.owner, owner).extra.len() == 0,
        s.lora is None ==> lora_overlay(s.lora, lora).extra.len() == 0,
        s.device is None ==> device_overlay(s.device, device).extra.len() == 0,
        s.position is None ==> position_overlay(s.position, position).extra.len() == 0,
        s.power is None ==> power_overlay(s.power, power).extra.len() == 0,
        s.network is None ==> network_overlay(s.network, network).extra.len() == 0,
        s.display is None ==> display_overlay(s.display, display).extra.len() == 0,
{
}

/// The snapshot does not depend on the network key: states that differ in it alone
/// look the same.
pub proof fn the_key_is_never_shown(s: StateView, psk: Seq<char>)
    requires
        s.network is Some,
    ensures
        snapshot_of(
            StateView {
                network: Some(NetworkConfig { wifi_psk: psk, ..s.network->Some_0 }),
                ..s
            },
        ) == snapshot_of(s),
{
}

} // verus!
