//! Laws of the settings: each field is shown and written under its own name.

use vstd::prelude::*;

use crate::client::{Packet, WebClient};
use crate::settings::{
    bluetooth_payload, bluetooth_to_dto, build_snapshot, channel_payload, channel_to_dto,
    device_payload, device_to_dto, display_payload, display_to_dto, fixed_position_payload,
    first_with_index, lora_payload, lora_to_dto, network_payload, network_to_dto, owner_payload,
    owner_to_dto, position_payload, position_to_dto, power_payload, power_to_dto, AdminPayload,
    BluetoothDto, ChannelDto, ConfigPayload, DeviceDto, DisplayDto, FixedPositionDto, LoraDto,
    NetworkDto, OwnerDto, PositionDto, PowerDto, Snapshot,
};
use crate::state::{
    copy_bytes, BluetoothConfig, Channel, DeviceConfig, DisplayConfig, GpsMode, LoraConfig,
    NetworkConfig, PositionConfig, PowerConfig, ProtocolState, User,
};

verus! {

/// The packet id that follows `last`, which is never zero.
pub open spec fn id_after(last: u32) -> int {
    if last == u32::MAX {
        1
    } else {
        last + 1
    }
}

/// What an admin message needs: while our own node is not known it is refused and
/// nothing changes; else it goes to our own node under the next packet id, and nothing
/// but that id is used up.
pub open spec fn is_admin_message(
    before: WebClient,
    r: Result<Packet, String>,
    after: WebClient,
) -> bool {
    match before.state.my_node_num {
        None => {
            &&& r matches Err(e) && e@ == "not connected — own node number unknown"@
            &&& after == before
        },
        Some(node) => {
            &&& r matches Ok(Packet::Admin { id, to, .. }) && id == id_after(before.next_id) && to
                == node
            &&& after.next_id == id_after(before.next_id)
            &&& after == (WebClient { next_id: after.next_id, ..before })
        },
    }
}

/// The admin message in a packet.
pub open spec fn admin_of(p: Packet) -> AdminPayload {
    match p {
        Packet::Admin { payload, .. } => payload,
        _ => AdminPayload::RebootSeconds(0),
    }
}

/// Two byte strings hold the same, where nothing stands for the empty one.
pub open spec fn kept(extra: Seq<u8>, base: Option<Vec<u8>>) -> bool {
    extra == match base {
        Some(b) => b@,
        None => Seq::empty(),
    }
}

/// The editable fields of the identity are shown under their own names.
pub open spec fn shows_owner(c: User, d: OwnerDto) -> bool {
    &&& d.long_name@ == c.long_name@
    &&& d.short_name@ == c.short_name@
    &&& d.is_licensed == c.is_licensed
}

/// The identity carries the edited fields under their own names, and keeps the rest of what
/// was reported.
pub open spec fn writes_owner(p: AdminPayload, base: Option<User>, d: OwnerDto) -> bool {
    &&& p matches AdminPayload::SetOwner(c)
    &&& c.long_name@ == d.long_name@
    &&& c.short_name@ == d.short_name@
    &&& c.is_licensed == d.is_licensed
    &&& kept(
        c.extra@,
        match base {
            Some(b) => Some(b.extra),
            None => None,
        },
    )
}

/// Reading the identity shows each field under its own name.
pub proof fn reading_owner_shows_each_field(c: &User, r: OwnerDto)
    requires
        call_ensures(owner_to_dto, (c,), r),
    ensures
        shows_owner(*c, r),
{
}

/// Writing the identity carries each field under its own name.
pub proof fn writing_owner_carries_each_field(state: &ProtocolState, dto: OwnerDto, r: AdminPayload)
    requires
        call_ensures(owner_payload, (state, dto), r),
    ensures
        writes_owner(r, state.owner, dto),
{
}

/// The client writes the identity to our own node.
pub proof fn the_client_writes_owner(c: &mut WebClient, dto: OwnerDto, r: Result<Packet, String>)
    requires
        call_ensures(WebClient::write_owner, (c, dto), r),
    ensures
        is_admin_message(*old(c), r, *final(c)),
        r matches Ok(p) ==> writes_owner(admin_of(p), old(c).state.owner, dto),
{
}

/// The editable fields of the radio modem section are shown under their own names.
pub open spec fn shows_lora(c: LoraConfig, d: LoraDto) -> bool {
    &&& d.use_preset == c.use_preset
    &&& d.modem_preset == c.modem_preset
    &&& d.region == c.region
    &&& d.hop_limit == c.hop_limit
    &&& d.tx_power == c.tx_power
    &&& d.tx_enabled == c.tx_enabled
    &&& d.ignore_mqtt == c.ignore_mqtt
    &&& d.channel_num == c.channel_num
    &&& d.bandwidth == c.bandwidth
    &&& d.spread_factor == c.spread_factor
    &&& d.coding_rate == c.coding_rate
    &&& d.frequency_offset_bits == c.frequency_offset_bits
}

/// The radio modem section carries the edited fields under their own names, and keeps the rest of what
/// was reported.
pub open spec fn writes_lora(p: AdminPayload, base: Option<LoraConfig>, d: LoraDto) -> bool {
    &&& p matches AdminPayload::SetConfig(ConfigPayload::Lora(c))
    &&& c.use_preset == d.use_preset
    &&& c.modem_preset == d.modem_preset
    &&& c.region == d.region
    &&& c.hop_limit == d.hop_limit
    &&& c.tx_power == d.tx_power
    &&& c.tx_enabled == d.tx_enabled
    &&& c.ignore_mqtt == d.ignore_mqtt
    &&& c.channel_num == d.channel_num
    &&& c.bandwidth == d.bandwidth
    &&& c.spread_factor == d.spread_factor
    &&& c.coding_rate == d.coding_rate
    &&& c.frequency_offset_bits == d.frequency_offset_bits
    &&& kept(
        c.extra@,
        match base {
            Some(b) => Some(b.extra),
            None => None,
        },
    )
}

/// Reading the radio modem section shows each field under its own name.
pub proof fn reading_lora_shows_each_field(c: &LoraConfig, r: LoraDto)
    requires
        call_ensures(lora_to_dto, (c,), r),
    ensures
        shows_lora(*c, r),
{
}

/// Writing the radio modem section carries each field under its own name.
pub proof fn writing_lora_carries_each_field(state: &ProtocolState, dto: LoraDto, r: AdminPayload)
    requires
        call_ensures(lora_payload, (state, dto), r),
    ensures
        writes_lora(r, state.lora, dto),
{
}

/// The client writes the radio modem section to our own node.
pub proof fn the_client_writes_lora(c: &mut WebClient, dto: LoraDto, r: Result<Packet, String>)
    requires
        call_ensures(WebClient::write_lora_config, (c, dto), r),
    ensures
        is_admin_message(*old(c), r, *final(c)),
        r matches Ok(p) ==> writes_lora(admin_of(p), old(c).state.lora, dto),
{
}

/// The editable fields of the device section are shown under their own names.
pub open spec fn shows_device(c: DeviceConfig, d: DeviceDto) -> bool {
    &&& d.role == c.role
    &&& d.rebroadcast_mode == c.rebroadcast_mode
    &&& d.node_info_broadcast_secs == c.node_info_broadcast_secs
    &&& d.double_tap_as_button_press == c.double_tap_as_button_press
    &&& d.disable_triple_click == c.disable_triple_click
    &&& d.button_gpio == c.button_gpio
    &&& d.buzzer_gpio == c.buzzer_gpio
}

/// The device section carries the edited fields under their own names, and keeps the rest of what
/// was reported.
pub open spec fn writes_device(p: AdminPayload, base: Option<DeviceConfig>, d: DeviceDto) -> bool {
    &&& p matches AdminPayload::SetConfig(ConfigPayload::Device(c))
    &&& c.role == d.role
    &&& c.rebroadcast_mode == d.rebroadcast_mode
    &&& c.node_info_broadcast_secs == d.node_info_broadcast_secs
    &&& c.double_tap_as_button_press == d.double_tap_as_button_press
    &&& c.disable_triple_click == d.disable_triple_click
    &&& c.button_gpio == d.button_gpio
    &&& c.buzzer_gpio == d.buzzer_gpio
    &&& kept(
        c.extra@,
        match base {
            Some(b) => Some(b.extra),
            None => None,
        },
    )
}

/// Reading the device section shows each field under its own name.
pub proof fn reading_device_shows_each_field(c: &DeviceConfig, r: DeviceDto)
    requires
        call_ensures(device_to_dto, (c,), r),
    ensures
        shows_device(*c, r),
{
}

/// Writing the device section carries each field under its own name.
pub proof fn writing_device_carries_each_field(state: &ProtocolState, dto: DeviceDto, r: AdminPayload)
    requires
        call_ensures(device_payload, (state, dto), r),
    ensures
        writes_device(r, state.device, dto),
{
}

/// The client writes the device section to our own node.
pub proof fn the_client_writes_device(c: &mut WebClient, dto: DeviceDto, r: Result<Packet, String>)
    requires
        call_ensures(WebClient::write_device_config, (c, dto), r),
    ensures
        is_admin_message(*old(c), r, *final(c)),
        r matches Ok(p) ==> writes_device(admin_of(p), old(c).state.device, dto),
{
}

/// The editable fields of the position section are shown under their own names.
pub open spec fn shows_position(c: PositionConfig, d: PositionDto) -> bool {
    &&& d.position_broadcast_secs == c.position_broadcast_secs
    &&& d.position_broadcast_smart_enabled == c.position_broadcast_smart_enabled
    &&& d.fixed_position == c.fixed_position
    &&& d.gps_enabled <==> c.gps_mode is Enabled
    &&& d.gps_update_interval == c.gps_update_interval
    &&& d.broadcast_smart_minimum_distance == c.broadcast_smart_minimum_distance
    &&& d.broadcast_smart_minimum_interval_secs == c.broadcast_smart_minimum_interval_secs
}

/// The position section carries the edited fields under their own names, and keeps the rest of what
/// was reported.
pub open spec fn writes_position(p: AdminPayload, base: Option<PositionConfig>, d: PositionDto) -> bool {
    &&& p matches AdminPayload::SetConfig(ConfigPayload::Position(c))
    &&& c.position_broadcast_secs == d.position_broadcast_secs
    &&& c.position_broadcast_smart_enabled == d.position_broadcast_smart_enabled
    &&& c.fixed_position == d.fixed_position
    &&& c.gps_mode == (if d.gps_enabled {
        GpsMode::Enabled
    } else {
        GpsMode::Disabled
    })
    &&& c.gps_update_interval == d.gps_update_interval
    &&& c.broadcast_smart_minimum_distance == d.broadcast_smart_minimum_distance
    &&& c.broadcast_smart_minimum_interval_secs == d.broadcast_smart_minimum_interval_secs
    &&& kept(
        c.extra@,
        match base {
            Some(b) => Some(b.extra),
            None => None,
        },
    )
}

/// Reading the position section shows each field under its own name.
pub proof fn reading_position_shows_each_field(c: &PositionConfig, r: PositionDto)
    requires
        call_ensures(position_to_dto, (c,), r),
    ensures
        shows_position(*c, r),
{
}

/// Writing the position section carries each field under its own name.
pub proof fn writing_position_carries_each_field(state: &ProtocolState, dto: PositionDto, r: AdminPayload)
    requires
        call_ensures(position_payload, (state, dto), r),
    ensures
        writes_position(r, state.position, dto),
{
}

/// The client writes the position section to our own node.
pub proof fn the_client_writes_position(c: &mut WebClient, dto: PositionDto, r: Result<Packet, String>)
    requires
        call_ensures(WebClient::write_position_config, (c, dto), r),
    ensures
        is_admin_message(*old(c), r, *final(c)),
        r matches Ok(p) ==> writes_position(admin_of(p), old(c).state.position, dto),
{
}

/// The editable fields of the power section are shown under their own names.
pub open spec fn shows_power(c: PowerConfig, d: PowerDto) -> bool {
    &&& d.is_power_saving == c.is_power_saving
    &&& d.on_battery_shutdown_after_secs == c.on_battery_shutdown_after_secs
    &&& d.wait_bluetooth_secs == c.wait_bluetooth_secs
    &&& d.sds_secs == c.sds_secs
    &&& d.ls_secs == c.ls_secs
    &&& d.min_wake_secs == c.min_wake_secs
}

/// The power section carries the edited fields under their own names, and keeps the rest of what
/// was reported.
pub open spec fn writes_power(p: AdminPayload, base: Option<PowerConfig>, d: PowerDto) -> bool {
    &&& p matches AdminPayload::SetConfig(ConfigPayload::Power(c))
    &&& c.is_power_saving == d.is_power_saving
    &&& c.on_battery_shutdown_after_secs == d.on_battery_shutdown_after_secs
    &&& c.wait_bluetooth_secs == d.wait_bluetooth_secs
    &&& c.sds_secs == d.sds_secs
    &&& c.ls_secs == d.ls_secs
    &&& c.min_wake_secs == d.min_wake_secs
    &&& kept(
        c.extra@,
        match base {
            Some(b) => Some(b.extra),
            None => None,
        },
    )
}

/// Reading the power section shows each field under its own name.
pub proof fn reading_power_shows_each_field(c: &PowerConfig, r: PowerDto)
    requires
        call_ensures(power_to_dto, (c,), r),
    ensures
        shows_power(*c, r),
{
}

/// Writing the power section carries each field under its own name.
pub proof fn writing_power_carries_each_field(state: &ProtocolState, dto: PowerDto, r: AdminPayload)
    requires
        call_ensures(power_payload, (state, dto), r),
    ensures
        writes_power(r, state.power, dto),
{
}

/// The client writes the power section to our own node.
pub proof fn the_client_writes_power(c: &mut WebClient, dto: PowerDto, r: Result<Packet, String>)
    requires
        call_ensures(WebClient::write_power_config, (c, dto), r),
    ensures
        is_admin_message(*old(c), r, *final(c)),
        r matches Ok(p) ==> writes_power(admin_of(p), old(c).state.power, dto),
{
}

/// The editable fields of the network section are shown under their own names.
pub open spec fn shows_network(c: NetworkConfig, d: NetworkDto) -> bool {
    &&& d.wifi_enabled == c.wifi_enabled
    &&& d.wifi_ssid@ == c.wifi_ssid@
    &&& d.wifi_psk@.len() == 0
    &&& d.eth_enabled == c.eth_enabled
    &&& d.address_mode == c.address_mode
    &&& d.ntp_server@ == c.ntp_server@
    &&& d.rsyslog_server@ == c.rsyslog_server@
}

/// The network section carries the edited fields under their own names, and keeps the rest of what
/// was reported.
pub open spec fn writes_network(p: AdminPayload, base: Option<NetworkConfig>, d: NetworkDto) -> bool {
    &&& p matches AdminPayload::SetConfig(ConfigPayload::Network(c))
    &&& c.wifi_enabled == d.wifi_enabled
    &&& c.wifi_ssid@ == d.wifi_ssid@
    &&& d.wifi_psk@.len() > 0 ==> c.wifi_psk@ == d.wifi_psk@
    &&& d.wifi_psk@.len() == 0 ==> c.wifi_psk@ == (match base {
        Some(b) => b.wifi_psk@,
        None => Seq::empty(),
    })
    &&& c.eth_enabled == d.eth_enabled
    &&& c.address_mode == d.address_mode
    &&& c.ntp_server@ == d.ntp_server@
    &&& c.rsyslog_server@ == d.rsyslog_server@
    &&& kept(
        c.extra@,
        match base {
            Some(b) => Some(b.extra),
            None => None,
        },
    )
}

/// Reading the network section shows each field under its own name.
pub proof fn reading_network_shows_each_field(c: &NetworkConfig, r: NetworkDto)
    requires
        call_ensures(network_to_dto, (c,), r),
    ensures
        shows_network(*c, r),
{
}

/// Writing the network section carries each field under its own name.
pub proof fn writing_network_carries_each_field(state: &ProtocolState, dto: NetworkDto, r: AdminPayload)
    requires
        call_ensures(network_payload, (state, dto), r),
    ensures
        writes_network(r, state.network, dto),
{
}

/// The client writes the network section to our own node.
pub proof fn the_client_writes_network(c: &mut WebClient, dto: NetworkDto, r: Result<Packet, String>)
    requires
        call_ensures(WebClient::write_network_config, (c, dto), r),
    ensures
        is_admin_message(*old(c), r, *final(c)),
        r matches Ok(p) ==> writes_network(admin_of(p), old(c).state.network, dto),
{
}

/// The editable fields of the display section are shown under their own names.
pub open spec fn shows_display(c: DisplayConfig, d: DisplayDto) -> bool {
    &&& d.screen_on_secs == c.screen_on_secs
    &&& d.auto_screen_carousel_secs == c.auto_screen_carousel_secs
    &&& d.units == c.units
    &&& d.oled == c.oled
    &&& d.displaymode == c.displaymode
    &&& d.flip_screen == c.flip_screen
    &&& d.heading_bold == c.heading_bold
    &&& d.wake_on_tap_or_motion == c.wake_on_tap_or_motion
    &&& d.use_12h_clock == c.use_12h_clock
}

/// The display section carries the edited fields under their own names, and keeps the rest of what
/// was reported.
pub open spec fn writes_display(p: AdminPayload, base: Option<DisplayConfig>, d: DisplayDto) -> bool {
    &&& p matches AdminPayload::SetConfig(ConfigPayload::Display(c))
    &&& c.screen_on_secs == d.screen_on_secs
    &&& c.auto_screen_carousel_secs == d.auto_screen_carousel_secs
    &&& c.units == d.units
    &&& c.oled == d.oled
    &&& c.displaymode == d.displaymode
    &&& c.flip_screen == d.flip_screen
    &&& c.heading_bold == d.heading_bold
    &&& c.wake_on_tap_or_motion == d.wake_on_tap_or_motion
    &&& c.use_12h_clock == d.use_12h_clock
    &&& kept(
        c.extra@,
        match base {
            Some(b) => Some(b.extra),
            None => None,
        },
    )
}

/// Reading the display section shows each field under its own name.
pub proof fn reading_display_shows_each_field(c: &DisplayConfig, r: DisplayDto)
    requires
        call_ensures(display_to_dto, (c,), r),
    ensures
        shows_display(*c, r),
{
}

/// Writing the display section carries each field under its own name.
pub proof fn writing_display_carries_each_field(state: &ProtocolState, dto: DisplayDto, r: AdminPayload)
    requires
        call_ensures(display_payload, (state, dto), r),
    ensures
        writes_display(r, state.display, dto),
{
}

/// The client writes the display section to our own node.
pub proof fn the_client_writes_display(c: &mut WebClient, dto: DisplayDto, r: Result<Packet, String>)
    requires
        call_ensures(WebClient::write_display_config, (c, dto), r),
    ensures
        is_admin_message(*old(c), r, *final(c)),
        r matches Ok(p) ==> writes_display(admin_of(p), old(c).state.display, dto),
{
}

/// The editable fields of the Bluetooth section are shown under their own names.
pub open spec fn shows_bluetooth(c: BluetoothConfig, d: BluetoothDto) -> bool {
    &&& d.enabled == c.enabled
    &&& d.mode == c.mode
    &&& d.fixed_pin == c.fixed_pin
}

/// The Bluetooth section carries the edited fields under their own names.
pub open spec fn writes_bluetooth(p: AdminPayload, d: BluetoothDto) -> bool {
    &&& p matches AdminPayload::SetConfig(ConfigPayload::Bluetooth(c))
    &&& c.enabled == d.enabled
    &&& c.mode == d.mode
    &&& c.fixed_pin == d.fixed_pin
}

/// Reading the Bluetooth section shows each field under its own name.
pub proof fn reading_bluetooth_shows_each_field(c: &BluetoothConfig, r: BluetoothDto)
    requires
        call_ensures(bluetooth_to_dto, (c,), r),
    ensures
        shows_bluetooth(*c, r),
{
}

/// Writing the Bluetooth section carries each field under its own name.
pub proof fn writing_bluetooth_carries_each_field(state: &ProtocolState, dto: BluetoothDto, r: AdminPayload)
    requires
        call_ensures(bluetooth_payload, (state, dto), r),
    ensures
        writes_bluetooth(r, dto),
{
}

/// The client writes the Bluetooth section to our own node.
pub proof fn the_client_writes_bluetooth(c: &mut WebClient, dto: BluetoothDto, r: Result<Packet, String>)
    requires
        call_ensures(WebClient::write_bluetooth_config, (c, dto), r),
    ensures
        is_admin_message(*old(c), r, *final(c)),
        r matches Ok(p) ==> writes_bluetooth(admin_of(p), dto),
{
}

/// A channel is shown under its own names; without settings its name is empty and its
/// switches are off.
pub open spec fn shows_channel(c: Channel, d: ChannelDto) -> bool {
    &&& d.index == c.index
    &&& d.role == c.role
    &&& c.settings matches Some(s) ==> d.name@ == s.name@ && d.uplink_enabled == s.uplink_enabled
        && d.downlink_enabled == s.downlink_enabled
    &&& c.settings is None ==> d.name@.len() == 0 && !d.uplink_enabled && !d.downlink_enabled
}

/// No channel before the `k`-th has the index.
pub open spec fn first_is(channels: Seq<Channel>, index: i32, k: int) -> bool {
    &&& 0 <= k < channels.len()
    &&& channels[k].index == index
    &&& forall|j: int| 0 <= j < k ==> (#[trigger] channels[j]).index != index
}

/// The channel carries the edited fields under their own names, and keeps the key and the
/// module settings of the first channel with its index.
pub open spec fn writes_channel(p: AdminPayload, channels: Seq<Channel>, d: ChannelDto) -> bool {
    &&& p matches AdminPayload::SetChannel(c)
    &&& c.index == d.index
    &&& c.role == d.role
    &&& c.settings matches Some(s)
    &&& s.name@ == d.name@
    &&& s.uplink_enabled == d.uplink_enabled
    &&& s.downlink_enabled == d.downlink_enabled
    &&& forall|k: int| #[trigger]
        first_is(channels, d.index, k) ==> kept(
            s.extra@,
            match channels[k].settings {
                Some(b) => Some(b.extra),
                None => None,
            },
        )
    &&& (forall|j: int| 0 <= j < channels.len() ==> (#[trigger] channels[j]).index != d.index)
        ==> s.extra@.len() == 0
}

proof fn lemma_first(channels: Seq<Channel<Seq<char>, Seq<u8>>>, index: i32, k: int)
    requires
        0 <= k <= channels.len(),
        forall|j: int| 0 <= j < k ==> (#[trigger] channels[j]).index != index,
        k < channels.len() ==> channels[k].index == index,
    ensures
        first_with_index(channels, index) == (if k < channels.len() {
            Some(channels[k])
        } else {
            None
        }),
    decreases k,
{
    if k > 0 {
        let rest = channels.drop_first();
        assert(channels[0].index != index);
        assert forall|j: int| 0 <= j < k - 1 implies (#[trigger] rest[j]).index != index by {
            assert(rest[j] == channels[j + 1]);
        }
        if k < channels.len() {
            assert(rest[k - 1] == channels[k]);
        }
        lemma_first(rest, index, k - 1);
    }
}

proof fn lemma_writes_channel(p: AdminPayload, state: ProtocolState, d: ChannelDto)
    requires
        p@ == AdminPayload::<Seq<char>, Seq<u8>>::SetChannel(
            crate::settings::channel_overlay(state@.channels, d@),
        ),
    ensures
        writes_channel(p, state.channels@, d),
{
    let all = state@.channels;
    let raw = state.channels@;
    assert forall|j: int| 0 <= j < raw.len() implies #[trigger] all[j] == raw[j]@ by {}
    assert forall|k: int| #[trigger] first_is(raw, d.index, k) implies kept(
        p->SetChannel_0.settings->Some_0.extra@,
        match raw[k].settings {
            Some(b) => Some(b.extra),
            None => None,
        },
    ) by {
        assert forall|j: int| 0 <= j < k implies (#[trigger] all[j]).index != d.index by {
            assert(raw[j].index != d.index);
        }
        assert(all[k] == raw[k]@);
        lemma_first(all, d.index, k);
    }
    if forall|j: int| 0 <= j < raw.len() ==> (#[trigger] raw[j]).index != d.index {
        assert forall|j: int| 0 <= j < all.len() implies (#[trigger] all[j]).index != d.index by {
            assert(raw[j].index != d.index);
        }
        lemma_first(all, d.index, all.len() as int);
    }
}

/// Reading a channel shows each field under its own name.
pub proof fn reading_a_channel_shows_each_field(c: &Channel, r: ChannelDto)
    requires
        call_ensures(channel_to_dto, (c,), r),
    ensures
        shows_channel(*c, r),
{
}

/// Writing a channel carries each field under its own name and keeps its key.
pub proof fn writing_a_channel_carries_each_field(
    state: &ProtocolState,
    dto: ChannelDto,
    r: AdminPayload,
)
    requires
        call_ensures(channel_payload, (state, dto), r),
    ensures
        writes_channel(r, state.channels@, dto),
{
    lemma_writes_channel(r, *state, dto);
}

/// The client writes a channel to our own node.
pub proof fn the_client_writes_a_channel(
    c: &mut WebClient,
    dto: ChannelDto,
    r: Result<Packet, String>,
)
    requires
        call_ensures(WebClient::write_channel, (c, dto), r),
    ensures
        is_admin_message(*old(c), r, *final(c)),
        r matches Ok(p) ==> writes_channel(admin_of(p), old(c).state.channels@, dto),
{
    if let Ok(p) = r {
        lemma_writes_channel(admin_of(p), old(c).state, dto);
    }
}

/// A fixed location is written as it was given.
pub proof fn a_fixed_location_is_written_as_given(dto: FixedPositionDto, r: AdminPayload)
    requires
        call_ensures(fixed_position_payload, (dto,), r),
    ensures
        r matches AdminPayload::SetFixedPosition(p) && p.latitude_i == dto.latitude_i
            && p.longitude_i == dto.longitude_i && p.altitude == dto.altitude,
{
}

/// The client writes a fixed location to our own node.
pub proof fn the_client_writes_a_fixed_location(
    c: &mut WebClient,
    dto: FixedPositionDto,
    r: Result<Packet, String>,
)
    requires
        call_ensures(WebClient::set_fixed_position, (c, dto), r),
    ensures
        is_admin_message(*old(c), r, *final(c)),
        r matches Ok(p) ==> (admin_of(p) matches AdminPayload::SetFixedPosition(l) && l.latitude_i
            == dto.latitude_i && l.longitude_i == dto.longitude_i && l.altitude == dto.altitude),
{
}

/// A snapshot shows what was reported, section by section, and nothing else: a section is
/// there if and only if it was reported, and every channel is shown in its place.
pub open spec fn shows_state(s: ProtocolState, r: Snapshot) -> bool {
    &&& r.my_node_num == s.my_node_num
    &&& s.firmware_version is Some <==> r.fw is Some
    &&& s.firmware_version matches Some(v) ==> r.fw->Some_0@ == v@
    &&& s.owner is Some <==> r.owner is Some
    &&& s.owner matches Some(c) ==> shows_owner(c, r.owner->Some_0)
    &&& s.lora is Some <==> r.lora is Some
    &&& s.lora matches Some(c) ==> shows_lora(c, r.lora->Some_0)
    &&& s.device is Some <==> r.device is Some
    &&& s.device matches Some(c) ==> shows_device(c, r.device->Some_0)
    &&& s.position is Some <==> r.position is Some
    &&& s.position matches Some(c) ==> shows_position(c, r.position->Some_0)
    &&& s.power is Some <==> r.power is Some
    &&& s.power matches Some(c) ==> shows_power(c, r.power->Some_0)
    &&& s.network is Some <==> r.network is Some
    &&& s.network matches Some(c) ==> shows_network(c, r.network->Some_0)
    &&& s.display is Some <==> r.display is Some
    &&& s.display matches Some(c) ==> shows_display(c, r.display->Some_0)
    &&& s.bluetooth is Some <==> r.bluetooth is Some
    &&& s.bluetooth matches Some(c) ==> shows_bluetooth(c, r.bluetooth->Some_0)
    &&& r.channels@.len() == s.channels@.len()
    &&& forall|k: int|
        0 <= k < s.channels@.len() ==> shows_channel(s.channels@[k], #[trigger] r.channels@[k])
}

proof fn lemma_shows_state(s: ProtocolState, r: Snapshot)
    requires
        r@ == crate::settings::snapshot_of(s@),
    ensures
        shows_state(s, r),
{
    assert(r@.channels.len() == r.channels@.len());
    assert forall|k: int| 0 <= k < s.channels@.len() implies shows_channel(
        s.channels@[k],
        #[trigger] r.channels@[k],
    ) by {
        assert(r@.channels[k] == r.channels@[k]@);
        assert(s@.channels[k] == s.channels@[k]@);
    }
}

/// A snapshot shows what was reported.
pub proof fn a_snapshot_shows_the_state(state: &ProtocolState, r: Snapshot)
    requires
        call_ensures(build_snapshot, (state,), r),
    ensures
        shows_state(*state, r),
{
    lemma_shows_state(*state, r);
}

/// The client's snapshot shows what was reported.
pub proof fn the_client_shows_its_state(c: &WebClient, r: Snapshot)
    requires
        call_ensures(WebClient::snapshot, (c,), r),
    ensures
        shows_state(c.state, r),
{
    lemma_shows_state(c.state, r);
}

/// A copy of an identity has the same fields.
pub proof fn a_copied_identity_is_the_same(u: &User, r: User)
    requires
        call_ensures(User::copy, (u,), r),
    ensures
        r.long_name@ == u.long_name@,
        r.short_name@ == u.short_name@,
        r.is_licensed == u.is_licensed,
        r.extra@ == u.extra@,
{
}

/// A copy of a byte string has the same bytes.
pub proof fn copied_bytes_are_the_same(b: &Vec<u8>, r: Vec<u8>)
    requires
        call_ensures(copy_bytes, (b,), r),
    ensures
        r@ == b@,
{
}

/// Nothing is known of the radio.
pub open spec fn nothing_reported(s: ProtocolState) -> bool {
    &&& s.my_node_num is None
    &&& s.firmware_version is None
    &&& s.owner is None
    &&& s.lora is None
    &&& s.device is None
    &&& s.position is None
    &&& s.power is None
    &&& s.network is None
    &&& s.display is None
    &&& s.bluetooth is None
    &&& s.channels@.len() == 0
    &&& s.node_count == 0
}

/// In a new state nothing was reported.
pub proof fn a_new_state_is_empty(r: ProtocolState)
    requires
        call_ensures(ProtocolState::new, (), r),
    ensures
        nothing_reported(r),
{
    assert(r@.channels.len() == r.channels@.len());
}

} // verus!
