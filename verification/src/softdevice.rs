//! Enabling the SoftDevice and the small SoftDevice calls of the library.
//!
//! Enabling is a sequence of supervisor calls whose results decide what
//! comes next; `SoftdeviceSetup` holds that sequence and its decisions, and
//! the code that runs on the chip makes each call it asks for.
use vstd::prelude::*;

use crate::error::{spec_convert, spec_error_of, RawError, NRF_SUCCESS};
use crate::once::OnceGuard;

verus! {

/// Low frequency clock source configuration (`nrf_clock_lf_cfg_t`).
#[derive(Debug, Clone, Copy, PartialEq, Eq, Structural)]
pub struct ClockLfConfig {
    pub source: u8,
    pub rc_ctiv: u8,
    pub rc_temp_ctiv: u8,
    pub accuracy: u8,
}

/// GAP connection configuration (`ble_gap_conn_cfg_t`).
#[derive(Debug, Clone, Copy, PartialEq, Eq, Structural)]
pub struct GapConnConfig {
    pub conn_count: u8,
    pub event_length: u16,
}

/// GATT client connection configuration (`ble_gattc_conn_cfg_t`).
#[derive(Debug, Clone, Copy, PartialEq, Eq, Structural)]
pub struct GattcConnConfig {
    pub write_cmd_tx_queue_size: u8,
}

/// GATT server connection configuration (`ble_gatts_conn_cfg_t`).
#[derive(Debug, Clone, Copy, PartialEq, Eq, Structural)]
pub struct GattsConnConfig {
    pub hvn_tx_queue_size: u8,
}

/// GATT connection configuration (`ble_gatt_conn_cfg_t`).
#[derive(Debug, Clone, Copy, PartialEq, Eq, Structural)]
pub struct GattConnConfig {
    pub att_mtu: u16,
}

/// L2CAP connection configuration (`ble_l2cap_conn_cfg_t`).
#[derive(Debug, Clone, Copy, PartialEq, Eq, Structural)]
pub struct L2capConnConfig {
    pub rx_mps: u16,
    pub tx_mps: u16,
    pub rx_queue_size: u8,
    pub tx_queue_size: u8,
    pub ch_count: u8,
}

/// Vendor specific UUID configuration (`ble_common_cfg_vs_uuid_t`).
#[derive(Debug, Clone, Copy, PartialEq, Eq, Structural)]
pub struct CommonVsUuidConfig {
    pub vs_uuid_count: u8,
}

/// GAP role count configuration (`ble_gap_cfg_role_count_t`).
#[derive(Debug, Clone, Copy, PartialEq, Eq, Structural)]
pub struct GapRoleCountConfig {
    pub adv_set_count: u8,
    pub periph_role_count: u8,
    pub central_role_count: u8,
    pub central_sec_count: u8,
    pub qos_channel_survey_role_available: bool,
}

/// GAP connection security mode (`ble_gap_conn_sec_mode_t`): security mode
/// `sm` and level `lv`, each a 4-bit field.
#[derive(Debug, Clone, Copy, PartialEq, Eq, Structural)]
pub struct ConnSecMode {
    pub sm: u8,
    pub lv: u8,
}

/// Device name configuration (`ble_gap_cfg_device_name_t`) with the name
/// kept by the SoftDevice. The C structure's `p_value` pointer is not held
/// here, so a device name kept in user memory cannot be configured: it is
/// always passed as null.
#[derive(Debug, Clone, Copy, PartialEq, Eq, Structural)]
pub struct GapDeviceNameConfig {
    pub write_perm: ConnSecMode,
    pub vloc: u8,
    pub current_len: u16,
    pub max_len: u16,
}

/// Service changed characteristic configuration (`ble_gatts_cfg_service_changed_t`).
#[derive(Debug, Clone, Copy, PartialEq, Eq, Structural)]
pub struct GattsServiceChangedConfig {
    pub service_changed: bool,
}

/// Attribute table size configuration (`ble_gatts_cfg_attr_tab_size_t`).
#[derive(Debug, Clone, Copy, PartialEq, Eq, Structural)]
pub struct GattsAttrTabSizeConfig {
    pub attr_tab_size: u32,
}

/// Softdevice configuration. Fields set to `None` use a default configuration.
#[derive(Debug, Clone, Copy, PartialEq, Eq, Structural)]
pub struct Config {
    pub clock: Option<ClockLfConfig>,
    pub conn_gap: Option<GapConnConfig>,
    pub conn_gattc: Option<GattcConnConfig>,
    pub conn_gatts: Option<GattsConnConfig>,
    pub conn_gatt: Option<GattConnConfig>,
    pub conn_l2cap: Option<L2capConnConfig>,
    pub common_vs_uuid: Option<CommonVsUuidConfig>,
    pub gap_role_count: Option<GapRoleCountConfig>,
    pub gap_device_name: Option<GapDeviceNameConfig>,
    pub gatts_service_changed: Option<GattsServiceChangedConfig>,
    pub gatts_attr_tab_size: Option<GattsAttrTabSizeConfig>,
}

/// The configuration with every field `None`.
pub open spec fn spec_default_config() -> Config {
    Config {
        clock: None,
        conn_gap: None,
        conn_gattc: None,
        conn_gatts: None,
        conn_gatt: None,
        conn_l2cap: None,
        common_vs_uuid: None,
        gap_role_count: None,
        gap_device_name: None,
        gatts_service_changed: None,
        gatts_attr_tab_size: None,
    }
}

impl Default for Config {
    fn default() -> (r: Self)
        ensures
            r == spec_default_config(),
    {
        Config {
            clock: None,
            conn_gap: None,
            conn_gattc: None,
            conn_gatts: None,
            conn_gatt: None,
            conn_l2cap: None,
            common_vs_uuid: None,
            gap_role_count: None,
            gap_device_name: None,
            gatts_service_changed: None,
            gatts_attr_tab_size: None,
        }
    }
}

/// The ANT license key handed to `sd_softdevice_enable`, NUL-terminated:
/// `49a5-b6af-88da-b010-fb67-aee8-0778-9f58`.
pub const ANT_LICENSE_KEY: [u8; 40] = [0x34, 0x39, 0x61, 0x35, 0x2d, 0x62, 0x36, 0x61, 0x66, 0x2d, 0x38, 0x38, 0x64, 0x61, 0x2d, 0x62, 0x30, 0x31, 0x30, 0x2d, 0x66, 0x62, 0x36, 0x37, 0x2d, 0x61, 0x65, 0x65, 0x38, 0x2d, 0x30, 0x37, 0x37, 0x38, 0x2d, 0x39, 0x66, 0x35, 0x38, 0x00];

/// Connection configuration tag under which the connection configurations are set.
pub const APP_CONN_CFG_TAG: u8 = 1;

/// `BLE_GAP_CONN_COUNT_DEFAULT`
pub const BLE_GAP_CONN_COUNT_DEFAULT: u8 = 1;

/// `BLE_GAP_EVENT_LENGTH_DEFAULT`
pub const BLE_GAP_EVENT_LENGTH_DEFAULT: u16 = 3;

/// `BLE_GATT_ATT_MTU_DEFAULT`
pub const BLE_GATT_ATT_MTU_DEFAULT: u16 = 23;

/// `BLE_COMMON_CFG_VS_UUID`
pub const BLE_COMMON_CFG_VS_UUID: u32 = 0x01;

/// `BLE_CONN_CFG_GAP`
pub const BLE_CONN_CFG_GAP: u32 = 0x20;

/// `BLE_CONN_CFG_GATTC`
pub const BLE_CONN_CFG_GATTC: u32 = 0x21;

/// `BLE_CONN_CFG_GATTS`
pub const BLE_CONN_CFG_GATTS: u32 = 0x22;

/// `BLE_CONN_CFG_GATT`
pub const BLE_CONN_CFG_GATT: u32 = 0x23;

/// `BLE_CONN_CFG_L2CAP`
pub const BLE_CONN_CFG_L2CAP: u32 = 0x24;

/// `BLE_L2CAP_MPS_MIN`
pub const BLE_L2CAP_MPS_MIN: u16 = 23;

/// `BLE_GAP_CFG_ROLE_COUNT`
pub const BLE_GAP_CFG_ROLE_COUNT: u32 = 0x40;

/// `BLE_GAP_CFG_DEVICE_NAME`
pub const BLE_GAP_CFG_DEVICE_NAME: u32 = 0x41;

/// `BLE_GATTS_CFG_SERVICE_CHANGED`
pub const BLE_GATTS_CFG_SERVICE_CHANGED: u32 = 0xA0;

/// `BLE_GATTS_CFG_ATTR_TAB_SIZE`
pub const BLE_GATTS_CFG_ATTR_TAB_SIZE: u32 = 0xA1;

/// One BLE configuration as handed to `sd_ble_cfg_set` (`ble_cfg_t`).
#[allow(inconsistent_fields)]
#[derive(Debug, Clone, Copy, PartialEq, Eq)]
pub enum BleCfg {
    ConnGap { conn_cfg_tag: u8, cfg: GapConnConfig },
    ConnGatt { conn_cfg_tag: u8, cfg: GattConnConfig },
    ConnGattc { conn_cfg_tag: u8, cfg: GattcConnConfig },
    ConnGatts { conn_cfg_tag: u8, cfg: GattsConnConfig },
    ConnL2cap { conn_cfg_tag: u8, cfg: L2capConnConfig },
    CommonVsUuid { cfg: CommonVsUuidConfig },
    GapRoleCount { cfg: GapRoleCountConfig },
    GapDeviceName { cfg: GapDeviceNameConfig },
    GattsServiceChanged { cfg: GattsServiceChangedConfig },
    GattsAttrTabSize { cfg: GattsAttrTabSizeConfig },
}

impl BleCfg {
    /// The configuration id that `sd_ble_cfg_set` is called with.
    pub open spec fn spec_id(self) -> u32 {
        match self {
            BleCfg::ConnGap { .. } => BLE_CONN_CFG_GAP,
            BleCfg::ConnGatt { .. } => BLE_CONN_CFG_GATT,
            BleCfg::ConnGattc { .. } => BLE_CONN_CFG_GATTC,
            BleCfg::ConnGatts { .. } => BLE_CONN_CFG_GATTS,
            BleCfg::ConnL2cap { .. } => BLE_CONN_CFG_L2CAP,
            BleCfg::CommonVsUuid { .. } => BLE_COMMON_CFG_VS_UUID,
            BleCfg::GapRoleCount { .. } => BLE_GAP_CFG_ROLE_COUNT,
            BleCfg::GapDeviceName { .. } => BLE_GAP_CFG_DEVICE_NAME,
            BleCfg::GattsServiceChanged { .. } => BLE_GATTS_CFG_SERVICE_CHANGED,
            BleCfg::GattsAttrTabSize { .. } => BLE_GATTS_CFG_ATTR_TAB_SIZE,
        }
    }

    /// The configuration id that `sd_ble_cfg_set` is called with.
    pub fn id(&self) -> (r: u32)
        ensures
            r == self.spec_id(),
    {
        match self {
            BleCfg::ConnGap { .. } => BLE_CONN_CFG_GAP,
            BleCfg::ConnGatt { .. } => BLE_CONN_CFG_GATT,
            BleCfg::ConnGattc { .. } => BLE_CONN_CFG_GATTC,
            BleCfg::ConnGatts { .. } => BLE_CONN_CFG_GATTS,
            BleCfg::ConnL2cap { .. } => BLE_CONN_CFG_L2CAP,
            BleCfg::CommonVsUuid { .. } => BLE_COMMON_CFG_VS_UUID,
            BleCfg::GapRoleCount { .. } => BLE_GAP_CFG_ROLE_COUNT,
            BleCfg::GapDeviceName { .. } => BLE_GAP_CFG_DEVICE_NAME,
            BleCfg::GattsServiceChanged { .. } => BLE_GATTS_CFG_SERVICE_CHANGED,
            BleCfg::GattsAttrTabSize { .. } => BLE_GATTS_CFG_ATTR_TAB_SIZE,
        }
    }
}

/// A Bluetooth device address (`ble_gap_addr_t`).
#[derive(Debug, Clone, Copy, PartialEq, Eq)]
pub struct BleAddress {
    pub addr_id_peer: bool,
    pub addr_type: u8,
    pub addr: [u8; 6],
}

/// BLE GAP connection parameters (`ble_gap_conn_params_t`).
#[derive(Debug, Clone, Copy, PartialEq, Eq, Structural)]
pub struct GapConnParams {
    pub min_conn_interval: u16,
    pub max_conn_interval: u16,
    pub slave_latency: u16,
    pub conn_sup_timeout: u16,
}

/// A SoftDevice (SDM, SoC and BLE) supervisor call with its arguments.
#[derive(Debug, Clone, Copy, PartialEq, Eq)]
pub enum SdRequest {
    /// `sd_softdevice_enable` with the clock configuration (the default one,
    /// a null pointer, when `None`), the library's fault handler and the
    /// NUL-terminated ANT license key that the S340 requires.
    SoftdeviceEnable { clock: Option<ClockLfConfig>, ant_license_key: [u8; 40] },
    /// `sd_ble_cfg_set(cfg.id(), cfg, app_ram_base)`
    BleCfgSet { cfg: BleCfg, app_ram_base: u32 },
    /// `sd_ble_enable`, with the application RAM base in and the wanted base out.
    BleEnable { app_ram_base: u32 },
    /// `sd_power_system_off`
    PowerSystemOff,
    /// `sd_ble_gap_ppcp_set`
    GapPpcpSet { params: GapConnParams },
    /// `sd_ble_gap_conn_param_update`
    GapConnParamUpdate { conn_handle: u16, params: GapConnParams },
    /// `sd_power_reset_reason_get`; the reason comes back beside the code.
    PowerResetReasonGet,
    /// `sd_power_reset_reason_clr`
    PowerResetReasonClr { mask: u32 },
    /// `sd_ble_gatts_sys_attr_get` into a caller buffer of `len` bytes.
    GattsSysAttrGet { conn_handle: u16, len: u16, flags: u32 },
    /// `sd_ble_gap_addr_get`; the address comes back beside the code.
    GapAddrGet,
    /// `sd_ble_gap_addr_set`
    GapAddrSet { addr: BleAddress },
    /// `sd_ble_gatts_exchange_mtu_reply`
    GattsExchangeMtuReply { conn_handle: u16, server_rx_mtu: u16 },
    /// `sd_ble_gatts_sys_attr_set` with no attribute data (`NULL`, length 0).
    GattsSysAttrSetEmpty { conn_handle: u16, flags: u32 },
}

/// The start of the application RAM: the end of the RAM the SoftDevice uses.
pub open spec fn spec_app_ram_base() -> u32 {
    0x2000B788
}

/// The start of the application RAM (fixed for this board's memory layout).
pub fn get_app_ram_base() -> (r: u32)
    ensures
        r == spec_app_ram_base(),
{
    0x2000B788
}

/// A GAP security mode with no access: mode 0, level 0.
pub fn sec_mode_no_access() -> (r: ConnSecMode)
    ensures
        r == (ConnSecMode { sm: 0, lv: 0 }),
        r.spec_bitfield() == 0,
{
    ConnSecMode { sm: 0, lv: 0 }
}

impl ConnSecMode {
    /// The byte of the C bitfield: `sm` in bits 0..4, `lv` in bits 4..8.
    pub open spec fn spec_bitfield(self) -> int {
        self.sm + 16 * self.lv
    }

    /// The byte of the C bitfield.
    pub fn bitfield(&self) -> (r: u8)
        requires
            self.sm < 16,
            self.lv < 16,
        ensures
            r == self.spec_bitfield(),
    {
        self.sm + 16 * self.lv
    }
}

/// Request a system OFF from the SoftDevice; the caller then waits for
/// interrupts forever (a wake up resets the chip).
pub fn system_off() -> (r: SdRequest)
    ensures
        r == SdRequest::PowerSystemOff,
{
    SdRequest::PowerSystemOff
}

/// Set the BLE GAP preferred connection parameters; the call must succeed
/// (see `set_ppcp_result`).
pub fn set_ppcp(params: &GapConnParams) -> (r: SdRequest)
    ensures
        r == (SdRequest::GapPpcpSet { params: *params }),
{
    SdRequest::GapPpcpSet { params: *params }
}

/// The result of setting the preferred connection parameters when the call
/// returned `ret`: `Ok` exactly for `NRF_SUCCESS`, else the error of `ret`
/// (on which the caller panics).
pub fn set_ppcp_result(ret: u32) -> (r: Result<(), RawError>)
    ensures
        r == spec_convert(ret),
        r is Ok <==> ret == NRF_SUCCESS,
        r matches Err(e) ==> e.spec_code() == ret,
{
    RawError::convert(ret)
}

/// Request a BLE GAP connection parameter update; the raw code is returned to the caller.
pub fn conn_param_update(conn_handle: u16, params: &GapConnParams) -> (r: SdRequest)
    ensures
        r == (SdRequest::GapConnParamUpdate { conn_handle, params: *params }),
{
    SdRequest::GapConnParamUpdate { conn_handle, params: *params }
}

/// Read and clear the reset reason: the reason is read first, then every
/// bit of it is cleared; the reason read is what the caller gets.
pub fn reset_reason_take() -> (r: [SdRequest; 2])
    ensures
        r@ == seq![SdRequest::PowerResetReasonGet, SdRequest::PowerResetReasonClr { mask: 0xFFFF_FFFF }],
{
    [SdRequest::PowerResetReasonGet, SdRequest::PowerResetReasonClr { mask: 0xFFFF_FFFF }]
}

/// Read the GATT server system attributes of a connection into `buf`, with
/// `*len` as the buffer length and no flags; the raw code is returned.
pub fn raw_sys_attr_get(conn_handle: u16, buf: &mut [u8], len: &mut u16) -> (r: SdRequest)
    ensures
        r == (SdRequest::GattsSysAttrGet { conn_handle, len: *old(len), flags: 0 }),
        final(buf)@ == old(buf)@,
        *final(len) == *old(len),
{
    SdRequest::GattsSysAttrGet { conn_handle, len: *len, flags: 0 }
}

} // verus!

verus! {

/// The one-element sequence of a present configuration, or the empty one.
pub open spec fn optional_cfg(o: Option<BleCfg>) -> Seq<BleCfg> {
    match o {
        Some(v) => seq![v],
        None => Seq::empty(),
    }
}

/// The GAP connection configuration of `c`, or `conn_count` 1 and `event_length` 3.
pub open spec fn spec_gap_conn_config(c: Config) -> GapConnConfig {
    match c.conn_gap {
        Some(v) => v,
        None => GapConnConfig {
            conn_count: BLE_GAP_CONN_COUNT_DEFAULT,
            event_length: BLE_GAP_EVENT_LENGTH_DEFAULT,
        },
    }
}

/// The BLE configurations set while enabling, in the order they are set:
/// the GAP connection configuration (the given one, or `conn_count` 1 and
/// `event_length` 3), then each of GATT, GATT client, GATT server, L2CAP,
/// vendor specific UUIDs, role counts, device name, service changed and
/// attribute table size that the configuration holds. Connection
/// configurations carry `APP_CONN_CFG_TAG`.
#[verifier::opaque]
pub open spec fn enable_cfg_plan(c: Config) -> Seq<BleCfg> {
    seq![BleCfg::ConnGap { conn_cfg_tag: APP_CONN_CFG_TAG, cfg: spec_gap_conn_config(c) }]
        + optional_cfg(
        match c.conn_gatt {
            Some(v) => Some(BleCfg::ConnGatt { conn_cfg_tag: APP_CONN_CFG_TAG, cfg: v }),
            None => None,
        },
    ) + optional_cfg(
        match c.conn_gattc {
            Some(v) => Some(BleCfg::ConnGattc { conn_cfg_tag: APP_CONN_CFG_TAG, cfg: v }),
            None => None,
        },
    ) + optional_cfg(
        match c.conn_gatts {
            Some(v) => Some(BleCfg::ConnGatts { conn_cfg_tag: APP_CONN_CFG_TAG, cfg: v }),
            None => None,
        },
    ) + optional_cfg(
        match c.conn_l2cap {
            Some(v) => Some(BleCfg::ConnL2cap { conn_cfg_tag: APP_CONN_CFG_TAG, cfg: v }),
            None => None,
        },
    ) + optional_cfg(
        match c.common_vs_uuid {
            Some(v) => Some(BleCfg::CommonVsUuid { cfg: v }),
            None => None,
        },
    ) + optional_cfg(
        match c.gap_role_count {
            Some(v) => Some(BleCfg::GapRoleCount { cfg: v }),
            None => None,
        },
    ) + optional_cfg(
        match c.gap_device_name {
            Some(v) => Some(BleCfg::GapDeviceName { cfg: v }),
            None => None,
        },
    ) + optional_cfg(
        match c.gatts_service_changed {
            Some(v) => Some(BleCfg::GattsServiceChanged { cfg: v }),
            None => None,
        },
    ) + optional_cfg(
        match c.gatts_attr_tab_size {
            Some(v) => Some(BleCfg::GattsAttrTabSize { cfg: v }),
            None => None,
        },
    )
}

fn push_optional(v: &mut Vec<BleCfg>, o: Option<BleCfg>)
    ensures
        final(v)@ == old(v)@ + optional_cfg(o),
{
    if let Some(c) = o {
        v.push(c);
    } else {
        assert(old(v)@ + optional_cfg(o) =~= old(v)@);
    }
}

/// The BLE configurations to set while enabling with `config`.
pub fn enable_cfgs(config: &Config) -> (v: Vec<BleCfg>)
    ensures
        v@ == enable_cfg_plan(*config),
{
    let mut v: Vec<BleCfg> = Vec::new();
    let gap = match config.conn_gap {
        Some(g) => g,
        None => GapConnConfig {
            conn_count: BLE_GAP_CONN_COUNT_DEFAULT,
            event_length: BLE_GAP_EVENT_LENGTH_DEFAULT,
        },
    };
    v.push(BleCfg::ConnGap { conn_cfg_tag: APP_CONN_CFG_TAG, cfg: gap });
    reveal(enable_cfg_plan);
    assert(v@ =~= seq![BleCfg::ConnGap { conn_cfg_tag: APP_CONN_CFG_TAG, cfg: spec_gap_conn_config(*config) }]);
    push_optional(
        &mut v,
        match config.conn_gatt {
            Some(g) => Some(BleCfg::ConnGatt { conn_cfg_tag: APP_CONN_CFG_TAG, cfg: g }),
            None => None,
        },
    );
    push_optional(
        &mut v,
        match config.conn_gattc {
            Some(g) => Some(BleCfg::ConnGattc { conn_cfg_tag: APP_CONN_CFG_TAG, cfg: g }),
            None => None,
        },
    );
    push_optional(
        &mut v,
        match config.conn_gatts {
            Some(g) => Some(BleCfg::ConnGatts { conn_cfg_tag: APP_CONN_CFG_TAG, cfg: g }),
            None => None,
        },
    );
    push_optional(
        &mut v,
        match config.conn_l2cap {
            Some(g) => Some(BleCfg::ConnL2cap { conn_cfg_tag: APP_CONN_CFG_TAG, cfg: g }),
            None => None,
        },
    );
    push_optional(
        &mut v,
        match config.common_vs_uuid {
            Some(g) => Some(BleCfg::CommonVsUuid { cfg: g }),
            None => None,
        },
    );
    push_optional(
        &mut v,
        match config.gap_role_count {
            Some(g) => Some(BleCfg::GapRoleCount { cfg: g }),
            None => None,
        },
    );
    push_optional(
        &mut v,
        match config.gap_device_name {
            Some(g) => Some(BleCfg::GapDeviceName { cfg: g }),
            None => None,
        },
    );
    push_optional(
        &mut v,
        match config.gatts_service_changed {
            Some(g) => Some(BleCfg::GattsServiceChanged { cfg: g }),
            None => None,
        },
    );
    push_optional(
        &mut v,
        match config.gatts_attr_tab_size {
            Some(g) => Some(BleCfg::GattsAttrTabSize { cfg: g }),
            None => None,
        },
    );
    v
}

/// Whether `sd_ble_cfg_set` returning `ret` lets enabling go on: on success
/// and on `NoMem` (a configuration the SoftDevice has no room for is skipped).
pub open spec fn spec_cfg_set_accepted(ret: u32) -> bool {
    ret == NRF_SUCCESS || spec_error_of(ret) == RawError::NoMem
}

/// The result of a configuration call while enabling: `Ok` when it
/// succeeded or failed with `NoMem`, else the error.
pub fn cfg_set_result(ret: u32) -> (r: Result<(), RawError>)
    ensures
        r is Ok <==> spec_cfg_set_accepted(ret),
        r matches Err(e) ==> e == spec_error_of(ret),
{
    match RawError::convert(ret) {
        Ok(()) => Ok(()),
        Err(RawError::NoMem) => Ok(()),
        Err(e) => Err(e),
    }
}

/// The enabled SoftDevice: a single value, handed out once by a finished
/// `SoftdeviceSetup`.
#[derive(Debug)]
pub struct Softdevice {
    att_mtu: u16,
    l2cap_rx_mps: u16,
}

impl Softdevice {
    /// The ATT MTU of the connections.
    pub closed spec fn spec_att_mtu(self) -> u16 {
        self.att_mtu
    }

    /// The ATT MTU of the connections: the configured GATT MTU, or 23.
    pub fn att_mtu(&self) -> (r: u16)
        ensures
            r == self.spec_att_mtu(),
    {
        self.att_mtu
    }

    /// The L2CAP receive MPS of the connections.
    pub closed spec fn spec_l2cap_rx_mps(self) -> u16 {
        self.l2cap_rx_mps
    }

    /// The L2CAP receive MPS of the connections: the configured one, or 23.
    pub fn l2cap_rx_mps(&self) -> (r: u16)
        ensures
            r == self.spec_l2cap_rx_mps(),
    {
        self.l2cap_rx_mps
    }
}

/// The ATT MTU that enabling with `c` gives: the configured GATT MTU, or 23.
pub open spec fn spec_att_mtu_of(c: Config) -> u16 {
    match c.conn_gatt {
        Some(g) => g.att_mtu,
        None => BLE_GATT_ATT_MTU_DEFAULT,
    }
}

/// The L2CAP receive MPS that enabling with `c` gives: the configured one, or 23.
pub open spec fn spec_l2cap_rx_mps_of(c: Config) -> u16 {
    match c.conn_l2cap {
        Some(l) => l.rx_mps,
        None => BLE_L2CAP_MPS_MIN,
    }
}

/// Why enabling the SoftDevice failed.
#[derive(Debug, Clone, Copy, PartialEq, Eq)]
pub enum EnableError {
    /// `sd_softdevice_enable` failed.
    SoftdeviceEnable(RawError),
    /// `sd_ble_cfg_set` failed for the configuration `id` with an error other than `NoMem`.
    CfgSet { id: u32, err: RawError },
    /// The configuration needs more memory than the SoftDevice supports.
    TooHighRamRequirements,
    /// Too little RAM for the SoftDevice: the application RAM must start at `wanted_app_ram_base`.
    TooLittleRam { wanted_app_ram_base: u32 },
    /// `sd_ble_enable` failed with an error other than `NoMem`.
    BleEnable(RawError),
    /// The SoftDevice was already enabled: enabling may happen only once.
    AlreadyEnabled,
}

/// What a successful enabling reports.
#[derive(Debug, Clone, Copy, PartialEq, Eq, Structural)]
pub struct EnableReport {
    /// The ATT MTU of the connections.
    pub att_mtu: u16,
    /// The L2CAP receive MPS of the connections.
    pub l2cap_rx_mps: u16,
    /// When the SoftDevice got more RAM than it needs, the application RAM
    /// start it could have instead.
    pub spare_ram_app_ram_base: Option<u32>,
}

/// What the enabling asks for next.
#[derive(Debug, Clone, Copy, PartialEq, Eq)]
pub enum EnableAction {
    /// Make this call and hand its return code to `on_return`.
    Call(SdRequest),
    /// Enabling is over, with this result.
    Finished(Result<EnableReport, EnableError>),
}

/// Whether `r` is what enabling gives when `sd_ble_enable` returned `ret`
/// and asked for the application RAM to start at `wanted`, while it started
/// at `base`: success with the configured ATT MTU (and `wanted` reported as
/// spare when below `base`); on `NoMem` too high requirements when `wanted`
/// is not above `base`, else too little RAM; any other error as it is.
pub open spec fn spec_ble_enable_outcome(
    r: Result<EnableReport, EnableError>,
    ret: u32,
    wanted: u32,
    base: u32,
    c: Config,
) -> bool {
    if ret == NRF_SUCCESS {
        &&& r matches Ok(e)
        &&& e.att_mtu == spec_att_mtu_of(c)
        &&& e.l2cap_rx_mps == spec_l2cap_rx_mps_of(c)
        &&& e.spare_ram_app_ram_base == if wanted < base {
            Some(wanted)
        } else {
            None
        }
    } else if spec_error_of(ret) == RawError::NoMem {
        if wanted <= base {
            r == Err::<EnableReport, EnableError>(EnableError::TooHighRamRequirements)
        } else {
            r == Err::<EnableReport, EnableError>(EnableError::TooLittleRam { wanted_app_ram_base: wanted })
        }
    } else {
        r == Err::<EnableReport, EnableError>(EnableError::BleEnable(spec_error_of(ret)))
    }
}

/// The decision after `sd_ble_enable` returned `ret` and the wanted RAM start.
pub fn ble_enable_outcome(ret: u32, wanted: u32, base: u32, config: &Config) -> (r: Result<EnableReport, EnableError>)
    ensures
        spec_ble_enable_outcome(r, ret, wanted, base, *config),
{
    match RawError::convert(ret) {
        Ok(()) => {
            let att_mtu = match config.conn_gatt {
                Some(g) => g.att_mtu,
                None => BLE_GATT_ATT_MTU_DEFAULT,
            };
            let spare = if wanted < base {
                Some(wanted)
            } else {
                None
            };
            let l2cap_rx_mps = match config.conn_l2cap {
                Some(l) => l.rx_mps,
                None => BLE_L2CAP_MPS_MIN,
            };
            Ok(EnableReport { att_mtu, l2cap_rx_mps, spare_ram_app_ram_base: spare })
        },
        Err(RawError::NoMem) => {
            if wanted <= base {
                Err(EnableError::TooHighRamRequirements)
            } else {
                Err(EnableError::TooLittleRam { wanted_app_ram_base: wanted })
            }
        },
        Err(e) => Err(EnableError::BleEnable(e)),
    }
}

} // verus!

verus! {

/// At most ten configurations are set while enabling.
pub proof fn lemma_enable_cfg_plan_len(c: Config)
    ensures
        1 <= enable_cfg_plan(c).len() <= 10,
{
    reveal(enable_cfg_plan);
}


/// The place of a configuration's kind in the order in which enabling sets
/// them: GAP connection, GATT connection, GATT client connection, GATT server
/// connection, L2CAP connection, vendor specific UUIDs, role counts, device
/// name, service changed, attribute table size.
pub open spec fn cfg_order(x: BleCfg) -> int {
    match x {
        BleCfg::ConnGap { .. } => 0,
        BleCfg::ConnGatt { .. } => 1,
        BleCfg::ConnGattc { .. } => 2,
        BleCfg::ConnGatts { .. } => 3,
        BleCfg::ConnL2cap { .. } => 4,
        BleCfg::CommonVsUuid { .. } => 5,
        BleCfg::GapRoleCount { .. } => 6,
        BleCfg::GapDeviceName { .. } => 7,
        BleCfg::GattsServiceChanged { .. } => 8,
        BleCfg::GattsAttrTabSize { .. } => 9,
    }
}

/// Whether the places of the configurations of `s` strictly increase.
pub open spec fn in_cfg_order(s: Seq<BleCfg>) -> bool {
    forall|i: int, j: int| 0 <= i < j < s.len() ==> cfg_order(s[i]) < cfg_order(s[j])
}

proof fn lemma_ordered_append(s: Seq<BleCfg>, o: Option<BleCfg>, r: int)
    requires
        in_cfg_order(s),
        forall|i: int| 0 <= i < s.len() ==> cfg_order(#[trigger] s[i]) < r,
        o matches Some(v) ==> cfg_order(v) == r,
    ensures
        in_cfg_order(s + optional_cfg(o)),
        forall|i: int|
            0 <= i < (s + optional_cfg(o)).len() ==> cfg_order(#[trigger] (s + optional_cfg(o))[i]) < r + 1,
{
    let t = s + optional_cfg(o);
    assert forall|i: int, j: int| 0 <= i < j < t.len() implies cfg_order(t[i]) < cfg_order(t[j]) by {
        if j >= s.len() {
            assert(t[i] == s[i]);
        } else {
            assert(t[i] == s[i] && t[j] == s[j]);
        }
    }
    assert forall|i: int| 0 <= i < t.len() implies cfg_order(#[trigger] t[i]) < r + 1 by {
        if i < s.len() {
            assert(t[i] == s[i]);
        }
    }
}

/// Enabling sets the configurations in the order of `cfg_order`: the GAP
/// connection configuration first, then GATT, GATT client, GATT server,
/// L2CAP, vendor specific UUIDs, role counts, device name, service changed
/// and attribute table size, as far as they are set; no kind twice.
pub proof fn lemma_enable_cfg_plan_order(c: Config)
    ensures
        in_cfg_order(enable_cfg_plan(c)),
{
    reveal(enable_cfg_plan);
    let s0 = seq![BleCfg::ConnGap { conn_cfg_tag: APP_CONN_CFG_TAG, cfg: spec_gap_conn_config(c) }];
    let o1 = match c.conn_gatt {
        Some(v) => Some(BleCfg::ConnGatt { conn_cfg_tag: APP_CONN_CFG_TAG, cfg: v }),
        None => None,
    };
    let o2 = match c.conn_gattc {
        Some(v) => Some(BleCfg::ConnGattc { conn_cfg_tag: APP_CONN_CFG_TAG, cfg: v }),
        None => None,
    };
    let o3 = match c.conn_gatts {
        Some(v) => Some(BleCfg::ConnGatts { conn_cfg_tag: APP_CONN_CFG_TAG, cfg: v }),
        None => None,
    };
    let o4 = match c.conn_l2cap {
        Some(v) => Some(BleCfg::ConnL2cap { conn_cfg_tag: APP_CONN_CFG_TAG, cfg: v }),
        None => None,
    };
    let o5 = match c.common_vs_uuid {
        Some(v) => Some(BleCfg::CommonVsUuid { cfg: v }),
        None => None,
    };
    let o6 = match c.gap_role_count {
        Some(v) => Some(BleCfg::GapRoleCount { cfg: v }),
        None => None,
    };
    let o7 = match c.gap_device_name {
        Some(v) => Some(BleCfg::GapDeviceName { cfg: v }),
        None => None,
    };
    let o8 = match c.gatts_service_changed {
        Some(v) => Some(BleCfg::GattsServiceChanged { cfg: v }),
        None => None,
    };
    let o9 = match c.gatts_attr_tab_size {
        Some(v) => Some(BleCfg::GattsAttrTabSize { cfg: v }),
        None => None,
    };
    let s1 = s0 + optional_cfg(o1);
    let s2 = s1 + optional_cfg(o2);
    let s3 = s2 + optional_cfg(o3);
    let s4 = s3 + optional_cfg(o4);
    let s5 = s4 + optional_cfg(o5);
    let s6 = s5 + optional_cfg(o6);
    let s7 = s6 + optional_cfg(o7);
    let s8 = s7 + optional_cfg(o8);
    lemma_ordered_append(s0, o1, 1);
    lemma_ordered_append(s1, o2, 2);
    lemma_ordered_append(s2, o3, 3);
    lemma_ordered_append(s3, o4, 4);
    lemma_ordered_append(s4, o5, 5);
    lemma_ordered_append(s5, o6, 6);
    lemma_ordered_append(s6, o7, 7);
    lemma_ordered_append(s7, o8, 8);
    lemma_ordered_append(s8, o9, 9);
    assert(enable_cfg_plan(c) == s8 + optional_cfg(o9));
}

/// Each kind of configuration is set under its own id of the C interface:
/// GAP connection 0x20, GATT client connection 0x21, GATT server connection
/// 0x22, GATT connection 0x23, L2CAP connection 0x24, vendor specific UUIDs
/// 0x01, role counts 0x40, device name 0x41, service changed 0xA0, attribute
/// table size 0xA1. Two configurations share an id only when they are of
/// the same kind.
pub proof fn lemma_cfg_ids(a: BleCfg, b: BleCfg)
    ensures
        a is ConnGap ==> a.spec_id() == 0x20,
        a is ConnGattc ==> a.spec_id() == 0x21,
        a is ConnGatts ==> a.spec_id() == 0x22,
        a is ConnGatt ==> a.spec_id() == 0x23,
        a is ConnL2cap ==> a.spec_id() == 0x24,
        a is CommonVsUuid ==> a.spec_id() == 0x01,
        a is GapRoleCount ==> a.spec_id() == 0x40,
        a is GapDeviceName ==> a.spec_id() == 0x41,
        a is GattsServiceChanged ==> a.spec_id() == 0xA0,
        a is GattsAttrTabSize ==> a.spec_id() == 0xA1,
        a.spec_id() == b.spec_id() ==> {
            &&& (a is ConnGap <==> b is ConnGap)
            &&& (a is ConnGattc <==> b is ConnGattc)
            &&& (a is ConnGatts <==> b is ConnGatts)
            &&& (a is ConnGatt <==> b is ConnGatt)
            &&& (a is ConnL2cap <==> b is ConnL2cap)
            &&& (a is CommonVsUuid <==> b is CommonVsUuid)
            &&& (a is GapRoleCount <==> b is GapRoleCount)
            &&& (a is GapDeviceName <==> b is GapDeviceName)
            &&& (a is GattsServiceChanged <==> b is GattsServiceChanged)
            &&& (a is GattsAttrTabSize <==> b is GattsAttrTabSize)
        },
{
}

/// The configurations of `o` that satisfy `p`: `o`'s value when it has one
/// that does, else none.
pub open spec fn optional_filtered(o: Option<BleCfg>, p: spec_fn(BleCfg) -> bool) -> Seq<BleCfg> {
    match o {
        Some(v) => if p(v) {
            seq![v]
        } else {
            Seq::empty()
        },
        None => Seq::empty(),
    }
}

/// Keeping the configurations that satisfy `p` from `optional_cfg(o)`.
pub broadcast proof fn lemma_optional_cfg_filter(o: Option<BleCfg>, p: spec_fn(BleCfg) -> bool)
    ensures
        #[trigger] optional_cfg(o).filter(p) == optional_filtered(o, p),
{
    reveal_with_fuel(Seq::filter, 2);
    if let Some(v) = o {
        assert(seq![v].drop_last() =~= Seq::<BleCfg>::empty());
        if p(v) {
            assert(Seq::<BleCfg>::empty().push(v) =~= seq![v]);
        }
    }
}

/// Keeping the configurations that satisfy `p` from the plan, part by part.
proof fn lemma_enable_cfg_plan_filter(c: Config, p: spec_fn(BleCfg) -> bool)
    ensures
        enable_cfg_plan(c).filter(p) == optional_filtered(
            Some(BleCfg::ConnGap { conn_cfg_tag: APP_CONN_CFG_TAG, cfg: spec_gap_conn_config(c) }),
            p,
        ) + optional_filtered(
            match c.conn_gatt {
                Some(v) => Some(BleCfg::ConnGatt { conn_cfg_tag: APP_CONN_CFG_TAG, cfg: v }),
                None => None,
            },
            p,
        ) + optional_filtered(
            match c.conn_gattc {
                Some(v) => Some(BleCfg::ConnGattc { conn_cfg_tag: APP_CONN_CFG_TAG, cfg: v }),
                None => None,
            },
            p,
        ) + optional_filtered(
            match c.conn_gatts {
                Some(v) => Some(BleCfg::ConnGatts { conn_cfg_tag: APP_CONN_CFG_TAG, cfg: v }),
                None => None,
            },
            p,
        ) + optional_filtered(
            match c.conn_l2cap {
                Some(v) => Some(BleCfg::ConnL2cap { conn_cfg_tag: APP_CONN_CFG_TAG, cfg: v }),
                None => None,
            },
            p,
        ) + optional_filtered(
            match c.common_vs_uuid {
                Some(v) => Some(BleCfg::CommonVsUuid { cfg: v }),
                None => None,
            },
            p,
        ) + optional_filtered(
            match c.gap_role_count {
                Some(v) => Some(BleCfg::GapRoleCount { cfg: v }),
                None => None,
            },
            p,
        ) + optional_filtered(
            match c.gap_device_name {
                Some(v) => Some(BleCfg::GapDeviceName { cfg: v }),
                None => None,
            },
            p,
        ) + optional_filtered(
            match c.gatts_service_changed {
                Some(v) => Some(BleCfg::GattsServiceChanged { cfg: v }),
                None => None,
            },
            p,
        ) + optional_filtered(
            match c.gatts_attr_tab_size {
                Some(v) => Some(BleCfg::GattsAttrTabSize { cfg: v }),
                None => None,
            },
            p,
        ),
{
    reveal(enable_cfg_plan);
    broadcast use Seq::filter_distributes_over_add, lemma_optional_cfg_filter;

    let first = seq![BleCfg::ConnGap { conn_cfg_tag: APP_CONN_CFG_TAG, cfg: spec_gap_conn_config(c) }];
    assert(first =~= optional_cfg(Some(first[0])));
}

#[verifier::spinoff_prover]
proof fn lemma_plan_kind_conn_gap(c: Config)
    ensures
        enable_cfg_plan(c).filter(|x: BleCfg| x is ConnGap) =~= seq![
            BleCfg::ConnGap {
                conn_cfg_tag: 1,
                cfg: match c.conn_gap {
                    Some(g) => g,
                    None => GapConnConfig { conn_count: 1, event_length: 3 },
                },
            },
        ],
{
    lemma_enable_cfg_plan_filter(c, |x: BleCfg| x is ConnGap);
}

#[verifier::spinoff_prover]
proof fn lemma_plan_kind_conn_gatt(c: Config)
    ensures
        enable_cfg_plan(c).filter(|x: BleCfg| x is ConnGatt) =~= (match c.conn_gatt {
            Some(v) => seq![BleCfg::ConnGatt { conn_cfg_tag: 1, cfg: v }],
            None => Seq::<BleCfg>::empty(),
        }),
{
    lemma_enable_cfg_plan_filter(c, |x: BleCfg| x is ConnGatt);
}

#[verifier::spinoff_prover]
proof fn lemma_plan_kind_conn_gattc(c: Config)
    ensures
        enable_cfg_plan(c).filter(|x: BleCfg| x is ConnGattc) =~= (match c.conn_gattc {
            Some(v) => seq![BleCfg::ConnGattc { conn_cfg_tag: 1, cfg: v }],
            None => Seq::<BleCfg>::empty(),
        }),
{
    lemma_enable_cfg_plan_filter(c, |x: BleCfg| x is ConnGattc);
}

#[verifier::spinoff_prover]
proof fn lemma_plan_kind_conn_gatts(c: Config)
    ensures
        enable_cfg_plan(c).filter(|x: BleCfg| x is ConnGatts) =~= (match c.conn_gatts {
            Some(v) => seq![BleCfg::ConnGatts { conn_cfg_tag: 1, cfg: v }],
            None => Seq::<BleCfg>::empty(),
        }),
{
    lemma_enable_cfg_plan_filter(c, |x: BleCfg| x is ConnGatts);
}

#[verifier::spinoff_prover]
proof fn lemma_plan_kind_conn_l2cap(c: Config)
    ensures
        enable_cfg_plan(c).filter(|x: BleCfg| x is ConnL2cap) =~= (match c.conn_l2cap {
            Some(v) => seq![BleCfg::ConnL2cap { conn_cfg_tag: 1, cfg: v }],
            None => Seq::<BleCfg>::empty(),
        }),
{
    lemma_enable_cfg_plan_filter(c, |x: BleCfg| x is ConnL2cap);
}

#[verifier::spinoff_prover]
proof fn lemma_plan_kind_common_vs_uuid(c: Config)
    ensures
        enable_cfg_plan(c).filter(|x: BleCfg| x is CommonVsUuid) =~= (match c.common_vs_uuid {
            Some(v) => seq![BleCfg::CommonVsUuid { cfg: v }],
            None => Seq::<BleCfg>::empty(),
        }),
{
    lemma_enable_cfg_plan_filter(c, |x: BleCfg| x is CommonVsUuid);
}

#[verifier::spinoff_prover]
proof fn lemma_plan_kind_gap_role_count(c: Config)
    ensures
        enable_cfg_plan(c).filter(|x: BleCfg| x is GapRoleCount) =~= (match c.gap_role_count {
            Some(v) => seq![BleCfg::GapRoleCount { cfg: v }],
            None => Seq::<BleCfg>::empty(),
        }),
{
    lemma_enable_cfg_plan_filter(c, |x: BleCfg| x is GapRoleCount);
}

#[verifier::spinoff_prover]
proof fn lemma_plan_kind_gap_device_name(c: Config)
    ensures
        enable_cfg_plan(c).filter(|x: BleCfg| x is GapDeviceName) =~= (match c.gap_device_name {
            Some(v) => seq![BleCfg::GapDeviceName { cfg: v }],
            None => Seq::<BleCfg>::empty(),
        }),
{
    lemma_enable_cfg_plan_filter(c, |x: BleCfg| x is GapDeviceName);
}

#[verifier::spinoff_prover]
proof fn lemma_plan_kind_gatts_service_changed(c: Config)
    ensures
        enable_cfg_plan(c).filter(|x: BleCfg| x is GattsServiceChanged) =~= (
        match c.gatts_service_changed {
            Some(v) => seq![BleCfg::GattsServiceChanged { cfg: v }],
            None => Seq::<BleCfg>::empty(),
        }),
{
    lemma_enable_cfg_plan_filter(c, |x: BleCfg| x is GattsServiceChanged);
}

#[verifier::spinoff_prover]
proof fn lemma_plan_kind_gatts_attr_tab_size(c: Config)
    ensures
        enable_cfg_plan(c).filter(|x: BleCfg| x is GattsAttrTabSize) =~= (
        match c.gatts_attr_tab_size {
            Some(v) => seq![BleCfg::GattsAttrTabSize { cfg: v }],
            None => Seq::<BleCfg>::empty(),
        }),
{
    lemma_enable_cfg_plan_filter(c, |x: BleCfg| x is GattsAttrTabSize);
}

/// The configurations set while enabling with `c`, kind by kind: exactly one
/// GAP connection configuration, under tag 1, with `c.conn_gap` or else
/// `conn_count` 1 and `event_length` 3, and it is set first; for each other
/// field but the clock, exactly one configuration of its kind carrying the
/// field's value (connection ones under tag 1) when the field is `Some`, and
/// none of its kind when it is `None`. So one configuration is set, plus one
/// for each of those fields that is `Some`.
pub proof fn lemma_enable_cfg_plan_kinds(c: Config)
    ensures
        enable_cfg_plan(c)[0] == (BleCfg::ConnGap {
            conn_cfg_tag: 1,
            cfg: match c.conn_gap {
                Some(g) => g,
                None => GapConnConfig { conn_count: 1, event_length: 3 },
            },
        }),
        enable_cfg_plan(c).filter(|x: BleCfg| x is ConnGap) == seq![
            BleCfg::ConnGap {
                conn_cfg_tag: 1,
                cfg: match c.conn_gap {
                    Some(g) => g,
                    None => GapConnConfig { conn_count: 1, event_length: 3 },
                },
            },
        ],
        enable_cfg_plan(c).filter(|x: BleCfg| x is ConnGatt) == (match c.conn_gatt {
            Some(v) => seq![BleCfg::ConnGatt { conn_cfg_tag: 1, cfg: v }],
            None => Seq::<BleCfg>::empty(),
        }),
        enable_cfg_plan(c).filter(|x: BleCfg| x is ConnGattc) == (match c.conn_gattc {
            Some(v) => seq![BleCfg::ConnGattc { conn_cfg_tag: 1, cfg: v }],
            None => Seq::<BleCfg>::empty(),
        }),
        enable_cfg_plan(c).filter(|x: BleCfg| x is ConnGatts) == (match c.conn_gatts {
            Some(v) => seq![BleCfg::ConnGatts { conn_cfg_tag: 1, cfg: v }],
            None => Seq::<BleCfg>::empty(),
        }),
        enable_cfg_plan(c).filter(|x: BleCfg| x is ConnL2cap) == (match c.conn_l2cap {
            Some(v) => seq![BleCfg::ConnL2cap { conn_cfg_tag: 1, cfg: v }],
            None => Seq::<BleCfg>::empty(),
        }),
        enable_cfg_plan(c).filter(|x: BleCfg| x is CommonVsUuid) == (match c.common_vs_uuid {
            Some(v) => seq![BleCfg::CommonVsUuid { cfg: v }],
            None => Seq::<BleCfg>::empty(),
        }),
        enable_cfg_plan(c).filter(|x: BleCfg| x is GapRoleCount) == (match c.gap_role_count {
            Some(v) => seq![BleCfg::GapRoleCount { cfg: v }],
            None => Seq::<BleCfg>::empty(),
        }),
        enable_cfg_plan(c).filter(|x: BleCfg| x is GapDeviceName) == (match c.gap_device_name {
            Some(v) => seq![BleCfg::GapDeviceName { cfg: v }],
            None => Seq::<BleCfg>::empty(),
        }),
        enable_cfg_plan(c).filter(|x: BleCfg| x is GattsServiceChanged) == (
        match c.gatts_service_changed {
            Some(v) => seq![BleCfg::GattsServiceChanged { cfg: v }],
            None => Seq::<BleCfg>::empty(),
        }),
        enable_cfg_plan(c).filter(|x: BleCfg| x is GattsAttrTabSize) == (
        match c.gatts_attr_tab_size {
            Some(v) => seq![BleCfg::GattsAttrTabSize { cfg: v }],
            None => Seq::<BleCfg>::empty(),
        }),
        enable_cfg_plan(c).len() == 1 + (if c.conn_gatt is Some {
            1int
        } else {
            0
        }) + (if c.conn_gattc is Some {
            1int
        } else {
            0
        }) + (if c.conn_gatts is Some {
            1int
        } else {
            0
        }) + (if c.conn_l2cap is Some {
            1int
        } else {
            0
        }) + (if c.common_vs_uuid is Some {
            1int
        } else {
            0
        }) + (if c.gap_role_count is Some {
            1int
        } else {
            0
        }) + (if c.gap_device_name is Some {
            1int
        } else {
            0
        }) + (if c.gatts_service_changed is Some {
            1int
        } else {
            0
        }) + (if c.gatts_attr_tab_size is Some {
            1int
        } else {
            0
        }),
{
    assert(enable_cfg_plan(c)[0] == (BleCfg::ConnGap {
            conn_cfg_tag: 1,
            cfg: match c.conn_gap {
                Some(g) => g,
                None => GapConnConfig { conn_count: 1, event_length: 3 },
            },
        })) by {
        reveal(enable_cfg_plan);
    }
    lemma_plan_kind_conn_gap(c);
    lemma_plan_kind_conn_gatt(c);
    lemma_plan_kind_conn_gattc(c);
    lemma_plan_kind_conn_gatts(c);
    lemma_plan_kind_conn_l2cap(c);
    lemma_plan_kind_common_vs_uuid(c);
    lemma_plan_kind_gap_role_count(c);
    lemma_plan_kind_gap_device_name(c);
    lemma_plan_kind_gatts_service_changed(c);
    lemma_plan_kind_gatts_attr_tab_size(c);
    assert(enable_cfg_plan(c).len() == 1 + (if c.conn_gatt is Some {
            1int
        } else {
            0
        }) + (if c.conn_gattc is Some {
            1int
        } else {
            0
        }) + (if c.conn_gatts is Some {
            1int
        } else {
            0
        }) + (if c.conn_l2cap is Some {
            1int
        } else {
            0
        }) + (if c.common_vs_uuid is Some {
            1int
        } else {
            0
        }) + (if c.gap_role_count is Some {
            1int
        } else {
            0
        }) + (if c.gap_device_name is Some {
            1int
        } else {
            0
        }) + (if c.gatts_service_changed is Some {
            1int
        } else {
            0
        }) + (if c.gatts_attr_tab_size is Some {
            1int
        } else {
            0
        })) by {
        reveal(enable_cfg_plan);
    }
}

/// The result of enabling when `sd_ble_enable` returned `ret` and asked for
/// the application RAM to start at `wanted`, while it started at `base`.
pub open spec fn spec_ble_enable_result(ret: u32, wanted: u32, base: u32, c: Config) -> Result<
    EnableReport,
    EnableError,
> {
    if ret == NRF_SUCCESS {
        Ok(
            EnableReport {
                att_mtu: spec_att_mtu_of(c),
                l2cap_rx_mps: spec_l2cap_rx_mps_of(c),
                spare_ram_app_ram_base: if wanted < base {
                    Some(wanted)
                } else {
                    None
                },
            },
        )
    } else if spec_error_of(ret) == RawError::NoMem {
        if wanted <= base {
            Err(EnableError::TooHighRamRequirements)
        } else {
            Err(EnableError::TooLittleRam { wanted_app_ram_base: wanted })
        }
    } else {
        Err(EnableError::BleEnable(spec_error_of(ret)))
    }
}

/// A configuration call lets enabling go on exactly when it returned
/// `NRF_SUCCESS` (0) or `NRF_ERROR_NO_MEM` (4).
pub proof fn lemma_cfg_set_accepted_codes(ret: u32)
    ensures
        spec_cfg_set_accepted(ret) <==> (ret == 0 || ret == 4),
{
}

/// What enabling reports after `sd_ble_enable` returned `ret` and asked for
/// the application RAM to start at `wanted`, while it starts at `base`: on
/// success (0) the configured ATT MTU (else 23), the configured L2CAP
/// receive MPS (else 23), and `wanted` as spare RAM start when it is below
/// `base`; on `NRF_ERROR_NO_MEM` (4) too high RAM requirements when `wanted`
/// is not above `base`, else too little RAM with `wanted`; on any other code
/// the `sd_ble_enable` error of that code.
pub proof fn lemma_ble_enable_decision(
    r: Result<EnableReport, EnableError>,
    ret: u32,
    wanted: u32,
    base: u32,
    c: Config,
)
    requires
        spec_ble_enable_outcome(r, ret, wanted, base, c),
    ensures
        ret == 0 ==> r == Ok::<EnableReport, EnableError>(
            EnableReport {
                att_mtu: match c.conn_gatt {
                    Some(g) => g.att_mtu,
                    None => 23,
                },
                l2cap_rx_mps: match c.conn_l2cap {
                    Some(l) => l.rx_mps,
                    None => 23,
                },
                spare_ram_app_ram_base: if wanted < base {
                    Some(wanted)
                } else {
                    None
                },
            },
        ),
        ret == 4 && wanted <= base ==> r == Err::<EnableReport, EnableError>(
            EnableError::TooHighRamRequirements,
        ),
        ret == 4 && wanted > base ==> r == Err::<EnableReport, EnableError>(
            EnableError::TooLittleRam { wanted_app_ram_base: wanted },
        ),
        ret != 0 && ret != 4 ==> (r matches Err(EnableError::BleEnable(e)) && e.spec_code() == ret),
{
}

/// `spec_ble_enable_result` is the outcome that `spec_ble_enable_outcome` describes.
pub proof fn lemma_ble_enable_result(ret: u32, wanted: u32, base: u32, c: Config)
    ensures
        spec_ble_enable_outcome(spec_ble_enable_result(ret, wanted, base, c), ret, wanted, base, c),
{
}

/// Enabling the SoftDevice in progress: `sd_softdevice_enable`, then one
/// `sd_ble_cfg_set` per configuration of `enable_cfg_plan`, then
/// `sd_ble_enable`; a failing call ends it with its error.
pub struct SoftdeviceSetup {
    config: Config,
    cfgs: Vec<BleCfg>,
    stage: usize,
    outcome: Option<Result<EnableReport, EnableError>>,
}

impl SoftdeviceSetup {
    #[verifier::type_invariant]
    spec fn inv(self) -> bool {
        &&& self.cfgs@ == enable_cfg_plan(self.config)
        &&& self.cfgs.len() <= 10
        &&& self.stage <= self.cfgs.len() + 1
    }

    /// The configuration being enabled with.
    pub closed spec fn spec_config(self) -> Config {
        self.config
    }

    /// How many calls have been accepted so far.
    pub closed spec fn spec_stage(self) -> nat {
        self.stage as nat
    }

    /// The result, once enabling is over.
    pub closed spec fn spec_outcome(self) -> Option<Result<EnableReport, EnableError>> {
        self.outcome
    }

    /// The configurations to set.
    pub open spec fn spec_plan(self) -> Seq<BleCfg> {
        enable_cfg_plan(self.spec_config())
    }

    /// The call a setup in a given stage asks for.
    pub open spec fn spec_stage_request(self) -> SdRequest {
        if self.spec_stage() == 0 {
            SdRequest::SoftdeviceEnable {
                clock: self.spec_config().clock,
                ant_license_key: ANT_LICENSE_KEY,
            }
        } else if self.spec_stage() <= self.spec_plan().len() {
            SdRequest::BleCfgSet {
                cfg: self.spec_plan()[self.spec_stage() - 1],
                app_ram_base: spec_app_ram_base(),
            }
        } else {
            SdRequest::BleEnable { app_ram_base: spec_app_ram_base() }
        }
    }

    /// The next action of a setup in this state.
    pub open spec fn spec_action(self) -> EnableAction {
        match self.spec_outcome() {
            Some(r) => EnableAction::Finished(r),
            None => EnableAction::Call(self.spec_stage_request()),
        }
    }

    /// Whether the setup waits for the return of a call.
    pub open spec fn awaiting_return(self) -> bool {
        self.spec_action() is Call
    }

    /// The state after the pending call returned `ret` (and, for
    /// `sd_ble_enable`, the wanted application RAM start `wanted`).
    pub closed spec fn spec_after(self, ret: u32, wanted: u32) -> Self {
        if self.stage == 0 {
            if ret == NRF_SUCCESS {
                SoftdeviceSetup { stage: 1, ..self }
            } else {
                SoftdeviceSetup {
                    outcome: Some(Err(EnableError::SoftdeviceEnable(spec_error_of(ret)))),
                    ..self
                }
            }
        } else if self.stage <= enable_cfg_plan(self.config).len() {
            if spec_cfg_set_accepted(ret) {
                SoftdeviceSetup { stage: (self.stage + 1) as usize, ..self }
            } else {
                SoftdeviceSetup {
                    outcome: Some(
                        Err(
                            EnableError::CfgSet {
                                id: enable_cfg_plan(self.config)[self.stage - 1].spec_id(),
                                err: spec_error_of(ret),
                            },
                        ),
                    ),
                    ..self
                }
            }
        } else {
            SoftdeviceSetup {
                outcome: Some(spec_ble_enable_result(ret, wanted, spec_app_ram_base(), self.config)),
                ..self
            }
        }
    }

    /// The state after the calls returned `rets` in turn (code, wanted RAM start).
    pub open spec fn spec_run(self, rets: Seq<(u32, u32)>) -> Self
        decreases rets.len(),
    {
        if rets.len() == 0 || !self.awaiting_return() {
            self
        } else {
            self.spec_after(rets[0].0, rets[0].1).spec_run(rets.drop_first())
        }
    }

    /// The calls that are made while the calls return `rets` in turn.
    pub open spec fn spec_issued(self, rets: Seq<(u32, u32)>) -> Seq<SdRequest>
        decreases rets.len(),
    {
        if rets.len() == 0 || !self.awaiting_return() {
            Seq::empty()
        } else {
            seq![self.spec_stage_request()] + self.spec_after(rets[0].0, rets[0].1).spec_issued(
                rets.drop_first(),
            )
        }
    }

    /// What to do next: make the next call, or report the result.
    pub fn action(&self) -> (r: EnableAction)
        ensures
            r == self.spec_action(),
    {
        proof {
            use_type_invariant(self);
        }
        match self.outcome {
            Some(r) => EnableAction::Finished(r),
            None => {
                let base = get_app_ram_base();
                if self.stage == 0 {
                    EnableAction::Call(
                        SdRequest::SoftdeviceEnable {
                            clock: self.config.clock,
                            ant_license_key: ANT_LICENSE_KEY,
                        },
                    )
                } else if self.stage <= self.cfgs.len() {
                    EnableAction::Call(
                        SdRequest::BleCfgSet { cfg: self.cfgs[self.stage - 1], app_ram_base: base },
                    )
                } else {
                    EnableAction::Call(SdRequest::BleEnable { app_ram_base: base })
                }
            },
        }
    }

    /// Records the return of the call that `action` asked for: its code
    /// `ret`, and for `sd_ble_enable` the application RAM start `wanted`
    /// that it wrote back (ignored for the other calls).
    pub fn on_return(&mut self, ret: u32, wanted: u32)
        requires
            old(self).awaiting_return(),
        ensures
            *final(self) == old(self).spec_after(ret, wanted),
            final(self).spec_config() == old(self).spec_config(),
            old(self).spec_stage() == 0 ==> if ret == NRF_SUCCESS {
                final(self).spec_stage() == 1 && final(self).spec_outcome() is None
            } else {
                final(self).spec_outcome() == Some(
                    Err::<EnableReport, EnableError>(EnableError::SoftdeviceEnable(spec_error_of(ret))),
                )
            },
            1 <= old(self).spec_stage() <= old(self).spec_plan().len() ==> if spec_cfg_set_accepted(
                ret,
            ) {
                final(self).spec_stage() == old(self).spec_stage() + 1 && final(self).spec_outcome() is None
            } else {
                final(self).spec_outcome() == Some(
                    Err::<EnableReport, EnableError>(
                        EnableError::CfgSet {
                            id: old(self).spec_plan()[old(self).spec_stage() - 1].spec_id(),
                            err: spec_error_of(ret),
                        },
                    ),
                )
            },
            old(self).spec_stage() > old(self).spec_plan().len() ==> (final(self).spec_outcome()
                matches Some(r) && spec_ble_enable_outcome(
                r,
                ret,
                wanted,
                spec_app_ram_base(),
                old(self).spec_config(),
            )),
    {
        proof {
            use_type_invariant(&*self);
        }
        if self.stage == 0 {
            if ret == NRF_SUCCESS {
                self.stage = 1;
            } else {
                self.outcome = Some(Err(EnableError::SoftdeviceEnable(RawError::from_code(ret))));
            }
        } else if self.stage <= self.cfgs.len() {
            match cfg_set_result(ret) {
                Ok(()) => {
                    self.stage = self.stage + 1;
                },
                Err(e) => {
                    let id = self.cfgs[self.stage - 1].id();
                    self.outcome = Some(Err(EnableError::CfgSet { id, err: e }));
                },
            }
        } else {
            let base = get_app_ram_base();
            let r = ble_enable_outcome(ret, wanted, base, &self.config);
            proof {
                lemma_ble_enable_result(ret, wanted, base, self.config);
            }
            assert(r == spec_ble_enable_result(ret, wanted, base, self.config));
            self.outcome = Some(r);
        }
    }
}

/// The calls that set the configurations `cfgs`, with the application RAM base.
pub open spec fn cfg_set_requests(cfgs: Seq<BleCfg>) -> Seq<SdRequest> {
    cfgs.map_values(|c: BleCfg| SdRequest::BleCfgSet { cfg: c, app_ram_base: spec_app_ram_base() })
}

proof fn lemma_run_from_cfg_stage(s: SoftdeviceSetup, rets: Seq<(u32, u32)>)
    requires
        s.outcome is None,
        1 <= s.stage <= enable_cfg_plan(s.config).len() + 1,
        rets.len() == enable_cfg_plan(s.config).len() + 2 - s.stage,
        forall|i: int| 0 <= i < rets.len() - 1 ==> spec_cfg_set_accepted(#[trigger] rets[i].0),
        rets[rets.len() - 1].0 == NRF_SUCCESS,
    ensures
        s.spec_run(rets).outcome == Some(
            spec_ble_enable_result(
                NRF_SUCCESS,
                rets[rets.len() - 1].1,
                spec_app_ram_base(),
                s.config,
            ),
        ),
        s.spec_issued(rets) == cfg_set_requests(
            enable_cfg_plan(s.config).subrange(s.stage - 1, enable_cfg_plan(s.config).len() as int),
        ) + seq![SdRequest::BleEnable { app_ram_base: spec_app_ram_base() }],
    decreases rets.len(),
{
    let plan = enable_cfg_plan(s.config);
    let n = plan.len() as int;
    lemma_enable_cfg_plan_len(s.config);
    let t = s.spec_after(rets[0].0, rets[0].1);
    if s.stage == n + 1 {
        assert(rets.len() == 1);
        assert(!t.awaiting_return());
        assert(t.spec_issued(rets.drop_first()) =~= Seq::<SdRequest>::empty());
        assert(cfg_set_requests(plan.subrange(n, n)) =~= Seq::<SdRequest>::empty());
        assert(s.spec_issued(rets) =~= seq![SdRequest::BleEnable { app_ram_base: spec_app_ram_base() }]);
    } else {
        assert(spec_cfg_set_accepted(rets[0].0));
        assert(t.stage == s.stage + 1 && t.outcome is None && t.config == s.config);
        let rest = rets.drop_first();
        assert forall|i: int| 0 <= i < rest.len() - 1 implies spec_cfg_set_accepted(
            #[trigger] rest[i].0,
        ) by {
            assert(rest[i] == rets[i + 1]);
        }
        lemma_run_from_cfg_stage(t, rest);
        assert(cfg_set_requests(plan.subrange(s.stage - 1, n)) =~= seq![
            SdRequest::BleCfgSet { cfg: plan[s.stage - 1], app_ram_base: spec_app_ram_base() },
        ] + cfg_set_requests(plan.subrange(t.stage - 1, n)));
    }
}

/// Enabling when every call is accepted: first `sd_softdevice_enable` with
/// the configured clock, then `sd_ble_cfg_set` for each configuration of
/// `enable_cfg_plan` in order, then `sd_ble_enable` with the application RAM
/// base; enabling succeeds, with the configured ATT MTU.
pub proof fn lemma_enable_all_accepted(s: SoftdeviceSetup, rets: Seq<(u32, u32)>)
    requires
        s.spec_stage() == 0,
        s.spec_outcome() is None,
        rets.len() == s.spec_plan().len() + 2,
        rets[0].0 == NRF_SUCCESS,
        forall|i: int| 1 <= i <= s.spec_plan().len() ==> spec_cfg_set_accepted(#[trigger] rets[i].0),
        rets[s.spec_plan().len() as int + 1].0 == NRF_SUCCESS,
    ensures
        s.spec_run(rets).spec_action() matches EnableAction::Finished(r) && spec_ble_enable_outcome(
            r,
            NRF_SUCCESS,
            rets[s.spec_plan().len() as int + 1].1,
            spec_app_ram_base(),
            s.spec_config(),
        ),
        s.spec_issued(rets) == seq![SdRequest::SoftdeviceEnable {
            clock: s.spec_config().clock,
            ant_license_key: ANT_LICENSE_KEY,
        }]
            + cfg_set_requests(s.spec_plan()) + seq![
            SdRequest::BleEnable { app_ram_base: spec_app_ram_base() },
        ],
{
    let plan = enable_cfg_plan(s.config);
    let t = s.spec_after(rets[0].0, rets[0].1);
    let rest = rets.drop_first();
    assert forall|i: int| 0 <= i < rest.len() - 1 implies spec_cfg_set_accepted(
        #[trigger] rest[i].0,
    ) by {
        assert(rest[i] == rets[i + 1]);
    }
    lemma_run_from_cfg_stage(t, rest);
    lemma_ble_enable_result(NRF_SUCCESS, rets[plan.len() as int + 1].1, spec_app_ram_base(), s.config);
    assert(plan.subrange(0, plan.len() as int) =~= plan);
    assert(s.spec_issued(rets) =~= seq![SdRequest::SoftdeviceEnable {
            clock: s.spec_config().clock,
            ant_license_key: ANT_LICENSE_KEY,
        }]
        + (cfg_set_requests(plan) + seq![SdRequest::BleEnable { app_ram_base: spec_app_ram_base() }]));
}


proof fn lemma_run_cfg_failure_from(s: SoftdeviceSetup, rets: Seq<(u32, u32)>, k: int)
    requires
        s.outcome is None,
        1 <= s.stage <= k <= enable_cfg_plan(s.config).len(),
        rets.len() > k - s.stage,
        forall|i: int| 0 <= i < k - s.stage ==> spec_cfg_set_accepted(#[trigger] rets[i].0),
        !spec_cfg_set_accepted(rets[k - s.stage].0),
    ensures
        s.spec_run(rets).outcome == Some(
            Err::<EnableReport, EnableError>(
                EnableError::CfgSet {
                    id: enable_cfg_plan(s.config)[k - 1].spec_id(),
                    err: spec_error_of(rets[k - s.stage].0),
                },
            ),
        ),
        s.spec_issued(rets) == cfg_set_requests(enable_cfg_plan(s.config).subrange(s.stage - 1, k)),
    decreases rets.len(),
{
    let plan = enable_cfg_plan(s.config);
    lemma_enable_cfg_plan_len(s.config);
    let t = s.spec_after(rets[0].0, rets[0].1);
    let rest = rets.drop_first();
    if s.stage == k {
        assert(!t.awaiting_return());
        assert(t.spec_run(rest) == t);
        assert(t.spec_issued(rest) =~= Seq::<SdRequest>::empty());
        assert(cfg_set_requests(plan.subrange(s.stage - 1, k)) =~= seq![
            SdRequest::BleCfgSet { cfg: plan[s.stage - 1], app_ram_base: spec_app_ram_base() },
        ]);
    } else {
        assert(spec_cfg_set_accepted(rets[0].0));
        assert(t.stage == s.stage + 1 && t.outcome is None && t.config == s.config);
        assert forall|i: int| 0 <= i < k - t.stage implies spec_cfg_set_accepted(
            #[trigger] rest[i].0,
        ) by {
            assert(rest[i] == rets[i + 1]);
        }
        assert(rest[k - t.stage] == rets[k - s.stage]);
        lemma_run_cfg_failure_from(t, rest, k);
        assert(cfg_set_requests(plan.subrange(s.stage - 1, k)) =~= seq![
            SdRequest::BleCfgSet { cfg: plan[s.stage - 1], app_ram_base: spec_app_ram_base() },
        ] + cfg_set_requests(plan.subrange(t.stage - 1, k)));
    }
}

/// Enabling when a configuration call fails with an error other than
/// `NoMem`: the configurations before it are set in order, no call is made
/// after it, and enabling fails with that configuration's id and error.
pub proof fn lemma_enable_stops_at_cfg_failure(s: SoftdeviceSetup, rets: Seq<(u32, u32)>, k: int)
    requires
        s.spec_stage() == 0,
        s.spec_outcome() is None,
        1 <= k <= s.spec_plan().len(),
        rets.len() > k,
        rets[0].0 == NRF_SUCCESS,
        forall|i: int| 1 <= i < k ==> spec_cfg_set_accepted(#[trigger] rets[i].0),
        !spec_cfg_set_accepted(rets[k].0),
    ensures
        s.spec_run(rets).spec_action() == EnableAction::Finished(
            Err::<EnableReport, EnableError>(
                EnableError::CfgSet { id: s.spec_plan()[k - 1].spec_id(), err: spec_error_of(rets[k].0) },
            ),
        ),
        s.spec_issued(rets) == seq![SdRequest::SoftdeviceEnable {
            clock: s.spec_config().clock,
            ant_license_key: ANT_LICENSE_KEY,
        }]
            + cfg_set_requests(s.spec_plan().take(k)),
{
    let plan = enable_cfg_plan(s.config);
    let t = s.spec_after(rets[0].0, rets[0].1);
    let rest = rets.drop_first();
    assert forall|i: int| 0 <= i < k - 1 implies spec_cfg_set_accepted(#[trigger] rest[i].0) by {
        assert(rest[i] == rets[i + 1]);
    }
    assert(rest[k - 1] == rets[k]);
    lemma_run_cfg_failure_from(t, rest, k);
    assert(plan.subrange(0, k) =~= plan.take(k));
}


impl Softdevice {
    /// Enable the softdevice: the returned setup asks for the supervisor calls
    /// one by one. Enabling fails (the caller panics) when the configuration
    /// needs more memory than reserved for the SoftDevice (the required RAM
    /// start is reported), when it needs more than the SoftDevice supports,
    /// or when a call fails otherwise.
    ///
    /// Enabling may happen once only: `guard` is the program's enable guard,
    /// and when it was claimed before, enabling is refused with
    /// `AlreadyEnabled` (the caller panics) and no call is asked for.
    pub fn enable(guard: &mut OnceGuard, config: &Config) -> (r: Result<SoftdeviceSetup, EnableError>)
        ensures
            final(guard).spec_claimed(),
            r is Err <==> old(guard).spec_claimed(),
            r matches Err(e) ==> e == EnableError::AlreadyEnabled,
            r matches Ok(s) ==> s.spec_config() == *config && s.spec_stage() == 0
                && s.spec_outcome() is None,
    {
        if !guard.claim() {
            return Err(EnableError::AlreadyEnabled);
        }
        let cfgs = enable_cfgs(config);
        proof {
            lemma_enable_cfg_plan_len(*config);
        }
        Ok(SoftdeviceSetup { config: *config, cfgs, stage: 0, outcome: None })
    }
}

impl SoftdeviceSetup {
    /// The enabled SoftDevice, once enabling is over: the SoftDevice with the
    /// reported ATT MTU on success, else the error.
    pub fn finish(self) -> (r: Result<Softdevice, EnableError>)
        requires
            self.spec_outcome() is Some,
        ensures
            self.spec_outcome() matches Some(Ok(rep)) ==> (r matches Ok(sd) && sd.spec_att_mtu()
                == rep.att_mtu && sd.spec_l2cap_rx_mps() == rep.l2cap_rx_mps),
            self.spec_outcome() matches Some(Err(e)) ==> r == Err::<Softdevice, EnableError>(e),
    {
        match self.outcome {
            Some(Ok(rep)) => Ok(Softdevice { att_mtu: rep.att_mtu, l2cap_rx_mps: rep.l2cap_rx_mps }),
            Some(Err(e)) => Err(e),
            None => Err(EnableError::AlreadyEnabled),
        }
    }
}

} // verus!
