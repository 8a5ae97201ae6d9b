//! Routing of BLE events.
use vstd::prelude::*;

use crate::error::{spec_error_of, RawError, NRF_SUCCESS};
use crate::softdevice::{BleAddress, SdRequest, Softdevice, BLE_GATT_ATT_MTU_DEFAULT};

verus! {

/// First id of the common BLE events.
pub const BLE_EVT_BASE: u16 = 0x01;

/// Last id of the common BLE events.
pub const BLE_EVT_LAST: u16 = 0x0F;

/// First id of the GAP events.
pub const BLE_GAP_EVT_BASE: u16 = 0x10;

/// Last id of the GAP events.
pub const BLE_GAP_EVT_LAST: u16 = 0x2F;

/// First id of the GATT client events.
pub const BLE_GATTC_EVT_BASE: u16 = 0x30;

/// Last id of the GATT client events.
pub const BLE_GATTC_EVT_LAST: u16 = 0x4F;

/// First id of the GATT server events.
pub const BLE_GATTS_EVT_BASE: u16 = 0x50;

/// Last id of the GATT server events.
pub const BLE_GATTS_EVT_LAST: u16 = 0x6F;

/// First id of the L2CAP events.
pub const BLE_L2CAP_EVT_BASE: u16 = 0x70;

/// Last id of the L2CAP events.
pub const BLE_L2CAP_EVT_LAST: u16 = 0x8F;

/// `BLE_GATTS_EVT_SYS_ATTR_MISSING`
pub const BLE_GATTS_EVT_SYS_ATTR_MISSING: u16 = 0x52;

/// `BLE_GATTS_EVT_EXCHANGE_MTU_REQUEST`
pub const BLE_GATTS_EVT_EXCHANGE_MTU_REQUEST: u16 = 0x55;

/// Which optional BLE parts the library is built with.
#[derive(Debug, Clone, Copy, PartialEq, Eq, Structural)]
pub struct BleFeatures {
    pub gatt_client: bool,
    pub gatt_server: bool,
    pub l2cap: bool,
}

/// Where a BLE event goes.
#[derive(Debug, Clone, Copy, PartialEq, Eq)]
pub enum BleEventRoute {
    /// The common event handler.
    Common,
    /// The GAP event handler.
    Gap,
    /// The GATT client event handler.
    GattClient,
    /// The GATT server event handler.
    GattServer,
    /// The L2CAP event handler.
    L2cap,
    /// Without a GATT server: answered directly with this call (an MTU
    /// exchange reply, or empty system attributes); its error is only logged.
    Reply(SdRequest),
    /// Not handled.
    Ignored,
}

/// Where the event `evt_id` of connection `conn_handle` goes: by id range to
/// the common, GAP, GATT client (when built), GATT server (when built) or
/// L2CAP (when built) handler; without a GATT server, an MTU exchange request
/// is answered with the default ATT MTU (23) and missing system attributes
/// are set empty; anything else is ignored.
pub open spec fn spec_route_ble_event(evt_id: u16, conn_handle: u16, f: BleFeatures) -> BleEventRoute {
    if BLE_EVT_BASE <= evt_id <= BLE_EVT_LAST {
        BleEventRoute::Common
    } else if BLE_GAP_EVT_BASE <= evt_id <= BLE_GAP_EVT_LAST {
        BleEventRoute::Gap
    } else if f.gatt_client && BLE_GATTC_EVT_BASE <= evt_id <= BLE_GATTC_EVT_LAST {
        BleEventRoute::GattClient
    } else if f.gatt_server && BLE_GATTS_EVT_BASE <= evt_id <= BLE_GATTS_EVT_LAST {
        BleEventRoute::GattServer
    } else if f.l2cap && BLE_L2CAP_EVT_BASE <= evt_id <= BLE_L2CAP_EVT_LAST {
        BleEventRoute::L2cap
    } else if !f.gatt_server && evt_id == BLE_GATTS_EVT_EXCHANGE_MTU_REQUEST {
        BleEventRoute::Reply(
            SdRequest::GattsExchangeMtuReply { conn_handle, server_rx_mtu: BLE_GATT_ATT_MTU_DEFAULT },
        )
    } else if !f.gatt_server && evt_id == BLE_GATTS_EVT_SYS_ATTR_MISSING {
        BleEventRoute::Reply(SdRequest::GattsSysAttrSetEmpty { conn_handle, flags: 0 })
    } else {
        BleEventRoute::Ignored
    }
}

/// Route a BLE event (see `spec_route_ble_event`).
pub fn route_ble_event(evt_id: u16, conn_handle: u16, features: &BleFeatures) -> (r: BleEventRoute)
    ensures
        r == spec_route_ble_event(evt_id, conn_handle, *features),
{
    if BLE_EVT_BASE <= evt_id && evt_id <= BLE_EVT_LAST {
        BleEventRoute::Common
    } else if BLE_GAP_EVT_BASE <= evt_id && evt_id <= BLE_GAP_EVT_LAST {
        BleEventRoute::Gap
    } else if features.gatt_client && BLE_GATTC_EVT_BASE <= evt_id && evt_id <= BLE_GATTC_EVT_LAST {
        BleEventRoute::GattClient
    } else if features.gatt_server && BLE_GATTS_EVT_BASE <= evt_id && evt_id <= BLE_GATTS_EVT_LAST {
        BleEventRoute::GattServer
    } else if features.l2cap && BLE_L2CAP_EVT_BASE <= evt_id && evt_id <= BLE_L2CAP_EVT_LAST {
        BleEventRoute::L2cap
    } else if !features.gatt_server && evt_id == BLE_GATTS_EVT_EXCHANGE_MTU_REQUEST {
        BleEventRoute::Reply(
            SdRequest::GattsExchangeMtuReply { conn_handle, server_rx_mtu: BLE_GATT_ATT_MTU_DEFAULT },
        )
    } else if !features.gatt_server && evt_id == BLE_GATTS_EVT_SYS_ATTR_MISSING {
        BleEventRoute::Reply(SdRequest::GattsSysAttrSetEmpty { conn_handle, flags: 0 })
    } else {
        BleEventRoute::Ignored
    }
}

/// Read the device address; the call must succeed.
pub fn get_address(_sd: &Softdevice) -> (r: SdRequest)
    ensures
        r == SdRequest::GapAddrGet,
{
    SdRequest::GapAddrGet
}

/// The device address read by a call that returned `ret` and wrote `addr`:
/// the address when the call succeeded, else the error (on which the caller
/// panics).
pub fn get_address_result(ret: u32, addr: BleAddress) -> (r: Result<BleAddress, RawError>)
    ensures
        ret == NRF_SUCCESS ==> r == Ok::<BleAddress, RawError>(addr),
        ret != NRF_SUCCESS ==> r == Err::<BleAddress, RawError>(spec_error_of(ret)),
{
    match RawError::convert(ret) {
        Ok(()) => Ok(addr),
        Err(e) => Err(e),
    }
}

/// Set the device address; the call must succeed.
pub fn set_address(_sd: &Softdevice, addr: &BleAddress) -> (r: SdRequest)
    ensures
        r == (SdRequest::GapAddrSet { addr: *addr }),
{
    SdRequest::GapAddrSet { addr: *addr }
}

/// The id ranges do not overlap: every event id goes to at most one handler,
/// and the handler of an id in a range is that range's, when it is built.
pub proof fn lemma_route_by_range(evt_id: u16, conn_handle: u16, f: BleFeatures)
    ensures
        BLE_GATTS_EVT_BASE <= evt_id <= BLE_GATTS_EVT_LAST && f.gatt_server
            ==> spec_route_ble_event(evt_id, conn_handle, f) == BleEventRoute::GattServer,
        BLE_GATTC_EVT_BASE <= evt_id <= BLE_GATTC_EVT_LAST && f.gatt_client
            ==> spec_route_ble_event(evt_id, conn_handle, f) == BleEventRoute::GattClient,
        BLE_L2CAP_EVT_BASE <= evt_id <= BLE_L2CAP_EVT_LAST && f.l2cap
            ==> spec_route_ble_event(evt_id, conn_handle, f) == BleEventRoute::L2cap,
        evt_id > BLE_L2CAP_EVT_LAST || evt_id == 0 ==> spec_route_ble_event(evt_id, conn_handle, f)
            == BleEventRoute::Ignored,
{
}

} // verus!
