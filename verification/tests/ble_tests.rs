use nrf_softdevice::ble::{
    get_address, get_address_result, route_ble_event, set_address, BleEventRoute, BleFeatures,
};
use nrf_softdevice::RawError;
use nrf_softdevice::softdevice::{BleAddress, EnableAction, SdRequest};

const CENTRAL: BleFeatures = BleFeatures { gatt_client: true, gatt_server: false, l2cap: false };
const SERVER: BleFeatures = BleFeatures { gatt_client: false, gatt_server: true, l2cap: true };

#[test]
fn routes_by_range() {
    assert_eq!(route_ble_event(0x01, 0, &CENTRAL), BleEventRoute::Common);
    assert_eq!(route_ble_event(0x0F, 0, &CENTRAL), BleEventRoute::Common);
    assert_eq!(route_ble_event(0x10, 0, &CENTRAL), BleEventRoute::Gap);
    assert_eq!(route_ble_event(0x2F, 0, &CENTRAL), BleEventRoute::Gap);
    assert_eq!(route_ble_event(0x30, 0, &CENTRAL), BleEventRoute::GattClient);
    assert_eq!(route_ble_event(0x30, 0, &SERVER), BleEventRoute::Ignored);
    assert_eq!(route_ble_event(0x50, 0, &SERVER), BleEventRoute::GattServer);
    assert_eq!(route_ble_event(0x70, 0, &SERVER), BleEventRoute::L2cap);
    assert_eq!(route_ble_event(0x70, 0, &CENTRAL), BleEventRoute::Ignored);
    assert_eq!(route_ble_event(0x00, 0, &SERVER), BleEventRoute::Ignored);
    assert_eq!(route_ble_event(0x90, 0, &SERVER), BleEventRoute::Ignored);
}

#[test]
fn central_answers_gatts_requests() {
    assert_eq!(
        route_ble_event(0x55, 9, &CENTRAL),
        BleEventRoute::Reply(SdRequest::GattsExchangeMtuReply { conn_handle: 9, server_rx_mtu: 23 })
    );
    assert_eq!(
        route_ble_event(0x52, 9, &CENTRAL),
        BleEventRoute::Reply(SdRequest::GattsSysAttrSetEmpty { conn_handle: 9, flags: 0 })
    );
    assert_eq!(route_ble_event(0x50, 9, &CENTRAL), BleEventRoute::Ignored);
    assert_eq!(route_ble_event(0x55, 9, &SERVER), BleEventRoute::GattServer);
}

fn enabled_softdevice() -> nrf_softdevice::Softdevice {
    let mut guard = nrf_softdevice::once::OnceGuard::new();
    let mut s = nrf_softdevice::Softdevice::enable(&mut guard, &nrf_softdevice::Config::default()).unwrap();
    s.on_return(0, 0);
    s.on_return(0, 0);
    s.on_return(0, 0x2000B788);
    assert!(matches!(s.action(), EnableAction::Finished(Ok(_))));
    s.finish().unwrap()
}

#[test]
fn address_requests() {
    let sd = enabled_softdevice();
    assert_eq!(get_address(&sd), SdRequest::GapAddrGet);
    let addr = BleAddress { addr_id_peer: false, addr_type: 1, addr: [1, 2, 3, 4, 5, 0xC6] };
    assert_eq!(set_address(&sd, &addr), SdRequest::GapAddrSet { addr });
}

#[test]
fn address_result() {
    let addr = BleAddress { addr_id_peer: false, addr_type: 1, addr: [6, 5, 4, 3, 2, 0xC1] };
    assert_eq!(get_address_result(0, addr), Ok(addr));
    assert_eq!(get_address_result(8, addr), Err(RawError::InvalidState));
}
