use nrf_softdevice::softdevice::{
    ble_enable_outcome, cfg_set_result, conn_param_update, enable_cfgs, get_app_ram_base,
    raw_sys_attr_get, reset_reason_take, sec_mode_no_access, set_ppcp, system_off, BleCfg,
    set_ppcp_result, ClockLfConfig, CommonVsUuidConfig, ConnSecMode, EnableAction, EnableError,
    EnableReport,
    GapConnConfig, GapConnParams, GattConnConfig, GattsAttrTabSizeConfig, GattsConnConfig, L2capConnConfig,
    SdRequest, ANT_LICENSE_KEY, BLE_COMMON_CFG_VS_UUID, BLE_CONN_CFG_GAP, BLE_CONN_CFG_GATT,
    BLE_GATTS_CFG_ATTR_TAB_SIZE,
};
use nrf_softdevice::once::OnceGuard;
use nrf_softdevice::{Config, RawError, Softdevice};

const BASE: u32 = 0x2000B788;

fn run_enable(config: &Config, rets: &[(u32, u32)]) -> (Vec<SdRequest>, Result<EnableReport, EnableError>) {
    let mut guard = OnceGuard::new();
    let mut s = Softdevice::enable(&mut guard, config).unwrap();
    let mut issued = Vec::new();
    let mut i = 0;
    loop {
        match s.action() {
            EnableAction::Call(req) => {
                issued.push(req);
                s.on_return(rets[i].0, rets[i].1);
                i += 1;
            }
            EnableAction::Finished(r) => return (issued, r),
        }
    }
}

fn rich_config() -> Config {
    Config {
        clock: Some(ClockLfConfig { source: 1, rc_ctiv: 0, rc_temp_ctiv: 0, accuracy: 7 }),
        conn_gap: Some(GapConnConfig { conn_count: 2, event_length: 24 }),
        conn_gatt: Some(GattConnConfig { att_mtu: 247 }),
        conn_gatts: Some(GattsConnConfig { hvn_tx_queue_size: 4 }),
        common_vs_uuid: Some(CommonVsUuidConfig { vs_uuid_count: 9 }),
        gatts_attr_tab_size: Some(GattsAttrTabSizeConfig { attr_tab_size: 2048 }),
        ..Config::default()
    }
}

#[test]
fn app_ram_base() {
    assert_eq!(get_app_ram_base(), 0x2000B788);
}

#[test]
fn default_config_is_all_none() {
    let c = Config::default();
    assert!(c.clock.is_none() && c.conn_gap.is_none() && c.conn_gatt.is_none());
    assert!(c.gap_device_name.is_none() && c.gatts_attr_tab_size.is_none());
}

#[test]
fn default_plan_sets_only_default_gap() {
    let cfgs = enable_cfgs(&Config::default());
    assert_eq!(
        cfgs,
        vec![BleCfg::ConnGap { conn_cfg_tag: 1, cfg: GapConnConfig { conn_count: 1, event_length: 3 } }]
    );
    assert_eq!(cfgs[0].id(), BLE_CONN_CFG_GAP);
}

#[test]
fn plan_order_follows_the_fields() {
    let cfgs = enable_cfgs(&rich_config());
    assert_eq!(
        cfgs,
        vec![
            BleCfg::ConnGap { conn_cfg_tag: 1, cfg: GapConnConfig { conn_count: 2, event_length: 24 } },
            BleCfg::ConnGatt { conn_cfg_tag: 1, cfg: GattConnConfig { att_mtu: 247 } },
            BleCfg::ConnGatts { conn_cfg_tag: 1, cfg: GattsConnConfig { hvn_tx_queue_size: 4 } },
            BleCfg::CommonVsUuid { cfg: CommonVsUuidConfig { vs_uuid_count: 9 } },
            BleCfg::GattsAttrTabSize { cfg: GattsAttrTabSizeConfig { attr_tab_size: 2048 } },
        ]
    );
    let ids: Vec<u32> = cfgs.iter().map(|c| c.id()).collect();
    assert_eq!(ids, vec![BLE_CONN_CFG_GAP, BLE_CONN_CFG_GATT, 0x22, BLE_COMMON_CFG_VS_UUID, BLE_GATTS_CFG_ATTR_TAB_SIZE]);
}

#[test]
fn enable_success_path() {
    let c = rich_config();
    let rets = [(0, 0), (0, 0), (0, 0), (4, 0), (0, 0), (0, 0), (0, BASE)];
    let (issued, r) = run_enable(&c, &rets);
    assert_eq!(issued.len(), 7);
    assert_eq!(issued[0], SdRequest::SoftdeviceEnable { clock: c.clock, ant_license_key: ANT_LICENSE_KEY });
    assert_eq!(
        issued[1],
        SdRequest::BleCfgSet {
            cfg: BleCfg::ConnGap { conn_cfg_tag: 1, cfg: GapConnConfig { conn_count: 2, event_length: 24 } },
            app_ram_base: BASE
        }
    );
    assert_eq!(issued[6], SdRequest::BleEnable { app_ram_base: BASE });
    let e = r.unwrap();
    assert_eq!(e.att_mtu, 247);
    assert_eq!(e.spare_ram_app_ram_base, None);
}

#[test]
fn enable_default_mtu_and_spare_ram() {
    let (_, r) = run_enable(&Config::default(), &[(0, 0), (0, 0), (0, 0x2000_8000)]);
    let e = r.unwrap();
    assert_eq!(e.att_mtu, 23);
    assert_eq!(e.spare_ram_app_ram_base, Some(0x2000_8000));
}

#[test]
fn enable_softdevice_enable_failure() {
    let (issued, r) = run_enable(&Config::default(), &[(8, 0)]);
    assert_eq!(issued, vec![SdRequest::SoftdeviceEnable { clock: None, ant_license_key: ANT_LICENSE_KEY }]);
    assert_eq!(r, Err(EnableError::SoftdeviceEnable(RawError::InvalidState)));
}

#[test]
fn enable_cfg_failure_stops() {
    let c = rich_config();
    let (issued, r) = run_enable(&c, &[(0, 0), (0, 0), (7, 0)]);
    assert_eq!(issued.len(), 3);
    assert_eq!(r, Err(EnableError::CfgSet { id: BLE_CONN_CFG_GATT, err: RawError::InvalidParam }));
}

#[test]
fn enable_ram_errors() {
    let (_, r) = run_enable(&Config::default(), &[(0, 0), (0, 0), (4, 0x2000_C000)]);
    assert_eq!(r, Err(EnableError::TooLittleRam { wanted_app_ram_base: 0x2000_C000 }));
    let (_, r) = run_enable(&Config::default(), &[(0, 0), (0, 0), (4, BASE)]);
    assert_eq!(r, Err(EnableError::TooHighRamRequirements));
    let (_, r) = run_enable(&Config::default(), &[(0, 0), (0, 0), (3, BASE)]);
    assert_eq!(r, Err(EnableError::BleEnable(RawError::Internal)));
}

#[test]
fn ble_enable_outcome_direct() {
    let c = Config::default();
    assert_eq!(ble_enable_outcome(4, 5, 10, &c), Err(EnableError::TooHighRamRequirements));
    assert_eq!(ble_enable_outcome(4, 11, 10, &c), Err(EnableError::TooLittleRam { wanted_app_ram_base: 11 }));
    assert_eq!(ble_enable_outcome(0, 10, 10, &c).unwrap().spare_ram_app_ram_base, None);
}

#[test]
fn cfg_set_tolerates_no_mem() {
    assert_eq!(cfg_set_result(0), Ok(()));
    assert_eq!(cfg_set_result(4), Ok(()));
    assert_eq!(cfg_set_result(7), Err(RawError::InvalidParam));
}

#[test]
fn no_access_sec_mode() {
    let m = sec_mode_no_access();
    assert_eq!(m, ConnSecMode { sm: 0, lv: 0 });
    assert_eq!(m.bitfield(), 0);
    assert_eq!(ConnSecMode { sm: 1, lv: 1 }.bitfield(), 0x11);
}

#[test]
fn small_requests() {
    let p = GapConnParams { min_conn_interval: 6, max_conn_interval: 12, slave_latency: 0, conn_sup_timeout: 400 };
    assert_eq!(system_off(), SdRequest::PowerSystemOff);
    assert_eq!(set_ppcp(&p), SdRequest::GapPpcpSet { params: p });
    assert_eq!(conn_param_update(7, &p), SdRequest::GapConnParamUpdate { conn_handle: 7, params: p });
    assert_eq!(
        reset_reason_take(),
        [SdRequest::PowerResetReasonGet, SdRequest::PowerResetReasonClr { mask: 0xFFFF_FFFF }]
    );
    let mut buf = [0u8; 16];
    let mut len: u16 = 16;
    assert_eq!(
        raw_sys_attr_get(3, &mut buf, &mut len),
        SdRequest::GattsSysAttrGet { conn_handle: 3, len: 16, flags: 0 }
    );
    assert_eq!(len, 16);
}

#[test]
fn enable_only_once() {
    let mut guard = OnceGuard::new();
    assert!(Softdevice::enable(&mut guard, &Config::default()).is_ok());
    assert!(matches!(Softdevice::enable(&mut guard, &Config::default()), Err(EnableError::AlreadyEnabled)));
    assert!(matches!(Softdevice::enable(&mut guard, &rich_config()), Err(EnableError::AlreadyEnabled)));
}

#[test]
fn finish_hands_out_the_softdevice() {
    let mut guard = OnceGuard::new();
    let mut s = Softdevice::enable(&mut guard, &rich_config()).unwrap();
    for ret in [(0, 0), (0, 0), (0, 0), (0, 0), (0, 0), (0, 0), (0, BASE)] {
        s.on_return(ret.0, ret.1);
    }
    let sd = s.finish().unwrap();
    assert_eq!(sd.att_mtu(), 247);

    let mut guard = OnceGuard::new();
    let mut s = Softdevice::enable(&mut guard, &Config::default()).unwrap();
    s.on_return(2, 0);
    assert!(matches!(s.finish(), Err(EnableError::SoftdeviceEnable(RawError::SoftdeviceNotEnabled))));
}

#[test]
fn ppcp_must_succeed() {
    assert_eq!(set_ppcp_result(0), Ok(()));
    assert_eq!(set_ppcp_result(7), Err(RawError::InvalidParam));
    assert_eq!(set_ppcp_result(7).unwrap_err().code(), 7);
}

#[test]
fn l2cap_config_is_set_after_gatts_and_gives_rx_mps() {
    let c = Config {
        conn_gatts: Some(GattsConnConfig { hvn_tx_queue_size: 2 }),
        conn_l2cap: Some(L2capConnConfig { rx_mps: 100, tx_mps: 100, rx_queue_size: 2, tx_queue_size: 2, ch_count: 1 }),
        common_vs_uuid: Some(CommonVsUuidConfig { vs_uuid_count: 1 }),
        ..Config::default()
    };
    let cfgs = enable_cfgs(&c);
    let ids: Vec<u32> = cfgs.iter().map(|c| c.id()).collect();
    assert_eq!(ids, vec![0x20, 0x22, 0x24, 0x01]);
    let (_, r) = run_enable(&c, &[(0, 0), (0, 0), (0, 0), (0, 0), (0, 0), (0, BASE)]);
    assert_eq!(r.unwrap().l2cap_rx_mps, 100);
    let (_, r) = run_enable(&Config::default(), &[(0, 0), (0, 0), (0, BASE)]);
    assert_eq!(r.unwrap().l2cap_rx_mps, 23);
}

#[test]
fn enable_passes_the_ant_license_key() {
    assert_eq!(&ANT_LICENSE_KEY, b"49a5-b6af-88da-b010-fb67-aee8-0778-9f58\0");
    let mut guard = OnceGuard::new();
    let s = Softdevice::enable(&mut guard, &Config::default()).unwrap();
    match s.action() {
        EnableAction::Call(SdRequest::SoftdeviceEnable { clock, ant_license_key }) => {
            assert_eq!(clock, None);
            assert_eq!(ant_license_key, ANT_LICENSE_KEY);
        }
        other => panic!("unexpected {:?}", other),
    }
}
