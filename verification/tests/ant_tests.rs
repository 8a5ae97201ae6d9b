use nrf_softdevice::ant::event::MESG_BUFFER_SIZE;
use nrf_softdevice::ant::{
    ant_enable, ant_required_memory, set_event_handler, set_lib_config, set_network_key, to_asm,
    AntChannel, AntChannelConfig, AntEvent, AntEventDispatcher, AntRequest, SetupAction,
    ANTPLUS_NETWORK_NUM, ANT_MEMORY_BLOCK_SIZE,
};
use nrf_softdevice::once::OnceGuard;
use nrf_softdevice::RawError;

fn custom_config() -> AntChannelConfig {
    AntChannelConfig {
        channel_type: 0x10,
        network: 1,
        ext_assign: 0x01,
        rf_freq: 66,
        device_number: 12345,
        device_type: 120,
        transmit_type: 5,
        period: 32280,
        search_timeout: 12,
        low_priority_timeout: 2,
    }
}

fn run_setup(num: u8, config: &AntChannelConfig, rets: &[u32]) -> (Vec<AntRequest>, Result<AntChannel, RawError>) {
    let mut setup = AntChannel::configure(num, config);
    let mut issued = Vec::new();
    let mut i = 0;
    loop {
        match setup.action() {
            SetupAction::Call(req) => {
                issued.push(req);
                setup.on_return(rets[i]);
                i += 1;
            }
            SetupAction::Finished(r) => return (issued, r),
        }
    }
}

#[test]
fn default_channel_config_values() {
    let c = AntChannelConfig::default();
    assert_eq!(c.channel_type, 0x00);
    assert_eq!(c.network, 0);
    assert_eq!(c.ext_assign, 0);
    assert_eq!(c.rf_freq, 57);
    assert_eq!(c.device_number, 0);
    assert_eq!(c.device_type, 0);
    assert_eq!(c.transmit_type, 0);
    assert_eq!(c.period, 8070);
    assert_eq!(c.search_timeout, 255);
    assert_eq!(c.low_priority_timeout, 255);
}

#[test]
fn configure_all_succeed_makes_the_six_calls_in_order() {
    let c = custom_config();
    let (issued, result) = run_setup(3, &c, &[0, 0, 0, 0, 0, 0]);
    assert_eq!(
        issued,
        vec![
            AntRequest::ChannelAssign { channel: 3, channel_type: 0x10, network: 1, ext_assign: 0x01 },
            AntRequest::RadioFreqSet { channel: 3, freq: 66 },
            AntRequest::ChannelIdSet { channel: 3, device_number: 12345, device_type: 120, transmit_type: 5 },
            AntRequest::ChannelPeriodSet { channel: 3, period: 32280 },
            AntRequest::ChannelSearchTimeoutSet { channel: 3, timeout: 12 },
            AntRequest::LowPriorityRxSearchTimeoutSet { channel: 3, timeout: 2 },
        ]
    );
    assert_eq!(result, Ok(AntChannel { num: 3 }));
    assert_eq!(result.unwrap().number(), 3);
}

#[test]
fn configure_stops_at_first_failure() {
    let c = AntChannelConfig::default();
    let (issued, result) = run_setup(0, &c, &[0, 0, 0x4015, 0, 0, 0]);
    assert_eq!(issued.len(), 3);
    assert_eq!(issued[2], AntRequest::ChannelIdSet { channel: 0, device_number: 0, device_type: 0, transmit_type: 0 });
    assert_eq!(result, Err(RawError::Other(0x4015)));

    let (issued, result) = run_setup(1, &c, &[7]);
    assert_eq!(issued, vec![AntRequest::ChannelAssign { channel: 1, channel_type: 0, network: 0, ext_assign: 0 }]);
    assert_eq!(result, Err(RawError::InvalidParam));

    let (issued, result) = run_setup(2, &c, &[0, 0, 0, 0, 0, 8]);
    assert_eq!(issued.len(), 6);
    assert_eq!(result, Err(RawError::InvalidState));
}

#[test]
fn channel_requests() {
    let ch = AntChannel { num: 5 };
    assert_eq!(ch.number(), 5);
    assert_eq!(ch.open(), AntRequest::ChannelOpenWithOffset { channel: 5, offset: 0 });
    assert_eq!(ch.close(), AntRequest::ChannelClose { channel: 5 });
    assert_eq!(ch.unassign(), AntRequest::ChannelUnassign { channel: 5 });
    assert_eq!(ch.status(), AntRequest::ChannelStatusGet { channel: 5 });
    assert_eq!(ch.set_search_waveform(97), AntRequest::SearchWaveformSet { channel: 5, waveform: 97 });
    assert_eq!(ch.set_search_priority(7), AntRequest::SearchChannelPrioritySet { channel: 5, priority: 7 });
    assert_eq!(
        ch.set_active_search_sharing_cycles(0),
        AntRequest::ActiveSearchSharingCyclesSet { channel: 5, cycles: 0 }
    );
    assert_eq!(
        ch.set_radio_tx_power(4, 0),
        AntRequest::RadioTxPowerSet { channel: 5, tx_power: 4, custom_tx_power: 0 }
    );
    let mut data = [1, 2, 3, 4, 5, 6, 7, 8];
    assert_eq!(ch.broadcast(&mut data), AntRequest::BroadcastMessageTx { channel: 5, size: 8, data: [1, 2, 3, 4, 5, 6, 7, 8] });
    assert_eq!(ch.acknowledge(&mut data), AntRequest::AcknowledgeMessageTx { channel: 5, size: 8, data: [1, 2, 3, 4, 5, 6, 7, 8] });
    assert_eq!(data, [1, 2, 3, 4, 5, 6, 7, 8]);
}

#[test]
fn coex_buffer_size_is_truncated_length() {
    let ch = AntChannel { num: 2 };
    let mut buf = [0u8; 4];
    assert_eq!(ch.coex_config_get(&mut buf), AntRequest::CoexConfigGet { channel: 2, buffer_size: 4 });
    assert_eq!(ch.coex_config_set(&mut buf), AntRequest::CoexConfigSet { channel: 2, buffer_size: 4 });
    let mut big = [0u8; 300];
    assert_eq!(ch.coex_config_get(&mut big), AntRequest::CoexConfigGet { channel: 2, buffer_size: 44 });
}

#[test]
fn status_result() {
    assert_eq!(AntChannel::status_result(0, 0x03), Ok(0x03));
    assert_eq!(AntChannel::status_result(0x4015, 0x03), Err(RawError::Other(0x4015)));
}

#[test]
fn required_memory_formula() {
    assert_eq!(ant_required_memory(0, 0), 1756);
    assert_eq!(ant_required_memory(1, 0), 2372);
    assert_eq!(ant_required_memory(15, 0), 10996);
    assert!(ant_required_memory(15, 0) <= ANT_MEMORY_BLOCK_SIZE);
    assert_eq!(ant_required_memory(8, 2), 8 * 616 + 2 * 64 + 1756);
    assert_eq!(ant_required_memory(255, 255), 175156);
}

#[test]
fn ant_enable_request() {
    let mut guard = OnceGuard::new();
    assert_eq!(
        ant_enable(&mut guard, 15, 0),
        Some(AntRequest::Enable { total_channels: 15, encrypted_channels: 0, number_of_events: 0, memory_block_size: 10996 })
    );
    // 175156 does not fit in 16 bits and wraps.
    let mut guard = OnceGuard::new();
    assert_eq!(
        ant_enable(&mut guard, 255, 255),
        Some(AntRequest::Enable { total_channels: 255, encrypted_channels: 255, number_of_events: 0, memory_block_size: (175156u32 % 65536) as u16 })
    );
}

#[test]
fn ant_enable_only_once() {
    let mut guard = OnceGuard::new();
    assert!(ant_enable(&mut guard, 8, 0).is_some());
    assert_eq!(ant_enable(&mut guard, 8, 0), None);
    assert_eq!(ant_enable(&mut guard, 1, 1), None);
}

#[test]
fn network_key_and_lib_config() {
    let key = [0xB9, 0xA5, 0x21, 0xFB, 0xBD, 0x72, 0xC3, 0x45];
    assert_eq!(
        set_network_key(ANTPLUS_NETWORK_NUM, &key),
        AntRequest::NetworkAddressSet { network: 0, key }
    );
    assert_eq!(set_lib_config(0xE0), AntRequest::LibConfigSet { config: 0xE0 });
}

#[test]
fn event_from_poll() {
    let msg = [7u8; MESG_BUFFER_SIZE];
    assert_eq!(
        AntEvent::from_event_get(0, 1, 0x80, msg),
        Some(AntEvent { channel: 1, event: 0x80, msg })
    );
    assert_eq!(AntEvent::from_event_get(0x4010, 1, 0x80, msg), None);
}

#[test]
fn dispatcher_gives_back_last_registered_handler() {
    let mut d: AntEventDispatcher<u32> = AntEventDispatcher::new();
    assert_eq!(d.dispatch_target(), None);
    set_event_handler(&mut d, 1);
    assert_eq!(d.dispatch_target(), Some(1));
    set_event_handler(&mut d, 2);
    assert_eq!(d.dispatch_target(), Some(2));
}

#[test]
fn to_asm_zero_extends() {
    assert_eq!(to_asm(0xFFu8), 0xFF);
    assert_eq!(to_asm(0xABCDu16), 0xABCD);
    assert_eq!(to_asm(0xDEAD_BEEFu32), 0xDEAD_BEEF);
}
