use nrf_softdevice::boot_helpers::{
    approtect_disable_for_engd, pin_cfg_disconnect, pin_cfg_input_pulldown,
    pin_cfg_output_high_drive, pin_clear, pin_in_register, pin_read, pin_set, port_base,
    uarte0_disable_for_boot, RegWrite, UarteOp,
};

#[test]
fn port_bases() {
    assert_eq!(port_base(0), 0x5000_0000);
    assert_eq!(port_base(1), 0x5000_0300);
}

#[test]
fn pin_cnf_writes() {
    assert_eq!(pin_cfg_input_pulldown(1, 10), RegWrite { addr: 0x5000_0300 + 0x700 + 40, value: 4 });
    assert_eq!(pin_cfg_disconnect(1, 10), RegWrite { addr: 0x5000_0A28, value: 2 });
    assert_eq!(pin_cfg_output_high_drive(1, 1), RegWrite { addr: 0x5000_0A04, value: 0x303 });
    assert_eq!(pin_cfg_input_pulldown(0, 0), RegWrite { addr: 0x5000_0700, value: 4 });
}

#[test]
fn pin_level() {
    assert_eq!(pin_in_register(1), 0x5000_0810);
    assert!(pin_read(1, 10, 1 << 10));
    assert!(!pin_read(1, 10, !(1 << 10)));
    assert!(pin_read(0, 31, 0x8000_0000));
    assert!(!pin_read(0, 0, 0xFFFF_FFFE));
}

#[test]
fn pin_set_clear() {
    assert_eq!(pin_set(1, 1), RegWrite { addr: 0x5000_0808, value: 2 });
    assert_eq!(pin_clear(0, 31), RegWrite { addr: 0x5000_050C, value: 0x8000_0000 });
}

#[test]
fn approtect() {
    assert_eq!(approtect_disable_for_engd(), RegWrite { addr: 0x4000_0558, value: 0x5A });
}

fn run_teardown(mut reads: impl FnMut(usize) -> u32) -> Vec<UarteOp> {
    let mut t = uarte0_disable_for_boot();
    let mut ops = Vec::new();
    loop {
        let op = t.action();
        ops.push(op);
        match op {
            UarteOp::Read { addr } => t.advance(reads(addr)),
            UarteOp::Write { .. } => t.advance(0),
            UarteOp::Done => return ops,
        }
    }
}

const PSELS: [UarteOp; 4] = [
    UarteOp::Write { addr: 0x4000_2508, value: 0xFFFF_FFFF },
    UarteOp::Write { addr: 0x4000_250C, value: 0xFFFF_FFFF },
    UarteOp::Write { addr: 0x4000_2510, value: 0xFFFF_FFFF },
    UarteOp::Write { addr: 0x4000_2514, value: 0xFFFF_FFFF },
];

#[test]
fn teardown_when_disabled_only_disconnects() {
    let ops = run_teardown(|_| 0);
    let mut expected = vec![UarteOp::Read { addr: 0x4000_2500 }];
    expected.extend_from_slice(&PSELS);
    expected.push(UarteOp::Done);
    assert_eq!(ops, expected);
}

#[test]
fn teardown_when_enabled_stops_and_disables() {
    let ops = run_teardown(|addr| if addr == 0x4000_2500 { 8 } else { 1 });
    let mut expected = vec![
        UarteOp::Read { addr: 0x4000_2500 },
        UarteOp::Write { addr: 0x4000_2158, value: 0 },
        UarteOp::Write { addr: 0x4000_2114, value: 0 },
        UarteOp::Write { addr: 0x4000_200C, value: 1 },
        UarteOp::Read { addr: 0x4000_2158 },
        UarteOp::Write { addr: 0x4000_2004, value: 1 },
        UarteOp::Read { addr: 0x4000_2114 },
        UarteOp::Write { addr: 0x4000_2500, value: 0 },
    ];
    expected.extend_from_slice(&PSELS);
    expected.push(UarteOp::Done);
    assert_eq!(ops, expected);
}

#[test]
fn teardown_gives_up_after_spin_limit() {
    let ops = run_teardown(|addr| if addr == 0x4000_2500 { 8 } else { 0 });
    let tx_polls = ops.iter().filter(|o| **o == UarteOp::Read { addr: 0x4000_2158 }).count();
    let rx_polls = ops.iter().filter(|o| **o == UarteOp::Read { addr: 0x4000_2114 }).count();
    assert_eq!(tx_polls, 100_001);
    assert_eq!(rx_polls, 100_001);
    assert_eq!(&ops[ops.len() - 5..ops.len() - 1], &PSELS);
    assert_eq!(ops[ops.len() - 6], UarteOp::Write { addr: 0x4000_2500, value: 0 });
}

#[test]
fn teardown_keeps_polling_while_event_reads_zero() {
    let mut polls = 0;
    let ops = run_teardown(|addr| {
        if addr == 0x4000_2500 {
            8
        } else if addr == 0x4000_2158 {
            polls += 1;
            if polls < 4 { 0 } else { 1 }
        } else {
            1
        }
    });
    let tx_polls = ops.iter().filter(|o| **o == UarteOp::Read { addr: 0x4000_2158 }).count();
    assert_eq!(tx_polls, 4);
    assert_eq!(ops[4..8], [UarteOp::Read { addr: 0x4000_2158 }; 4]);
    assert_eq!(ops[8], UarteOp::Write { addr: 0x4000_2004, value: 1 });
}
