use nrf_softdevice::fault::{
    classify_fault, fault_dump_address, fault_record, nvmc_program_len, nvmc_program_op, FaultKind, NvmcOp,
    NVMC_CONFIG, NVMC_ERASEPAGE, NRF_FAULT_ID_APP_MEMACC, NRF_FAULT_ID_SD_ASSERT,
    PANIC_FLASH_ADDR, PANIC_FLASH_MAGIC,
};

#[test]
fn fault_kinds() {
    assert_eq!(classify_fault(NRF_FAULT_ID_SD_ASSERT, 99), FaultKind::SdAssert);
    assert_eq!(classify_fault(NRF_FAULT_ID_APP_MEMACC, 0), FaultKind::RamAccessViolation);
    assert_eq!(
        classify_fault(NRF_FAULT_ID_APP_MEMACC, 3),
        FaultKind::PeripheralAccessViolation { pregion: 3 }
    );
    assert_eq!(classify_fault(0x2000, 5), FaultKind::Unknown { id: 0x2000, info: 5 });
}

#[test]
fn dump_addresses() {
    assert_eq!(fault_dump_address(0x2003_FF00, 0), 0x2003_FF00);
    assert_eq!(fault_dump_address(0x2003_FF00, 31), 0x2003_FF7C);
}

#[test]
fn record_layout() {
    let mut dump = [0u32; 32];
    for (i, w) in dump.iter_mut().enumerate() {
        *w = 100 + i as u32;
    }
    let r = fault_record(1, 0x1234, 0, 0x2003_FF00, 0x2003_0000, &dump);
    assert_eq!(r.len(), 38);
    assert_eq!(&r[..6], &[PANIC_FLASH_MAGIC, 1, 0x1234, 0, 0x2003_FF00, 0x2003_0000]);
    assert_eq!(&r[6..], &dump);
}

fn plan(record: &[u32]) -> Vec<NvmcOp> {
    (0..nvmc_program_len(record.len())).map(|k| nvmc_program_op(record, k)).collect()
}

#[test]
fn nvmc_plan() {
    let ops = plan(&[0xDEAD_BEEF, 7]);
    assert_eq!(
        ops,
        vec![
            NvmcOp::WaitReady,
            NvmcOp::Write { addr: NVMC_CONFIG, value: 2 },
            NvmcOp::WaitReady,
            NvmcOp::Write { addr: NVMC_ERASEPAGE, value: PANIC_FLASH_ADDR },
            NvmcOp::WaitReady,
            NvmcOp::Write { addr: NVMC_CONFIG, value: 1 },
            NvmcOp::WaitReady,
            NvmcOp::Write { addr: 0xB_0000, value: 0xDEAD_BEEF },
            NvmcOp::WaitReady,
            NvmcOp::Write { addr: 0xB_0004, value: 7 },
            NvmcOp::WaitReady,
            NvmcOp::Write { addr: NVMC_CONFIG, value: 0 },
            NvmcOp::WaitReady,
        ]
    );
    let full = plan(&fault_record(1, 2, 3, 4, 5, &[9; 32]));
    assert_eq!(full.len(), 2 * 38 + 9);
    assert_eq!(full[7 + 2 * 37], NvmcOp::Write { addr: 0xB_0000 + 4 * 37, value: 9 });
}
