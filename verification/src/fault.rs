//! What the SoftDevice fault handler records and reports.
//!
//! On a fault the handler saves a record to flash at `PANIC_FLASH_ADDR`
//! through the NVMC (erase the page, then program word by word) and then
//! panics with a message that depends on the kind of fault.
use vstd::prelude::*;

verus! {

/// `NRF_FAULT_ID_SD_ASSERT`: an assertion inside the SoftDevice failed.
pub const NRF_FAULT_ID_SD_ASSERT: u32 = 0x0000_0001;

/// `NRF_FAULT_ID_APP_MEMACC`: the application accessed memory or
/// peripherals reserved to the SoftDevice.
pub const NRF_FAULT_ID_APP_MEMACC: u32 = 0x0000_1001;

/// Flash address of the fault record.
pub const PANIC_FLASH_ADDR: u32 = 0xB_0000;

/// First word of a fault record.
pub const PANIC_FLASH_MAGIC: u32 = 0xDEAD_BEEF;

/// NVMC `READY` register.
pub const NVMC_READY: u32 = 0x4001_E400;

/// NVMC `CONFIG` register.
pub const NVMC_CONFIG: u32 = 0x4001_E504;

/// NVMC `ERASEPAGE` register.
pub const NVMC_ERASEPAGE: u32 = 0x4001_E508;

/// NVMC `CONFIG` value: read only.
pub const NVMC_CONFIG_REN: u32 = 0;

/// NVMC `CONFIG` value: write enabled.
pub const NVMC_CONFIG_WEN: u32 = 1;

/// NVMC `CONFIG` value: erase enabled.
pub const NVMC_CONFIG_EEN: u32 = 2;

/// Number of stack words dumped from the main stack pointer.
pub const FAULT_DUMP_WORDS: usize = 32;

/// Number of header words of a fault record.
pub const FAULT_HEADER_WORDS: usize = 6;

/// The kind of a SoftDevice fault, which decides the panic message.
#[derive(Debug, Clone, Copy, PartialEq, Eq, Structural)]
pub enum FaultKind {
    /// An assertion inside the SoftDevice failed (most often: interrupts
    /// disabled for too long).
    SdAssert,
    /// The application accessed RAM reserved to the SoftDevice.
    RamAccessViolation,
    /// The application accessed registers of a peripheral reserved to the
    /// SoftDevice; `pregion` is the fault info.
    PeripheralAccessViolation { pregion: u32 },
    /// Any other fault.
    Unknown { id: u32, info: u32 },
}

/// The kind of the fault `id` with fault info `info`.
pub open spec fn spec_fault_kind(id: u32, info: u32) -> FaultKind {
    if id == NRF_FAULT_ID_SD_ASSERT {
        FaultKind::SdAssert
    } else if id == NRF_FAULT_ID_APP_MEMACC {
        if info == 0 {
            FaultKind::RamAccessViolation
        } else {
            FaultKind::PeripheralAccessViolation { pregion: info }
        }
    } else {
        FaultKind::Unknown { id, info }
    }
}

/// Classify a SoftDevice fault.
pub fn classify_fault(id: u32, info: u32) -> (k: FaultKind)
    ensures
        k == spec_fault_kind(id, info),
{
    if id == NRF_FAULT_ID_SD_ASSERT {
        FaultKind::SdAssert
    } else if id == NRF_FAULT_ID_APP_MEMACC {
        if info == 0 {
            FaultKind::RamAccessViolation
        } else {
            FaultKind::PeripheralAccessViolation { pregion: info }
        }
    } else {
        FaultKind::Unknown { id, info }
    }
}

/// Address of the `i`-th dumped stack word above the main stack pointer.
pub fn fault_dump_address(msp: u32, i: usize) -> (a: u32)
    requires
        i < FAULT_DUMP_WORDS,
        msp + 4 * i <= u32::MAX,
    ensures
        a == msp + 4 * i,
{
    msp + (i as u32) * 4
}

/// The fault record: magic, fault id, SoftDevice pc, fault info, main and
/// process stack pointers, then the 32 dumped stack words.
pub fn fault_record(id: u32, pc: u32, info: u32, msp: u32, psp: u32, dump: &[u32; 32]) -> (r: [u32; 38])
    ensures
        r@ == seq![PANIC_FLASH_MAGIC, id, pc, info, msp, psp] + dump@,
{
    let mut r = [0u32; 38];
    r[0] = PANIC_FLASH_MAGIC;
    r[1] = id;
    r[2] = pc;
    r[3] = info;
    r[4] = msp;
    r[5] = psp;
    let mut i: usize = 0;
    while i < 32
        invariant
            i <= 32,
            r@.len() == 38,
            r@.take(6) == seq![PANIC_FLASH_MAGIC, id, pc, info, msp, psp],
            forall|j: int| 0 <= j < i ==> r@[6 + j] == dump@[j],
        decreases 32 - i,
    {
        r[i + 6] = dump[i];
        i = i + 1;
    }
    assert(r@ =~= seq![PANIC_FLASH_MAGIC, id, pc, info, msp, psp] + dump@);
    r
}

/// One step of programming the flash through the NVMC.
#[derive(Debug, Clone, Copy, PartialEq, Eq, Structural)]
pub enum NvmcOp {
    /// Wait until the NVMC `READY` register reads nonzero.
    WaitReady,
    /// Write `value` to the word at `addr`.
    Write { addr: u32, value: u32 },
}

/// Writing `words` to consecutive flash words from `PANIC_FLASH_ADDR`, each
/// write followed by a wait for the NVMC.
pub open spec fn record_write_ops(words: Seq<u32>) -> Seq<NvmcOp> {
    Seq::new(
        2 * words.len(),
        |j: int|
            if j % 2 == 0 {
                NvmcOp::Write { addr: (PANIC_FLASH_ADDR + 4 * (j / 2)) as u32, value: words[j / 2] }
            } else {
                NvmcOp::WaitReady
            },
    )
}

/// Saving a record: wait, enable erasing, wait, erase the record's page,
/// wait, enable writing, wait, write the words one by one (waiting after
/// each), then make the flash read only again and wait.
pub open spec fn nvmc_program_ops(words: Seq<u32>) -> Seq<NvmcOp> {
    seq![
        NvmcOp::WaitReady,
        NvmcOp::Write { addr: NVMC_CONFIG, value: NVMC_CONFIG_EEN },
        NvmcOp::WaitReady,
        NvmcOp::Write { addr: NVMC_ERASEPAGE, value: PANIC_FLASH_ADDR },
        NvmcOp::WaitReady,
        NvmcOp::Write { addr: NVMC_CONFIG, value: NVMC_CONFIG_WEN },
        NvmcOp::WaitReady,
    ] + record_write_ops(words) + seq![
        NvmcOp::Write { addr: NVMC_CONFIG, value: NVMC_CONFIG_REN },
        NvmcOp::WaitReady,
    ]
}

/// Number of NVMC steps that save a record of `len` words.
pub fn nvmc_program_len(len: usize) -> (n: usize)
    requires
        len <= 1024,
    ensures
        n == 2 * len + 9,
{
    2 * len + 9
}

/// Step `k` of saving `record` at `PANIC_FLASH_ADDR` (see `nvmc_program_ops`).
pub fn nvmc_program_op(record: &[u32], k: usize) -> (op: NvmcOp)
    requires
        record@.len() <= 1024,
        k < 2 * record@.len() + 9,
    ensures
        op == nvmc_program_ops(record@)[k as int],
{
    let n = record.len();
    let ghost ops = nvmc_program_ops(record@);
    let ghost w = record_write_ops(record@);
    if k < 7 {
        if k == 1 {
            NvmcOp::Write { addr: NVMC_CONFIG, value: NVMC_CONFIG_EEN }
        } else if k == 3 {
            NvmcOp::Write { addr: NVMC_ERASEPAGE, value: PANIC_FLASH_ADDR }
        } else if k == 5 {
            NvmcOp::Write { addr: NVMC_CONFIG, value: NVMC_CONFIG_WEN }
        } else {
            NvmcOp::WaitReady
        }
    } else if k < 7 + 2 * n {
        let j = k - 7;
        assert(ops[k as int] == w[j as int]);
        if j % 2 == 0 {
            let i = j / 2;
            NvmcOp::Write { addr: PANIC_FLASH_ADDR + (i as u32) * 4, value: record[i] }
        } else {
            NvmcOp::WaitReady
        }
    } else if k == 7 + 2 * n {
        NvmcOp::Write { addr: NVMC_CONFIG, value: NVMC_CONFIG_REN }
    } else {
        NvmcOp::WaitReady
    }
}

} // verus!

verus! {

/// Saving a fault record: word `i` of the record is written to
/// `PANIC_FLASH_ADDR + 4 * i`, after the page was erased and writing
/// enabled, and every write is followed by a wait for the NVMC; the flash is
/// left read only at the end.
pub proof fn lemma_record_word_written(words: Seq<u32>, i: int)
    requires
        words.len() <= 1024,
        0 <= i < words.len(),
    ensures
        nvmc_program_ops(words).len() == 2 * words.len() + 9,
        nvmc_program_ops(words)[3] == (NvmcOp::Write { addr: NVMC_ERASEPAGE, value: PANIC_FLASH_ADDR }),
        nvmc_program_ops(words)[5] == (NvmcOp::Write { addr: NVMC_CONFIG, value: NVMC_CONFIG_WEN }),
        nvmc_program_ops(words)[7 + 2 * i] == (NvmcOp::Write {
            addr: (PANIC_FLASH_ADDR + 4 * i) as u32,
            value: words[i],
        }),
        nvmc_program_ops(words)[8 + 2 * i] == NvmcOp::WaitReady,
        nvmc_program_ops(words)[7 + 2 * words.len() as int] == (NvmcOp::Write {
            addr: NVMC_CONFIG,
            value: NVMC_CONFIG_REN,
        }),
{
    let ops = nvmc_program_ops(words);
    let w = record_write_ops(words);
    assert(ops[7 + 2 * i] == w[2 * i]);
    assert(ops[8 + 2 * i] == w[2 * i + 1]);
    assert((2 * i) / 2 == i);
    assert((2 * i + 1) / 2 == i);
}

} // verus!
