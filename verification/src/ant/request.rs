//! The ANT supervisor calls that the library's logic asks for, as plain values.
//!
//! The calls themselves are `svc` instructions; they are made by the code
//! that runs on the chip, which hands back the 32-bit return code.
use vstd::prelude::*;

verus! {

/// Turns a supervisor call argument into the register value it is passed in.
pub trait ToAsm: Sized {
    /// The register value of `self`.
    spec fn spec_to_asm(self) -> u32;

    fn to_asm(self) -> (r: u32)
        ensures
            r == self.spec_to_asm(),
    ;
}

impl ToAsm for u32 {
    open spec fn spec_to_asm(self) -> u32 {
        self
    }

    fn to_asm(self) -> (r: u32) {
        self
    }
}

impl ToAsm for u16 {
    open spec fn spec_to_asm(self) -> u32 {
        self as u32
    }

    fn to_asm(self) -> (r: u32) {
        self as u32
    }
}

impl ToAsm for u8 {
    open spec fn spec_to_asm(self) -> u32 {
        self as u32
    }

    fn to_asm(self) -> (r: u32) {
        self as u32
    }
}

/// The register value of a supervisor call argument (zero-extended).
pub fn to_asm<T: ToAsm>(t: T) -> (r: u32)
    ensures
        r == t.spec_to_asm(),
{
    t.to_asm()
}

/// One ANT supervisor call with its arguments.
///
/// Where the call takes a pointer, the request holds what the pointer is to
/// point at (a copied message, the key) or the size of the buffer to pass.
#[derive(Debug, Clone, Copy, PartialEq, Eq)]
pub enum AntRequest {
    /// `sd_ant_channel_assign`
    ChannelAssign { channel: u8, channel_type: u8, network: u8, ext_assign: u8 },
    /// `sd_ant_channel_unassign`
    ChannelUnassign { channel: u8 },
    /// `sd_ant_channel_open_with_offset`
    ChannelOpenWithOffset { channel: u8, offset: u16 },
    /// `sd_ant_channel_close`
    ChannelClose { channel: u8 },
    /// `sd_ant_channel_period_set`
    ChannelPeriodSet { channel: u8, period: u16 },
    /// `sd_ant_channel_id_set`
    ChannelIdSet { channel: u8, device_number: u16, device_type: u8, transmit_type: u8 },
    /// `sd_ant_search_waveform_set`
    SearchWaveformSet { channel: u8, waveform: u16 },
    /// `sd_ant_channel_search_timeout_set`
    ChannelSearchTimeoutSet { channel: u8, timeout: u8 },
    /// `sd_ant_search_channel_priority_set`
    SearchChannelPrioritySet { channel: u8, priority: u8 },
    /// `sd_ant_channel_low_priority_rx_search_timeout_set`
    LowPriorityRxSearchTimeoutSet { channel: u8, timeout: u8 },
    /// `sd_ant_active_search_sharing_cycles_set`
    ActiveSearchSharingCyclesSet { channel: u8, cycles: u8 },
    /// `sd_ant_channel_radio_freq_set`
    RadioFreqSet { channel: u8, freq: u8 },
    /// `sd_ant_channel_radio_tx_power_set`
    RadioTxPowerSet { channel: u8, tx_power: u8, custom_tx_power: u8 },
    /// `sd_ant_network_address_set`, with the 8-byte key.
    NetworkAddressSet { network: u8, key: [u8; 8] },
    /// `sd_ant_lib_config_set`
    LibConfigSet { config: u8 },
    /// `sd_ant_coex_config_get` into a caller buffer of `buffer_size` bytes.
    CoexConfigGet { channel: u8, buffer_size: u8 },
    /// `sd_ant_coex_config_set` from a caller buffer of `buffer_size` bytes.
    CoexConfigSet { channel: u8, buffer_size: u8 },
    /// `sd_ant_channel_status_get`; the status byte comes back beside the code.
    ChannelStatusGet { channel: u8 },
    /// `sd_ant_broadcast_message_tx`
    BroadcastMessageTx { channel: u8, size: u8, data: [u8; 8] },
    /// `sd_ant_acknowledge_message_tx`
    AcknowledgeMessageTx { channel: u8, size: u8, data: [u8; 8] },
    /// `sd_ant_enable` with an `ANT_ENABLE` block; the memory block itself is
    /// static storage owned by the caller.
    Enable {
        total_channels: u8,
        encrypted_channels: u8,
        number_of_events: u16,
        memory_block_size: u16,
    },
    /// `sd_ant_event_get`; channel, event code and message come back beside the code.
    EventGet,
}

} // verus!
