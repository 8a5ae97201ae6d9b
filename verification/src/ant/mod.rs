//! ANT+ on top of the SoftDevice: channels, stack enabling and events.
//!
//! Usage: enable the ANT stack with `ant_enable` after the SoftDevice is
//! enabled, configure and open channels with `AntChannel`, and receive data
//! through the registered event handler.
use vstd::prelude::*;

pub mod channel;
pub mod event;
pub mod request;

pub use channel::{AntChannel, AntChannelConfig, AntChannelSetup, SetupAction};
pub use event::{set_event_handler, AntEvent, AntEventDispatcher};
pub use request::{to_asm, AntRequest, ToAsm};

use crate::once::OnceGuard;

verus! {

/// ANT+ network number for standard ANT+ devices.
pub const ANTPLUS_NETWORK_NUM: u8 = 0;

/// Memory the ANT stack needs per channel.
pub const ANT_CHANNEL_SIZE: usize = 616;

/// Memory the ANT stack needs per encrypted channel, on top of the channel size.
pub const ANT_ENCRYPTED_CHANNEL_SIZE: usize = 64;

/// Fixed part of the ANT stack memory (events included).
pub const ANT_BASE_SIZE: usize = 1500;

/// Memory of the ANT burst queue.
pub const ANT_BURST_QUEUE_SIZE: usize = 256;

/// Size of the static memory block handed to the ANT stack.
pub const ANT_MEMORY_BLOCK_SIZE: usize = 12288;

/// Memory the ANT stack asks for with this many channels.
pub open spec fn spec_ant_required_memory(total_channels: u8, encrypted_channels: u8) -> int {
    total_channels * ANT_CHANNEL_SIZE + encrypted_channels * ANT_ENCRYPTED_CHANNEL_SIZE
        + ANT_BASE_SIZE + ANT_BURST_QUEUE_SIZE
}

/// Memory the ANT stack asks for: 616 bytes per channel, 64 more per
/// encrypted channel, a 1500 byte base and a 256 byte burst queue.
pub fn ant_required_memory(total_channels: u8, encrypted_channels: u8) -> (r: usize)
    ensures
        r == spec_ant_required_memory(total_channels, encrypted_channels),
{
    total_channels as usize * ANT_CHANNEL_SIZE + encrypted_channels as usize
        * ANT_ENCRYPTED_CHANNEL_SIZE + ANT_BASE_SIZE + ANT_BURST_QUEUE_SIZE
}

/// Enable the ANT stack with the given number of channels: the `sd_ant_enable`
/// call, with the default number of events and the required memory size
/// (taken modulo 2^16, as the 16-bit field holds it).
///
/// The ANT stack gets the program's one static memory block, so enabling may
/// happen once only: `guard` is the program's ANT enable guard, and when it
/// was claimed before, the result is `None` (the caller panics) and no call
/// is made.
pub fn ant_enable(guard: &mut OnceGuard, total_channels: u8, encrypted_channels: u8) -> (r: Option<
    AntRequest,
>)
    ensures
        final(guard).spec_claimed(),
        r is None <==> old(guard).spec_claimed(),
        r matches Some(req) ==> req == (AntRequest::Enable {
            total_channels,
            encrypted_channels,
            number_of_events: 0,
            memory_block_size: (spec_ant_required_memory(total_channels, encrypted_channels)
                % 0x10000) as u16,
        }),
{
    if !guard.claim() {
        return None;
    }
    let required = ant_required_memory(total_channels, encrypted_channels);
    Some(AntRequest::Enable {
        total_channels,
        encrypted_channels,
        number_of_events: 0,
        memory_block_size: (required % 0x10000) as u16,
    })
}

/// Set the ANT+ network key on the given network number.
pub fn set_network_key(network: u8, key: &[u8; 8]) -> (r: AntRequest)
    ensures
        r == (AntRequest::NetworkAddressSet { network, key: *key }),
{
    AntRequest::NetworkAddressSet { network, key: *key }
}

/// Configure what the ANT library includes in messages (RSSI, device id, ...).
pub fn set_lib_config(config: u8) -> (r: AntRequest)
    ensures
        r == (AntRequest::LibConfigSet { config }),
{
    AntRequest::LibConfigSet { config }
}

} // verus!
