//! ANT channels: configuration, the setup sequence and the per-channel calls.
use vstd::prelude::*;

use super::request::AntRequest;
use crate::error::{spec_error_of, RawError, NRF_SUCCESS};

verus! {

/// ANT channel configuration.
#[derive(Debug, Clone, Copy, PartialEq, Eq, Structural)]
pub struct AntChannelConfig {
    pub channel_type: u8,
    pub network: u8,
    pub ext_assign: u8,
    pub rf_freq: u8,
    pub device_number: u16,
    pub device_type: u8,
    pub transmit_type: u8,
    pub period: u16,
    pub search_timeout: u8,
    pub low_priority_timeout: u8,
}

/// The default configuration: a slave (receive) channel on network 0 at
/// 2457 MHz (ANT+), wildcard device id, period 8070 (about 4 Hz) and
/// infinite search timeouts.
pub open spec fn spec_default_channel_config() -> AntChannelConfig {
    AntChannelConfig {
        channel_type: 0x00,
        network: 0,
        ext_assign: 0,
        rf_freq: 57,
        device_number: 0,
        device_type: 0,
        transmit_type: 0,
        period: 8070,
        search_timeout: 255,
        low_priority_timeout: 255,
    }
}

impl Default for AntChannelConfig {
    fn default() -> (r: Self)
        ensures
            r == spec_default_channel_config(),
    {
        AntChannelConfig {
            channel_type: 0x00,
            network: 0,
            ext_assign: 0,
            rf_freq: 57,
            device_number: 0,
            device_type: 0,
            transmit_type: 0,
            period: 8070,
            search_timeout: 255,
            low_priority_timeout: 255,
        }
    }
}

/// A configured ANT channel.
#[derive(Debug, Clone, Copy, PartialEq, Eq, Structural)]
pub struct AntChannel {
    pub num: u8,
}

/// The supervisor calls that configure a channel, in the order they are made:
/// assign (type, network, extended assignment), RF frequency, channel id,
/// message period, search timeout, low priority search timeout.
pub open spec fn configure_plan(channel: u8, c: AntChannelConfig) -> Seq<AntRequest> {
    seq![
        AntRequest::ChannelAssign {
            channel,
            channel_type: c.channel_type,
            network: c.network,
            ext_assign: c.ext_assign,
        },
        AntRequest::RadioFreqSet { channel, freq: c.rf_freq },
        AntRequest::ChannelIdSet {
            channel,
            device_number: c.device_number,
            device_type: c.device_type,
            transmit_type: c.transmit_type,
        },
        AntRequest::ChannelPeriodSet { channel, period: c.period },
        AntRequest::ChannelSearchTimeoutSet { channel, timeout: c.search_timeout },
        AntRequest::LowPriorityRxSearchTimeoutSet { channel, timeout: c.low_priority_timeout },
    ]
}

/// Number of supervisor calls in the configuration sequence.
pub const CONFIGURE_STEPS: u8 = 6;

/// What a channel setup asks for next.
#[derive(Debug, Clone, Copy, PartialEq, Eq)]
pub enum SetupAction {
    /// Make this call and hand its return code to `on_return`.
    Call(AntRequest),
    /// The setup is over, with this result.
    Finished(Result<AntChannel, RawError>),
}

/// The configuration of one channel in progress: the calls of
/// `configure_plan` are made one by one, and the first one that fails ends
/// the setup with its error.
pub struct AntChannelSetup {
    channel: u8,
    config: AntChannelConfig,
    done: u8,
    failure: Option<RawError>,
}

impl AntChannelSetup {
    #[verifier::type_invariant]
    spec fn inv(self) -> bool {
        &&& self.done <= CONFIGURE_STEPS
        &&& self.failure matches Some(e) ==> self.done < CONFIGURE_STEPS && e.is_canonical()
    }

    /// The channel number being configured.
    pub closed spec fn spec_channel(self) -> u8 {
        self.channel
    }

    /// The configuration being applied.
    pub closed spec fn spec_config(self) -> AntChannelConfig {
        self.config
    }

    /// How many calls of the plan have succeeded.
    pub closed spec fn spec_done(self) -> nat {
        self.done as nat
    }

    /// The error that ended the setup, if one did.
    pub closed spec fn spec_failure(self) -> Option<RawError> {
        self.failure
    }

    /// The next action of a setup in this state.
    pub open spec fn spec_action(self) -> SetupAction {
        match self.spec_failure() {
            Some(e) => SetupAction::Finished(Err(e)),
            None => if self.spec_done() >= CONFIGURE_STEPS {
                SetupAction::Finished(Ok(AntChannel { num: self.spec_channel() }))
            } else {
                SetupAction::Call(
                    configure_plan(self.spec_channel(), self.spec_config())[self.spec_done() as int],
                )
            },
        }
    }

    /// Whether the setup waits for the return code of a call.
    pub open spec fn awaiting_return(self) -> bool {
        self.spec_action() is Call
    }

    /// The state after the pending call returned `ret`.
    pub closed spec fn spec_after(self, ret: u32) -> Self {
        if ret == NRF_SUCCESS {
            AntChannelSetup { done: (self.done + 1) as u8, ..self }
        } else {
            AntChannelSetup { failure: Some(spec_error_of(ret)), ..self }
        }
    }

    /// The state after the calls returned `rets` in turn; codes that come
    /// after the setup is finished are not consumed.
    pub open spec fn spec_run(self, rets: Seq<u32>) -> Self
        decreases rets.len(),
    {
        if rets.len() == 0 || !self.awaiting_return() {
            self
        } else {
            self.spec_after(rets[0]).spec_run(rets.drop_first())
        }
    }

    /// The calls that are made while the calls return `rets` in turn.
    pub open spec fn spec_issued(self, rets: Seq<u32>) -> Seq<AntRequest>
        decreases rets.len(),
    {
        if rets.len() == 0 || !self.awaiting_return() {
            Seq::empty()
        } else {
            seq![self.spec_action()->Call_0] + self.spec_after(rets[0]).spec_issued(rets.drop_first())
        }
    }

    fn plan_request(&self) -> (r: AntRequest)
        requires
            self.done < CONFIGURE_STEPS,
        ensures
            r == configure_plan(self.channel, self.config)[self.done as int],
    {
        let ch = self.channel;
        let c = &self.config;
        if self.done == 0 {
            AntRequest::ChannelAssign {
                channel: ch,
                channel_type: c.channel_type,
                network: c.network,
                ext_assign: c.ext_assign,
            }
        } else if self.done == 1 {
            AntRequest::RadioFreqSet { channel: ch, freq: c.rf_freq }
        } else if self.done == 2 {
            AntRequest::ChannelIdSet {
                channel: ch,
                device_number: c.device_number,
                device_type: c.device_type,
                transmit_type: c.transmit_type,
            }
        } else if self.done == 3 {
            AntRequest::ChannelPeriodSet { channel: ch, period: c.period }
        } else if self.done == 4 {
            AntRequest::ChannelSearchTimeoutSet { channel: ch, timeout: c.search_timeout }
        } else {
            AntRequest::LowPriorityRxSearchTimeoutSet {
                channel: ch,
                timeout: c.low_priority_timeout,
            }
        }
    }

    /// What to do next: make the next call of the plan, or report the result.
    pub fn action(&self) -> (r: SetupAction)
        ensures
            r == self.spec_action(),
    {
        proof {
            use_type_invariant(self);
        }
        match self.failure {
            Some(e) => SetupAction::Finished(Err(e)),
            None => if self.done >= CONFIGURE_STEPS {
                SetupAction::Finished(Ok(AntChannel { num: self.channel }))
            } else {
                SetupAction::Call(self.plan_request())
            },
        }
    }

    /// Records the return code of the call that `action` asked for.
    pub fn on_return(&mut self, ret: u32)
        requires
            old(self).awaiting_return(),
        ensures
            *final(self) == old(self).spec_after(ret),
            final(self).spec_channel() == old(self).spec_channel(),
            final(self).spec_config() == old(self).spec_config(),
            ret == NRF_SUCCESS ==> final(self).spec_done() == old(self).spec_done() + 1
                && final(self).spec_failure() is None,
            ret != NRF_SUCCESS ==> final(self).spec_done() == old(self).spec_done()
                && final(self).spec_failure() == Some(spec_error_of(ret)),
    {
        proof {
            use_type_invariant(&*self);
        }
        if ret == NRF_SUCCESS {
            self.done = self.done + 1;
        } else {
            self.failure = Some(RawError::from_code(ret));
        }
    }
}

proof fn lemma_run_all_succeed(s: AntChannelSetup, rets: Seq<u32>)
    requires
        s.failure is None,
        s.done <= CONFIGURE_STEPS,
        rets.len() == CONFIGURE_STEPS - s.done,
        forall|i: int| 0 <= i < rets.len() ==> rets[i] == NRF_SUCCESS,
    ensures
        s.spec_run(rets).done == CONFIGURE_STEPS,
        s.spec_run(rets).failure is None,
        s.spec_run(rets).channel == s.channel,
        s.spec_run(rets).config == s.config,
        s.spec_issued(rets) == configure_plan(s.channel, s.config).subrange(s.done as int, 6),
    decreases rets.len(),
{
    let plan = configure_plan(s.channel, s.config);
    if rets.len() == 0 {
        assert(plan.subrange(6, 6) =~= Seq::<AntRequest>::empty());
    } else {
        let t = s.spec_after(rets[0]);
        assert(rets.drop_first().len() == CONFIGURE_STEPS - t.done);
        lemma_run_all_succeed(t, rets.drop_first());
        assert(plan.subrange(s.done as int, 6) =~= seq![plan[s.done as int]] + plan.subrange(
            t.done as int,
            6,
        ));
    }
}

proof fn lemma_run_first_failure(s: AntChannelSetup, rets: Seq<u32>, k: int)
    requires
        s.failure is None,
        s.done <= k < CONFIGURE_STEPS,
        rets.len() > k - s.done,
        forall|i: int| 0 <= i < k - s.done ==> rets[i] == NRF_SUCCESS,
        rets[k - s.done] != NRF_SUCCESS,
    ensures
        s.spec_run(rets).spec_action() == SetupAction::Finished(
            Err::<AntChannel, RawError>(spec_error_of(rets[k - s.done])),
        ),
        s.spec_issued(rets) == configure_plan(s.channel, s.config).subrange(s.done as int, k + 1),
    decreases rets.len(),
{
    let plan = configure_plan(s.channel, s.config);
    let t = s.spec_after(rets[0]);
    if s.done == k {
        assert(!t.awaiting_return());
        assert(t.spec_run(rets.drop_first()) == t);
        assert(t.spec_issued(rets.drop_first()) =~= Seq::<AntRequest>::empty());
        assert(plan.subrange(s.done as int, k + 1) =~= seq![plan[s.done as int]]);
    } else {
        lemma_run_first_failure(t, rets.drop_first(), k);
        assert(plan.subrange(s.done as int, k + 1) =~= seq![plan[s.done as int]] + plan.subrange(
            t.done as int,
            k + 1,
        ));
    }
}

/// Configuring a channel, when every call succeeds: a fresh setup makes
/// exactly the calls of `configure_plan`, in that order, and finishes with
/// the channel of the number it was given.
pub proof fn lemma_configure_all_succeed(s: AntChannelSetup, rets: Seq<u32>)
    requires
        s.spec_done() == 0,
        s.spec_failure() is None,
        rets.len() == CONFIGURE_STEPS,
        forall|i: int| 0 <= i < rets.len() ==> rets[i] == NRF_SUCCESS,
    ensures
        s.spec_run(rets).spec_action() == SetupAction::Finished(
            Ok::<AntChannel, RawError>(AntChannel { num: s.spec_channel() }),
        ),
        s.spec_issued(rets) == configure_plan(s.spec_channel(), s.spec_config()),
{
    lemma_run_all_succeed(s, rets);
    assert(configure_plan(s.channel, s.config).subrange(0, 6) =~= configure_plan(
        s.channel,
        s.config,
    ));
}

/// Configuring a channel, when a call fails: the calls of the plan are made
/// in order up to and including the first one that fails, no call is made
/// after it, and the setup finishes with that call's error.
pub proof fn lemma_configure_stops_at_first_failure(
    s: AntChannelSetup,
    rets: Seq<u32>,
    k: int,
)
    requires
        s.spec_done() == 0,
        s.spec_failure() is None,
        0 <= k < CONFIGURE_STEPS,
        rets.len() > k,
        forall|i: int| 0 <= i < k ==> rets[i] == NRF_SUCCESS,
        rets[k] != NRF_SUCCESS,
    ensures
        s.spec_run(rets).spec_action() == SetupAction::Finished(
            Err::<AntChannel, RawError>(spec_error_of(rets[k])),
        ),
        s.spec_issued(rets) == configure_plan(s.spec_channel(), s.spec_config()).take(k + 1),
{
    lemma_run_first_failure(s, rets, k);
    assert(configure_plan(s.channel, s.config).subrange(0, k + 1) =~= configure_plan(
        s.channel,
        s.config,
    ).take(k + 1));
}

/// The first call that a fresh setup of channel `n` with configuration `c`
/// asks for assigns the channel: `sd_ant_channel_assign(n, c.channel_type,
/// c.network, c.ext_assign)`, each configuration field in the argument of
/// the same name.
pub proof fn lemma_configure_first_call(s: AntChannelSetup, n: u8, c: AntChannelConfig)
    requires
        s.spec_channel() == n,
        s.spec_config() == c,
        s.spec_done() == 0,
        s.spec_failure() is None,
    ensures
        s.spec_action() == SetupAction::Call(
            AntRequest::ChannelAssign {
                channel: n,
                channel_type: c.channel_type,
                network: c.network,
                ext_assign: c.ext_assign,
            },
        ),
{
}

/// Configuring channel `n` with configuration `c` when every call succeeds
/// makes exactly these six calls on channel `n`, in this order: assign with
/// `c.channel_type`, `c.network` and `c.ext_assign`; RF frequency
/// `c.rf_freq`; channel id `c.device_number`, `c.device_type`,
/// `c.transmit_type`; message period `c.period`; search timeout
/// `c.search_timeout`; low priority search timeout `c.low_priority_timeout`.
/// The setup then finishes with channel `n`.
pub proof fn lemma_configure_calls(s: AntChannelSetup, n: u8, c: AntChannelConfig, rets: Seq<u32>)
    requires
        s.spec_channel() == n,
        s.spec_config() == c,
        s.spec_done() == 0,
        s.spec_failure() is None,
        rets.len() == 6,
        forall|i: int| 0 <= i < rets.len() ==> rets[i] == NRF_SUCCESS,
    ensures
        s.spec_issued(rets) == seq![
            AntRequest::ChannelAssign {
                channel: n,
                channel_type: c.channel_type,
                network: c.network,
                ext_assign: c.ext_assign,
            },
            AntRequest::RadioFreqSet { channel: n, freq: c.rf_freq },
            AntRequest::ChannelIdSet {
                channel: n,
                device_number: c.device_number,
                device_type: c.device_type,
                transmit_type: c.transmit_type,
            },
            AntRequest::ChannelPeriodSet { channel: n, period: c.period },
            AntRequest::ChannelSearchTimeoutSet { channel: n, timeout: c.search_timeout },
            AntRequest::LowPriorityRxSearchTimeoutSet { channel: n, timeout: c.low_priority_timeout },
        ],
        s.spec_run(rets).spec_action() == SetupAction::Finished(
            Ok::<AntChannel, RawError>(AntChannel { num: n }),
        ),
{
    lemma_configure_all_succeed(s, rets);
}

impl AntChannel {
    /// Assign and configure a channel. Does not open it yet.
    ///
    /// The returned setup asks for the calls of `configure_plan` one by one;
    /// it finishes with the channel when all of them succeed, and with the
    /// error of the first one that fails otherwise.
    pub fn configure(channel_num: u8, config: &AntChannelConfig) -> (s: AntChannelSetup)
        ensures
            s.spec_channel() == channel_num,
            s.spec_config() == *config,
            s.spec_done() == 0,
            s.spec_failure() is None,
    {
        AntChannelSetup { channel: channel_num, config: *config, done: 0, failure: None }
    }

    /// Open the channel (start offset 0) and start searching/transmitting.
    pub fn open(&self) -> (r: AntRequest)
        ensures
            r == (AntRequest::ChannelOpenWithOffset { channel: self.num, offset: 0 }),
    {
        AntRequest::ChannelOpenWithOffset { channel: self.num, offset: 0 }
    }

    /// Close the channel.
    pub fn close(&self) -> (r: AntRequest)
        ensures
            r == (AntRequest::ChannelClose { channel: self.num }),
    {
        AntRequest::ChannelClose { channel: self.num }
    }

    /// Unassign the channel.
    pub fn unassign(&self) -> (r: AntRequest)
        ensures
            r == (AntRequest::ChannelUnassign { channel: self.num }),
    {
        AntRequest::ChannelUnassign { channel: self.num }
    }

    /// Get channel number.
    pub fn number(&self) -> (n: u8)
        ensures
            n == self.num,
    {
        self.num
    }

    /// Get channel status.
    pub fn status(&self) -> (r: AntRequest)
        ensures
            r == (AntRequest::ChannelStatusGet { channel: self.num }),
    {
        AntRequest::ChannelStatusGet { channel: self.num }
    }

    /// The result of a status query that returned `ret` and wrote `status`.
    pub fn status_result(ret: u32, status: u8) -> (r: Result<u8, RawError>)
        ensures
            ret == NRF_SUCCESS ==> r == Ok::<u8, RawError>(status),
            ret != NRF_SUCCESS ==> r == Err::<u8, RawError>(spec_error_of(ret)),
    {
        match RawError::convert(ret) {
            Ok(()) => Ok(status),
            Err(e) => Err(e),
        }
    }

    /// Send broadcast data (8 bytes).
    pub fn broadcast(&self, data: &mut [u8; 8]) -> (r: AntRequest)
        ensures
            r == (AntRequest::BroadcastMessageTx { channel: self.num, size: 8, data: *old(data) }),
            *final(data) == *old(data),
    {
        AntRequest::BroadcastMessageTx { channel: self.num, size: 8, data: *data }
    }

    /// Set search waveform (receive window period). 97 = fast, 316 = default.
    pub fn set_search_waveform(&self, waveform: u16) -> (r: AntRequest)
        ensures
            r == (AntRequest::SearchWaveformSet { channel: self.num, waveform }),
    {
        AntRequest::SearchWaveformSet { channel: self.num, waveform }
    }

    /// Set channel search priority (0..=7, default = 0).
    pub fn set_search_priority(&self, priority: u8) -> (r: AntRequest)
        ensures
            r == (AntRequest::SearchChannelPrioritySet { channel: self.num, priority }),
    {
        AntRequest::SearchChannelPrioritySet { channel: self.num, priority }
    }

    /// Set active search sharing cycles. 0 = disable.
    pub fn set_active_search_sharing_cycles(&self, cycles: u8) -> (r: AntRequest)
        ensures
            r == (AntRequest::ActiveSearchSharingCyclesSet { channel: self.num, cycles }),
    {
        AntRequest::ActiveSearchSharingCyclesSet { channel: self.num, cycles }
    }

    /// Read the channel coexistence configuration into `buf`; the buffer size
    /// passed is `buf.len()` truncated to a byte. The first byte is the radio
    /// coexistence behaviour bitfield.
    pub fn coex_config_get(&self, buf: &mut [u8]) -> (r: AntRequest)
        ensures
            r == (AntRequest::CoexConfigGet { channel: self.num, buffer_size: old(buf)@.len() as u8 }),
            final(buf)@ == old(buf)@,
    {
        AntRequest::CoexConfigGet { channel: self.num, buffer_size: buf.len() as u8 }
    }

    /// Write the channel coexistence configuration from `buf`; the buffer size
    /// passed is `buf.len()` truncated to a byte.
    pub fn coex_config_set(&self, buf: &mut [u8]) -> (r: AntRequest)
        ensures
            r == (AntRequest::CoexConfigSet { channel: self.num, buffer_size: old(buf)@.len() as u8 }),
            final(buf)@ == old(buf)@,
    {
        AntRequest::CoexConfigSet { channel: self.num, buffer_size: buf.len() as u8 }
    }

    /// Send acknowledged data (8 bytes).
    pub fn acknowledge(&self, data: &mut [u8; 8]) -> (r: AntRequest)
        ensures
            r == (AntRequest::AcknowledgeMessageTx { channel: self.num, size: 8, data: *old(data) }),
            *final(data) == *old(data),
    {
        AntRequest::AcknowledgeMessageTx { channel: self.num, size: 8, data: *data }
    }

    /// Set channel radio TX output power level.
    pub fn set_radio_tx_power(&self, tx_power: u8, custom_tx_power: u8) -> (r: AntRequest)
        ensures
            r == (AntRequest::RadioTxPowerSet { channel: self.num, tx_power, custom_tx_power }),
    {
        AntRequest::RadioTxPowerSet { channel: self.num, tx_power, custom_tx_power }
    }
}

} // verus!
