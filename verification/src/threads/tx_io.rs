//! Decisions of the TX IO thread: when the transmitter is muted and when its DMA channels are
//! held.
use vstd::prelude::*;

verus! {

/// A hardware action of the TX IO thread.
#[derive(Clone, Copy, Debug, PartialEq, Eq, Structural)]
pub enum TxHwAction {
    /// Sets the TX attenuation to the minimum gain.
    Mute,
    /// Sets the TX attenuation to the gain the user asked for.
    ApplyDesiredGain,
    ReleaseChannels,
    InitChannels,
    /// Selects the TX antenna on the device and in the fabric.
    SelectAntenna(u8),
    /// Tunes the TX LO and rate, its RF bandwidth, and the fabric TX DSP config.
    Retune { lo_hz: i64, fs_hz: i64 },
}

/// Transmitter state as the TX IO thread leaves it.
pub struct TxIoState {
    pub is_configuring: bool,
    pub is_tx_active: bool,
    /// Whether the TX DMA channels are held.
    pub channels_live: bool,
    /// Whether the TX attenuation is at the minimum gain.
    pub muted: bool,
}

impl TxIoState {
    /// The transmitter's safety invariant: an unkeyed transmitter is muted, and the DMA
    /// channels are held exactly while keyed outside a reconfiguration.
    pub open spec fn wf(self) -> bool {
        &&& !self.is_tx_active ==> self.muted
        &&& self.channels_live == (self.is_tx_active && !self.is_configuring)
    }

    /// Whether modulated I/Q is written to the DMA (otherwise it is drained and dropped).
    pub open spec fn streams(self) -> bool {
        self.is_tx_active && !self.is_configuring
    }

    /// Start-up: the transmitter is muted at once, unkeyed, with no channels.
    pub fn new() -> (r: (Self, Vec<TxHwAction>))
        ensures
            r.0 == (TxIoState {
                is_configuring: false,
                is_tx_active: false,
                channels_live: false,
                muted: true,
            }),
            r.0.wf(),
            r.1@ == seq![TxHwAction::Mute],
    {
        (
            TxIoState { is_configuring: false, is_tx_active: false, channels_live: false, muted: true },
            vec![TxHwAction::Mute],
        )
    }

    /// Whether the current I/Q chunk goes to the DMA.
    pub fn should_stream(&self) -> (r: bool)
        ensures
            r == self.streams(),
    {
        self.is_tx_active && !self.is_configuring
    }

    /// The receiver starts a clock change: mute and release the DMA.
    pub fn configure_start(&mut self) -> (acts: Vec<TxHwAction>)
        ensures
            *final(self) == (TxIoState {
                is_configuring: true,
                channels_live: false,
                muted: true,
                ..*old(self)
            }),
            acts@ == seq![TxHwAction::Mute, TxHwAction::ReleaseChannels],
            old(self).wf() ==> final(self).wf(),
    {
        self.is_configuring = true;
        self.muted = true;
        self.channels_live = false;
        vec![TxHwAction::Mute, TxHwAction::ReleaseChannels]
    }

    /// The clock change is done: a keyed transmitter gets its gain and DMA back.
    pub fn configure_end(&mut self) -> (acts: Vec<TxHwAction>)
        ensures
            old(self).is_tx_active ==> *final(self) == (TxIoState {
                is_configuring: false,
                channels_live: true,
                muted: false,
                ..*old(self)
            }),
            !old(self).is_tx_active ==> *final(self) == (TxIoState {
                is_configuring: false,
                ..*old(self)
            }),
            acts@ == if old(self).is_tx_active {
                seq![TxHwAction::ApplyDesiredGain, TxHwAction::InitChannels]
            } else {
                Seq::empty()
            },
            old(self).wf() ==> final(self).wf(),
    {
        self.is_configuring = false;
        if self.is_tx_active {
            self.muted = false;
            self.channels_live = true;
            vec![TxHwAction::ApplyDesiredGain, TxHwAction::InitChannels]
        } else {
            Vec::new()
        }
    }

    /// Keys the transmitter: its gain is restored; the DMA is taken unless a clock change is in
    /// progress (then it is taken when the change ends).
    pub fn tx_start(&mut self) -> (acts: Vec<TxHwAction>)
        ensures
            *final(self) == (TxIoState {
                is_tx_active: true,
                muted: false,
                channels_live: old(self).channels_live || !old(self).is_configuring,
                ..*old(self)
            }),
            acts@ == seq![TxHwAction::ApplyDesiredGain] + if old(self).is_configuring {
                Seq::empty()
            } else {
                seq![TxHwAction::InitChannels]
            },
            old(self).wf() ==> final(self).wf(),
    {
        self.is_tx_active = true;
        self.muted = false;
        if !self.is_configuring {
            self.channels_live = true;
            vec![TxHwAction::ApplyDesiredGain, TxHwAction::InitChannels]
        } else {
            vec![TxHwAction::ApplyDesiredGain]
        }
    }

    /// Unkeys the transmitter: mute, then release the DMA.
    pub fn tx_stop(&mut self) -> (acts: Vec<TxHwAction>)
        ensures
            *final(self) == (TxIoState {
                is_tx_active: false,
                muted: true,
                channels_live: false,
                ..*old(self)
            }),
            acts@ == seq![TxHwAction::Mute, TxHwAction::ReleaseChannels],
            old(self).wf() ==> final(self).wf(),
    {
        self.is_tx_active = false;
        self.muted = true;
        self.channels_live = false;
        vec![TxHwAction::Mute, TxHwAction::ReleaseChannels]
    }

    /// Switches the TX antenna; a streaming transmitter re-takes its DMA on the new port,
    /// any other is muted.
    pub fn set_antenna(&mut self, antenna: u8) -> (acts: Vec<TxHwAction>)
        ensures
            old(self).streams() ==> *final(self) == (TxIoState {
                muted: false,
                channels_live: true,
                ..*old(self)
            }),
            !old(self).streams() ==> *final(self) == (TxIoState { muted: true, ..*old(self) }),
            acts@ == seq![TxHwAction::SelectAntenna(antenna)] + if old(self).streams() {
                seq![
                    TxHwAction::ReleaseChannels,
                    TxHwAction::ApplyDesiredGain,
                    TxHwAction::InitChannels,
                ]
            } else {
                seq![TxHwAction::Mute]
            },
            old(self).wf() ==> final(self).wf(),
    {
        if self.is_tx_active && !self.is_configuring {
            self.muted = false;
            self.channels_live = true;
            vec![
                TxHwAction::SelectAntenna(antenna),
                TxHwAction::ReleaseChannels,
                TxHwAction::ApplyDesiredGain,
                TxHwAction::InitChannels,
            ]
        } else {
            self.muted = true;
            vec![TxHwAction::SelectAntenna(antenna), TxHwAction::Mute]
        }
    }

    /// A new desired gain is applied at once only while keyed.
    pub fn set_gain(&mut self) -> (acts: Vec<TxHwAction>)
        ensures
            old(self).is_tx_active ==> *final(self) == (TxIoState { muted: false, ..*old(self) }),
            !old(self).is_tx_active ==> *final(self) == *old(self),
            acts@ == if old(self).is_tx_active {
                seq![TxHwAction::ApplyDesiredGain]
            } else {
                Seq::empty()
            },
            old(self).wf() ==> final(self).wf(),
    {
        if self.is_tx_active {
            self.muted = false;
            vec![TxHwAction::ApplyDesiredGain]
        } else {
            Vec::new()
        }
    }

    /// Retunes the TX LO and rate (and the fabric TX config).
    pub fn set_frequencies(&self, lo_hz: i64, fs_hz: i64) -> (acts: Vec<TxHwAction>)
        ensures
            acts@ == seq![TxHwAction::Retune { lo_hz: lo_hz, fs_hz: fs_hz }],
    {
        vec![TxHwAction::Retune { lo_hz, fs_hz }]
    }

    /// At shutdown the transmitter is muted.
    pub fn shutdown(&mut self) -> (acts: Vec<TxHwAction>)
        ensures
            *final(self) == (TxIoState { muted: true, ..*old(self) }),
            acts@ == seq![TxHwAction::Mute],
    {
        self.muted = true;
        vec![TxHwAction::Mute]
    }
}

/// Whatever command sequence the thread has run, the DMA is written only while the transmitter
/// is keyed and holds its channels.
pub proof fn lemma_streaming_implies_keyed_and_live(s: TxIoState)
    requires
        s.wf(),
        s.streams(),
    ensures
        s.channels_live,
        s.is_tx_active,
{
}

} // verus!
