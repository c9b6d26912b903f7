//! Decisions of the RX IO thread about the transmitter: where its LO goes and when it is keyed.
use vstd::prelude::*;

use crate::threads::control::tx_lo_for;
use crate::DEFAULT_TX_OFFSET_HZ;

verus! {

/// A command for the TX IO thread, which owns the transmitter hardware.
#[derive(Clone, Copy, Debug, PartialEq, Eq, Structural)]
pub enum TxIoRequest {
    /// The receiver is about to change clocks: release the TX DMA.
    ConfigureStart,
    /// Clock changes are done: restore the TX DMA if keyed.
    ConfigureEnd,
    TxStart,
    TxStop,
    SetAntenna(u8),
    SetTxFrequencies { lo_hz: i64, fs_hz: i64 },
    /// Applies the TX gain carried by the keying command.
    ApplyRequestedGain,
}

/// What the RX IO thread remembers about the transmitter.
pub struct RxIoState {
    pub is_tx_active: bool,
    pub current_tx_lo: i64,
    /// The baseband rate the receiver (and hence the transmitter) currently runs at.
    pub actual_span: i64,
}

impl RxIoState {
    /// Transmitter off, running at the start-up rate.
    pub fn new(initial_fs_hz: i64) -> (r: Self)
        ensures
            r == (RxIoState { is_tx_active: false, current_tx_lo: 0, actual_span: initial_fs_hz }),
    {
        RxIoState { is_tx_active: false, current_tx_lo: 0, actual_span: initial_fs_hz }
    }

    /// The listening frequency moved: a keyed transmitter follows it without a reconfiguration
    /// pause; an idle one is left alone.
    pub fn follow_playback(&mut self, playback_hz: i64) -> (reqs: Vec<TxIoRequest>)
        ensures
            old(self).is_tx_active ==> *final(self) == (RxIoState {
                current_tx_lo: tx_lo_for(playback_hz),
                ..*old(self)
            }),
            !old(self).is_tx_active ==> *final(self) == *old(self),
            reqs@ == if old(self).is_tx_active {
                seq![
                    TxIoRequest::SetTxFrequencies {
                        lo_hz: tx_lo_for(playback_hz),
                        fs_hz: old(self).actual_span,
                    },
                ]
            } else {
                Seq::empty()
            },
    {
        if self.is_tx_active {
            self.current_tx_lo = playback_hz.wrapping_sub(50_000);
            vec![TxIoRequest::SetTxFrequencies { lo_hz: self.current_tx_lo, fs_hz: self.actual_span }]
        } else {
            Vec::new()
        }
    }

    /// The RX LO was retuned: a keyed transmitter is re-applied at its LO and the current rate.
    pub fn center_frequency_applied(&self) -> (reqs: Vec<TxIoRequest>)
        ensures
            reqs@ == if self.is_tx_active {
                seq![
                    TxIoRequest::SetTxFrequencies {
                        lo_hz: self.current_tx_lo,
                        fs_hz: self.actual_span,
                    },
                ]
            } else {
                Seq::empty()
            },
    {
        if self.is_tx_active {
            vec![TxIoRequest::SetTxFrequencies { lo_hz: self.current_tx_lo, fs_hz: self.actual_span }]
        } else {
            Vec::new()
        }
    }

    /// The span changed to the confirmed rate `fs_hz`: it becomes the rate, and a keyed
    /// transmitter is re-applied at it.
    pub fn span_applied(&mut self, fs_hz: i64) -> (reqs: Vec<TxIoRequest>)
        ensures
            *final(self) == (RxIoState { actual_span: fs_hz, ..*old(self) }),
            reqs@ == if old(self).is_tx_active {
                seq![TxIoRequest::SetTxFrequencies { lo_hz: old(self).current_tx_lo, fs_hz: fs_hz }]
            } else {
                Seq::empty()
            },
    {
        self.actual_span = fs_hz;
        if self.is_tx_active {
            vec![TxIoRequest::SetTxFrequencies { lo_hz: self.current_tx_lo, fs_hz }]
        } else {
            Vec::new()
        }
    }

    /// Keys the transmitter (gain first, then its LO below the listening frequency, then start)
    /// or unkeys it (LO back on the RX LO, then stop).
    pub fn set_tx_state(&mut self, active: bool, playback_hz: i64, rx_lo_hz: i64) -> (reqs: Vec<
        TxIoRequest,
    >)
        ensures
            active ==> *final(self) == (RxIoState {
                is_tx_active: true,
                current_tx_lo: tx_lo_for(playback_hz),
                ..*old(self)
            }),
            !active ==> *final(self) == (RxIoState { is_tx_active: false, ..*old(self) }),
            reqs@ == if active {
                seq![
                    TxIoRequest::ApplyRequestedGain,
                    TxIoRequest::SetTxFrequencies {
                        lo_hz: tx_lo_for(playback_hz),
                        fs_hz: old(self).actual_span,
                    },
                    TxIoRequest::TxStart,
                ]
            } else {
                seq![
                    TxIoRequest::SetTxFrequencies { lo_hz: rx_lo_hz, fs_hz: old(self).actual_span },
                    TxIoRequest::TxStop,
                ]
            },
    {
        self.is_tx_active = active;
        if active {
            self.current_tx_lo = playback_hz.wrapping_sub(50_000);
            vec![
                TxIoRequest::ApplyRequestedGain,
                TxIoRequest::SetTxFrequencies { lo_hz: self.current_tx_lo, fs_hz: self.actual_span },
                TxIoRequest::TxStart,
            ]
        } else {
            vec![
                TxIoRequest::SetTxFrequencies { lo_hz: rx_lo_hz, fs_hz: self.actual_span },
                TxIoRequest::TxStop,
            ]
        }
    }
}

/// A command of the RX IO thread, as far as the transmitter is concerned. Gains are carried
/// by the caller: `ForwardTxGain` and the keying of `SetTxState` ask for the gain the command
/// carried (`TxIoRequest::ApplyRequestedGain`).
#[derive(Clone, Copy, Debug, PartialEq, Eq, Structural)]
pub enum RxIoCommand {
    /// The listening frequency moved (no clock change).
    FollowPlayback(i64),
    SetCenterFrequency(i64),
    SetSpan { center_hz: i64, span_hz: i64 },
    SetAntenna(u8),
    SetTxState { active: bool, playback_hz: i64, rx_lo_hz: i64 },
    /// A new TX gain for the TX IO thread.
    ForwardTxGain,
    /// A receiver-only setting (gain mode, gain, RF bandwidth).
    ReceiverSetting,
}

/// Whether a command is applied inside a TX pause (every command but a playback follow).
pub open spec fn pauses_tx(cmd: RxIoCommand) -> bool {
    !(cmd is FollowPlayback)
}

/// The requests sent before the receiver hardware is touched for a command.
pub open spec fn begin_requests(s: RxIoState, cmd: RxIoCommand) -> Seq<TxIoRequest> {
    match cmd {
        RxIoCommand::FollowPlayback(p) => if s.is_tx_active {
            seq![TxIoRequest::SetTxFrequencies { lo_hz: tx_lo_for(p), fs_hz: s.actual_span }]
        } else {
            seq![]
        },
        _ => seq![TxIoRequest::ConfigureStart],
    }
}

/// The state after `begin_requests`.
pub open spec fn begin_state(s: RxIoState, cmd: RxIoCommand) -> RxIoState {
    match cmd {
        RxIoCommand::FollowPlayback(p) => if s.is_tx_active {
            RxIoState { current_tx_lo: tx_lo_for(p), ..s }
        } else {
            s
        },
        _ => s,
    }
}

/// The requests that follow the receiver's work on a command, given the rate the hardware
/// applied when it retuned (`None` when the retune failed); they close the TX pause.
pub open spec fn finish_requests(s: RxIoState, cmd: RxIoCommand, applied_fs: Option<i64>) -> Seq<
    TxIoRequest,
> {
    match cmd {
        RxIoCommand::FollowPlayback(_) => seq![],
        RxIoCommand::SetCenterFrequency(_) => (if applied_fs is Some && s.is_tx_active {
            seq![
                TxIoRequest::SetTxFrequencies { lo_hz: s.current_tx_lo, fs_hz: s.actual_span },
            ]
        } else {
            seq![]
        }) + seq![TxIoRequest::ConfigureEnd],
        RxIoCommand::SetSpan { .. } => (match applied_fs {
            Some(fs) => if s.is_tx_active {
                seq![TxIoRequest::SetTxFrequencies { lo_hz: s.current_tx_lo, fs_hz: fs }]
            } else {
                seq![]
            },
            None => seq![],
        }) + seq![TxIoRequest::ConfigureEnd],
        RxIoCommand::SetAntenna(a) => seq![TxIoRequest::SetAntenna(a), TxIoRequest::ConfigureEnd],
        RxIoCommand::SetTxState { active, playback_hz, rx_lo_hz } => (if active {
            seq![
                TxIoRequest::ApplyRequestedGain,
                TxIoRequest::SetTxFrequencies {
                    lo_hz: tx_lo_for(playback_hz),
                    fs_hz: s.actual_span,
                },
                TxIoRequest::TxStart,
            ]
        } else {
            seq![
                TxIoRequest::SetTxFrequencies { lo_hz: rx_lo_hz, fs_hz: s.actual_span },
                TxIoRequest::TxStop,
            ]
        }) + seq![TxIoRequest::ConfigureEnd],
        RxIoCommand::ForwardTxGain => seq![
            TxIoRequest::ApplyRequestedGain,
            TxIoRequest::ConfigureEnd,
        ],
        RxIoCommand::ReceiverSetting => seq![TxIoRequest::ConfigureEnd],
    }
}

/// The state after `finish_requests`.
pub open spec fn finish_state(s: RxIoState, cmd: RxIoCommand, applied_fs: Option<i64>) -> RxIoState {
    match cmd {
        RxIoCommand::SetSpan { .. } => match applied_fs {
            Some(fs) => RxIoState { actual_span: fs, ..s },
            None => s,
        },
        RxIoCommand::SetTxState { active, playback_hz, .. } => if active {
            RxIoState { is_tx_active: true, current_tx_lo: tx_lo_for(playback_hz), ..s }
        } else {
            RxIoState { is_tx_active: false, ..s }
        },
        _ => s,
    }
}

impl RxIoCommand {
    /// Whether the command is applied inside a TX pause; see `pauses_tx`.
    pub fn is_paused(&self) -> (r: bool)
        ensures
            r == pauses_tx(*self),
    {
        match self {
            RxIoCommand::FollowPlayback(_) => false,
            _ => true,
        }
    }
}

impl RxIoState {
    /// A command arrives: a playback follow retunes a keyed transmitter at once; any other
    /// command first pauses the TX DMA.
    pub fn begin_command(&mut self, cmd: RxIoCommand) -> (reqs: Vec<TxIoRequest>)
        ensures
            reqs@ == begin_requests(*old(self), cmd),
            *final(self) == begin_state(*old(self), cmd),
    {
        match cmd {
            RxIoCommand::FollowPlayback(p) => self.follow_playback(p),
            _ => vec![TxIoRequest::ConfigureStart],
        }
    }

    /// The receiver has done its work on a command (`applied_fs` is the rate the hardware
    /// applied after a successful retune): the transmitter follows, and the TX pause ends.
    pub fn finish_command(&mut self, cmd: RxIoCommand, applied_fs: Option<i64>) -> (reqs: Vec<
        TxIoRequest,
    >)
        ensures
            reqs@ == finish_requests(*old(self), cmd, applied_fs),
            *final(self) == finish_state(*old(self), cmd, applied_fs),
            (cmd is SetSpan && applied_fs is Some) ==> final(self).actual_span == applied_fs->0,
            cmd matches RxIoCommand::SetTxState { active, .. } ==> {
                &&& final(self).is_tx_active == active
                &&& active ==> reqs@.contains(TxIoRequest::TxStart)
                &&& !active ==> reqs@.contains(TxIoRequest::TxStop)
            },
            reqs@.len() > 0 ==> reqs@.last() == TxIoRequest::ConfigureEnd || cmd is FollowPlayback,
    {
        proof {
            lemma_retune_and_keying(*old(self), cmd, applied_fs);
        }
        let mut reqs: Vec<TxIoRequest> = match cmd {
            RxIoCommand::FollowPlayback(_) => {
                return Vec::new();
            },
            RxIoCommand::SetCenterFrequency(_) => match applied_fs {
                Some(_) => self.center_frequency_applied(),
                None => Vec::new(),
            },
            RxIoCommand::SetSpan { .. } => match applied_fs {
                Some(fs) => self.span_applied(fs),
                None => Vec::new(),
            },
            RxIoCommand::SetAntenna(a) => vec![TxIoRequest::SetAntenna(a)],
            RxIoCommand::SetTxState { active, playback_hz, rx_lo_hz } => self.set_tx_state(
                active,
                playback_hz,
                rx_lo_hz,
            ),
            RxIoCommand::ForwardTxGain => vec![TxIoRequest::ApplyRequestedGain],
            RxIoCommand::ReceiverSetting => Vec::new(),
        };
        let ghost before = reqs@;
        reqs.push(TxIoRequest::ConfigureEnd);
        assert(reqs@ =~= before + seq![TxIoRequest::ConfigureEnd]);
        reqs
    }
}

/// Every command but a playback follow is applied inside one TX pause: the requests of its
/// two steps open with `ConfigureStart`, close with `ConfigureEnd`, and hold no other pause
/// request in between. A playback follow sends no pause request at all.
pub proof fn lemma_commands_bracketed(s: RxIoState, cmd: RxIoCommand, applied_fs: Option<i64>)
    ensures
        ({
            let all = begin_requests(s, cmd) + finish_requests(begin_state(s, cmd), cmd, applied_fs);
            &&& pauses_tx(cmd) ==> {
                &&& all.len() >= 2
                &&& all[0] == TxIoRequest::ConfigureStart
                &&& all.last() == TxIoRequest::ConfigureEnd
                &&& forall|k: int|
                    0 < k < all.len() - 1 ==> #[trigger] all[k] != TxIoRequest::ConfigureStart
                        && all[k] != TxIoRequest::ConfigureEnd
            }
            &&& !pauses_tx(cmd) ==> forall|k: int|
                0 <= k < all.len() ==> #[trigger] all[k] != TxIoRequest::ConfigureStart && all[k]
                    != TxIoRequest::ConfigureEnd
        }),
{
    let all = begin_requests(s, cmd) + finish_requests(begin_state(s, cmd), cmd, applied_fs);
    if pauses_tx(cmd) {
        assert forall|k: int| 0 < k < all.len() - 1 implies #[trigger] all[k]
            != TxIoRequest::ConfigureStart && all[k] != TxIoRequest::ConfigureEnd by {
            let f = finish_requests(begin_state(s, cmd), cmd, applied_fs);
            assert(all[k] == f[k - 1]);
        }
    }
}

/// A successful span change becomes the rate the receiver (and transmitter) runs at, keyed or
/// not, and a keyed transmitter follows it at once; keying sends `TxStart` with the TX LO one
/// DDS offset below the listening frequency, and unkeying sends `TxStop` with the TX LO back on
/// the RX LO.
pub proof fn lemma_retune_and_keying(s: RxIoState, cmd: RxIoCommand, applied_fs: Option<i64>)
    ensures
        cmd matches RxIoCommand::SetSpan { .. } ==> (applied_fs matches Some(fs) ==> {
            &&& finish_state(s, cmd, applied_fs).actual_span == fs
            &&& s.is_tx_active ==> finish_requests(s, cmd, applied_fs).contains(
                TxIoRequest::SetTxFrequencies { lo_hz: s.current_tx_lo, fs_hz: fs },
            )
        }),
        cmd matches RxIoCommand::SetTxState { active, playback_hz, rx_lo_hz } ==> {
            let r = finish_requests(s, cmd, applied_fs);
            &&& finish_state(s, cmd, applied_fs).is_tx_active == active
            &&& active ==> r.contains(TxIoRequest::TxStart) && r.contains(
                TxIoRequest::SetTxFrequencies { lo_hz: playback_hz.wrapping_sub(50_000), fs_hz: s.actual_span },
            ) && !r.contains(TxIoRequest::TxStop)
            &&& !active ==> r.contains(TxIoRequest::TxStop) && r.contains(
                TxIoRequest::SetTxFrequencies { lo_hz: rx_lo_hz, fs_hz: s.actual_span },
            ) && !r.contains(TxIoRequest::TxStart)
        },
{
    let r = finish_requests(s, cmd, applied_fs);
    match cmd {
        RxIoCommand::SetSpan { .. } => {
            if let Some(fs) = applied_fs {
                if s.is_tx_active {
                    assert(r[0] == TxIoRequest::SetTxFrequencies { lo_hz: s.current_tx_lo, fs_hz: fs });
                }
            }
        },
        RxIoCommand::SetTxState { active, playback_hz, rx_lo_hz } => {
            if active {
                assert(r[2] == TxIoRequest::TxStart);
                assert(r[1] == TxIoRequest::SetTxFrequencies {
                    lo_hz: playback_hz.wrapping_sub(50_000),
                    fs_hz: s.actual_span,
                });
                assert forall|k: int| 0 <= k < r.len() implies r[k] != TxIoRequest::TxStop by {}
            } else {
                assert(r[1] == TxIoRequest::TxStop);
                assert(r[0] == TxIoRequest::SetTxFrequencies { lo_hz: rx_lo_hz, fs_hz: s.actual_span });
                assert forall|k: int| 0 <= k < r.len() implies r[k] != TxIoRequest::TxStart by {}
            }
        },
        _ => {},
    }
}

/// A keyed transmitter sits exactly one TX DDS offset below the listening frequency it was
/// keyed or last retuned at, so the fabric's fixed DDS shift puts the transmitted signal
/// precisely on the listening frequency.
pub proof fn lemma_tx_lo_below_playback(playback_hz: i64)
    requires
        i64::MIN + 50_000 <= playback_hz,
    ensures
        tx_lo_for(playback_hz) == playback_hz - 50_000,
        tx_lo_for(playback_hz) + DEFAULT_TX_OFFSET_HZ == playback_hz,
{
}

} // verus!
