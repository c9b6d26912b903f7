//! Bookkeeping shared by the hardware diagnostics: run provenance tags and the loopback guard.
use vstd::prelude::*;

verus! {

/// The tag that names a capture's signal path in diagnostic output and file names.
pub open spec fn capture_tag_spec(loopback: bool) -> Seq<char> {
    if loopback {
        "bist"@
    } else {
        "rf"@
    }
}

/// Names the signal path of a capture: `"bist"` for the AD9361 digital loopback, `"rf"` for
/// the over-the-air path.
pub fn capture_tag(loopback: bool) -> (r: &'static str)
    ensures
        r@ == capture_tag_spec(loopback),
{
    if loopback {
        "bist"
    } else {
        "rf"
    }
}

/// Records whether a scope holds the AD9361 in BIST digital loopback. A guard is active only
/// when enabling the loopback succeeded; only an active guard restores loopback 0 when its
/// scope ends, so a failed enable leaves captures on the normal RF path.
pub struct LoopbackGuard {
    active: bool,
}

impl LoopbackGuard {
    /// Whether the guard holds the loopback.
    pub closed spec fn holds(&self) -> bool {
        self.active
    }

    /// The guard for an attempt to enable the loopback: active exactly when the attempt
    /// succeeded.
    pub fn from_enable_outcome(enabled: bool) -> (g: Self)
        ensures
            g.holds() == enabled,
    {
        LoopbackGuard { active: enabled }
    }

    /// Whether the loopback is held.
    pub fn is_active(&self) -> (r: bool)
        ensures
            r == self.holds(),
    {
        self.active
    }

    /// Whether ending the scope must switch the loopback off again (only an active guard
    /// does so). After the release the guard no longer holds anything.
    pub fn release(&mut self) -> (restore: bool)
        ensures
            restore == old(self).holds(),
            !final(self).holds(),
    {
        let restore = self.active;
        self.active = false;
        restore
    }
}

} // verus!
