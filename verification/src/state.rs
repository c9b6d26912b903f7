//! Demodulation modes of the receiver.
use vstd::prelude::*;

use crate::text::str_eq;

verus! {

/// Receiver demodulation mode.
#[derive(Debug, Clone, Copy, PartialEq, Eq, Structural)]
pub enum DemodMode {
    FM,
    USB,
    LSB,
}

/// The textual name of each mode, as the control protocol spells it.
pub open spec fn demod_mode_name(m: DemodMode) -> Seq<char> {
    match m {
        DemodMode::FM => "FM"@,
        DemodMode::USB => "USB"@,
        DemodMode::LSB => "LSB"@,
    }
}

/// The mode that a protocol name denotes, if any.
pub open spec fn demod_mode_from_name(s: Seq<char>) -> Option<DemodMode> {
    if s == "FM"@ {
        Some(DemodMode::FM)
    } else if s == "USB"@ {
        Some(DemodMode::USB)
    } else if s == "LSB"@ {
        Some(DemodMode::LSB)
    } else {
        None
    }
}

impl DemodMode {
    /// The protocol name of the mode.
    pub fn as_str(&self) -> (r: &'static str)
        ensures
            r@ == demod_mode_name(*self),
    {
        match self {
            DemodMode::FM => "FM",
            DemodMode::USB => "USB",
            DemodMode::LSB => "LSB",
        }
    }

    /// Parses a protocol name; any other text is refused with a message naming it.
    pub fn parse(s: &str) -> (r: Result<DemodMode, String>)
        ensures
            demod_mode_from_name(s@) is Some <==> r is Ok,
            r matches Ok(m) ==> Some(m) == demod_mode_from_name(s@),
            r matches Err(e) ==> e@ == "Unknown demodulation mode: "@ + s@,
    {
        if str_eq(s, "FM") {
            Ok(DemodMode::FM)
        } else if str_eq(s, "USB") {
            Ok(DemodMode::USB)
        } else if str_eq(s, "LSB") {
            Ok(DemodMode::LSB)
        } else {
            let mut msg = "Unknown demodulation mode: ".to_owned();
            msg.append(s);
            Err(msg)
        }
    }
}

/// Every mode's name parses back to that mode.
pub proof fn lemma_demod_mode_name_round_trip(m: DemodMode)
    ensures
        demod_mode_from_name(demod_mode_name(m)) == Some(m),
{
    reveal_strlit("FM");
    reveal_strlit("USB");
    reveal_strlit("LSB");
    assert("FM"@.len() == 2);
    assert("USB"@.len() == 3);
    assert("FM"@ != "USB"@);
    assert("FM"@ != "LSB"@);
    assert("USB"@[0] != "LSB"@[0]);
    assert("USB"@ != "LSB"@);
}

impl std::str::FromStr for DemodMode {
    type Err = String;

    fn from_str(s: &str) -> (r: Result<Self, Self::Err>)
        ensures
            demod_mode_from_name(s@) is Some <==> r is Ok,
            r matches Ok(m) ==> Some(m) == demod_mode_from_name(s@),
            r matches Err(e) ==> e@ == "Unknown demodulation mode: "@ + s@,
    {
        DemodMode::parse(s)
    }
}

} // verus!
