//! Strand orientations and the verdict of one call against the ground truth.

use vstd::prelude::*;

verus! {

/// The strand a read is assigned to. `Unknown` is an explicit "no confident
/// call", which is different from a read that is missing altogether.
#[derive(Clone, Copy, Debug, PartialEq, Eq, Structural)]
pub enum ReadOrientation {
    Forward,
    Reverse,
    Unknown,
}

/// The orientation that a symbol byte stands for: `+` is forward, `-` is
/// reverse, and every other byte (`?` included) is unknown.
pub open spec fn orientation_of(symbol: u8) -> ReadOrientation {
    if symbol == 0x2b {
        ReadOrientation::Forward
    } else if symbol == 0x2d {
        ReadOrientation::Reverse
    } else {
        ReadOrientation::Unknown
    }
}

/// The symbol byte that an orientation is written as: `+`, `-` or `?`.
pub open spec fn symbol_of(orientation: ReadOrientation) -> u8 {
    match orientation {
        ReadOrientation::Forward => 0x2b,
        ReadOrientation::Reverse => 0x2d,
        ReadOrientation::Unknown => 0x3f,
    }
}

impl ReadOrientation {
    /// Reads an orientation from its symbol byte.
    pub fn from_symbol(symbol: u8) -> (orientation: ReadOrientation)
        ensures
            orientation == orientation_of(symbol),
    {
        if symbol == 0x2b {
            ReadOrientation::Forward
        } else if symbol == 0x2d {
            ReadOrientation::Reverse
        } else {
            ReadOrientation::Unknown
        }
    }

    /// The symbol byte of this orientation.
    pub fn symbol(&self) -> (symbol: u8)
        ensures
            symbol == symbol_of(*self),
    {
        match self {
            ReadOrientation::Forward => 0x2b,
            ReadOrientation::Reverse => 0x2d,
            ReadOrientation::Unknown => 0x3f,
        }
    }
}

/// Writing an orientation as a symbol and reading it back gives the same
/// orientation.
pub proof fn lemma_symbol_round_trip(orientation: ReadOrientation)
    ensures
        orientation_of(symbol_of(orientation)) == orientation,
{
}

/// What one classifier made of one ground-truth read.
#[derive(Clone, Copy, Debug, PartialEq, Eq, Structural)]
pub enum Verdict {
    Correct,
    Incorrect,
    Ambiguous,
}

/// The verdict for a read whose true orientation is `truth`, given the
/// classifier's call for it (`None` when the classifier's output does not
/// hold the read). A missing or unknown call is ambiguous; a call that equals
/// the truth is correct; any other call is incorrect.
pub open spec fn verdict_of(truth: ReadOrientation, call: Option<ReadOrientation>) -> Verdict {
    match call {
        None => Verdict::Ambiguous,
        Some(ReadOrientation::Unknown) => Verdict::Ambiguous,
        Some(o) => if o == truth {
            Verdict::Correct
        } else {
            Verdict::Incorrect
        },
    }
}

/// Computes the verdict for one read.
pub fn judge(truth: ReadOrientation, call: Option<ReadOrientation>) -> (verdict: Verdict)
    ensures
        verdict == verdict_of(truth, call),
{
    match call {
        None => Verdict::Ambiguous,
        Some(o) => {
            if o == ReadOrientation::Unknown {
                Verdict::Ambiguous
            } else if o == truth {
                Verdict::Correct
            } else {
                Verdict::Incorrect
            }
        },
    }
}

} // verus!
