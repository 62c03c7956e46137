use vstd::prelude::*;
use crate::error::ErrorCode;

verus! {

/// The lifecycle position of an escrow.
///
/// A deposit leads to `FundsDeposited`; from there the receiver's completion leads to
/// `EscrowComplete` and the sender's pull-back to `PullBackComplete`.
#[derive(Clone, Copy, Debug, PartialEq, Eq, Structural)]
pub enum Stage {
    /// The sender's funds sit in the custody holding.
    FundsDeposited,
    /// The receiver took the funds: nothing more can happen.
    EscrowComplete,
    /// The sender took the funds back.
    PullBackComplete,
}

/// The one-byte tag under which a stage is stored in a record.
pub open spec fn stage_code(s: Stage) -> u8 {
    match s {
        Stage::FundsDeposited => 1,
        Stage::EscrowComplete => 2,
        Stage::PullBackComplete => 3,
    }
}

/// The stage stored under `code`, if any.
pub open spec fn stage_of_code(code: u8) -> Option<Stage> {
    if code == 1 {
        Some(Stage::FundsDeposited)
    } else if code == 2 {
        Some(Stage::EscrowComplete)
    } else if code == 3 {
        Some(Stage::PullBackComplete)
    } else {
        None
    }
}

impl Stage {
    /// The tag under which this stage is stored.
    pub fn to_code(&self) -> (r: u8)
        ensures
            r == stage_code(*self),
    {
        match self {
            Stage::FundsDeposited => 1,
            Stage::EscrowComplete => 2,
            Stage::PullBackComplete => 3,
        }
    }

    /// Reads a stored tag; a tag that names no stage is refused with `StageInvalid`.
    pub fn from(val: u8) -> (r: Result<Stage, ErrorCode>)
        ensures
            stage_of_code(val) is Some ==> r == Ok::<Stage, ErrorCode>(stage_of_code(val)->Some_0),
            stage_of_code(val) is None ==> r == Err::<Stage, ErrorCode>(ErrorCode::StageInvalid),
    {
        match val {
            1 => Ok(Stage::FundsDeposited),
            2 => Ok(Stage::EscrowComplete),
            3 => Ok(Stage::PullBackComplete),
            _ => Err(ErrorCode::StageInvalid),
        }
    }
}

/// Reading back the tag of a stage gives that stage.
pub proof fn lemma_stage_code_round_trip(s: Stage)
    ensures
        stage_of_code(stage_code(s)) == Some(s),
{
}

} // verus!
