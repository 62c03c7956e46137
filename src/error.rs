use vstd::prelude::*;

verus! {

/// Why an escrow operation was refused. Every refusal leaves the record and the funds as
/// they were.
#[derive(Clone, Copy, Debug, PartialEq, Eq, Structural)]
pub enum ErrorCode {
    /// A wallet handed in is not owned by the party it is claimed for, or holds another asset.
    WalletToWithdrawFromInvalid,
    /// The record does not belong to the participants, asset or index handed in.
    InvalidStateIdx,
    /// An account does not sit at the address derived from its seeds, or the custody holding
    /// is not controlled by the record's derived authority.
    DelegateNotSetCorrectly,
    /// The operation is not allowed in the record's current stage, or the stored stage
    /// tag names no stage.
    StageInvalid,
}

} // verus!
