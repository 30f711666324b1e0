//! The ways in which a run can fail.

use vstd::prelude::*;

verus! {

/// A read of the outside world gave nothing to compare.
#[derive(Clone, Copy, Debug, PartialEq, Eq, Structural)]
pub enum LookupFailure {
    /// The request for the public address failed.
    PublicIpUnavailable,
    /// The answer to that request is not an IPv4 address in text.
    PublicIpMalformed,
    /// The request for the zone's records failed.
    RecordsUnavailable,
    /// The zone holds no address record for the host.
    RecordMissing,
}

/// The write of the record did not go through.
#[derive(Clone, Copy, Debug, PartialEq, Eq, Structural)]
pub enum UpdateFailure {
    /// The request to update the record failed.
    Rejected,
    /// The provider answered with something other than an address record.
    NotAnAddress,
}

/// Why a run ended without the record being right.
#[derive(Clone, Copy, Debug, PartialEq, Eq, Structural)]
pub enum ReconcileError {
    Lookup(LookupFailure),
    Update(UpdateFailure),
    /// The record was rewritten, and the addresses read afterwards still differ.
    Convergence,
}

} // verus!
