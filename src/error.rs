use vstd::prelude::*;

verus! {

/// Why a single file could not be imported.
#[derive(Debug, Clone, Copy, PartialEq, Eq, Structural)]
pub enum ImportError {
    /// No identifier in the filename and no season override was given.
    MissingSeason,
    /// No identifier in the filename and no tier override was given.
    MissingTier,
    /// The identifier segment holds no digits, or a number too large for an `i64`.
    InvalidMatchId,
    /// The match is a series, but no map digit follows the identifier segment.
    SeriesMapMissing,
    /// The store holds no row for the identifier.
    LookupNotFound,
    /// The store query itself failed.
    LookupFailure,
    /// A combine match was resolved, but no season override was given.
    OverrideRequired,
    /// The resolved match identifier is absent or empty.
    MissingMatchId,
    /// The service answered with a status other than 200.
    SubmissionRejected(u16),
}

} // verus!
