//! Located diagnostics for the derive pipeline.
//!
//! Every failure in the pipeline is reported as a single [`DeriveError`]: a
//! diagnostic kind together with the location of the most specific source
//! construct that caused it. Locations are opaque handles (indices into a
//! span table kept by the caller); the pipeline only threads them through.

use vstd::prelude::*;

verus! {

/// The taxonomy of failures the pipeline can report.
#[derive(Clone, Copy, Debug, PartialEq, Eq, Structural)]
pub enum DiagKind {
    /// The reserved namespace word is followed by further path segments.
    UnknownPath,
    /// An entry of a namespaced annotation list is not a bare identifier.
    MalformedEntry,
    /// A flag identifier outside the fixed vocabulary of its context.
    UnknownFlag,
    /// The same flag was recorded twice within one annotation scope.
    DuplicateFlag,
    /// The input type is not a struct; only structs are supported.
    UnsupportedShape,
}

/// A located diagnostic. At most one is live per type: the first failure
/// replaces the whole output for that type.
#[derive(Clone, Copy, Debug, PartialEq, Eq, Structural)]
pub struct DeriveError {
    pub kind: DiagKind,
    pub loc: u64,
}

/// The fixed message text attached to each diagnostic kind.
pub open spec fn kind_message(kind: DiagKind) -> Seq<char> {
    match kind {
        DiagKind::UnknownPath => "Unknown path shredder::???"@,
        DiagKind::MalformedEntry => "Unknown shredder flag"@,
        DiagKind::UnknownFlag => "Unknown shredder flag"@,
        DiagKind::DuplicateFlag => "Duplicate shredder flag"@,
        DiagKind::UnsupportedShape => "Unsupported aggregate shape"@,
    }
}

impl DeriveError {
    pub fn new(kind: DiagKind, loc: u64) -> (r: Self)
        ensures
            r.kind == kind,
            r.loc == loc,
    {
        DeriveError { kind, loc }
    }

    /// The error message to surface at `self.loc`.
    pub fn message(&self) -> (r: &'static str)
        ensures
            r@ == kind_message(self.kind),
    {
        match self.kind {
            DiagKind::UnknownPath => "Unknown path shredder::???",
            DiagKind::MalformedEntry => "Unknown shredder flag",
            DiagKind::UnknownFlag => "Unknown shredder flag",
            DiagKind::DuplicateFlag => "Duplicate shredder flag",
            DiagKind::UnsupportedShape => "Unsupported aggregate shape",
        }
    }
}

} // verus!
