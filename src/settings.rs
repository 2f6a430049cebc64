use vstd::prelude::*;

verus! {

/// The four independent switches that govern fingerprint verification.
///
/// Every combination of the flags is legal.
#[derive(Clone, Copy, Debug, PartialEq, Eq, Structural)]
pub struct MapHashingObserverSettings {
    assert_different: bool,
    err_if_same: bool,
    print_crcs: bool,
    log_crcs: bool,
}

impl MapHashingObserverSettings {
    /// Identical fingerprints before and after a run are a fatal invariant violation.
    pub closed spec fn assert_different_spec(&self) -> bool {
        self.assert_different
    }

    /// Identical fingerprints before and after a run are a recoverable error.
    pub closed spec fn err_if_same_spec(&self) -> bool {
        self.err_if_same
    }

    /// Each fingerprint is written to standard output.
    pub closed spec fn print_crcs_spec(&self) -> bool {
        self.print_crcs
    }

    /// Each fingerprint is emitted as an informational log record.
    pub closed spec fn log_crcs_spec(&self) -> bool {
        self.log_crcs
    }

    pub fn new(assert_different: bool, err_if_same: bool, print_crcs: bool, log_crcs: bool) -> (r:
        Self)
        ensures
            r.assert_different_spec() == assert_different,
            r.err_if_same_spec() == err_if_same,
            r.print_crcs_spec() == print_crcs,
            r.log_crcs_spec() == log_crcs,
    {
        MapHashingObserverSettings { assert_different, err_if_same, print_crcs, log_crcs }
    }

    pub fn assert_different(&self) -> (r: bool)
        ensures
            r == self.assert_different_spec(),
    {
        self.assert_different
    }

    pub fn err_if_same(&self) -> (r: bool)
        ensures
            r == self.err_if_same_spec(),
    {
        self.err_if_same
    }

    pub fn print_crcs(&self) -> (r: bool)
        ensures
            r == self.print_crcs_spec(),
    {
        self.print_crcs
    }

    pub fn log_crcs(&self) -> (r: bool)
        ensures
            r == self.log_crcs_spec(),
    {
        self.log_crcs
    }
}

} // verus!
