//! Small values that readers of the trace keep.

use vstd::prelude::*;

verus! {

/// The identity of a quantifier instantiation, by which the lines that
/// speak of it are brought together. The trace writes it with 16
/// hexadecimal digits.
pub type Z3Fingerprint = u64;

/// The solver that wrote the trace, and its version.
pub struct VersionInfo {
    solver: String,
    version: String,
}

/// What a [`VersionInfo`] holds, as texts.
pub struct VersionInfoView {
    pub solver: Seq<char>,
    pub version: Seq<char>,
}

impl View for VersionInfo {
    type V = VersionInfoView;

    closed spec fn view(&self) -> VersionInfoView {
        VersionInfoView { solver: self.solver@, version: self.version@ }
    }
}

impl Default for VersionInfo {
    /// Both texts empty: nothing is known yet.
    fn default() -> (info: Self)
        ensures
            info@.solver == Seq::<char>::empty(),
            info@.version == Seq::<char>::empty(),
    {
        VersionInfo { solver: String::new(), version: String::new() }
    }
}

impl VersionInfo {
    /// The value for the given solver and version.
    pub fn new(solver: String, version: String) -> (info: Self)
        ensures
            info@.solver == solver@,
            info@.version == version@,
    {
        VersionInfo { solver, version }
    }

    /// The solver's name.
    pub fn solver(&self) -> (name: &str)
        ensures
            name@ == self@.solver,
    {
        self.solver.as_str()
    }

    /// The solver's version.
    pub fn version(&self) -> (number: &str)
        ensures
            number@ == self@.version,
    {
        self.version.as_str()
    }
}

} // verus!
