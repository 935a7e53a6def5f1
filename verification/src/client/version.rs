//! The version a server reports.

use crate::client::conversions::text_or_empty;
use crate::interfaces;
use vstd::prelude::*;
use vstd::std_specs::cmp::PartialEqSpecImpl;

verus! {

/// A semantic version: three numbers, and the pre-release and build texts,
/// which are empty where the server gives none.
///
/// Two versions are equal where all five fields are.
#[derive(Debug, Clone)]
pub struct SemanticVersion {
    pub major: u64,
    pub minor: u64,
    pub patch: u64,
    pub pre_release: String,
    pub build: String,
}

/// The mathematical value of a [`SemanticVersion`].
pub struct SemanticVersionView {
    pub major: u64,
    pub minor: u64,
    pub patch: u64,
    pub pre_release: Seq<char>,
    pub build: Seq<char>,
}

impl DeepView for SemanticVersion {
    type V = SemanticVersionView;

    open spec fn deep_view(&self) -> SemanticVersionView {
        SemanticVersionView {
            major: self.major,
            minor: self.minor,
            patch: self.patch,
            pre_release: self.pre_release@,
            build: self.build@,
        }
    }
}

impl SemanticVersionView {
    /// The value in which every field is absent, zero or empty.
    pub open spec fn default_value() -> SemanticVersionView {
        SemanticVersionView {
            major: 0,
            minor: 0,
            patch: 0,
            pre_release: Seq::empty(),
            build: Seq::empty(),
        }
    }
}

impl Default for SemanticVersion {
    fn default() -> (value: Self)
        ensures
            value.deep_view() == SemanticVersionView::default_value(),
    {
        SemanticVersion {
            major: 0,
            minor: 0,
            patch: 0,
            pre_release: String::new(),
            build: String::new(),
        }
    }
}

impl PartialEq for SemanticVersion {
    fn eq(&self, other: &Self) -> (equal: bool) {
        self.major == other.major && self.minor == other.minor && self.patch == other.patch
            && self.pre_release == other.pre_release && self.build == other.build
    }
}

impl PartialEqSpecImpl for SemanticVersion {
    open spec fn obeys_eq_spec() -> bool {
        true
    }

    open spec fn eq_spec(&self, other: &Self) -> bool {
        self.major == other.major && self.minor == other.minor && self.patch == other.patch
            && self.pre_release@ == other.pre_release@ && self.build@ == other.build@
    }
}

impl Eq for SemanticVersion {

}

impl SemanticVersionView {
    /// The value that a wire shape stands for: an absent field resolves to
    /// its default.
    pub open spec fn spec_from_wire(wire: interfaces::SemanticVersionView) -> SemanticVersionView {
        SemanticVersionView {
            major: wire.major,
            minor: wire.minor,
            patch: wire.patch,
            pre_release: wire.pre_release.unwrap_or(Seq::empty()),
            build: wire.build.unwrap_or(Seq::empty()),
        }
    }
}

impl SemanticVersion {
    /// Converts from the wire shape; a text that is absent is empty.
    pub fn from_wire(wire: &interfaces::SemanticVersion) -> (value: Self)
        ensures
            value.deep_view() == SemanticVersionView::spec_from_wire(wire.deep_view()),
    {
        SemanticVersion {
            major: wire.major,
            minor: wire.minor,
            patch: wire.patch,
            pre_release: text_or_empty(&wire.pre_release),
            build: text_or_empty(&wire.build),
        }
    }
}

} // verus!
