//! Access logs and Merkle proofs as they travel.

use vstd::prelude::*;

verus! {

/// A hash in base64.
pub type Base64Hash = String;

/// Hashes in base64, in order.
pub type Base64HashArray = Vec<Base64Hash>;

/// Binary data in base64.
pub type Base64String = String;

/// The kind of an access: `"read"` or `"write"`.
pub type AccessType = Scalar;

/// The kind of a bracket: `"begin"` or `"end"`.
pub type BracketType = Scalar;

/// The accesses of a log, in order.
pub type AccessArray = Vec<Access>;

/// The brackets of a log, in order.
pub type BracketArray = Vec<Bracket>;

/// The notes of a log, in order.
pub type NoteArray = Vec<String>;

/// A value whose JSON type the interface leaves open.
///
/// The interface spells its enumerations as strings, so a string is kept as
/// it is. Of any other JSON value only the fact that it is no string is kept.
#[derive(Debug, Clone, PartialEq)]
pub enum Scalar {
    /// A JSON string, without its quotes.
    Text(String),
    /// Any other JSON value.
    Other,
}

/// The mathematical value of a [`Scalar`].
pub enum ScalarView {
    Text(Seq<char>),
    Other,
}

impl DeepView for Scalar {
    type V = ScalarView;

    open spec fn deep_view(&self) -> ScalarView {
        match self {
            Scalar::Text(text) => ScalarView::Text(text@),
            Scalar::Other => ScalarView::Other,
        }
    }
}

impl ScalarView {
    /// The value that stands for "no string".
    pub open spec fn default_value() -> ScalarView {
        ScalarView::Other
    }
}

impl Default for Scalar {
    fn default() -> (value: Self)
        ensures
            value.deep_view() == ScalarView::default_value(),
    {
        Scalar::Other
    }
}

/// A Merkle proof: the hashes that tie a target node to the root of the tree.
#[derive(Debug, Clone, PartialEq)]
pub struct Proof {
    pub log_2_root_size: u64,
    pub log_2_target_size: u64,
    pub root_hash: String,
    pub sibling_hashes: Vec<String>,
    pub target_address: u64,
    pub target_hash: String,
}

/// The mathematical value of a [`Proof`].
pub struct ProofView {
    pub log_2_root_size: u64,
    pub log_2_target_size: u64,
    pub root_hash: Seq<char>,
    pub sibling_hashes: Seq<Seq<char>>,
    pub target_address: u64,
    pub target_hash: Seq<char>,
}

impl DeepView for Proof {
    type V = ProofView;

    open spec fn deep_view(&self) -> ProofView {
        ProofView {
            log_2_root_size: self.log_2_root_size,
            log_2_target_size: self.log_2_target_size,
            root_hash: self.root_hash@,
            sibling_hashes: self.sibling_hashes.deep_view(),
            target_address: self.target_address,
            target_hash: self.target_hash@,
        }
    }
}

impl ProofView {
    /// The value in which every field is absent, zero or empty.
    pub open spec fn default_value() -> ProofView {
        ProofView {
            log_2_root_size: 0,
            log_2_target_size: 0,
            root_hash: Seq::empty(),
            sibling_hashes: Seq::empty(),
            target_address: 0,
            target_hash: Seq::empty(),
        }
    }
}

impl Default for Proof {
    fn default() -> (value: Self)
        ensures
            value.deep_view() == ProofView::default_value(),
    {
        let value = Proof {
            log_2_root_size: 0,
            log_2_target_size: 0,
            root_hash: String::new(),
            sibling_hashes: Vec::new(),
            target_address: 0,
            target_hash: String::new(),
        };
        assert(value.sibling_hashes.deep_view() =~= Seq::empty());
        value
    }
}

/// One access to the machine state.
#[derive(Debug, Clone, PartialEq)]
pub struct Access {
    pub address: u64,
    pub log_2_size: u64,
    pub proof: Option<Proof>,
    /// Data before the access, in base64.
    pub read: String,
    pub access_type: Scalar,
    /// Data after the access, in base64.
    pub written: Option<String>,
}

/// The mathematical value of a [`Access`].
pub struct AccessView {
    pub address: u64,
    pub log_2_size: u64,
    pub proof: Option<ProofView>,
    pub read: Seq<char>,
    pub access_type: ScalarView,
    pub written: Option<Seq<char>>,
}

impl DeepView for Access {
    type V = AccessView;

    open spec fn deep_view(&self) -> AccessView {
        AccessView {
            address: self.address,
            log_2_size: self.log_2_size,
            proof: self.proof.deep_view(),
            read: self.read@,
            access_type: self.access_type.deep_view(),
            written: self.written.deep_view(),
        }
    }
}

impl AccessView {
    /// The value in which every field is absent, zero or empty.
    pub open spec fn default_value() -> AccessView {
        AccessView {
            address: 0,
            log_2_size: 0,
            proof: None,
            read: Seq::empty(),
            access_type: ScalarView::default_value(),
            written: None,
        }
    }
}

impl Default for Access {
    fn default() -> (value: Self)
        ensures
            value.deep_view() == AccessView::default_value(),
    {
        Access {
            address: 0,
            log_2_size: 0,
            proof: None,
            read: String::new(),
            access_type: Scalar::default(),
            written: None,
        }
    }
}

/// A note that opens or closes a group of accesses.
#[derive(Debug, Clone, PartialEq)]
pub struct Bracket {
    pub text: String,
    pub bracket_type: Scalar,
    /// The access the bracket points to.
    pub location: u64,
}

/// The mathematical value of a [`Bracket`].
pub struct BracketView {
    pub text: Seq<char>,
    pub bracket_type: ScalarView,
    pub location: u64,
}

impl DeepView for Bracket {
    type V = BracketView;

    open spec fn deep_view(&self) -> BracketView {
        BracketView {
            text: self.text@,
            bracket_type: self.bracket_type.deep_view(),
            location: self.location,
        }
    }
}

impl BracketView {
    /// The value in which every field is absent, zero or empty.
    pub open spec fn default_value() -> BracketView {
        BracketView {
            text: Seq::empty(),
            bracket_type: ScalarView::default_value(),
            location: 0,
        }
    }
}

impl Default for Bracket {
    fn default() -> (value: Self)
        ensures
            value.deep_view() == BracketView::default_value(),
    {
        Bracket {
            text: String::new(),
            bracket_type: Scalar::default(),
            location: 0,
        }
    }
}

/// What a log carries beside the accesses themselves.
#[derive(Debug, Clone, Copy, PartialEq)]
pub struct AccessLogType {
    pub has_annotations: bool,
    pub has_proofs: bool,
}

impl DeepView for AccessLogType {
    type V = AccessLogType;

    open spec fn deep_view(&self) -> AccessLogType {
        *self
    }
}

impl AccessLogType {
    /// The value in which every field is absent, zero or empty.
    pub open spec fn default_value() -> AccessLogType {
        AccessLogType {
            has_annotations: false,
            has_proofs: false,
        }
    }
}

impl Default for AccessLogType {
    fn default() -> (value: Self)
        ensures
            value == AccessLogType::default_value(),
    {
        AccessLogType {
            has_annotations: false,
            has_proofs: false,
        }
    }
}

/// The accesses of one step, in order.
#[derive(Debug, Clone, PartialEq)]
pub struct AccessLog {
    pub accesses: Vec<Access>,
    pub brackets: Option<Vec<Bracket>>,
    pub log_type: AccessLogType,
    pub notes: Option<Vec<String>>,
}

/// The mathematical value of a [`AccessLog`].
pub struct AccessLogView {
    pub accesses: Seq<AccessView>,
    pub brackets: Option<Seq<BracketView>>,
    pub log_type: AccessLogType,
    pub notes: Option<Seq<Seq<char>>>,
}

impl DeepView for AccessLog {
    type V = AccessLogView;

    open spec fn deep_view(&self) -> AccessLogView {
        AccessLogView {
            accesses: self.accesses.deep_view(),
            brackets: self.brackets.deep_view(),
            log_type: self.log_type,
            notes: self.notes.deep_view(),
        }
    }
}

impl AccessLogView {
    /// The value in which every field is absent, zero or empty.
    pub open spec fn default_value() -> AccessLogView {
        AccessLogView {
            accesses: Seq::empty(),
            brackets: None,
            log_type: AccessLogType::default_value(),
            notes: None,
        }
    }
}

impl Default for AccessLog {
    fn default() -> (value: Self)
        ensures
            value.deep_view() == AccessLogView::default_value(),
    {
        let value = AccessLog {
            accesses: Vec::new(),
            brackets: None,
            log_type: AccessLogType::default(),
            notes: None,
        };
        assert(value.accesses.deep_view() =~= Seq::empty());
        value
    }
}

} // verus!
