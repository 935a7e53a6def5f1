//! Access logs and Merkle proofs as a caller holds them, and their conversions.
//!
//! The data of an access is held as bytes here and as base64 text on the wire.
//! The kinds of accesses and brackets are enumerations here and strings on the
//! wire; a string that names no kind is read as the first kind.

use crate::client::payload::{
    decode_payload, encode_payload, payload_decoding, payload_encoding, Malformed,
};
use crate::interfaces;
use crate::interfaces::{Scalar, ScalarView};
use vstd::prelude::*;
use vstd::string::*;

verus! {

/// A proof that the node spanning `2^log2_target_size` bytes at some address
/// of the Merkle tree has a certain hash.
#[derive(Debug, Clone, PartialEq)]
pub struct MerkleTreeProof {
    /// The address of the target node.
    pub target_address: u64,
    /// Log2 of the size of the target node.
    pub log2_target_size: usize,
    /// The hash of the target node, in base64.
    pub target_hash: String,
    /// Log2 of the size of the whole tree.
    pub log2_root_size: usize,
    /// The hash of the root, in base64.
    pub root_hash: String,
    /// The hashes of the siblings on the path to the root, in base64.
    pub sibling_hashes: Vec<String>,
}

/// The mathematical value of a [`MerkleTreeProof`].
pub struct MerkleTreeProofView {
    pub target_address: u64,
    pub log2_target_size: usize,
    pub target_hash: Seq<char>,
    pub log2_root_size: usize,
    pub root_hash: Seq<char>,
    pub sibling_hashes: Seq<Seq<char>>,
}

impl DeepView for MerkleTreeProof {
    type V = MerkleTreeProofView;

    open spec fn deep_view(&self) -> MerkleTreeProofView {
        MerkleTreeProofView {
            target_address: self.target_address,
            log2_target_size: self.log2_target_size,
            target_hash: self.target_hash@,
            log2_root_size: self.log2_root_size,
            root_hash: self.root_hash@,
            sibling_hashes: self.sibling_hashes.deep_view(),
        }
    }
}

impl MerkleTreeProofView {
    /// The value in which every field is absent, zero or empty.
    pub open spec fn default_value() -> MerkleTreeProofView {
        MerkleTreeProofView {
            target_address: 0,
            log2_target_size: 0,
            target_hash: Seq::empty(),
            log2_root_size: 0,
            root_hash: Seq::empty(),
            sibling_hashes: Seq::empty(),
        }
    }
}

impl Default for MerkleTreeProof {
    fn default() -> (value: Self)
        ensures
            value.deep_view() == MerkleTreeProofView::default_value(),
    {
        let value = MerkleTreeProof {
            target_address: 0,
            log2_target_size: 0,
            target_hash: String::new(),
            log2_root_size: 0,
            root_hash: String::new(),
            sibling_hashes: Vec::new(),
        };
        assert(value.sibling_hashes.deep_view() =~= Seq::empty());
        value
    }
}

impl MerkleTreeProofView {
    /// The wire shape of this proof.
    pub open spec fn spec_to_wire(self) -> interfaces::ProofView {
        interfaces::ProofView {
            target_address: self.target_address,
            log_2_target_size: self.log2_target_size as u64,
            log_2_root_size: self.log2_root_size as u64,
            target_hash: self.target_hash,
            root_hash: self.root_hash,
            sibling_hashes: self.sibling_hashes,
        }
    }

    /// The proof that a wire shape stands for. Sizes are cut to the width of
    /// `usize`.
    pub open spec fn spec_from_wire(wire: interfaces::ProofView) -> MerkleTreeProofView {
        MerkleTreeProofView {
            target_address: wire.target_address,
            log2_target_size: wire.log_2_target_size as usize,
            log2_root_size: wire.log_2_root_size as usize,
            target_hash: wire.target_hash,
            root_hash: wire.root_hash,
            sibling_hashes: wire.sibling_hashes,
        }
    }

    /// Converting to the wire and back changes nothing.
    pub proof fn lemma_round_trip(value: MerkleTreeProofView)
        ensures
            MerkleTreeProofView::spec_from_wire(value.spec_to_wire()) == value,
    {
    }
}

impl MerkleTreeProof {
    /// Converts to the wire shape. The hashes are carried over as they are.
    pub fn to_wire(&self) -> (wire: interfaces::Proof)
        ensures
            wire.deep_view() == self.deep_view().spec_to_wire(),
    {
        let wire = interfaces::Proof {
            target_address: self.target_address,
            log_2_target_size: self.log2_target_size as u64,
            log_2_root_size: self.log2_root_size as u64,
            target_hash: self.target_hash.clone(),
            root_hash: self.root_hash.clone(),
            sibling_hashes: self.sibling_hashes.clone(),
        };
        assert(wire.sibling_hashes.deep_view() =~= self.sibling_hashes.deep_view());
        wire
    }

    /// Converts from the wire shape. The hashes are carried over as they are,
    /// in the same number and order.
    pub fn from_wire(wire: &interfaces::Proof) -> (value: Self)
        ensures
            value.deep_view() == MerkleTreeProofView::spec_from_wire(wire.deep_view()),
    {
        let value = MerkleTreeProof {
            target_address: wire.target_address,
            log2_target_size: #[verifier::truncate]
            (wire.log_2_target_size as usize),
            log2_root_size: #[verifier::truncate]
            (wire.log_2_root_size as usize),
            target_hash: wire.target_hash.clone(),
            root_hash: wire.root_hash.clone(),
            sibling_hashes: wire.sibling_hashes.clone(),
        };
        assert(value.sibling_hashes.deep_view() =~= wire.sibling_hashes.deep_view());
        value
    }
}

/// The kind of an access to the machine state.
#[derive(Debug, Clone, Copy, PartialEq)]
pub enum AccessType {
    /// The access reads the state.
    Read,
    /// The access changes the state.
    Write,
}

impl DeepView for AccessType {
    type V = AccessType;

    open spec fn deep_view(&self) -> AccessType {
        *self
    }
}

impl AccessType {
    /// The string that names this kind on the wire.
    pub open spec fn spec_to_wire(self) -> ScalarView {
        match self {
            AccessType::Read => ScalarView::Text("read"@),
            AccessType::Write => ScalarView::Text("write"@),
        }
    }

    /// The kind that a wire value names: `"read"` or `"write"`. Any other
    /// value is read as [`AccessType::Read`].
    pub open spec fn spec_from_wire(wire: ScalarView) -> AccessType {
        match wire {
            ScalarView::Text(text) => {
                if text == "read"@ {
                    AccessType::Read
                } else if text == "write"@ {
                    AccessType::Write
                } else {
                    AccessType::Read
                }
            },
            ScalarView::Other => AccessType::Read,
        }
    }

    /// Converting to the wire and back changes nothing.
    pub proof fn lemma_round_trip(value: AccessType)
        ensures
            AccessType::spec_from_wire(value.spec_to_wire()) == value,
    {
        reveal_strlit("read");
        reveal_strlit("write");
        assert("read"@.len() != "write"@.len());
    }

    /// Converts to the string that names this kind on the wire.
    pub fn to_wire(&self) -> (wire: Scalar)
        ensures
            wire.deep_view() == self.spec_to_wire(),
    {
        match self {
            AccessType::Read => Scalar::Text(String::from_str("read")),
            AccessType::Write => Scalar::Text(String::from_str("write")),
        }
    }

    /// Reads the kind of an access from a wire value. A value that names no kind
    /// does not fail: it is read as [`AccessType::Read`].
    pub fn from_wire(wire: &Scalar) -> (value: Self)
        ensures
            value == AccessType::spec_from_wire(wire.deep_view()),
    {
        match wire {
            Scalar::Text(text) => {
                if *text == String::from_str("read") {
                    AccessType::Read
                } else if *text == String::from_str("write") {
                    AccessType::Write
                } else {
                    AccessType::Read
                }
            },
            Scalar::Other => AccessType::Read,
        }
    }
}

/// What a log carries beside the accesses themselves.
#[derive(Debug, Clone, Copy, PartialEq)]
pub struct AccessLogType {
    /// Whether each access comes with a Merkle proof.
    pub proofs: bool,
    /// Whether the log comes with brackets and notes.
    pub annotations: bool,
}

impl DeepView for AccessLogType {
    type V = AccessLogType;

    open spec fn deep_view(&self) -> AccessLogType {
        *self
    }
}

impl AccessLogType {
    /// The value in which every field is absent, zero or empty.
    pub open spec fn default_value() -> AccessLogType {
        AccessLogType {
            proofs: false,
            annotations: false,
        }
    }
}

impl Default for AccessLogType {
    fn default() -> (value: Self)
        ensures
            value == AccessLogType::default_value(),
    {
        AccessLogType {
            proofs: false,
            annotations: false,
        }
    }
}

impl AccessLogType {
    /// The wire shape of this value.
    pub open spec fn spec_to_wire(self) -> interfaces::AccessLogType {
        interfaces::AccessLogType { has_proofs: self.proofs, has_annotations: self.annotations }
    }

    /// The value that a wire shape stands for.
    pub open spec fn spec_from_wire(wire: interfaces::AccessLogType) -> AccessLogType {
        AccessLogType { proofs: wire.has_proofs, annotations: wire.has_annotations }
    }

    /// Converting to the wire and back changes nothing.
    pub proof fn lemma_round_trip(value: AccessLogType)
        ensures
            AccessLogType::spec_from_wire(value.spec_to_wire()) == value,
    {
    }

    /// Converts to the wire shape.
    pub fn to_wire(&self) -> (wire: interfaces::AccessLogType)
        ensures
            wire == self.spec_to_wire(),
    {
        interfaces::AccessLogType { has_proofs: self.proofs, has_annotations: self.annotations }
    }

    /// Converts from the wire shape.
    pub fn from_wire(wire: &interfaces::AccessLogType) -> (value: Self)
        ensures
            value == AccessLogType::spec_from_wire(*wire),
    {
        AccessLogType { proofs: wire.has_proofs, annotations: wire.has_annotations }
    }
}

/// One access to the machine state.
#[derive(Debug, Clone, PartialEq)]
pub struct Access {
    /// The kind of the access.
    pub access_type: AccessType,
    /// The address of the access.
    pub address: u64,
    /// Log2 of the size of the access.
    pub log2_size: i32,
    /// The data before the access.
    pub read_data: Vec<u8>,
    /// The data after the access, where it writes.
    pub written_data: Vec<u8>,
    /// The proof of the data before the access.
    pub proof: MerkleTreeProof,
}

/// The mathematical value of a [`Access`].
pub struct AccessView {
    pub access_type: AccessType,
    pub address: u64,
    pub log2_size: i32,
    pub read_data: Seq<u8>,
    pub written_data: Seq<u8>,
    pub proof: MerkleTreeProofView,
}

impl DeepView for Access {
    type V = AccessView;

    open spec fn deep_view(&self) -> AccessView {
        AccessView {
            access_type: self.access_type,
            address: self.address,
            log2_size: self.log2_size,
            read_data: self.read_data@,
            written_data: self.written_data@,
            proof: self.proof.deep_view(),
        }
    }
}

impl AccessView {
    /// The wire shape of this access: both data fields in base64 with the
    /// line-break rule, the proof and the written data present.
    pub open spec fn spec_to_wire(self) -> interfaces::AccessView {
        interfaces::AccessView {
            address: self.address,
            log_2_size: self.log2_size as u64,
            proof: Some(self.proof.spec_to_wire()),
            read: payload_encoding(self.read_data),
            access_type: self.access_type.spec_to_wire(),
            written: Some(payload_encoding(self.written_data)),
        }
    }

    /// The access that a wire shape stands for, or `None` where one of its
    /// data fields is malformed. Written data that is absent is empty text; a
    /// proof that is absent is the empty proof.
    pub open spec fn spec_from_wire(wire: interfaces::AccessView) -> Option<AccessView> {
        match (
            payload_decoding(wire.read),
            payload_decoding(wire.written.unwrap_or(Seq::empty())),
        ) {
            (Some(read_data), Some(written_data)) => Some(
                AccessView {
                    access_type: AccessType::spec_from_wire(wire.access_type),
                    address: wire.address,
                    log2_size: wire.log_2_size as i32,
                    read_data,
                    written_data,
                    proof: match wire.proof {
                        Some(present) => MerkleTreeProofView::spec_from_wire(present),
                        None => MerkleTreeProofView::default_value(),
                    },
                },
            ),
            _ => None,
        }
    }
}

impl Access {
    /// Converts to the wire shape.
    ///
    /// The result converts back to this access.
    pub fn to_wire(&self) -> (wire: interfaces::Access)
        ensures
            wire.deep_view() == self.deep_view().spec_to_wire(),
            AccessView::spec_from_wire(wire.deep_view()) == Some(self.deep_view()),
    {
        let wire = interfaces::Access {
            access_type: self.access_type.to_wire(),
            read: encode_payload(self.read_data.as_slice()),
            written: Some(encode_payload(self.written_data.as_slice())),
            proof: Some(self.proof.to_wire()),
            address: self.address,
            log_2_size: #[verifier::truncate]
            (self.log2_size as u64),
        };
        proof {
            let size = self.log2_size;
            assert(((size as u64) as i32) == size) by (bit_vector);
            AccessType::lemma_round_trip(self.access_type);
            MerkleTreeProofView::lemma_round_trip(self.proof.deep_view());
        }
        wire
    }

    /// Converts from the wire shape.
    ///
    /// Fails exactly where the data before the access or the data after it is
    /// not base64; nothing is cut or replaced to make it fit.
    pub fn from_wire(wire: &interfaces::Access) -> (converted: Result<Self, Malformed>)
        ensures
            match converted {
                Ok(value) => AccessView::spec_from_wire(wire.deep_view()) == Some(
                    value.deep_view(),
                ),
                Err(_) => AccessView::spec_from_wire(wire.deep_view()) is None,
            },
    {
        let access_type = AccessType::from_wire(&wire.access_type);
        let read_data = match decode_payload(wire.read.as_str()) {
            Ok(data) => data,
            Err(error) => {
                return Err(error);
            },
        };
        proof {
            reveal_strlit("");
            assert(""@ =~= Seq::<char>::empty());
        }
        let written = match &wire.written {
            Some(text) => decode_payload(text.as_str()),
            None => decode_payload(""),
        };
        let written_data = match written {
            Ok(data) => data,
            Err(error) => {
                return Err(error);
            },
        };
        Ok(
            Access {
                access_type,
                read_data,
                written_data,
                proof: match &wire.proof {
                    Some(present) => MerkleTreeProof::from_wire(present),
                    None => MerkleTreeProof::default(),
                },
                address: wire.address,
                log2_size: #[verifier::truncate]
                (wire.log_2_size as i32),
            },
        )
    }
}

/// The kind of a bracket.
#[derive(Debug, Clone, Copy, PartialEq)]
pub enum BracketType {
    /// The bracket opens a group.
    Begin,
    /// The bracket closes a group.
    End,
}

impl DeepView for BracketType {
    type V = BracketType;

    open spec fn deep_view(&self) -> BracketType {
        *self
    }
}

impl BracketType {
    /// The string that names this kind on the wire.
    pub open spec fn spec_to_wire(self) -> ScalarView {
        match self {
            BracketType::Begin => ScalarView::Text("begin"@),
            BracketType::End => ScalarView::Text("end"@),
        }
    }

    /// The kind that a wire value names: `"begin"` or `"end"`. Any other
    /// value is read as [`BracketType::Begin`].
    pub open spec fn spec_from_wire(wire: ScalarView) -> BracketType {
        match wire {
            ScalarView::Text(text) => {
                if text == "begin"@ {
                    BracketType::Begin
                } else if text == "end"@ {
                    BracketType::End
                } else {
                    BracketType::Begin
                }
            },
            ScalarView::Other => BracketType::Begin,
        }
    }

    /// Converting to the wire and back changes nothing.
    pub proof fn lemma_round_trip(value: BracketType)
        ensures
            BracketType::spec_from_wire(value.spec_to_wire()) == value,
    {
        reveal_strlit("begin");
        reveal_strlit("end");
        assert("begin"@.len() != "end"@.len());
    }

    /// Converts to the string that names this kind on the wire.
    pub fn to_wire(&self) -> (wire: Scalar)
        ensures
            wire.deep_view() == self.spec_to_wire(),
    {
        match self {
            BracketType::Begin => Scalar::Text(String::from_str("begin")),
            BracketType::End => Scalar::Text(String::from_str("end")),
        }
    }

    /// Reads the kind of a bracket from a wire value. A value that names no kind
    /// does not fail: it is read as [`BracketType::Begin`].
    pub fn from_wire(wire: &Scalar) -> (value: Self)
        ensures
            value == BracketType::spec_from_wire(wire.deep_view()),
    {
        match wire {
            Scalar::Text(text) => {
                if *text == String::from_str("begin") {
                    BracketType::Begin
                } else if *text == String::from_str("end") {
                    BracketType::End
                } else {
                    BracketType::Begin
                }
            },
            Scalar::Other => BracketType::Begin,
        }
    }
}

/// A note that opens or closes a group of accesses.
#[derive(Debug, Clone, PartialEq)]
pub struct BracketNote {
    /// The kind of the bracket.
    pub bracket_type: BracketType,
    /// The access the bracket points to.
    pub location: u64,
    /// The text of the note.
    pub text: String,
}

/// The mathematical value of a [`BracketNote`].
pub struct BracketNoteView {
    pub bracket_type: BracketType,
    pub location: u64,
    pub text: Seq<char>,
}

impl DeepView for BracketNote {
    type V = BracketNoteView;

    open spec fn deep_view(&self) -> BracketNoteView {
        BracketNoteView {
            bracket_type: self.bracket_type,
            location: self.location,
            text: self.text@,
        }
    }
}

impl BracketNoteView {
    /// The wire shape of this note.
    pub open spec fn spec_to_wire(self) -> interfaces::BracketView {
        interfaces::BracketView {
            bracket_type: self.bracket_type.spec_to_wire(),
            location: self.location,
            text: self.text,
        }
    }

    /// The note that a wire shape stands for.
    pub open spec fn spec_from_wire(wire: interfaces::BracketView) -> BracketNoteView {
        BracketNoteView {
            bracket_type: BracketType::spec_from_wire(wire.bracket_type),
            location: wire.location,
            text: wire.text,
        }
    }

    /// Converting to the wire and back changes nothing.
    pub proof fn lemma_round_trip(value: BracketNoteView)
        ensures
            BracketNoteView::spec_from_wire(value.spec_to_wire()) == value,
    {
        BracketType::lemma_round_trip(value.bracket_type);
    }
}

impl BracketNote {
    /// Converts to the wire shape.
    pub fn to_wire(&self) -> (wire: interfaces::Bracket)
        ensures
            wire.deep_view() == self.deep_view().spec_to_wire(),
    {
        interfaces::Bracket {
            bracket_type: self.bracket_type.to_wire(),
            location: self.location,
            text: self.text.clone(),
        }
    }

    /// Converts from the wire shape.
    pub fn from_wire(wire: &interfaces::Bracket) -> (value: Self)
        ensures
            value.deep_view() == BracketNoteView::spec_from_wire(wire.deep_view()),
    {
        BracketNote {
            bracket_type: BracketType::from_wire(&wire.bracket_type),
            location: wire.location,
            text: wire.text.clone(),
        }
    }
}

/// The accesses of one step, in order.
#[derive(Debug, Clone, PartialEq)]
pub struct AccessLog {
    pub accesses: Vec<Access>,
    pub brackets: Vec<BracketNote>,
    pub notes: Vec<String>,
    pub log_type: AccessLogType,
}

/// The mathematical value of a [`AccessLog`].
pub struct AccessLogView {
    pub accesses: Seq<AccessView>,
    pub brackets: Seq<BracketNoteView>,
    pub notes: Seq<Seq<char>>,
    pub log_type: AccessLogType,
}

impl DeepView for AccessLog {
    type V = AccessLogView;

    open spec fn deep_view(&self) -> AccessLogView {
        AccessLogView {
            accesses: self.accesses.deep_view(),
            brackets: self.brackets.deep_view(),
            notes: self.notes.deep_view(),
            log_type: self.log_type,
        }
    }
}

/// The accesses as the wire holds them.
pub open spec fn spec_accesses_to_wire(accesses: Seq<AccessView>) -> Seq<interfaces::AccessView> {
    Seq::new(accesses.len(), |i: int| accesses[i].spec_to_wire())
}

/// The accesses that a wire list stands for, or `None` where one of them is
/// malformed.
pub open spec fn spec_accesses_from_wire(wire: Seq<interfaces::AccessView>) -> Option<
    Seq<AccessView>,
> {
    if forall|i: int|
        0 <= i < wire.len() ==> AccessView::spec_from_wire(#[trigger] wire[i]) is Some {
        Some(Seq::new(wire.len(), |i: int| AccessView::spec_from_wire(wire[i]).unwrap()))
    } else {
        None
    }
}

/// The brackets as the wire holds them.
pub open spec fn spec_brackets_to_wire(brackets: Seq<BracketNoteView>) -> Seq<
    interfaces::BracketView,
> {
    Seq::new(brackets.len(), |i: int| brackets[i].spec_to_wire())
}

/// The brackets that a wire list stands for; an absent list is empty.
pub open spec fn spec_brackets_from_wire(wire: Option<Seq<interfaces::BracketView>>) -> Seq<
    BracketNoteView,
> {
    match wire {
        Some(brackets) => Seq::new(
            brackets.len(),
            |i: int| BracketNoteView::spec_from_wire(brackets[i]),
        ),
        None => Seq::empty(),
    }
}

fn accesses_to_wire(accesses: &Vec<Access>) -> (wire: Vec<interfaces::Access>)
    ensures
        wire.deep_view() == spec_accesses_to_wire(accesses.deep_view()),
        spec_accesses_from_wire(wire.deep_view()) == Some(accesses.deep_view()),
{
    let mut wire: Vec<interfaces::Access> = Vec::new();
    let mut index: usize = 0;
    while index < accesses.len()
        invariant
            index <= accesses.len(),
            wire.len() == index,
            forall|i: int|
                0 <= i < index ==> (#[trigger] wire[i]).deep_view()
                    == accesses[i].deep_view().spec_to_wire(),
            forall|i: int|
                0 <= i < index ==> AccessView::spec_from_wire((#[trigger] wire[i]).deep_view())
                    == Some(accesses[i].deep_view()),
        decreases accesses.len() - index,
    {
        wire.push(accesses[index].to_wire());
        index += 1;
    }
    assert(wire.deep_view() =~= spec_accesses_to_wire(accesses.deep_view()));
    assert forall|i: int| 0 <= i < wire.deep_view().len() implies AccessView::spec_from_wire(
        #[trigger] wire.deep_view()[i],
    ) == Some(accesses.deep_view()[i]) by {
        assert(wire.deep_view()[i] == wire[i].deep_view());
    }
    assert(spec_accesses_from_wire(wire.deep_view()).unwrap() =~= accesses.deep_view());
    wire
}

fn accesses_from_wire(wire: &Vec<interfaces::Access>) -> (converted: Result<Vec<Access>, Malformed>)
    ensures
        match converted {
            Ok(accesses) => spec_accesses_from_wire(wire.deep_view()) == Some(
                accesses.deep_view(),
            ),
            Err(_) => spec_accesses_from_wire(wire.deep_view()) is None,
        },
{
    let mut accesses: Vec<Access> = Vec::new();
    let mut index: usize = 0;
    while index < wire.len()
        invariant
            index <= wire.len(),
            accesses.len() == index,
            forall|i: int|
                0 <= i < index ==> AccessView::spec_from_wire(wire[i].deep_view()) == Some(
                    (#[trigger] accesses[i]).deep_view(),
                ),
        decreases wire.len() - index,
    {
        match Access::from_wire(&wire[index]) {
            Ok(access) => {
                accesses.push(access);
            },
            Err(error) => {
                assert(AccessView::spec_from_wire(wire.deep_view()[index as int]) is None);
                return Err(error);
            },
        }
        index += 1;
    }
    assert forall|i: int| 0 <= i < wire.deep_view().len() implies AccessView::spec_from_wire(
        #[trigger] wire.deep_view()[i],
    ) is Some by {
        assert(wire.deep_view()[i] == wire[i].deep_view());
        assert(AccessView::spec_from_wire(wire[i].deep_view()) == Some(accesses[i].deep_view()));
    }
    assert(spec_accesses_from_wire(wire.deep_view()).unwrap() =~= accesses.deep_view()) by {
        assert forall|i: int| 0 <= i < wire.deep_view().len() implies AccessView::spec_from_wire(
            wire.deep_view()[i],
        ).unwrap() == #[trigger] accesses.deep_view()[i] by {
            assert(wire.deep_view()[i] == wire[i].deep_view());
            assert(AccessView::spec_from_wire(wire[i].deep_view()) == Some(
                accesses[i].deep_view(),
            ));
        }
    }
    Ok(accesses)
}

fn brackets_to_wire(brackets: &Vec<BracketNote>) -> (wire: Vec<interfaces::Bracket>)
    ensures
        wire.deep_view() == spec_brackets_to_wire(brackets.deep_view()),
{
    let mut wire: Vec<interfaces::Bracket> = Vec::new();
    let mut index: usize = 0;
    while index < brackets.len()
        invariant
            index <= brackets.len(),
            wire.len() == index,
            forall|i: int|
                0 <= i < index ==> (#[trigger] wire[i]).deep_view()
                    == brackets[i].deep_view().spec_to_wire(),
        decreases brackets.len() - index,
    {
        wire.push(brackets[index].to_wire());
        index += 1;
    }
    assert(wire.deep_view() =~= spec_brackets_to_wire(brackets.deep_view()));
    wire
}

fn brackets_from_wire(wire: &Option<Vec<interfaces::Bracket>>) -> (brackets: Vec<BracketNote>)
    ensures
        brackets.deep_view() == spec_brackets_from_wire(wire.deep_view()),
{
    let mut brackets: Vec<BracketNote> = Vec::new();
    match wire {
        Some(list) => {
            let mut index: usize = 0;
            while index < list.len()
                invariant
                    index <= list.len(),
                    brackets.len() == index,
                    forall|i: int|
                        0 <= i < index ==> (#[trigger] brackets[i]).deep_view()
                            == BracketNoteView::spec_from_wire(list[i].deep_view()),
                decreases list.len() - index,
            {
                brackets.push(BracketNote::from_wire(&list[index]));
                index += 1;
            }
            assert(brackets.deep_view() =~= spec_brackets_from_wire(wire.deep_view()));
        },
        None => {
            assert(brackets.deep_view() =~= spec_brackets_from_wire(wire.deep_view()));
        },
    }
    brackets
}

fn notes_from_wire(wire: &Option<Vec<String>>) -> (notes: Vec<String>)
    ensures
        notes.deep_view() == wire.deep_view().unwrap_or(Seq::empty()),
{
    match wire {
        Some(list) => {
            let notes = list.clone();
            assert(notes.deep_view() =~= list.deep_view());
            notes
        },
        None => {
            let notes: Vec<String> = Vec::new();
            assert(notes.deep_view() =~= Seq::empty());
            notes
        },
    }
}

impl AccessLogView {
    /// The wire shape of this log: brackets and notes present.
    pub open spec fn spec_to_wire(self) -> interfaces::AccessLogView {
        interfaces::AccessLogView {
            accesses: spec_accesses_to_wire(self.accesses),
            brackets: Some(spec_brackets_to_wire(self.brackets)),
            log_type: self.log_type.spec_to_wire(),
            notes: Some(self.notes),
        }
    }

    /// The log that a wire shape stands for, or `None` where the data of one
    /// of its accesses is malformed. Brackets and notes that are absent are
    /// empty lists.
    pub open spec fn spec_from_wire(wire: interfaces::AccessLogView) -> Option<AccessLogView> {
        match spec_accesses_from_wire(wire.accesses) {
            Some(accesses) => Some(
                AccessLogView {
                    accesses,
                    brackets: spec_brackets_from_wire(wire.brackets),
                    notes: wire.notes.unwrap_or(Seq::empty()),
                    log_type: AccessLogType::spec_from_wire(wire.log_type),
                },
            ),
            None => None,
        }
    }
}

impl AccessLog {
    /// Converts to the wire shape.
    ///
    /// The result converts back to this log.
    pub fn to_wire(&self) -> (wire: interfaces::AccessLog)
        ensures
            wire.deep_view() == self.deep_view().spec_to_wire(),
            AccessLogView::spec_from_wire(wire.deep_view()) == Some(self.deep_view()),
    {
        let notes = self.notes.clone();
        assert(notes.deep_view() =~= self.notes.deep_view());
        let wire = interfaces::AccessLog {
            log_type: self.log_type.to_wire(),
            accesses: accesses_to_wire(&self.accesses),
            brackets: Some(brackets_to_wire(&self.brackets)),
            notes: Some(notes),
        };
        proof {
            let brackets = self.brackets.deep_view();
            assert(spec_brackets_from_wire(Some(spec_brackets_to_wire(brackets))) =~= brackets) by {
                assert forall|i: int| 0 <= i < brackets.len() implies
                    BracketNoteView::spec_from_wire(#[trigger] brackets[i].spec_to_wire())
                    == brackets[i] by {
                    BracketNoteView::lemma_round_trip(brackets[i]);
                }
            }
        }
        wire
    }

    /// Converts from the wire shape.
    ///
    /// Fails exactly where the data of one of the accesses is not base64.
    pub fn from_wire(wire: &interfaces::AccessLog) -> (converted: Result<Self, Malformed>)
        ensures
            match converted {
                Ok(value) => AccessLogView::spec_from_wire(wire.deep_view()) == Some(
                    value.deep_view(),
                ),
                Err(_) => AccessLogView::spec_from_wire(wire.deep_view()) is None,
            },
    {
        let accesses = match accesses_from_wire(&wire.accesses) {
            Ok(accesses) => accesses,
            Err(error) => {
                return Err(error);
            },
        };
        Ok(
            AccessLog {
                log_type: AccessLogType::from_wire(&wire.log_type),
                accesses,
                brackets: brackets_from_wire(&wire.brackets),
                notes: notes_from_wire(&wire.notes),
            },
        )
    }
}

} // verus!
