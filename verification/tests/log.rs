use cartesi_machine_json_rpc::client::{
    Access, AccessLog, AccessLogType, AccessType, BracketNote, BracketType, Malformed,
    MerkleTreeProof,
};
use cartesi_machine_json_rpc::interfaces;
use cartesi_machine_json_rpc::interfaces::Scalar;

fn text(value: &str) -> Scalar {
    Scalar::Text(value.to_string())
}

fn sample_proof() -> MerkleTreeProof {
    MerkleTreeProof {
        target_address: 0x1000,
        log2_target_size: 3,
        target_hash: "3x0jh5yY0T8geoR8Tesix1vNeujk9gYmMqL3vWPafTY=\n".to_string(),
        log2_root_size: 64,
        root_hash: "g2Pm3oIb0sKlCUzl59pL55cvv5kWVF56f7i0M5hkdb0=\n".to_string(),
        sibling_hashes: vec!["AQID".to_string(), "BAUG".to_string()],
    }
}

fn sample_access() -> Access {
    Access {
        access_type: AccessType::Write,
        address: 0x1000,
        log2_size: 3,
        read_data: vec![0, 0, 0, 0, 0, 0, 0, 0],
        written_data: vec![1, 2, 3, 4, 5, 6, 7, 8, 9],
        proof: sample_proof(),
    }
}

fn sample_log() -> AccessLog {
    AccessLog {
        accesses: vec![
            Access { access_type: AccessType::Read, written_data: vec![], ..sample_access() },
            sample_access(),
        ],
        brackets: vec![
            BracketNote { bracket_type: BracketType::Begin, location: 0, text: "step".to_string() },
            BracketNote { bracket_type: BracketType::End, location: 2, text: "step".to_string() },
        ],
        notes: vec!["first".to_string(), "second".to_string()],
        log_type: AccessLogType { proofs: true, annotations: true },
    }
}

#[test]
fn access_kinds_are_spelled_out_on_the_wire() {
    assert_eq!(AccessType::Read.to_wire(), text("read"));
    assert_eq!(AccessType::Write.to_wire(), text("write"));
    assert_eq!(BracketType::Begin.to_wire(), text("begin"));
    assert_eq!(BracketType::End.to_wire(), text("end"));
}

#[test]
fn access_kinds_are_read_from_their_names() {
    assert_eq!(AccessType::from_wire(&text("read")), AccessType::Read);
    assert_eq!(AccessType::from_wire(&text("write")), AccessType::Write);
    assert!(matches!(BracketType::from_wire(&text("begin")), BracketType::Begin));
    assert!(matches!(BracketType::from_wire(&text("end")), BracketType::End));
}

#[test]
fn unknown_kinds_fall_back_to_the_first_kind() {
    assert_eq!(AccessType::from_wire(&text("execute")), AccessType::Read);
    assert_eq!(AccessType::from_wire(&text("Write")), AccessType::Read);
    assert_eq!(AccessType::from_wire(&text("\"write\"")), AccessType::Read);
    assert_eq!(AccessType::from_wire(&text("")), AccessType::Read);
    assert_eq!(AccessType::from_wire(&Scalar::Other), AccessType::Read);
    assert_eq!(BracketType::from_wire(&text("middle")), BracketType::Begin);
    assert_eq!(BracketType::from_wire(&text("END")), BracketType::Begin);
    assert_eq!(BracketType::from_wire(&Scalar::Other), BracketType::Begin);
}

#[test]
fn log_type_maps_field_by_field() {
    let log_type = AccessLogType { proofs: true, annotations: false };
    assert_eq!(
        log_type.to_wire(),
        interfaces::AccessLogType { has_proofs: true, has_annotations: false }
    );
    assert_eq!(
        AccessLogType::from_wire(&interfaces::AccessLogType {
            has_proofs: false,
            has_annotations: true
        }),
        AccessLogType { proofs: false, annotations: true }
    );
}

#[test]
fn proof_round_trips() {
    let proof = sample_proof();
    let wire = proof.to_wire();
    assert_eq!(wire.target_address, 0x1000);
    assert_eq!(wire.log_2_target_size, 3);
    assert_eq!(wire.log_2_root_size, 64);
    assert_eq!(wire.target_hash, proof.target_hash);
    assert_eq!(wire.root_hash, proof.root_hash);
    assert_eq!(wire.sibling_hashes, proof.sibling_hashes);
    assert_eq!(MerkleTreeProof::from_wire(&wire), proof);
}

#[test]
fn proof_keeps_target_size_and_sibling_count() {
    let siblings: Vec<String> = (0..54).map(|i| format!("hash{}", i)).collect();
    let wire = interfaces::Proof {
        log_2_root_size: 64,
        log_2_target_size: 10,
        root_hash: "g2Pm3oIb0sKlCUzl59pL55cvv5kWVF56f7i0M5hkdb0=\n".to_string(),
        sibling_hashes: siblings.clone(),
        target_address: 0,
        target_hash: "3x0jh5yY0T8geoR8Tesix1vNeujk9gYmMqL3vWPafTY=\n".to_string(),
    };
    let proof = MerkleTreeProof::from_wire(&wire);
    assert_eq!(proof.log2_target_size, 10);
    assert_eq!(proof.log2_root_size, 64);
    assert_eq!(proof.target_address, 0);
    assert_eq!(proof.sibling_hashes.len(), 54);
    assert_eq!(proof.sibling_hashes, siblings);
    assert_eq!(proof.target_hash, "3x0jh5yY0T8geoR8Tesix1vNeujk9gYmMqL3vWPafTY=\n");
}

#[test]
fn access_to_wire_encodes_data() {
    let wire = sample_access().to_wire();
    assert_eq!(wire.access_type, text("write"));
    assert_eq!(wire.address, 0x1000);
    assert_eq!(wire.log_2_size, 3);
    assert_eq!(wire.read, "AAAAAAAAAAA=\n");
    assert_eq!(wire.written, Some("AQIDBAUGBwgJ".to_string()));
    assert_eq!(wire.proof, Some(sample_proof().to_wire()));
}

#[test]
fn access_round_trips() {
    let access = sample_access();
    assert_eq!(Access::from_wire(&access.to_wire()), Ok(access));
    let negative = Access { log2_size: -1, ..sample_access() };
    assert_eq!(negative.to_wire().log_2_size, u64::MAX);
    assert_eq!(Access::from_wire(&negative.to_wire()), Ok(negative));
}

#[test]
fn access_without_written_data_or_proof_takes_defaults() {
    let wire = interfaces::Access {
        address: 8,
        log_2_size: 3,
        proof: None,
        read: "AQ==\n".to_string(),
        access_type: text("read"),
        written: None,
    };
    assert_eq!(
        Access::from_wire(&wire),
        Ok(Access {
            access_type: AccessType::Read,
            address: 8,
            log2_size: 3,
            read_data: vec![1],
            written_data: vec![],
            proof: MerkleTreeProof::default(),
        })
    );
}

#[test]
fn access_with_malformed_data_is_refused() {
    let good = sample_access().to_wire();
    let bad_read = interfaces::Access { read: "AQI".to_string(), ..good.clone() };
    assert_eq!(Access::from_wire(&bad_read), Err(Malformed));
    let bad_written = interfaces::Access { written: Some("****".to_string()), ..good.clone() };
    assert_eq!(Access::from_wire(&bad_written), Err(Malformed));
}

#[test]
fn access_with_unknown_kind_is_read_as_read() {
    let wire = interfaces::Access { access_type: text("fetch"), ..sample_access().to_wire() };
    assert_eq!(
        Access::from_wire(&wire),
        Ok(Access { access_type: AccessType::Read, ..sample_access() })
    );
    let untyped = interfaces::Access { access_type: Scalar::Other, ..sample_access().to_wire() };
    assert_eq!(Access::from_wire(&untyped).map(|a| a.access_type), Ok(AccessType::Read));
}

#[test]
fn bracket_round_trips() {
    let note =
        BracketNote { bracket_type: BracketType::End, location: 7, text: "done".to_string() };
    let wire = note.to_wire();
    assert_eq!(
        wire,
        interfaces::Bracket { text: "done".to_string(), bracket_type: text("end"), location: 7 }
    );
    assert_eq!(BracketNote::from_wire(&wire), note);
}

#[test]
fn log_to_wire_keeps_order_and_marks_lists_present() {
    let log = sample_log();
    let wire = log.to_wire();
    assert_eq!(
        wire.log_type,
        interfaces::AccessLogType { has_proofs: true, has_annotations: true }
    );
    assert_eq!(wire.accesses.len(), 2);
    assert_eq!(wire.accesses[0].access_type, text("read"));
    assert_eq!(wire.accesses[0].written, Some(String::new()));
    assert_eq!(wire.accesses[1], sample_access().to_wire());
    let brackets = wire.brackets.unwrap();
    assert_eq!(brackets.len(), 2);
    assert_eq!(brackets[0].bracket_type, text("begin"));
    assert_eq!(brackets[1].bracket_type, text("end"));
    assert_eq!(brackets[1].location, 2);
    assert_eq!(wire.notes, Some(vec!["first".to_string(), "second".to_string()]));
}

#[test]
fn log_round_trips() {
    let log = sample_log();
    assert_eq!(AccessLog::from_wire(&log.to_wire()), Ok(log));
    let empty = AccessLog {
        accesses: vec![],
        brackets: vec![],
        notes: vec![],
        log_type: AccessLogType::default(),
    };
    assert_eq!(AccessLog::from_wire(&empty.to_wire()), Ok(empty));
}

#[test]
fn log_without_brackets_and_notes_has_empty_lists() {
    let wire = interfaces::AccessLog {
        accesses: vec![sample_access().to_wire()],
        brackets: None,
        log_type: interfaces::AccessLogType { has_proofs: true, has_annotations: false },
        notes: None,
    };
    let log = AccessLog::from_wire(&wire).unwrap();
    assert_eq!(log.accesses, vec![sample_access()]);
    assert!(log.accesses[0].access_type == AccessType::Write);
    assert_eq!(log.brackets.len(), 0);
    assert_eq!(log.notes.len(), 0);
    assert!(log.log_type.proofs == true && log.log_type.annotations == false);
}

#[test]
fn log_with_one_malformed_access_is_refused() {
    let mut wire = sample_log().to_wire();
    wire.accesses[1].read = "=".to_string();
    assert_eq!(AccessLog::from_wire(&wire), Err(Malformed));
}

#[test]
fn wire_defaults_are_empty() {
    assert_eq!(Scalar::default(), Scalar::Other);
    let access = interfaces::Access::default();
    assert_eq!(access.read, "");
    assert_eq!(access.written, None);
    assert_eq!(access.proof, None);
    assert_eq!(interfaces::AccessLog::default().accesses.len(), 0);
    assert_eq!(interfaces::Proof::default().sibling_hashes.len(), 0);
    assert_eq!(interfaces::Bracket::default().bracket_type, Scalar::Other);
}
