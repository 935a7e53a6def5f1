use base64::engine::general_purpose::STANDARD;
use base64::Engine;
use cartesi_machine_json_rpc::client::{
    decode_payload, decode_root_hash, encode_payload, Malformed, RootHashError,
};

const INITIAL_ROOT_HASH: [u8; 32] = [
    131, 99, 230, 222, 130, 27, 210, 194, 165, 9, 76, 229, 231, 218, 75, 231, 151, 47, 191, 153,
    22, 84, 94, 122, 127, 184, 180, 51, 152, 100, 117, 189,
];

const SECOND_STEP_HASH: [u8; 32] = [
    234, 235, 196, 19, 105, 77, 70, 208, 245, 14, 10, 142, 22, 194, 160, 55, 13, 172, 207, 44, 129,
    97, 163, 39, 181, 15, 45, 0, 24, 214, 194, 148,
];

#[test]
fn payload_without_padding_has_no_line_break() {
    assert_eq!(encode_payload(&[1, 2, 3]), "AQID");
    assert_eq!(
        encode_payload(&[1, 2, 3, 4, 5, 6, 7, 8, 9, 10, 11, 12]),
        "AQIDBAUGBwgJCgsM"
    );
}

#[test]
fn payload_with_padding_ends_in_line_break() {
    assert_eq!(encode_payload(&[1]), "AQ==\n");
    assert_eq!(encode_payload(&[1, 2]), "AQI=\n");
    assert_eq!(
        encode_payload(&[151, 2, 0, 0, 147, 130, 162, 4, 115, 144, 82, 48, 65, 101, 189, 101]),
        "lwIAAJOCogRzkFIwQWW9ZQ==\n"
    );
}

#[test]
fn empty_payload_is_empty_text() {
    assert_eq!(encode_payload(&[]), "");
    assert_eq!(decode_payload(""), Ok(vec![]));
}

#[test]
fn encoding_agrees_with_the_standard_engine() {
    let data: Vec<u8> = (0..=255).collect();
    let encoded = encode_payload(&data);
    assert_eq!(encoded.trim_end_matches('\n'), STANDARD.encode(&data));
    assert!(encoded.ends_with("=\n"));
}

#[test]
fn decode_accepts_text_with_and_without_line_break() {
    assert_eq!(decode_payload("AQID"), Ok(vec![1, 2, 3]));
    assert_eq!(decode_payload("AQID\n"), Ok(vec![1, 2, 3]));
    assert_eq!(decode_payload("AQ=="), Ok(vec![1]));
    assert_eq!(decode_payload("AQ==\n"), Ok(vec![1]));
    assert_eq!(
        decode_payload("lwIAAJOCogRzkFIwQWW9ZQ==\n"),
        Ok(vec![151, 2, 0, 0, 147, 130, 162, 4, 115, 144, 82, 48, 65, 101, 189, 101])
    );
}

#[test]
fn decode_removes_one_line_break_only() {
    assert_eq!(decode_payload("AQID\n\n"), Err(Malformed));
    assert_eq!(decode_payload("\nAQID"), Err(Malformed));
    assert_eq!(decode_payload("\n"), Ok(vec![]));
}

#[test]
fn decode_refuses_malformed_text() {
    assert_eq!(decode_payload("AQI"), Err(Malformed));
    assert_eq!(decode_payload("AQ=="), Ok(vec![1]));
    assert_eq!(decode_payload("A==="), Err(Malformed));
    assert_eq!(decode_payload("AQID!"), Err(Malformed));
    assert_eq!(decode_payload("AQ ID"), Err(Malformed));
    assert_eq!(decode_payload("-_8="), Err(Malformed));
    assert_eq!(decode_payload("+/8="), Ok(vec![0xfb, 0xff]));
}

#[test]
fn every_length_round_trips() {
    for length in 0..70usize {
        let data: Vec<u8> = (0..length).map(|i| (i * 37 + 11) as u8).collect();
        let encoded = encode_payload(&data);
        assert_eq!(encoded.ends_with('\n'), length % 3 != 0);
        if length % 3 == 0 {
            assert_eq!(encoded.len() % 4, 0);
        } else {
            assert_eq!(encoded.len() % 4, 1);
        }
        assert_eq!(decode_payload(&encoded), Ok(data));
    }
}

#[test]
fn root_hashes_decode_to_their_bytes() {
    assert_eq!(
        decode_root_hash("g2Pm3oIb0sKlCUzl59pL55cvv5kWVF56f7i0M5hkdb0=\n"),
        Ok(INITIAL_ROOT_HASH)
    );
    assert_eq!(
        decode_root_hash("6uvEE2lNRtD1DgqOFsKgNw2szyyBYaMntQ8tABjWwpQ="),
        Ok(SECOND_STEP_HASH)
    );
    assert_ne!(
        decode_root_hash("g2Pm3oIb0sKlCUzl59pL55cvv5kWVF56f7i0M5hkdb0=\n"),
        decode_root_hash("6uvEE2lNRtD1DgqOFsKgNw2szyyBYaMntQ8tABjWwpQ=\n")
    );
}

#[test]
fn root_hash_round_trips_through_the_wire() {
    let encoded = encode_payload(&INITIAL_ROOT_HASH);
    assert_eq!(encoded, "g2Pm3oIb0sKlCUzl59pL55cvv5kWVF56f7i0M5hkdb0=\n");
    assert_eq!(decode_root_hash(&encoded), Ok(INITIAL_ROOT_HASH));
}

#[test]
fn short_root_hash_is_filled_with_zeros() {
    let mut expected = [0u8; 32];
    expected[0] = 1;
    expected[1] = 2;
    expected[2] = 3;
    assert_eq!(decode_root_hash("AQID"), Ok(expected));
    assert_eq!(decode_root_hash(""), Ok([0u8; 32]));
}

#[test]
fn long_root_hash_is_refused() {
    assert_eq!(
        decode_root_hash("AAECAwQFBgcICQoLDA0ODxAREhMUFRYXGBkaGxwdHh8g"),
        Err(RootHashError::TooLong)
    );
}

#[test]
fn malformed_root_hash_is_refused() {
    assert_eq!(decode_root_hash("g2Pm3oIb0sK"), Err(RootHashError::Malformed));
    assert_eq!(decode_root_hash("not base64"), Err(RootHashError::Malformed));
}
