use persistentcache::decode_outcome;
use persistentcache::encode_outcome;
use persistentcache::CacheError;

#[test]
fn success_round_trip() {
    let outcome: Result<Vec<u8>, String> = Ok(vec![16u8, 0, 0, 0]);
    let record = encode_outcome(&outcome);
    assert_eq!(record, vec![0u8, 16, 0, 0, 0]);
    let decoded = decode_outcome(&record).unwrap();
    assert_eq!(decoded, outcome);
}

#[test]
fn empty_payload_round_trip() {
    let outcome: Result<Vec<u8>, String> = Ok(vec![]);
    let record = encode_outcome(&outcome);
    assert_eq!(record, vec![0u8]);
    assert_eq!(decode_outcome(&record).unwrap(), outcome);
}

#[test]
fn failure_round_trip() {
    let outcome: Result<Vec<u8>, String> = Err("division by zero".to_string());
    let record = encode_outcome(&outcome);
    assert_eq!(record[0], 1u8);
    assert_eq!(&record[1..], b"division by zero");
    assert_eq!(decode_outcome(&record).unwrap(), outcome);
}

#[test]
fn failure_round_trip_keeps_non_ascii_message() {
    let outcome: Result<Vec<u8>, String> = Err("échec complet — ø".to_string());
    let record = encode_outcome(&outcome);
    assert_eq!(decode_outcome(&record).unwrap(), outcome);
}

#[test]
fn empty_record_is_a_serialization_error() {
    assert!(matches!(decode_outcome(&[]), Err(CacheError::Serialization)));
}

#[test]
fn unknown_tag_is_a_serialization_error() {
    assert!(matches!(
        decode_outcome(&[2u8, 16]),
        Err(CacheError::Serialization)
    ));
}

#[test]
fn failure_record_with_invalid_utf8_is_a_serialization_error() {
    assert!(matches!(
        decode_outcome(&[1u8, 0xff, 0xfe]),
        Err(CacheError::Serialization)
    ));
}
