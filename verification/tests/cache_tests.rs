use std::cell::Cell;

use persistentcache::decode_outcome;
use persistentcache::key;
use persistentcache::CacheError;
use persistentcache::MemoryStorage;
use persistentcache::PersistentCache;

fn int_args(x: i64) -> Vec<u8> {
    x.to_le_bytes().to_vec()
}

fn int_payload(x: i64) -> Vec<u8> {
    x.to_le_bytes().to_vec()
}

fn payload_int(bytes: &[u8]) -> i64 {
    let mut buf = [0u8; 8];
    buf.copy_from_slice(bytes);
    i64::from_le_bytes(buf)
}

#[test]
fn end_to_end_square() {
    let calls = Cell::new(0u32);
    let square = |args: Vec<u8>| -> Result<Vec<u8>, String> {
        calls.set(calls.get() + 1);
        let x = payload_int(&args);
        Ok(int_payload(x * x))
    };

    let mut storage = MemoryStorage::new();

    let r = storage.cache(square, int_args(4)).unwrap();
    assert_eq!(payload_int(&r), 16);
    assert_eq!(calls.get(), 1);
    assert_eq!(storage.len(), 1);

    // the one record sits under the derived key and decodes to the success
    let record = storage.read(&key(&int_args(4))).unwrap();
    let stored = decode_outcome(&record).unwrap();
    assert_eq!(stored, Ok(int_payload(16)));

    // a second identical call replays without recomputing
    let r = storage.cache(square, int_args(4)).unwrap();
    assert_eq!(payload_int(&r), 16);
    assert_eq!(calls.get(), 1);

    // a different argument misses, computes, and adds a second record
    let r = storage.cache(square, int_args(5)).unwrap();
    assert_eq!(payload_int(&r), 25);
    assert_eq!(calls.get(), 2);
    assert_eq!(storage.len(), 2);
}

fn divide_args(a: i64, b: i64) -> Vec<u8> {
    let mut v = a.to_le_bytes().to_vec();
    v.extend_from_slice(&b.to_le_bytes());
    v
}

#[test]
fn failure_is_stored_and_replayed() {
    let calls = Cell::new(0u32);
    let divide = |args: Vec<u8>| -> Result<Vec<u8>, String> {
        calls.set(calls.get() + 1);
        let a = payload_int(&args[..8]);
        let b = payload_int(&args[8..]);
        if b == 0 {
            Err("division by zero".to_string())
        } else {
            Ok(int_payload(a / b))
        }
    };

    let mut storage = MemoryStorage::new();

    let r = storage.cache(divide, divide_args(1, 0));
    match r {
        Err(CacheError::Computation(m)) => assert_eq!(m, "division by zero"),
        other => panic!("expected a computation failure, got {:?}", other),
    }
    assert_eq!(calls.get(), 1);

    // the failure is persisted and replayed without running divide again
    let r = storage.cache(divide, divide_args(1, 0));
    match r {
        Err(CacheError::Computation(m)) => assert_eq!(m, "division by zero"),
        other => panic!("expected the replayed failure, got {:?}", other),
    }
    assert_eq!(calls.get(), 1);

    // a division that succeeds is cached like any success
    let r = storage.cache(divide, divide_args(8, 2)).unwrap();
    assert_eq!(payload_int(&r), 4);
    assert_eq!(calls.get(), 2);
}

#[test]
fn success_round_trip_returns_equal_value() {
    let calls = Cell::new(0u32);
    let shout = |args: Vec<u8>| -> Result<Vec<u8>, String> {
        calls.set(calls.get() + 1);
        Ok(args.iter().map(|b| b.to_ascii_uppercase()).collect())
    };

    let mut storage = MemoryStorage::new();
    let live = storage.cache(shout, b"hello".to_vec()).unwrap();
    let replayed = storage.cache(shout, b"hello".to_vec()).unwrap();
    assert_eq!(live, b"HELLO".to_vec());
    assert_eq!(replayed, live);
    assert_eq!(calls.get(), 1);
}

#[test]
fn corrupt_record_is_a_serialization_error() {
    let mut storage = MemoryStorage::new();
    let args = int_args(4);
    // plant a garbage record under the key the orchestrator will derive
    storage.write(&key(&args), &[9u8, 9, 9]).unwrap();
    let calls = Cell::new(0u32);
    let square = |a: Vec<u8>| -> Result<Vec<u8>, String> {
        calls.set(calls.get() + 1);
        let x = payload_int(&a);
        Ok(int_payload(x * x))
    };
    let r = storage.cache(square, args);
    assert!(matches!(r, Err(CacheError::Serialization)));
    // a fatal storage condition computes nothing
    assert_eq!(calls.get(), 0);
}
