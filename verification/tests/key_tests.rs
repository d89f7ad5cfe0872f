use persistentcache::key;

#[test]
fn key_is_deterministic() {
    let args = vec![1u8, 2, 3, 4];
    let first = key(&args);
    let second = key(&args);
    assert_eq!(first, second);
}

#[test]
fn key_is_deterministic_for_empty_input() {
    assert_eq!(key(&[]), key(&[]));
}

#[test]
fn key_holds_only_decimal_digits() {
    for input in [&b""[..], &b"x"[..], &b"some longer argument tuple"[..]] {
        let k = key(input);
        assert!(!k.is_empty());
        assert!(k.chars().all(|c| c.is_ascii_digit()));
    }
}

#[test]
fn distinct_arguments_usually_give_distinct_keys() {
    assert_ne!(key(b"first"), key(b"second"));
}
