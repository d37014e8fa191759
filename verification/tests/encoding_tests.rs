use duo_auth::Parameters;
use duo_auth::percent_decode;

#[test]
fn empty_map_serializes_to_empty_string() {
    let p = Parameters::new();
    assert_eq!(p.serialize(), "");
}

#[test]
fn serialize_sorts_keys_ascending() {
    let mut p = Parameters::new();
    p.set("b", "2");
    p.set("a", "1");
    p.set("c", "3");
    assert_eq!(p.serialize(), "a=1&b=2&c=3");
}

#[test]
fn serialize_is_deterministic_and_order_independent() {
    let mut p = Parameters::new();
    p.set("user_id", "u1");
    p.set("factor", "push");
    p.set("device", "DABCDEF");
    let mut q = Parameters::new();
    q.set("device", "DABCDEF");
    q.set("factor", "push");
    q.set("user_id", "u1");
    let first = p.serialize();
    let second = p.serialize();
    assert_eq!(first, second);
    assert_eq!(first, q.serialize());
    assert_eq!(first, "device=DABCDEF&factor=push&user_id=u1");
}

#[test]
fn setting_a_key_twice_keeps_the_last_value() {
    let mut p = Parameters::new();
    p.set("k", "old");
    p.set("k", "new");
    assert_eq!(p.serialize(), "k=new");
}

#[test]
fn set_opt_none_omits_the_field() {
    let mut p = Parameters::new();
    p.set("a", "1");
    p.set_opt("b", None);
    p.set_opt("c", Some(String::from("3")));
    assert_eq!(p.serialize(), "a=1&c=3");
}

#[test]
fn encoding_escapes_reserved_and_non_ascii() {
    let mut p = Parameters::new();
    p.set("k", "a b&c=d~\u{e9}");
    assert_eq!(p.serialize(), "k=a%20b%26c%3Dd~%C3%A9");
}

#[test]
fn round_trip_recovers_values_with_separators_and_non_ascii() {
    let originals = ["a b", "x&y", "p=q", "caf\u{e9}", "\u{65e5}\u{672c}", "-._~"];
    for original in originals {
        let mut p = Parameters::new();
        p.set("k", original);
        let serialized = p.serialize();
        let encoded_value = serialized.strip_prefix("k=").unwrap();
        let decoded = percent_decode(encoded_value.as_bytes()).unwrap();
        assert_eq!(decoded, original.as_bytes());
    }
}

#[test]
fn round_trip_recovers_keys_and_values_of_a_map() {
    let mut p = Parameters::new();
    p.set("na me", "v&1");
    p.set("k2", "v=2");
    let serialized = p.serialize();
    let mut recovered: Vec<(Vec<u8>, Vec<u8>)> = Vec::new();
    for pair in serialized.split('&') {
        let (k, v) = pair.split_once('=').unwrap();
        recovered.push((
            percent_decode(k.as_bytes()).unwrap(),
            percent_decode(v.as_bytes()).unwrap(),
        ));
    }
    recovered.sort();
    assert_eq!(
        recovered,
        vec![
            (b"k2".to_vec(), b"v=2".to_vec()),
            (b"na me".to_vec(), b"v&1".to_vec()),
        ]
    );
}

#[test]
fn percent_decode_plain_bytes_are_unchanged() {
    assert_eq!(percent_decode(b"abc-123").unwrap(), b"abc-123".to_vec());
}

#[test]
fn percent_decode_accepts_lowercase_hex() {
    assert_eq!(percent_decode(b"%c3%a9").unwrap(), vec![0xc3, 0xa9]);
}

#[test]
fn percent_decode_rejects_truncated_or_bad_escapes() {
    assert!(percent_decode(b"%").is_none());
    assert!(percent_decode(b"%2").is_none());
    assert!(percent_decode(b"%zz").is_none());
    assert!(percent_decode(b"ok%2").is_none());
}
