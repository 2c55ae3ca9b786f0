use cdm_views::props::{lookup, PropBag};

#[test]
fn bag_insert_and_get() {
    let mut b = PropBag::new();
    assert_eq!(b.len(), 0);
    b.put("type", "x");
    b.put("schema", "y");
    assert_eq!(b.len(), 2);
    assert_eq!(b.get("type").map(|s| s.as_str()), Some("x"));
    assert_eq!(b.get("schema").map(|s| s.as_str()), Some("y"));
    assert_eq!(b.get("nope"), None);
}

#[test]
fn bag_equal_keys_replace() {
    let mut b = PropBag::new();
    b.put("k", "1");
    b.put("k", "2");
    assert_eq!(b.len(), 1);
    assert_eq!(b.get("k").map(|s| s.as_str()), Some("2"));
    let e = b.into_entries();
    assert_eq!(e, vec![("k".to_string(), "2".to_string())]);
}

#[test]
fn lookup_takes_last_pair() {
    let pairs = vec![
        ("a".to_string(), "1".to_string()),
        ("b".to_string(), "2".to_string()),
        ("a".to_string(), "3".to_string()),
    ];
    assert_eq!(lookup(&pairs, &"a".to_string()).map(|s| s.as_str()), Some("3"));
    assert_eq!(lookup(&pairs, &"b".to_string()).map(|s| s.as_str()), Some("2"));
    assert_eq!(lookup(&pairs, &"c".to_string()), None);
}
