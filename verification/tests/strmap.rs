use sociacli::strmap::StrMap;

#[test]
fn maps_are_walked_in_order() {
    let mut m: StrMap<u32> = StrMap::new();
    assert_eq!(m.len(), 0);
    m.insert("ptt".to_string(), 1);
    m.insert("open".to_string(), 2);
    m.insert("zoom".to_string(), 3);
    m.insert("open".to_string(), 4);
    assert_eq!(m.len(), 3);
    let keys: Vec<&str> = (0..m.len()).map(|i| m.at(i).0.as_str()).collect();
    assert_eq!(keys, vec!["open", "ptt", "zoom"]);
    assert_eq!(m.get("open"), Some(&4));
    assert_eq!(m.get("none"), None);
}

#[test]
fn keys_are_removed() {
    let mut m: StrMap<u32> = StrMap::new();
    m.insert("a".to_string(), 1);
    assert_eq!(m.remove("b"), None);
    assert_eq!(m.remove("a"), Some(1));
    assert_eq!(m.len(), 0);
}
