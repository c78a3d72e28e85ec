use axion_db::name_map::NameMap;

#[test]
fn new_map_is_empty() {
    let m: NameMap<u32> = NameMap::new();
    assert_eq!(m.len(), 0);
    assert!(m.is_empty());
    assert!(!m.contains_key("a"));
    assert!(m.get("a").is_none());
    assert!(m.keys().is_empty());
    let d: NameMap<u32> = NameMap::default();
    assert!(d.is_empty());
}

#[test]
fn insert_stores_new_names_in_order() {
    let mut m: NameMap<u32> = NameMap::new();
    assert_eq!(m.insert("b".to_string(), 2), None);
    assert_eq!(m.insert("a".to_string(), 1), None);
    assert_eq!(m.insert("c".to_string(), 3), None);
    assert_eq!(m.len(), 3);
    assert!(!m.is_empty());
    assert_eq!(m.keys(), vec!["b", "a", "c"]);
    assert_eq!(m.get("a"), Some(&1));
    assert_eq!(m.get("b"), Some(&2));
    assert_eq!(m.get("c"), Some(&3));
    assert!(m.get("d").is_none());
    assert!(m.contains_key("c"));
    assert!(!m.contains_key("C"));
}

#[test]
fn insert_replaces_and_keeps_the_position() {
    let mut m: NameMap<u32> = NameMap::new();
    m.insert("b".to_string(), 2);
    m.insert("a".to_string(), 1);
    m.insert("c".to_string(), 3);
    assert_eq!(m.insert("b".to_string(), 20), Some(2));
    assert_eq!(m.len(), 3);
    assert_eq!(m.keys(), vec!["b", "a", "c"]);
    assert_eq!(m.get("b"), Some(&20));
    assert_eq!(m.insert("c".to_string(), 30), Some(3));
    assert_eq!(m.keys(), vec!["b", "a", "c"]);
    assert_eq!(m.get("c"), Some(&30));
    assert_eq!(m.get("a"), Some(&1));
}

#[test]
fn positions_give_names_and_values() {
    let mut m: NameMap<String> = NameMap::new();
    m.insert("x".to_string(), "one".to_string());
    m.insert("y".to_string(), "two".to_string());
    assert_eq!(m.name_at(0), "x");
    assert_eq!(m.value_at(0), "one");
    assert_eq!(m.name_at(1), "y");
    assert_eq!(m.value_at(1), "two");
}

#[test]
fn clone_keeps_names_order_and_values() {
    let mut m: NameMap<Vec<u8>> = NameMap::new();
    m.insert("k".to_string(), vec![1, 2]);
    m.insert("j".to_string(), vec![]);
    let c = m.clone();
    assert_eq!(c.keys(), vec!["k", "j"]);
    assert_eq!(c.get("k"), Some(&vec![1, 2]));
    assert_eq!(c.get("j"), Some(&vec![]));
    m.insert("k".to_string(), vec![9]);
    assert_eq!(c.get("k"), Some(&vec![1, 2]));
}

#[test]
fn empty_name_is_a_name() {
    let mut m: NameMap<u8> = NameMap::new();
    m.insert(String::new(), 7);
    assert!(m.contains_key(""));
    assert_eq!(m.get(""), Some(&7));
    assert_eq!(m.len(), 1);
}
