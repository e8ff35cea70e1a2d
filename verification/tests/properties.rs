use std::borrow::Cow;
use std::collections::HashMap;
use zenoh_sub::properties::Properties;

#[test]
fn test_properties() {
    assert!(Properties::from("").as_str().is_empty());

    assert_eq!(Properties::from("p1"), Properties::from(&[("p1", "")][..]));

    assert_eq!(
        Properties::from("p1=v1"),
        Properties::from(&[("p1", "v1")][..])
    );

    assert_eq!(
        Properties::from("p1=v1;p2=v2;"),
        Properties::from(&[("p1", "v1"), ("p2", "v2")][..])
    );

    assert_eq!(
        Properties::from("p1=v1;p2=v2;|="),
        Properties::from(&[("p1", "v1"), ("p2", "v2")][..])
    );

    assert_eq!(
        Properties::from("p1=v1;p2;p3=v3"),
        Properties::from(&[("p1", "v1"), ("p2", ""), ("p3", "v3")][..])
    );

    assert_eq!(
        Properties::from("p1=v 1;p 2=v2"),
        Properties::from(&[("p1", "v 1"), ("p 2", "v2")][..])
    );

    assert_eq!(
        Properties::from("p1=x=y;p2=a==b"),
        Properties::from(&[("p1", "x=y"), ("p2", "a==b")][..])
    );

    let mut hm: HashMap<String, String> = HashMap::new();
    hm.insert("p1".to_string(), "v1".to_string());
    assert_eq!(Properties::from(hm), Properties::from("p1=v1"));

    let mut hm: HashMap<&str, &str> = HashMap::new();
    hm.insert("p1", "v1");
    assert_eq!(Properties::from(hm), Properties::from("p1=v1"));

    let mut hm: HashMap<Cow<str>, Cow<str>> = HashMap::new();
    hm.insert(Cow::from("p1"), Cow::from("v1"));
    assert_eq!(Properties::from(hm), Properties::from("p1=v1"));
}

#[test]
fn parses_keys_values_and_multi_values() {
    let p = Properties::from("a=1;b=2;c=3|4|5;d=6");
    assert!(!p.is_empty());
    assert_eq!(p.get("a").unwrap(), "1");
    assert_eq!(p.get("b").unwrap(), "2");
    assert_eq!(p.get("c").unwrap(), "3|4|5");
    assert_eq!(p.get("d").unwrap(), "6");
    assert_eq!(p.values("c"), vec!["3", "4", "5"]);
    assert_eq!(
        p.iter(),
        vec![("a", "1"), ("b", "2"), ("c", "3|4|5"), ("d", "6")]
    );
    let pi = Properties::from_iter(&[("a", "1"), ("b", "2"), ("c", "3|4|5"), ("d", "6")]);
    assert_eq!(p, pi);
}

#[test]
fn trailing_separators_are_dropped() {
    assert_eq!(Properties::from("a=1;;;").as_str(), "a=1");
    assert_eq!(Properties::from("a=1|=;").as_str(), "a=1");
    assert_eq!(Properties::from(";=|").as_str(), "");
    assert_eq!(Properties::from(";a=1").as_str(), ";a=1");
    assert_eq!(Properties::from(String::from("a=1;b;")).as_str(), "a=1;b");
    assert_eq!(Properties::from(Cow::from("a=1;b=")).as_str(), "a=1;b");
    assert_eq!(
        Properties::from(Cow::from(String::from("k=v|"))).as_str(),
        "k=v"
    );
}

#[test]
fn empty_properties() {
    let p = Properties::from("");
    assert!(p.is_empty());
    assert_eq!(p.iter(), Vec::<(&str, &str)>::new());
    assert_eq!(p.get("a"), None);
    assert!(!p.contains_key("a"));
    assert_eq!(p.values("a"), Vec::<&str>::new());
    assert_eq!(Properties::default(), p);
}

#[test]
fn iter_skips_empty_items_and_splits_at_first_equals() {
    let p = Properties::from("a=1;;b;=x;c=d=e");
    assert_eq!(
        p.iter(),
        vec![("a", "1"), ("b", ""), ("", "x"), ("c", "d=e")]
    );
    assert_eq!(p.get("b"), Some(""));
    assert_eq!(p.get(""), Some("x"));
    assert_eq!(p.get("c"), Some("d=e"));
    assert_eq!(p.get("d"), None);
    assert!(p.contains_key("b"));
    assert!(!p.contains_key("1"));
}

#[test]
fn get_returns_the_first_of_two_equal_keys() {
    let p = Properties::from("a=1;a=2");
    assert_eq!(p.get("a"), Some("1"));
}

#[test]
fn values_splits_on_the_value_separator() {
    let p = Properties::from("a=1|2||3;b;c=|");
    assert_eq!(p.values("a"), vec!["1", "2", "", "3"]);
    assert_eq!(p.values("b"), vec![""]);
    assert_eq!(p.values("missing"), Vec::<&str>::new());
    let q = Properties::from_iter(&[("c", "|")]);
    assert_eq!(q.values("c"), vec!["", ""]);
}

#[test]
fn from_iter_leaves_out_empty_keys_and_empty_values() {
    let p = Properties::from_iter(&[("", "x"), ("a", ""), ("", ""), ("b", "2")]);
    assert_eq!(p.as_str(), "a;b=2");
    assert_eq!(Properties::from_iter(&[]).as_str(), "");
    assert_eq!(Properties::from_iter(&[("", "x")]).as_str(), "");
}

#[test]
fn insert_writes_the_new_pair_last_and_returns_the_old_value() {
    let mut p = Properties::from("a=1;b=2;c=3");
    assert_eq!(p.insert("b", "9"), Some("2".to_string()));
    assert_eq!(p.as_str(), "a=1;c=3;b=9");
    assert_eq!(p.insert("d", "4"), None);
    assert_eq!(p.as_str(), "a=1;c=3;b=9;d=4");
    assert_eq!(p.get("b"), Some("9"));
    assert_eq!(p.get("d"), Some("4"));
}

#[test]
fn insert_removes_every_pair_with_the_key() {
    let mut p = Properties::from("a=1;b=2;a=3");
    assert_eq!(p.insert("a", "7"), Some("1".to_string()));
    assert_eq!(p.as_str(), "b=2;a=7");
}

#[test]
fn insert_into_empty_properties() {
    let mut p = Properties::default();
    assert_eq!(p.insert("k", "v"), None);
    assert_eq!(p.as_str(), "k=v");
    assert_eq!(p.insert("k", ""), Some("v".to_string()));
    assert_eq!(p.as_str(), "k");
}

#[test]
fn remove_returns_the_value_and_drops_the_key() {
    let mut p = Properties::from("a=1;b=2;c=3");
    assert_eq!(p.remove("b"), Some("2".to_string()));
    assert_eq!(p.as_str(), "a=1;c=3");
    assert_eq!(p.remove("b"), None);
    assert_eq!(p.as_str(), "a=1;c=3");
    assert_eq!(p.remove("a"), Some("1".to_string()));
    assert_eq!(p.remove("c"), Some("3".to_string()));
    assert!(p.is_empty());
}

#[test]
fn extend_replaces_shared_keys_and_appends() {
    let mut p = Properties::from("a=1;b=2;c=3");
    let other = Properties::from("b=20;d=4");
    p.extend(&other);
    assert_eq!(p.as_str(), "a=1;c=3;b=20;d=4");
}

#[test]
fn extend_from_iter_keeps_the_order_of_the_new_pairs() {
    let mut p = Properties::from("a=1;b=2");
    p.extend_from_iter(&[("c", "3"), ("a", "10"), ("a", "11")]);
    assert_eq!(p.as_str(), "b=2;c=3;a=10;a=11");
    p.extend_from_iter(&[]);
    assert_eq!(p.as_str(), "b=2;c=3;a=10;a=11");
}

#[test]
fn into_owned_and_to_string_keep_the_text() {
    let p = Properties::from("a=1;b=2");
    assert_eq!(p.to_string(), "a=1;b=2");
    let q = p.clone().into_owned();
    assert_eq!(q, p);
}

#[test]
fn map_with_several_entries_gives_each_once() {
    let mut hm: HashMap<String, String> = HashMap::new();
    hm.insert("a".to_string(), "1".to_string());
    hm.insert("b".to_string(), "2".to_string());
    hm.insert("c".to_string(), "".to_string());
    let p = Properties::from(hm);
    let mut pairs = p.iter();
    pairs.sort();
    assert_eq!(pairs, vec![("a", "1"), ("b", "2"), ("c", "")]);
}

#[test]
fn non_ascii_text_is_split_by_characters() {
    let p = Properties::from("clé=värde;ключ=значение|два;");
    assert_eq!(p.get("clé"), Some("värde"));
    assert_eq!(p.values("ключ"), vec!["значение", "два"]);
    assert_eq!(p.as_str(), "clé=värde;ключ=значение|два");
}

#[test]
fn writing_what_was_read_gives_the_same_pairs() {
    for text in ["a=1;b=2;c=3|4|5;d=6", "a;b;c", "a=1", "", "k=v=w;x=y|z"] {
        let p = Properties::from(text);
        let again = Properties::from_iter(&p.iter());
        assert_eq!(again, p);
        assert_eq!(again.iter(), p.iter());
    }
    let p = Properties::from("a=1;=x;;b=2");
    assert_eq!(p.iter(), vec![("a", "1"), ("", "x"), ("b", "2")]);
    let again = Properties::from_iter(&p.iter());
    assert_eq!(again.iter(), vec![("a", "1"), ("b", "2")]);
}

#[test]
fn insert_changes_the_value_of_its_key_only() {
    let mut p = Properties::from("a=1;b=2;c=3");
    p.insert("b", "x|y");
    assert_eq!(p.get("a"), Some("1"));
    assert_eq!(p.get("b"), Some("x|y"));
    assert_eq!(p.get("c"), Some("3"));
    assert_eq!(p.values("b"), vec!["x", "y"]);
    p.remove("a");
    assert_eq!(p.get("a"), None);
    assert_eq!(p.get("b"), Some("x|y"));
    assert_eq!(p.get("c"), Some("3"));
}

#[test]
fn a_separator_in_a_value_is_read_as_a_separator() {
    let mut p = Properties::default();
    p.insert("a", "1;b=2");
    assert_eq!(p.as_str(), "a=1;b=2");
    assert_eq!(p.get("a"), Some("1"));
    assert_eq!(p.get("b"), Some("2"));
    let mut q = Properties::default();
    q.insert("", "v");
    assert!(q.is_empty());
}
