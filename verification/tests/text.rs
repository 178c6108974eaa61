use ultrafast_mcp_sequential_thinking::ratio::Ratio;
use ultrafast_mcp_sequential_thinking::string_map::StringMap;
use ultrafast_mcp_sequential_thinking::text::joined;
use ultrafast_mcp_sequential_thinking::text::decimal;
use ultrafast_mcp_sequential_thinking::text::repeat;
use ultrafast_mcp_sequential_thinking::text::str_eq;
use ultrafast_mcp_sequential_thinking::time::Timestamp;

#[test]
fn decimal_numerals() {
    assert_eq!(decimal(0), "0");
    assert_eq!(decimal(7), "7");
    assert_eq!(decimal(10), "10");
    assert_eq!(decimal(1234567890), "1234567890");
    assert_eq!(decimal(u64::MAX), "18446744073709551615");
}

#[test]
fn string_helpers() {
    assert!(str_eq("", ""));
    assert!(str_eq("héllo", "héllo"));
    assert!(!str_eq("hello", "hellp"));
    assert!(!str_eq("hello", "hell"));
    assert_eq!(joined("ab", "cd"), "abcd");
    assert_eq!(joined("", ""), "");
    assert_eq!(repeat("─", 3), "───");
    assert_eq!(repeat("ab", 0), "");
    assert_eq!(repeat("ab", 2), "abab");
}

#[test]
fn string_map_keeps_insertion_order() {
    let mut map: StringMap<u32> = StringMap::new();
    assert!(map.is_empty());
    assert_eq!(map.insert("b".to_string(), 1), None);
    assert_eq!(map.insert("a".to_string(), 2), None);
    assert_eq!(map.insert("b".to_string(), 3), Some(1));
    assert_eq!(map.len(), 2);
    assert_eq!(map.keys(), vec!["b".to_string(), "a".to_string()]);
    assert_eq!(map.get("b"), Some(&3));
    assert_eq!(map.find("a"), Some(1));
    assert_eq!(map.find("c"), None);
    assert!(map.contains_key("a"));
    map.insert_new("c".to_string(), 4);
    map.insert_at(0, "z".to_string(), 9);
    assert_eq!(map.keys(), vec!["z".to_string(), "b".to_string(), "a".to_string(), "c".to_string()]);
    assert_eq!(map.replace_at(1, 30), 3);
    assert_eq!(*map.value_at(1), 30);
    assert_eq!(map.key_at(1), "b");
    assert_eq!(map.remove("a"), Some(2));
    assert_eq!(map.remove("a"), None);
    assert_eq!(map.remove_at(0), ("z".to_string(), 9));
    assert_eq!(map.keys(), vec!["b".to_string(), "c".to_string()]);
    map.clear();
    assert!(map.is_empty());
}

#[test]
fn ratio_and_timestamp() {
    assert!(Ratio::new(0, 5).zero());
    assert!(Ratio::new(5, 0).zero());
    assert!(!Ratio::new(1, 5).zero());
    assert_eq!(Ratio::new(7, 2).floor(), 3);
    assert_eq!(Ratio::new(7, 0).floor(), 0);
    let a = Timestamp::new(1, 5);
    assert!(Timestamp::new(1, 6).after(&a));
    assert!(Timestamp::new(2, 0).after(&a));
    assert!(!Timestamp::new(1, 5).after(&a));
    assert!(!Timestamp::new(0, 999).after(&a));
    assert!(Timestamp::new(-1, 0).after(&Timestamp::new(-2, 999_999_999)));
}
