use gameforge::group_id::{group_binary_file_name, is_group_id, shard_of, validate_group_id};
use gameforge::registry::GroupRegistry;

#[test]
fn group_ids_accepted_and_refused() {
    assert!(is_group_id("demo"));
    assert!(is_group_id("guild-001_A"));
    assert!(is_group_id(&"a".repeat(64)));
    assert!(!is_group_id(&"a".repeat(65)));
    assert!(!is_group_id(""));
    assert!(!is_group_id("a b"));
    assert!(!is_group_id("a/b"));
    assert!(!is_group_id("é"));
    assert!(!is_group_id(".."));
}

#[test]
fn group_id_refusal_is_a_400() {
    let e = validate_group_id("no spaces").err().unwrap();
    assert_eq!((e.status, e.message.as_str()), (400, "invalid group id"));
    assert!(validate_group_id("demo").is_ok());
}

#[test]
fn shard_is_first_two_bytes() {
    assert_eq!(shard_of("demo"), "de");
    assert_eq!(shard_of("gu"), "gu");
    assert_eq!(shard_of("x"), "x");
    assert_eq!(shard_of(""), "");
}

#[test]
fn binary_name_per_platform() {
    assert_eq!(group_binary_file_name(true), "gameforge-group-server.exe");
    assert_eq!(group_binary_file_name(false), "gameforge-group-server");
}

#[test]
fn registry_insert_find_remove() {
    let mut r: GroupRegistry<u32> = GroupRegistry::new();
    assert_eq!(r.len(), 0);
    r.insert("a".to_string(), 1000, Some(11), 1);
    r.insert("b".to_string(), 2000, None, 2);
    assert_eq!(r.find("a"), Some(0));
    assert_eq!(r.find("b"), Some(1));
    assert_eq!(r.find("c"), None);
    // Registering a group again replaces its entry.
    r.insert("a".to_string(), 3000, Some(33), 3);
    assert_eq!(r.len(), 2);
    let d = r.describe(0);
    assert_eq!((d.group_id.as_str(), d.port, d.pid), ("a", 3000, Some(33)));
    assert_eq!(*r.handle(0), 3);
    let removed = r.remove("a").unwrap();
    assert_eq!((removed.group_id.as_str(), removed.port, removed.handle), ("a", 3000, 3));
    assert_eq!(r.find("a"), None);
    assert_eq!(r.find("b"), Some(0));
    assert!(r.remove("a").is_none());
    assert_eq!(r.len(), 1);
}

#[test]
fn registry_sweep_keeps_live_groups_in_order() {
    let mut r: GroupRegistry<()> = GroupRegistry::new();
    for (i, id) in ["a", "b", "c", "d"].iter().enumerate() {
        r.insert(id.to_string(), 100 + i as u16, Some(i as u32), ());
    }
    let listed = r.sweep(&vec![true, false, true, false]);
    let ids: Vec<(&str, u16, Option<u32>)> = listed.iter().map(|e| (e.group_id.as_str(), e.port, e.pid)).collect();
    assert_eq!(ids, vec![("a", 100, Some(0)), ("c", 102, Some(2))]);
    assert_eq!(r.len(), 2);
    assert_eq!(r.find("b"), None);
    assert_eq!(r.find("c"), Some(1));
    assert!(r.sweep(&vec![false, false]).is_empty());
    assert_eq!(r.len(), 0);
}
