use da14531_sdk::common::{co_list_init, co_list_is_empty, co_min, CoList};
use da14531_sdk::custs::custs_find_func_callbacks;
use da14531_sdk::text::translate_path;

#[test]
fn co_list_starts_empty() {
    let mut list = CoList { first: 0x2000_0000, last: 0x2000_0040 };
    co_list_init(&mut list);
    assert_eq!(list, CoList { first: 0, last: 0 });
    assert!(co_list_is_empty(&mut list));
}

#[test]
fn co_list_with_a_node_is_not_empty() {
    let mut list = CoList { first: 0x2000_0000, last: 0x2000_0000 };
    assert!(!co_list_is_empty(&mut list));
}

#[test]
fn co_min_picks_the_smaller() {
    assert_eq!(co_min(3u32, 7u32), 3);
    assert_eq!(co_min(7i32, -3i32), -3);
    assert_eq!(co_min(5u8, 5u8), 5);
}

#[test]
fn callback_lookup_finds_a_match() {
    let ids: Vec<u16> = vec![0x20, 0x21];
    assert_eq!(custs_find_func_callbacks(&ids, 0x21, 0xFF), Some(1));
    assert_eq!(custs_find_func_callbacks(&ids, 0x20, 0xFF), Some(0));
}

#[test]
fn callback_lookup_stops_at_the_invalid_marker() {
    let ids: Vec<u16> = vec![0x20, 0xFF];
    assert_eq!(custs_find_func_callbacks(&ids, 0x21, 0xFF), None);
    // A match on the first entry wins before the marker is reached.
    assert_eq!(custs_find_func_callbacks(&ids, 0x20, 0xFF), Some(0));
    // Asking for the marker itself finds its slot.
    assert_eq!(custs_find_func_callbacks(&ids, 0xFF, 0xFF), Some(1));
}

#[test]
fn callback_lookup_empty_table() {
    let ids: Vec<u16> = vec![];
    assert_eq!(custs_find_func_callbacks(&ids, 0x20, 0xFF), None);
}

#[test]
fn path_translation() {
    assert_eq!(translate_path("/sdk/app_modules/api", false), "/sdk/app_modules/api");
    assert_eq!(translate_path("/sdk/app_modules/api", true), "\\sdk\\app_modules\\api");
}
