use taskchampion::kv::{tc_kv_list_free, TCKVList, TCKV};

#[test]
fn empty_list_has_non_null_pointer() {
    let tckvs = TCKVList::return_val(Vec::new());
    assert!(!tckvs.items_is_null());
    assert_eq!(tckvs.len(), 0);
    assert_eq!(tckvs.capacity(), 0);
}

#[test]
fn free_sets_null_pointer() {
    let mut tckvs = TCKVList::return_val(Vec::new());
    tc_kv_list_free(&mut tckvs);
    assert!(tckvs.items_is_null());
    assert_eq!(tckvs.len(), 0);
    assert_eq!(tckvs.capacity(), 0);
}

#[test]
fn kv_pair_round_trip() {
    let kv = TCKV::as_ctype(("status".to_string(), "pending".to_string()));
    assert_eq!(kv.key, "status");
    assert_eq!(kv.value, "pending");
    assert_eq!(
        kv.from_ctype(),
        ("status".to_string(), "pending".to_string())
    );
}

#[test]
fn kv_list_parts_round_trip() {
    let items = vec![
        TCKV::as_ctype(("a".to_string(), "1".to_string())),
        TCKV::as_ctype(("b".to_string(), "2".to_string())),
    ];
    let list = TCKVList::return_val(items);
    assert_eq!(list.len(), 2);
    assert_eq!(list.capacity(), 2);
    let (items, len, cap) = list.into_raw_parts();
    assert_eq!((len, cap), (2, 2));
    let list = TCKVList::from_raw_parts(items, 2, 5);
    assert!(!list.items_is_null());
    assert_eq!(list.len(), 2);
    assert_eq!(list.capacity(), 5);
    let (items, _, _) = list.into_raw_parts();
    let items = items.unwrap();
    assert_eq!(items[1].key, "b");
    assert_eq!(items[1].value, "2");
}
