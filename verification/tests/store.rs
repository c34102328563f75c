use libzfs::nvpair::{LookupError, NvEncode, NvList, NvValue};
use libzfs::sys;

fn store(entries: Vec<(&str, NvValue)>) -> NvList {
    let mut l = NvList::new();
    for (k, v) in entries {
        l.insert_value(k, v);
    }
    l
}

#[test]
fn lookup_string_finds_value() {
    let l = store(vec![("type", NvValue::Str("disk".to_owned()))]);
    assert_eq!(l.lookup_string("type").unwrap(), "disk".to_owned());
}

#[test]
fn lookup_absent_key_is_not_found() {
    let l = store(vec![("type", NvValue::Str("disk".to_owned()))]);
    assert_eq!(l.lookup_string("path").unwrap_err(), LookupError::NotFound);
    assert!(!l.contains_key("path"));
}

#[test]
fn lookup_wrong_type_is_told_apart_from_absent() {
    let l = store(vec![("guid", NvValue::U64(7))]);
    assert_eq!(l.lookup_string("guid").unwrap_err(), LookupError::WrongType);
    assert!(l.contains_key("guid"));
}

#[test]
fn lookup_uint64_and_arrays() {
    let l = store(vec![
        ("n", NvValue::U64(42)),
        ("ws", NvValue::U64Array(vec![1, 2, 3])),
    ]);
    assert_eq!(l.lookup_uint64("n").unwrap(), 42);
    assert_eq!(l.lookup_uint64_array("ws").unwrap(), &vec![1, 2, 3]);
}

#[test]
fn lookup_nested_store() {
    let inner = store(vec![("value", NvValue::Str("on".to_owned()))]);
    let l = store(vec![("opt", NvValue::List(inner))]);
    let got = l.lookup_nv_list("opt").unwrap();
    assert_eq!(got.lookup_string("value").unwrap(), "on".to_owned());
}

#[test]
fn insert_replaces_existing_key_and_moves_it_last() {
    let mut l = store(vec![
        ("a", NvValue::U64(1)),
        ("b", NvValue::U64(2)),
    ]);
    l.insert_value("a", NvValue::U64(9));
    assert_eq!(l.lookup_uint64("a").unwrap(), 9);
    assert_eq!(l.lookup_uint64("b").unwrap(), 2);
    // the replaced entry now sits at the end, as in a unique-name store
    let mut it = l.iter();
    let first = it.next().unwrap();
    assert_eq!(first.name().as_str(), "b");
    let second = it.next().unwrap();
    assert_eq!(second.name().as_str(), "a");
    assert!(it.next().is_none());
}

#[test]
fn iteration_follows_insertion_order() {
    let l = store(vec![
        ("x", NvValue::U64(1)),
        ("y", NvValue::U64(2)),
        ("z", NvValue::U64(3)),
    ]);
    let mut names = Vec::new();
    let mut it = l.iter();
    while let Some(p) = it.next() {
        names.push(p.name().clone());
    }
    assert_eq!(names, vec!["x".to_owned(), "y".to_owned(), "z".to_owned()]);
}

#[test]
fn first_returns_the_oldest_entry() {
    let l = store(vec![("x", NvValue::U64(1)), ("y", NvValue::U64(2))]);
    assert_eq!(l.first().unwrap().name().as_str(), "x");
    assert!(NvList::new().first().is_none());
}

#[test]
fn empty_store_is_empty() {
    assert!(NvList::new().is_empty());
    assert!(NvList::new_unqiue_names().is_empty());
    assert!(!store(vec![("x", NvValue::U64(1))]).is_empty());
}

#[test]
fn try_clone_is_a_deep_equal_copy() {
    let inner = store(vec![("value", NvValue::Str("deep".to_owned()))]);
    let l = store(vec![
        ("nested", NvValue::List(inner)),
        ("words", NvValue::U64Array(vec![5, 6])),
    ]);
    let c = l.try_clone().unwrap();
    assert_eq!(
        c.lookup_nv_list("nested").unwrap().lookup_string("value").unwrap(),
        "deep".to_owned()
    );
    assert_eq!(c.lookup_uint64_array("words").unwrap(), &vec![5, 6]);
    let owned = l.try_to_owned().unwrap();
    assert!(!owned.is_empty());
}

#[test]
fn nv_encode_inserts_each_value_kind() {
    let mut l = NvList::new();
    true.insert("flag", &mut l).unwrap();
    7u64.insert("count", &mut l).unwrap();
    "text".to_owned().insert("label", &mut l).unwrap();
    let inner = store(vec![("value", NvValue::Str("x".to_owned()))]);
    inner.insert("nested", &mut l).unwrap();
    assert!(l.contains_key("flag"));
    assert_eq!(l.lookup_uint64("count").unwrap(), 7);
    assert_eq!(l.lookup_string("label").unwrap(), "text".to_owned());
    assert!(l.lookup_nv_list("nested").unwrap().contains_key("value"));
}

#[test]
fn pair_accessors() {
    let l = store(vec![("only", NvValue::U64(3))]);
    let p = l.lookup("only").unwrap();
    assert_eq!(p.name().as_str(), "only");
    assert!(p.value_nv_list().is_err());
    let l2 = store(vec![("sub", NvValue::List(NvList::new()))]);
    let p2 = l2.lookup("sub").unwrap();
    assert!(p2.value_nv_list().is_ok());
}

#[test]
fn config_key_names() {
    assert_eq!(sys::zpool_config_vdev_tree(), "vdev_tree");
    assert_eq!(sys::zpool_config_type(), "type");
    assert_eq!(sys::zpool_config_children(), "children");
    assert_eq!(sys::zpool_config_spares(), "spares");
    assert_eq!(sys::zpool_config_l2cache(), "l2cache");
    assert_eq!(sys::zpool_config_path(), "path");
    assert_eq!(sys::zpool_config_dev_id(), "devid");
    assert_eq!(sys::zpool_config_phys_path(), "phys_path");
    assert_eq!(sys::zpool_config_is_log(), "is_log");
    assert_eq!(sys::zpool_config_whole_disk(), "whole_disk");
    assert_eq!(sys::zpool_config_hostid(), "hostid");
    assert_eq!(sys::zpool_config_hostname(), "hostname");
    assert_eq!(sys::zpool_config_guid(), "guid");
    assert_eq!(sys::zprop_value(), "value");
    assert_eq!(sys::zpool_config_vdev_stats(), "vdev_stats");
}

#[test]
fn zfs_type_dataset_is_the_three_dataset_flags() {
    assert_eq!(sys::zfs_type_dataset(), 7);
}

#[test]
fn range_validators() {
    assert_eq!(sys::to_vdev_state(7), Some(7));
    assert_eq!(sys::to_vdev_state(8), None);
    assert_eq!(sys::to_vdev_aux(18), Some(18));
    assert_eq!(sys::to_vdev_aux(19), None);
    assert_eq!(sys::to_zfs_prop_t(-1), Some(-1));
    assert_eq!(sys::to_zfs_prop_t(82), Some(82));
    assert_eq!(sys::to_zfs_prop_t(-2), None);
    assert_eq!(sys::to_zfs_prop_t(83), None);
}

#[test]
fn vdev_stat_positional_decode() {
    let st = sys::to_vdev_stat(&vec![99, 7, 2]).unwrap();
    assert_eq!(st.vs_timestamp, 99);
    assert_eq!(st.vs_state, 7);
    assert_eq!(st.vs_aux, 2);
    assert_eq!(
        sys::to_vdev_stat(&vec![99, 7]).unwrap_err(),
        libzfs::LibZfsError::BufferTooShort
    );
}

#[test]
fn state_name_table() {
    assert_eq!(sys::zpool_state_to_name(7, 0), "ONLINE");
    assert_eq!(sys::zpool_state_to_name(1, 0), "OFFLINE");
    assert_eq!(sys::zpool_state_to_name(2, 0), "OFFLINE");
    assert_eq!(sys::zpool_state_to_name(3, 0), "REMOVED");
    assert_eq!(sys::zpool_state_to_name(4, 2), "FAULTED");
    assert_eq!(sys::zpool_state_to_name(4, 13), "FAULTED");
    assert_eq!(sys::zpool_state_to_name(4, 15), "SPLIT");
    assert_eq!(sys::zpool_state_to_name(4, 0), "UNAVAIL");
    assert_eq!(sys::zpool_state_to_name(5, 0), "FAULTED");
    assert_eq!(sys::zpool_state_to_name(6, 0), "DEGRADED");
    assert_eq!(sys::zpool_state_to_name(0, 0), "UNKNOWN");
}

#[test]
fn pool_state_name_table() {
    assert_eq!(sys::zpool_pool_state_to_name(0), "ACTIVE");
    assert_eq!(sys::zpool_pool_state_to_name(1), "EXPORTED");
    assert_eq!(sys::zpool_pool_state_to_name(2), "DESTROYED");
    assert_eq!(sys::zpool_pool_state_to_name(7), "POTENTIALLY_ACTIVE");
    assert_eq!(sys::zpool_pool_state_to_name(40), "UNKNOWN");
}

#[test]
fn zfs_type_name_table() {
    assert_eq!(sys::zfs_type_to_name(1), "filesystem");
    assert_eq!(sys::zfs_type_to_name(2), "snapshot");
    assert_eq!(sys::zfs_type_to_name(4), "volume");
    assert_eq!(sys::zfs_type_to_name(8), "pool");
    assert_eq!(sys::zfs_type_to_name(16), "bookmark");
}

#[test]
fn decimal_rendering() {
    assert_eq!(libzfs::strfmt::u64_to_string(0), "0");
    assert_eq!(libzfs::strfmt::u64_to_string(83886080), "83886080");
    assert_eq!(
        libzfs::strfmt::u64_to_string(u64::MAX),
        "18446744073709551615"
    );
}

#[test]
fn hex_rendering() {
    assert_eq!(libzfs::strfmt::u64_to_hex(0x1a2b, 16), "0000000000001A2B");
    assert_eq!(libzfs::strfmt::u64_to_hex(0, 1), "0");
    assert_eq!(libzfs::strfmt::u64_to_hex(0xDEADBEEF, 8), "DEADBEEF");
}
