use libzfs::nvpair::{NvList, NvValue};
use libzfs::zprop_list::ZpropItem;
use libzfs::{
    convert_to_dataset, convert_to_js_pool, get_dataset_by_name, get_imported_pools,
    get_pool_by_name, get_pool_by_name_and_guid, LibZfsError, Libzfs, VDev, Zfs, Zpool,
};

fn store(entries: Vec<(&str, NvValue)>) -> NvList {
    let mut l = NvList::new();
    for (k, v) in entries {
        l.insert_value(k, v);
    }
    l
}

fn disk(path: &str, guid: u64) -> NvList {
    store(vec![
        ("type", NvValue::Str("disk".to_owned())),
        ("path", NvValue::Str(path.to_owned())),
        ("guid", NvValue::U64(guid)),
        ("devid", NvValue::Str(format!("{}-id", path))),
        ("phys_path", NvValue::Str(format!("pci-{}", path))),
        ("whole_disk", NvValue::U64(1)),
        ("vdev_stats", NvValue::U64Array(vec![1545151400, 7, 0])),
    ])
}

fn test_config() -> NvList {
    let mirror = store(vec![
        ("type", NvValue::Str("mirror".to_owned())),
        (
            "children",
            NvValue::ListArray(vec![disk("/dev/sdb1", 11), disk("/dev/sdc1", 12)]),
        ),
    ]);
    let tree = store(vec![
        ("type", NvValue::Str("root".to_owned())),
        ("children", NvValue::ListArray(vec![mirror])),
        ("l2cache", NvValue::ListArray(vec![disk("/dev/sdd1", 21)])),
        (
            "spares",
            NvValue::ListArray(vec![disk("/dev/sde1", 31), disk("/dev/sdf1", 32)]),
        ),
    ]);
    store(vec![
        ("hostname", NvValue::Str("localhost.localdomain".to_owned())),
        ("hostid", NvValue::U64(0x007f0100)),
        ("vdev_tree", NvValue::List(tree)),
    ])
}

fn guid_prop_ds(name: &str) -> Zfs {
    let items = vec![ZpropItem {
        pl_prop: 0,
        pl_user_prop: String::new(),
        prop_name: "guid".to_owned(),
        prop_status: 0,
        prop_value: "11387853600464190772".to_owned(),
    }];
    Zfs::new(name.to_owned(), 1, NvList::new(), items)
}

fn test_pool() -> Zpool {
    Zpool::new(
        "test".to_owned(),
        0,
        0x1a2b,
        83886080,
        false,
        "ONLINE".to_owned(),
        test_config(),
        vec![guid_prop_ds("test/ds")],
    )
}

fn test_pools<F: Fn(&Vec<Zpool>)>(f: F) {
    let z = Libzfs::new(vec![test_pool()]);
    let pools = z.get_imported_pools().expect("could not fetch imported pools");
    f(pools);
}

fn pool_by_name<F: Fn(&Zpool)>(name: &str, f: F) {
    let z = Libzfs::new(vec![test_pool()]);
    let x = z.pool_by_name(name).expect("did not find test pool");
    f(x);
}

#[test]
fn libzfs_open_close_handle() {
    Libzfs::new(Vec::new());
}

#[test]
fn import_get_pool_len() {
    test_pools(|xs| assert_eq!(xs.len(), 1));
}

#[test]
fn get_pool_health() {
    pool_by_name("test", |p| {
        assert_eq!(p.health().expect("could not fetch pool health"), "ONLINE".to_owned())
    })
}

#[test]
fn get_pool_state() {
    pool_by_name("test", |p| assert_eq!(p.state_name(), "ACTIVE".to_owned()))
}

#[test]
fn get_pool_size() {
    pool_by_name("test", |p| assert_eq!(p.size(), 83886080))
}

#[test]
fn get_pool_read_only() {
    pool_by_name("test", |p| assert_eq!(p.read_only(), false))
}

#[test]
fn get_pool_hostname() {
    pool_by_name("test", |p| {
        assert_eq!(
            p.hostname().expect("could not get hostname"),
            "localhost.localdomain".to_owned()
        )
    })
}

#[test]
fn get_pool_hostid() {
    pool_by_name("test", |p| assert!(p.hostid().is_ok()))
}

#[test]
fn test_vdev_tree() {
    pool_by_name("test", |p| {
        let (mirror, cache_vdevs, spare_vdevs) = match p.vdev_tree().unwrap() {
            VDev::Root { children, cache, spares } => (children, cache, spares),
            _ => panic!("did not find root device"),
        };

        let mirror_vdevs = match mirror[0] {
            VDev::Mirror { ref children, .. } => children,
            _ => panic!("did not find mirror"),
        };

        match mirror_vdevs[0] {
            VDev::Disk { ref guid, ref state, ref path, ref dev_id, ref phys_path, whole_disk, is_log } => {
                assert!(guid.is_some());
                assert_eq!(state, "ONLINE");
                assert_eq!(path, "/dev/sdb1");
                assert!(dev_id.is_some());
                assert!(phys_path.is_some());
                assert_eq!(whole_disk, Some(true));
                assert!(is_log.is_none());
            },
            _ => panic!("did not find disk"),
        };

        match mirror_vdevs[1] {
            VDev::Disk { ref guid, ref state, ref path, ref dev_id, ref phys_path, whole_disk, is_log } => {
                assert!(guid.is_some());
                assert_eq!(state, "ONLINE");
                assert_eq!(path, "/dev/sdc1");
                assert!(dev_id.is_some());
                assert!(phys_path.is_some());
                assert_eq!(whole_disk, Some(true));
                assert!(is_log.is_none());
            },
            _ => panic!("did not find disk"),
        };

        match cache_vdevs[0] {
            VDev::Disk { ref guid, ref state, ref path, ref dev_id, ref phys_path, whole_disk, is_log } => {
                assert!(guid.is_some());
                assert_eq!(state, "ONLINE");
                assert_eq!(path, "/dev/sdd1");
                assert!(dev_id.is_some());
                assert!(phys_path.is_some());
                assert_eq!(whole_disk, Some(true));
                assert!(is_log.is_none());
            },
            _ => panic!("did not find disk"),
        };

        match spare_vdevs[0] {
            VDev::Disk { ref guid, ref state, ref path, ref dev_id, ref phys_path, whole_disk, is_log } => {
                assert!(guid.is_some());
                assert_eq!(state, "ONLINE");
                assert_eq!(path, "/dev/sde1");
                assert!(dev_id.is_some());
                assert!(phys_path.is_some());
                assert_eq!(whole_disk, Some(true));
                assert!(is_log.is_none());
            },
            _ => panic!("did not find disk"),
        };

        match spare_vdevs[1] {
            VDev::Disk { ref guid, ref state, ref path, ref dev_id, ref phys_path, whole_disk, is_log } => {
                assert!(guid.is_some());
                assert_eq!(state, "ONLINE");
                assert_eq!(path, "/dev/sdf1");
                assert!(dev_id.is_some());
                assert!(phys_path.is_some());
                assert_eq!(whole_disk, Some(true));
                assert!(is_log.is_none());
            },
            _ => panic!("did not find disk"),
        };
    })
}

#[test]
fn pool_guid_rendering() {
    pool_by_name("test", |p| {
        assert_eq!(p.guid(), 0x1a2b);
        assert_eq!(p.guid_hex(), "0x0000000000001A2B");
    })
}

#[test]
fn pool_config_access() {
    pool_by_name("test", |p| {
        assert!(p.get_config().contains_key("vdev_tree"));
        assert_eq!(p.name(), "test".to_owned());
        assert_eq!(p.state(), 0);
        assert_eq!(p.datasets().unwrap().len(), 1);
    })
}

#[test]
fn convert_pool_to_snapshot_record() {
    let pool = test_pool();
    let record = convert_to_js_pool(&pool).unwrap();
    assert_eq!(record.name, "test");
    assert_eq!(record.guid, 0x1a2b);
    assert_eq!(record.health, "ONLINE");
    assert_eq!(record.hostname, "localhost.localdomain");
    assert_eq!(record.hostid, Some(0x007f0100));
    assert_eq!(record.state, "ACTIVE");
    assert_eq!(record.readonly, false);
    assert_eq!(record.size, "83886080");
    assert_eq!(record.props, vec![]);
    assert_eq!(record.datasets.len(), 1);
    assert_eq!(record.datasets[0].name, "test/ds");
    assert_eq!(record.datasets[0].guid, "11387853600464190772");
    assert_eq!(record.datasets[0].kind, "filesystem");
    match record.vdev {
        VDev::Root { ref children, .. } => assert_eq!(children.len(), 1),
        _ => panic!("did not find root device"),
    }
}

#[test]
fn convert_pool_without_hostname_fails() {
    let mut pool = test_pool();
    pool.config = store(vec![(
        "vdev_tree",
        NvValue::List(store(vec![
            ("type", NvValue::Str("root".to_owned())),
            ("children", NvValue::ListArray(vec![disk("/dev/sda1", 1)])),
        ])),
    )]);
    assert_eq!(convert_to_js_pool(&pool).unwrap_err(), LibZfsError::MissingField);
}

#[test]
fn convert_dataset_finds_guid() {
    let ds = guid_prop_ds("test/ds");
    let record = convert_to_dataset(&ds).unwrap();
    assert_eq!(record.name, "test/ds");
    assert_eq!(record.guid, "11387853600464190772");
    assert_eq!(record.kind, "filesystem");
    assert_eq!(record.props.len(), 1);
}

#[test]
fn convert_dataset_without_guid_fails() {
    let ds = Zfs::new("test/ds".to_owned(), 1, NvList::new(), vec![]);
    assert_eq!(convert_to_dataset(&ds).unwrap_err(), LibZfsError::MissingField);
}

#[test]
fn get_pool_by_name_converts_the_named_pool() {
    let z = Libzfs::new(vec![test_pool()]);
    let record = get_pool_by_name(&z, "test").unwrap();
    assert_eq!(record.name, "test");
}

#[test]
fn get_pool_by_name_reports_missing_pool() {
    let z = Libzfs::new(Vec::new());
    match get_pool_by_name(&z, "nope").unwrap_err() {
        LibZfsError::PoolNotFound(name, guid) => {
            assert_eq!(name, Some("nope".to_owned()));
            assert_eq!(guid, None);
        },
        other => panic!("unexpected error {:?}", other),
    }
}

#[test]
fn get_pool_by_name_and_guid_checks_the_guid() {
    let z = Libzfs::new(vec![test_pool()]);
    assert!(get_pool_by_name_and_guid(&z, "test", 0x1a2b).is_ok());
    match get_pool_by_name_and_guid(&z, "test", 99).unwrap_err() {
        LibZfsError::PoolNotFound(name, guid) => {
            assert_eq!(name, Some("test".to_owned()));
            assert_eq!(guid, Some(99));
        },
        other => panic!("unexpected error {:?}", other),
    }
}

#[test]
fn get_dataset_by_name_converts_the_named_dataset() {
    let z = Libzfs::new(vec![test_pool()]);
    let record = get_dataset_by_name(&z, "test/ds").unwrap();
    assert_eq!(record.name, "test/ds");
    match get_dataset_by_name(&z, "other/ds").unwrap_err() {
        LibZfsError::ZfsNotFound(name) => assert_eq!(name, "other/ds"),
        other => panic!("unexpected error {:?}", other),
    }
}

#[test]
fn get_imported_pools_converts_every_pool() {
    let z = Libzfs::new(vec![test_pool()]);
    let records = get_imported_pools(&z).unwrap();
    assert_eq!(records.len(), 1);
    assert_eq!(records[0].name, "test");
    let empty = Libzfs::new(Vec::new());
    assert_eq!(get_imported_pools(&empty).unwrap().len(), 0);
}

#[test]
fn converting_the_same_pool_twice_is_equal() {
    let pool = test_pool();
    assert_eq!(convert_to_js_pool(&pool).unwrap(), convert_to_js_pool(&pool).unwrap());
}
