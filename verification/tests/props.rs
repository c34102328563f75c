use libzfs::nvpair::{NvList, NvValue};
use libzfs::zprop_list::{ZpropItem, ZpropList};
use libzfs::{Libzfs, ZProp, Zfs, Zpool};

fn store(entries: Vec<(&str, NvValue)>) -> NvList {
    let mut l = NvList::new();
    for (k, v) in entries {
        l.insert_value(k, v);
    }
    l
}

fn fixed_item(id: i64, name: &str, value: &str) -> ZpropItem {
    ZpropItem {
        pl_prop: id,
        pl_user_prop: String::new(),
        prop_name: name.to_owned(),
        prop_status: 0,
        prop_value: value.to_owned(),
    }
}

fn failed_item(id: i64, name: &str) -> ZpropItem {
    ZpropItem {
        pl_prop: id,
        pl_user_prop: String::new(),
        prop_name: name.to_owned(),
        prop_status: 1,
        prop_value: String::new(),
    }
}

fn user_item(name: &str) -> ZpropItem {
    ZpropItem {
        pl_prop: -1,
        pl_user_prop: name.to_owned(),
        prop_name: String::new(),
        prop_status: 0,
        prop_value: String::new(),
    }
}

fn zp(name: &str, value: &str) -> ZProp {
    ZProp { name: name.to_owned(), value: value.to_owned() }
}

/// The property table of the `test/ds` dataset.
fn test_ds_pairs() -> Vec<(&'static str, &'static str)> {
    vec![
        ("name", "test/ds"),
        ("type", "filesystem"),
        ("used", "24576"),
        ("referenced", "24576"),
        ("compressratio", "1.00x"),
        ("mounted", "no"),
        ("quota", "0"),
        ("reservation", "0"),
        ("recordsize", "131072"),
        ("mountpoint", "/test/ds"),
        ("sharenfs", "off"),
        ("checksum", "on"),
        ("compression", "off"),
        ("atime", "on"),
        ("devices", "on"),
        ("exec", "on"),
        ("setuid", "on"),
        ("readonly", "off"),
        ("zoned", "off"),
        ("snapdir", "hidden"),
        ("aclinherit", "restricted"),
        ("canmount", "on"),
        ("xattr", "on"),
        ("copies", "1"),
        ("version", "5"),
        ("utf8only", "off"),
        ("normalization", "none"),
        ("casesensitivity", "sensitive"),
        ("vscan", "off"),
        ("nbmand", "off"),
        ("sharesmb", "off"),
        ("refquota", "0"),
        ("refreservation", "0"),
        ("primarycache", "all"),
        ("secondarycache", "all"),
        ("usedbysnapshots", "0"),
        ("usedbydataset", "24576"),
        ("usedbychildren", "0"),
        ("usedbyrefreservation", "0"),
        ("logbias", "latency"),
        ("dedup", "off"),
        ("mlslabel", "none"),
        ("sync", "standard"),
        ("dnodesize", "legacy"),
        ("refcompressratio", "1.00x"),
        ("written", "24576"),
        ("logicalused", "12288"),
        ("logicalreferenced", "12288"),
        ("volmode", "default"),
        ("filesystem_limit", "18446744073709551615"),
        ("snapshot_limit", "18446744073709551615"),
        ("filesystem_count", "18446744073709551615"),
        ("snapshot_count", "18446744073709551615"),
        ("snapdev", "hidden"),
        ("acltype", "off"),
        ("context", "none"),
        ("fscontext", "none"),
        ("defcontext", "none"),
        ("rootcontext", "none"),
        ("relatime", "off"),
        ("redundant_metadata", "all"),
        ("overlay", "off"),
    ]
}

/// A dataset snapshot shaped like the `test/ds` filesystem.
fn test_ds() -> Zfs {
    let mut items: Vec<ZpropItem> = Vec::new();
    let mut id: i64 = 0;
    for (name, value) in vec![
        ("available", "3547071488"),
        ("creation", "1545151400"),
        ("guid", "11387853600464190772"),
        ("createtxg", "88"),
    ] {
        items.push(fixed_item(id, name, value));
        id += 1;
    }
    for (name, value) in test_ds_pairs() {
        items.push(fixed_item(id, name, value));
        id += 1;
    }
    items.push(user_item("lustre:mgsnode"));
    let user_props = store(vec![(
        "lustre:mgsnode",
        NvValue::List(store(vec![(
            "value",
            NvValue::Str("10.14.82.0@tcp:10.14.82.1@tcp".to_owned()),
        )])),
    )]);
    Zfs::new("test/ds".to_owned(), 1, user_props, items)
}

fn zfs_by_name<F: Fn(&Zfs)>(name: &str, f: F) {
    let pool = Zpool::new(
        "test".to_owned(),
        0,
        14061078851931672636,
        83886080,
        false,
        "ONLINE".to_owned(),
        NvList::new(),
        vec![test_ds()],
    );
    let z = Libzfs::new(vec![pool]);
    let ds = z.dataset_by_name(name).expect("could not get dataset by name");
    f(ds);
}

#[test]
fn dataset_type_name() {
    zfs_by_name("test/ds", |ds| {
        assert_eq!(ds.zfs_type_name(), "filesystem".to_owned());
    })
}

#[test]
fn dataset_name() {
    zfs_by_name("test/ds", |ds| {
        assert_eq!(ds.name(), "test/ds".to_owned());
    });
}

#[test]
fn dataset_props() {
    zfs_by_name("test/ds", |ds| {
        let props = ds.props().unwrap();

        let mut expected: Vec<ZProp> = test_ds_pairs()
            .into_iter()
            .map(|(n, v)| zp(n, v))
            .collect();
        expected.push(zp("lustre:mgsnode", "10.14.82.0@tcp:10.14.82.1@tcp"));

        assert_eq!(
            props
                .into_iter()
                .filter(|x| ![
                    "available".to_owned(),
                    "creation".to_owned(),
                    "guid".to_owned(),
                    "createtxg".to_owned()
                ]
                    .contains(&x.name))
                .collect::<Vec<ZProp>>(),
            expected
        )
    });
}

#[test]
fn unmatched_user_prop_is_silently_dropped() {
    // one BAD-sentinel entry named "guid" with no matching user
    // property resolves to the empty list, not an error
    let zfs = Zfs::new("ds".to_owned(), 1, NvList::new(), vec![user_item("guid")]);
    assert_eq!(zfs.props().unwrap(), Vec::<ZProp>::new());
}

#[test]
fn user_prop_without_value_entry_is_dropped() {
    let user_props = store(vec![("org:note", NvValue::List(NvList::new()))]);
    let zfs = Zfs::new("ds".to_owned(), 1, user_props, vec![user_item("org:note")]);
    assert_eq!(zfs.props().unwrap(), Vec::<ZProp>::new());
}

#[test]
fn failed_fixed_fetch_is_silently_skipped() {
    let items = vec![
        fixed_item(0, "name", "ds"),
        failed_item(1, "creation"),
        fixed_item(2, "type", "filesystem"),
    ];
    let zfs = Zfs::new("ds".to_owned(), 1, NvList::new(), items);
    assert_eq!(
        zfs.props().unwrap(),
        vec![zp("name", "ds"), zp("type", "filesystem")]
    );
}

#[test]
fn resolving_twice_yields_equal_lists() {
    let ds = test_ds();
    assert_eq!(ds.props().unwrap(), ds.props().unwrap());
}

#[test]
fn prop_list_cursor_walks_the_schema_in_order() {
    let items = vec![fixed_item(0, "name", "ds"), user_item("org:note")];
    let zfs = Zfs::new("ds".to_owned(), 1, NvList::new(), items.clone());
    let pl = zfs.prop_list().unwrap();
    let mut pl: ZpropList = pl;
    let first = pl.next().unwrap();
    assert_eq!(first.prop(), 0);
    let second = pl.next().unwrap();
    assert_eq!(second.prop(), -1);
    assert_eq!(second.user_prop().as_str(), "org:note");
    assert!(pl.next().is_none());

    let fresh = ZpropList::new(&items);
    let mut fresh = fresh;
    assert_eq!(fresh.next().unwrap().prop(), 0);
}

#[test]
fn zfs_accessors() {
    let zfs = Zfs::new("a/b".to_owned(), 4, NvList::new(), vec![]);
    assert_eq!(zfs.zfs_type(), 4);
    assert_eq!(zfs.zfs_type_name(), "volume".to_owned());
    assert!(zfs.user_props().is_empty());
}
