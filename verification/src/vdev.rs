//! The topology decoder: turns an [`NvList`] pool configuration into a
//! [`VDev`] device tree.
//!
//! Dispatch is on the store's `type` attribute.  Container types read a
//! `children` array and decode each entry recursively, failing fast on
//! the first failure; `root` additionally reads `spares` and `l2cache`,
//! which default to empty when their lookup fails for any reason.  Leaf
//! types read their scalar fields, each optional field tolerant of
//! absence, and resolve their state name through the status decoder.

use crate::libzfs_types::{vdev_model, vdevs_model, LibZfsError, VDev, VDevModel};
use crate::nvpair::{
    lemma_lists_model, lemma_lookup_pairs_dec, lists_model, str_eq, NvList, NvListModel,
    NvValueModel,
};
use crate::sys;
use vstd::prelude::*;

verus! {

/// The state name an array of status words decodes to: the words must
/// be long enough, and the state and auxiliary codes at their fixed
/// positions must lie in their documented ranges, never silently
/// clamped.
pub open spec fn spec_decode_stats(ws: Seq<u64>) -> Result<Seq<char>, LibZfsError> {
    if ws.len() < sys::VDEV_STAT_WORDS as int {
        Err(LibZfsError::BufferTooShort)
    } else if ws[1] > sys::VDEV_STATE_HEALTHY {
        Err(LibZfsError::InvalidStatusCode)
    } else if ws[2] > sys::VDEV_AUX_MAX {
        Err(LibZfsError::InvalidStatusCode)
    } else {
        Ok(sys::spec_zpool_state_name(ws[1], ws[2]))
    }
}

/// A state code outside its documented range is an error on its own,
/// whatever the auxiliary code holds.
pub proof fn lemma_invalid_state_code(ws: Seq<u64>)
    requires
        ws.len() >= sys::VDEV_STAT_WORDS as int,
        ws[1] > sys::VDEV_STATE_HEALTHY,
    ensures
        spec_decode_stats(ws) == Err::<Seq<char>, LibZfsError>(LibZfsError::InvalidStatusCode),
{
}

/// The state name a leaf's status words resolve to.
pub open spec fn spec_lookup_state(l: NvListModel) -> Result<Seq<char>, LibZfsError> {
    match l.lookup_u64_array("vdev_stats"@) {
        None => Err(LibZfsError::MissingField),
        Some(ws) => spec_decode_stats(ws),
    }
}

/// An optional flag attribute: a 64-bit value compared against 1, absent
/// or mistyped attributes giving `None`.
pub open spec fn spec_opt_flag(l: NvListModel, key: Seq<char>) -> Option<bool> {
    match l.lookup_u64(key) {
        Some(n) => Some(n == 1),
        None => None,
    }
}

/// What decoding a `disk` store yields.
pub open spec fn spec_decode_disk(l: NvListModel) -> Result<VDevModel, LibZfsError> {
    match l.lookup_string("path"@) {
        None => Err(LibZfsError::MissingField),
        Some(path) => match spec_lookup_state(l) {
            Err(e) => Err(e),
            Ok(state) => Ok(
                VDevModel::Disk {
                    guid: l.lookup_u64("guid"@),
                    state,
                    path,
                    dev_id: l.lookup_string("devid"@),
                    phys_path: l.lookup_string("phys_path"@),
                    whole_disk: spec_opt_flag(l, "whole_disk"@),
                    is_log: spec_opt_flag(l, "is_log"@),
                },
            ),
        },
    }
}

/// What decoding a `file` store yields.
pub open spec fn spec_decode_file(l: NvListModel) -> Result<VDevModel, LibZfsError> {
    match l.lookup_string("path"@) {
        None => Err(LibZfsError::MissingField),
        Some(path) => match spec_lookup_state(l) {
            Err(e) => Err(e),
            Ok(state) => Ok(
                VDevModel::File {
                    guid: l.lookup_u64("guid"@),
                    state,
                    path,
                    is_log: spec_opt_flag(l, "is_log"@),
                },
            ),
        },
    }
}

/// What decoding a sequence of child stores yields: each child decoded
/// in array order, the earliest failure aborting the whole sequence.
pub open spec fn spec_vdev_children(ls: Seq<NvListModel>) -> Result<Seq<VDevModel>, LibZfsError>
    decreases ls, 0int,
    via spec_vdev_children_dec
{
    if ls.len() == 0 {
        Ok(Seq::empty())
    } else {
        match spec_vdev_children(ls.drop_last()) {
            Err(e) => Err(e),
            Ok(rest) => match spec_vdev_tree(ls.last()) {
                Err(e) => Err(e),
                Ok(v) => Ok(rest.push(v)),
            },
        }
    }
}

#[via_fn]
proof fn spec_vdev_children_dec(ls: Seq<NvListModel>) {
    if ls.len() > 0 {
        assert(decreases_to!(ls => ls.subrange(0, ls.len() - 1)));
        assert(decreases_to!(ls => ls[ls.len() - 1]));
    }
}

/// A store array found under `key` lies structurally inside the store,
/// so recursion into it terminates.
proof fn lemma_lookup_list_array_dec(l: NvListModel, key: Seq<char>)
    ensures
        l.lookup_list_array(key) matches Some(cs) ==> decreases_to!(l => cs),
{
    lemma_lookup_pairs_dec(l.pairs, key);
    match l.lookup(key) {
        Some(v) => {
            assert(decreases_to!(l => l.pairs));
            match v {
                NvValueModel::ListArray(cs) => {
                    assert(decreases_to!(v => cs));
                },
                _ => {},
            }
        },
        None => {},
    }
}

/// What decoding the required `children` array of a container store
/// yields: a missing or mistyped array is a hard failure.
pub open spec fn spec_get_children(l: NvListModel) -> Result<Seq<VDevModel>, LibZfsError>
    decreases l, 0int,
    via spec_get_children_dec
{
    match l.lookup_list_array("children"@) {
        None => Err(LibZfsError::MissingField),
        Some(cs) => spec_vdev_children(cs),
    }
}

#[via_fn]
proof fn spec_get_children_dec(l: NvListModel) {
    lemma_lookup_list_array_dec(l, "children"@);
}

/// What decoding an optional backup array (`spares` or `l2cache`)
/// yields: a failed lookup of any kind defaults to the empty sequence,
/// while a failure decoding a present entry still aborts.
pub open spec fn spec_get_backup(l: NvListModel, key: Seq<char>) -> Result<
    Seq<VDevModel>,
    LibZfsError,
>
    decreases l, 0int,
    via spec_get_backup_dec
{
    match l.lookup_list_array(key) {
        None => Ok(Seq::empty()),
        Some(cs) => spec_vdev_children(cs),
    }
}

#[via_fn]
proof fn spec_get_backup_dec(l: NvListModel, key: Seq<char>) {
    lemma_lookup_list_array_dec(l, key);
}

/// What decoding a device store yields: the typed device node, or the
/// first failure met.
///
/// A store without a string `type` attribute fails with `MissingField`;
/// an unrecognized type tag fails with `UnknownDeviceType`; no partial
/// tree is ever returned.
pub open spec fn spec_vdev_tree(l: NvListModel) -> Result<VDevModel, LibZfsError>
    decreases l, 1int,
{
    match l.lookup_string("type"@) {
        None => Err(LibZfsError::MissingField),
        Some(t) => if t == "disk"@ {
            spec_decode_disk(l)
        } else if t == "file"@ {
            spec_decode_file(l)
        } else if t == "mirror"@ {
            match spec_get_children(l) {
                Err(e) => Err(e),
                Ok(children) => Ok(
                    VDevModel::Mirror { children, is_log: spec_opt_flag(l, "is_log"@) },
                ),
            }
        } else if t == "raidz"@ {
            match spec_get_children(l) {
                Err(e) => Err(e),
                Ok(children) => Ok(VDevModel::RaidZ { children }),
            }
        } else if t == "replacing"@ {
            match spec_get_children(l) {
                Err(e) => Err(e),
                Ok(children) => Ok(VDevModel::Replacing { children }),
            }
        } else if t == "root"@ {
            match spec_get_children(l) {
                Err(e) => Err(e),
                Ok(children) => match spec_get_backup(l, "spares"@) {
                    Err(e) => Err(e),
                    Ok(spares) => match spec_get_backup(l, "l2cache"@) {
                        Err(e) => Err(e),
                        Ok(cache) => Ok(VDevModel::Root { children, spares, cache }),
                    },
                },
            }
        } else {
            Err(LibZfsError::UnknownDeviceType)
        },
    }
}

/// A failed prefix decodes the whole sequence to the same failure.
proof fn lemma_spec_children_err_extends(s: Seq<NvListModel>, j: int)
    requires
        0 <= j <= s.len(),
        spec_vdev_children(s.take(j)) is Err,
    ensures
        spec_vdev_children(s) == spec_vdev_children(s.take(j)),
    decreases s.len() - j,
{
    if j < s.len() {
        assert(s.take(j + 1).drop_last() =~= s.take(j));
        lemma_spec_children_err_extends(s, j + 1);
    } else {
        assert(s.take(j) =~= s);
    }
}

/// An optional string attribute: absent or mistyped attributes give
/// `None`, never an error.
fn lookup_tree_str(tree: &NvList, name: String) -> (r: Option<String>)
    ensures
        r matches Some(s) ==> tree@.lookup_string(name@) == Some(s@),
        r is None ==> tree@.lookup_string(name@) is None,
{
    match tree.lookup_string(name.as_str()) {
        Ok(s) => Some(s),
        Err(_) => None,
    }
}

/// The optional `is_log` flag of a device store.
fn lookup_is_log(tree: &NvList) -> (r: Option<bool>)
    ensures
        r == spec_opt_flag(tree@, "is_log"@),
{
    match tree.lookup_uint64(sys::zpool_config_is_log().as_str()) {
        Ok(n) => Some(n == 1),
        Err(_) => None,
    }
}

/// The optional `guid` attribute of a device store.
fn lookup_guid(tree: &NvList) -> (r: Option<u64>)
    ensures
        r == tree@.lookup_u64("guid"@),
{
    match tree.lookup_uint64(sys::zpool_config_guid().as_str()) {
        Ok(n) => Some(n),
        Err(_) => None,
    }
}

/// Resolves a leaf's state name from its `vdev_stats` words.
fn lookup_state(tree: &NvList) -> (r: Result<String, LibZfsError>)
    ensures
        match r {
            Ok(s) => spec_lookup_state(tree@) == Ok::<Seq<char>, LibZfsError>(s@),
            Err(e) => spec_lookup_state(tree@) == Err::<Seq<char>, LibZfsError>(e),
        },
{
    let ws = match tree.lookup_uint64_array(sys::zpool_config_vdev_stats().as_str()) {
        Ok(ws) => ws,
        Err(_) => {
            return Err(LibZfsError::MissingField);
        },
    };
    let stat = match sys::to_vdev_stat(ws) {
        Ok(st) => st,
        Err(e) => {
            return Err(e);
        },
    };
    let state = match sys::to_vdev_state(stat.vs_state) {
        Some(s) => s,
        None => {
            return Err(LibZfsError::InvalidStatusCode);
        },
    };
    let aux = match sys::to_vdev_aux(stat.vs_aux) {
        Some(a) => a,
        None => {
            return Err(LibZfsError::InvalidStatusCode);
        },
    };
    Ok(sys::zpool_state_to_name(state, aux))
}

/// Decodes the required `children` array of a container store.
fn get_children(tree: &NvList) -> (r: Result<Vec<VDev>, LibZfsError>)
    ensures
        match r {
            Ok(v) => spec_get_children(tree@) == Ok::<Seq<VDevModel>, LibZfsError>(
                vdevs_model(v@),
            ),
            Err(e) => spec_get_children(tree@) == Err::<Seq<VDevModel>, LibZfsError>(e),
        },
    decreases tree@, 2int,
{
    match tree.lookup_nv_list_array(sys::zpool_config_children().as_str()) {
        Ok(ls) => {
            proof {
                lemma_lookup_list_array_dec(tree@, "children"@);
            }
            decode_child_array(tree, ls)
        },
        Err(_) => Err(LibZfsError::MissingField),
    }
}

/// Decodes the optional `spares` array of a `root` store.
fn get_spares(tree: &NvList) -> (r: Result<Vec<VDev>, LibZfsError>)
    ensures
        match r {
            Ok(v) => spec_get_backup(tree@, "spares"@) == Ok::<Seq<VDevModel>, LibZfsError>(
                vdevs_model(v@),
            ),
            Err(e) => spec_get_backup(tree@, "spares"@) == Err::<Seq<VDevModel>, LibZfsError>(e),
        },
    decreases tree@, 2int,
{
    match tree.lookup_nv_list_array(sys::zpool_config_spares().as_str()) {
        Ok(ls) => {
            proof {
                lemma_lookup_list_array_dec(tree@, "spares"@);
            }
            decode_child_array(tree, ls)
        },
        Err(_) => Ok(Vec::new()),
    }
}

/// Decodes the optional `l2cache` array of a `root` store.
fn get_cache(tree: &NvList) -> (r: Result<Vec<VDev>, LibZfsError>)
    ensures
        match r {
            Ok(v) => spec_get_backup(tree@, "l2cache"@) == Ok::<Seq<VDevModel>, LibZfsError>(
                vdevs_model(v@),
            ),
            Err(e) => spec_get_backup(tree@, "l2cache"@) == Err::<Seq<VDevModel>, LibZfsError>(e),
        },
    decreases tree@, 2int,
{
    match tree.lookup_nv_list_array(sys::zpool_config_l2cache().as_str()) {
        Ok(ls) => {
            proof {
                lemma_lookup_list_array_dec(tree@, "l2cache"@);
            }
            decode_child_array(tree, ls)
        },
        Err(_) => Ok(Vec::new()),
    }
}

/// Decodes an array of child stores in order, failing fast.
///
/// The array must have been looked up inside `tree`, which bounds the
/// recursion.
fn decode_child_array(tree: &NvList, ls: &Vec<NvList>) -> (r: Result<Vec<VDev>, LibZfsError>)
    requires
        decreases_to!(tree@ => lists_model(ls@)),
    ensures
        match r {
            Ok(v) => spec_vdev_children(lists_model(ls@)) == Ok::<Seq<VDevModel>, LibZfsError>(
                vdevs_model(v@),
            ),
            Err(e) => spec_vdev_children(lists_model(ls@)) == Err::<Seq<VDevModel>, LibZfsError>(
                e,
            ),
        },
    decreases tree@, 1int,
{
    let ghost cs: Seq<NvListModel> = lists_model(ls@);
    proof {
        lemma_lists_model(ls@);
    }
    let n: usize = ls.len();
    let mut out: Vec<VDev> = Vec::new();
    let mut i: usize = 0;
    while i < n
        invariant
            n == ls@.len(),
            0 <= i <= n,
            cs == lists_model(ls@),
            decreases_to!(tree@ => cs),
            spec_vdev_children(cs.take(i as int)) == Ok::<Seq<VDevModel>, LibZfsError>(
                vdevs_model(out@),
            ),
        decreases n - i,
    {
        proof {
            lemma_lists_model(ls@);
            assert(decreases_to!(cs => cs[i as int]));
            assert(cs[i as int] == (&ls[i as int])@);
        }
        let ghost prev: Seq<VDev> = out@;
        match enumerate_vdev_tree(&ls[i]) {
            Ok(v) => {
                out.push(v);
                proof {
                    assert(out@.drop_last() =~= prev);
                    assert(cs.take(i + 1).drop_last() =~= cs.take(i as int));
                    assert(cs.take(i + 1).last() == cs[i as int]);
                }
            },
            Err(e) => {
                proof {
                    assert(cs.take(i + 1).drop_last() =~= cs.take(i as int));
                    assert(cs.take(i + 1).last() == cs[i as int]);
                    lemma_spec_children_err_extends(cs, i + 1);
                }
                return Err(e);
            },
        }
        i = i + 1;
    }
    proof {
        assert(cs.take(n as int) =~= cs);
    }
    Ok(out)
}

/// What the decoder promises of a result `r` for a store `l`: the
/// result carries exactly what [`spec_vdev_tree`] gives for the store.
pub open spec fn enumerate_post(l: NvListModel, r: Result<VDev, LibZfsError>) -> bool {
    match r {
        Ok(v) => spec_vdev_tree(l) == Ok::<VDevModel, LibZfsError>(v@),
        Err(e) => spec_vdev_tree(l) == Err::<VDevModel, LibZfsError>(e),
    }
}

/// Decoding is a function of the store alone: any two results the
/// decoder's contract admits for the same store are structurally
/// equal, so decoding the same store twice yields equal trees.
pub proof fn lemma_enumerate_deterministic(
    l: NvListModel,
    r1: Result<VDev, LibZfsError>,
    r2: Result<VDev, LibZfsError>,
)
    requires
        enumerate_post(l, r1),
        enumerate_post(l, r2),
    ensures
        r1 is Ok <==> r2 is Ok,
        r1 matches Ok(v1) ==> r2 matches Ok(v2) && v1@ == v2@,
        r1 matches Err(e1) ==> r2 matches Err(e2) && e1 == e2,
{
}

/// Decodes an attribute store into a device-topology node.
///
/// Returns the fully typed node exactly when the store is well formed
/// for its device type, and otherwise the first failure met, as
/// [`spec_vdev_tree`] states; no partial tree is ever returned.
pub fn enumerate_vdev_tree(tree: &NvList) -> (r: Result<VDev, LibZfsError>)
    ensures
        enumerate_post(tree@, r),
    decreases tree@, 3int,
{
    let tmp = match tree.lookup_string(sys::zpool_config_type().as_str()) {
        Ok(s) => s,
        Err(_) => {
            return Err(LibZfsError::MissingField);
        },
    };
    if str_eq(tmp.as_str(), "disk") {
        let path = match tree.lookup_string(sys::zpool_config_path().as_str()) {
            Ok(p) => p,
            Err(_) => {
                return Err(LibZfsError::MissingField);
            },
        };
        let dev_id = lookup_tree_str(tree, sys::zpool_config_dev_id());
        let phys_path = lookup_tree_str(tree, sys::zpool_config_phys_path());
        let whole_disk = match tree.lookup_uint64(sys::zpool_config_whole_disk().as_str()) {
            Ok(n) => Some(n == 1),
            Err(_) => None,
        };
        let state = match lookup_state(tree) {
            Ok(s) => s,
            Err(e) => {
                return Err(e);
            },
        };
        Ok(
            VDev::Disk {
                guid: lookup_guid(tree),
                state,
                path,
                dev_id,
                phys_path,
                whole_disk,
                is_log: lookup_is_log(tree),
            },
        )
    } else if str_eq(tmp.as_str(), "file") {
        let path = match tree.lookup_string(sys::zpool_config_path().as_str()) {
            Ok(p) => p,
            Err(_) => {
                return Err(LibZfsError::MissingField);
            },
        };
        let state = match lookup_state(tree) {
            Ok(s) => s,
            Err(e) => {
                return Err(e);
            },
        };
        Ok(VDev::File { guid: lookup_guid(tree), state, path, is_log: lookup_is_log(tree) })
    } else if str_eq(tmp.as_str(), "mirror") {
        let children = match get_children(tree) {
            Ok(c) => c,
            Err(e) => {
                return Err(e);
            },
        };
        let is_log = lookup_is_log(tree);
        Ok(VDev::Mirror { children, is_log })
    } else if str_eq(tmp.as_str(), "raidz") {
        let children = match get_children(tree) {
            Ok(c) => c,
            Err(e) => {
                return Err(e);
            },
        };
        Ok(VDev::RaidZ { children })
    } else if str_eq(tmp.as_str(), "replacing") {
        let children = match get_children(tree) {
            Ok(c) => c,
            Err(e) => {
                return Err(e);
            },
        };
        Ok(VDev::Replacing { children })
    } else if str_eq(tmp.as_str(), "root") {
        let children = match get_children(tree) {
            Ok(c) => c,
            Err(e) => {
                return Err(e);
            },
        };
        let spares = match get_spares(tree) {
            Ok(s) => s,
            Err(e) => {
                return Err(e);
            },
        };
        let cache = match get_cache(tree) {
            Ok(c) => c,
            Err(e) => {
                return Err(e);
            },
        };
        Ok(VDev::Root { children, spares, cache })
    } else {
        Err(LibZfsError::UnknownDeviceType)
    }
}

/// The device-type tags the decoder knows.
pub open spec fn spec_known_tags() -> Set<Seq<char>> {
    set!["disk"@, "file"@, "mirror"@, "raidz"@, "replacing"@, "root"@]
}

/// A store whose `type` attribute names no known device type decodes
/// to `UnknownDeviceType`, whatever else it holds; no partial result
/// is returned.
pub proof fn lemma_unknown_device_type(l: NvListModel, t: Seq<char>)
    requires
        l.lookup_string("type"@) == Some(t),
        !spec_known_tags().contains(t),
    ensures
        spec_vdev_tree(l) == Err::<VDevModel, LibZfsError>(LibZfsError::UnknownDeviceType),
{
}

/// A minimal well-formed `disk` store decodes successfully, and every
/// optional field round-trips: present attributes come back `Some`,
/// absent ones `None`.
pub proof fn lemma_decode_disk_round_trip(l: NvListModel, path: Seq<char>, state: Seq<char>)
    requires
        l.lookup_string("type"@) == Some("disk"@),
        l.lookup_string("path"@) == Some(path),
        spec_lookup_state(l) == Ok::<Seq<char>, LibZfsError>(state),
    ensures
        spec_vdev_tree(l) == Ok::<VDevModel, LibZfsError>(
            VDevModel::Disk {
                guid: l.lookup_u64("guid"@),
                state,
                path,
                dev_id: l.lookup_string("devid"@),
                phys_path: l.lookup_string("phys_path"@),
                whole_disk: spec_opt_flag(l, "whole_disk"@),
                is_log: spec_opt_flag(l, "is_log"@),
            },
        ),
{
}

/// A minimal well-formed `file` store decodes successfully, and every
/// optional field round-trips: present attributes come back `Some`,
/// absent ones `None`.
pub proof fn lemma_decode_file_round_trip(l: NvListModel, path: Seq<char>, state: Seq<char>)
    requires
        l.lookup_string("type"@) == Some("file"@),
        l.lookup_string("path"@) == Some(path),
        spec_lookup_state(l) == Ok::<Seq<char>, LibZfsError>(state),
    ensures
        spec_vdev_tree(l) == Ok::<VDevModel, LibZfsError>(
            VDevModel::File {
                guid: l.lookup_u64("guid"@),
                state,
                path,
                is_log: spec_opt_flag(l, "is_log"@),
            },
        ),
{
    reveal_strlit("disk");
    reveal_strlit("file");
    assert("file"@[0] == 'f');
    assert("disk"@[0] == 'd');
}

/// A minimal well-formed container store decodes successfully: its
/// children decode in array order, a `mirror` keeps its optional
/// `is_log` flag, and a `root` whose `spares` or `l2cache` lookup
/// fails gets the empty list for it rather than an error.
pub proof fn lemma_decode_container_round_trip(
    l: NvListModel,
    t: Seq<char>,
    cs: Seq<NvListModel>,
    children: Seq<VDevModel>,
)
    requires
        l.lookup_string("type"@) == Some(t),
        t == "mirror"@ || t == "raidz"@ || t == "replacing"@ || t == "root"@,
        l.lookup_list_array("children"@) == Some(cs),
        spec_vdev_children(cs) == Ok::<Seq<VDevModel>, LibZfsError>(children),
        t == "root"@ ==> l.lookup_list_array("spares"@) is None && l.lookup_list_array(
            "l2cache"@,
        ) is None,
    ensures
        t == "mirror"@ ==> spec_vdev_tree(l) == Ok::<VDevModel, LibZfsError>(
            VDevModel::Mirror { children, is_log: spec_opt_flag(l, "is_log"@) },
        ),
        t == "raidz"@ ==> spec_vdev_tree(l) == Ok::<VDevModel, LibZfsError>(
            VDevModel::RaidZ { children },
        ),
        t == "replacing"@ ==> spec_vdev_tree(l) == Ok::<VDevModel, LibZfsError>(
            VDevModel::Replacing { children },
        ),
        t == "root"@ ==> spec_vdev_tree(l) == Ok::<VDevModel, LibZfsError>(
            VDevModel::Root { children, spares: Seq::empty(), cache: Seq::empty() },
        ),
{
    reveal_strlit("disk");
    reveal_strlit("file");
    reveal_strlit("mirror");
    reveal_strlit("raidz");
    reveal_strlit("replacing");
    reveal_strlit("root");
    assert("disk"@.len() == 4);
    assert("file"@.len() == 4);
    assert("mirror"@.len() == 6);
    assert("raidz"@.len() == 5);
    assert("replacing"@.len() == 9);
    assert("root"@.len() == 4);
    assert("disk"@[0] == 'd');
    assert("file"@[0] == 'f');
    assert("root"@[0] == 'r');
}

} // verus!
