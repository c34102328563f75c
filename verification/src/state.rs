//! The snapshot assembly layer: combines a pool's decoded topology and
//! resolved properties into the externally visible [`Pool`] and
//! [`Dataset`] records.

use crate::libzfs::{spec_dataset_by_name, spec_dataset_in, spec_pool_by_name, Libzfs};
use crate::libzfs_types::{
    datasets_model, lemma_zprops_model, zprops_model, Dataset, DatasetModel, LibZfsError, Pool,
    PoolModel, ZPropModel, ZProp,
};
use crate::strfmt::{spec_dec_digits, u64_to_string};
use crate::sys;
use crate::zfs::{spec_resolve_props, Zfs, ZfsModel};
use crate::zpool::{spec_pool_vdev_tree, Zpool, ZpoolModel};
use vstd::prelude::*;

verus! {

/// The value of the first property named `guid`, when one is there.
pub open spec fn spec_find_guid(ps: Seq<ZPropModel>) -> Option<Seq<char>>
    decreases ps.len(),
{
    if ps.len() == 0 {
        None
    } else if ps[0].name == "guid"@ {
        Some(ps[0].value)
    } else {
        spec_find_guid(ps.drop_first())
    }
}

/// Skipping properties not named `guid` leaves the search unchanged.
proof fn lemma_find_guid_skip(ps: Seq<ZPropModel>, i: int)
    requires
        0 <= i <= ps.len(),
        forall|j: int| 0 <= j < i ==> (#[trigger] ps[j]).name != "guid"@,
    ensures
        spec_find_guid(ps) == spec_find_guid(ps.subrange(i, ps.len() as int)),
    decreases i,
{
    if i == 0 {
        assert(ps.subrange(0, ps.len() as int) =~= ps);
    } else {
        lemma_find_guid_skip(ps.drop_first(), i - 1);
        assert(ps.drop_first().subrange(i - 1, ps.drop_first().len() as int) =~= ps.subrange(
            i,
            ps.len() as int,
        ));
    }
}

/// What converting a dataset snapshot yields: its resolved properties
/// must include a `guid` property, whose value becomes the record's
/// guid.
pub open spec fn spec_convert_to_dataset(z: ZfsModel) -> Result<DatasetModel, LibZfsError> {
    let props = spec_resolve_props(z.prop_items, z.user_props);
    match spec_find_guid(props) {
        None => Err(LibZfsError::MissingField),
        Some(guid) => Ok(
            DatasetModel {
                name: z.name,
                guid,
                kind: sys::spec_zfs_type_name(z.ztype),
                props,
            },
        ),
    }
}

/// Converts a dataset snapshot into a [`Dataset`] record.
///
/// Fails exactly when the dataset's resolved properties hold no `guid`
/// property.
#[verifier::loop_isolation(false)]
pub fn convert_to_dataset(x: &Zfs) -> (r: Result<Dataset, LibZfsError>)
    requires
        x.wf(),
    ensures
        match r {
            Ok(d) => spec_convert_to_dataset(x@) == Ok::<DatasetModel, LibZfsError>(d@),
            Err(e) => spec_convert_to_dataset(x@) == Err::<DatasetModel, LibZfsError>(e),
        },
{
    let props = match x.props() {
        Ok(ps) => ps,
        Err(e) => {
            return Err(e);
        },
    };
    let ghost props_m: Seq<ZPropModel> = zprops_model(props@);
    proof {
        lemma_zprops_model(props@);
        reveal_strlit("guid");
    }
    let n: usize = props.len();
    let mut i: usize = 0;
    while i < n
        invariant
            0 <= i <= n,
            forall|j: int| 0 <= j < i ==> (#[trigger] props_m[j]).name != "guid"@,
        decreases n - i,
    {
        let p = &props[i];
        if crate::nvpair::str_eq(p.name.as_str(), "guid") {
            proof {
                lemma_find_guid_skip(props_m, i as int);
                assert(props_m.subrange(i as int, props_m.len() as int)[0] == props_m[i as int]);
            }
            let guid = p.value.clone();
            return Ok(
                Dataset { name: x.name(), guid, kind: x.zfs_type_name(), props },
            );
        }
        i = i + 1;
    }
    proof {
        lemma_find_guid_skip(props_m, n as int);
        assert(props_m.subrange(n as int, props_m.len() as int).len() == 0);
    }
    Err(LibZfsError::MissingField)
}

/// What converting a pool's datasets yields: each converted in order,
/// the earliest failure aborting the whole conversion.
pub open spec fn spec_convert_datasets(zs: Seq<ZfsModel>) -> Result<Seq<DatasetModel>, LibZfsError>
    decreases zs,
{
    if zs.len() == 0 {
        Ok(Seq::empty())
    } else {
        match spec_convert_datasets(zs.drop_last()) {
            Err(e) => Err(e),
            Ok(rest) => match spec_convert_to_dataset(zs.last()) {
                Err(e) => Err(e),
                Ok(d) => Ok(rest.push(d)),
            },
        }
    }
}

/// A failed prefix converts the whole sequence to the same failure.
proof fn lemma_convert_datasets_err_extends(zs: Seq<ZfsModel>, j: int)
    requires
        0 <= j <= zs.len(),
        spec_convert_datasets(zs.take(j)) is Err,
    ensures
        spec_convert_datasets(zs) == spec_convert_datasets(zs.take(j)),
    decreases zs.len() - j,
{
    if j < zs.len() {
        assert(zs.take(j + 1).drop_last() =~= zs.take(j));
        lemma_convert_datasets_err_extends(zs, j + 1);
    } else {
        assert(zs.take(j) =~= zs);
    }
}

/// What converting a pool snapshot yields: its datasets each
/// converted, the host name read from its configuration, its device
/// tree decoded, and the scalar fields carried over, the size rendered
/// decimal.
pub open spec fn spec_convert_to_pool(p: ZpoolModel) -> Result<PoolModel, LibZfsError> {
    match spec_convert_datasets(p.datasets) {
        Err(e) => Err(e),
        Ok(ds) => match p.config.lookup_string("hostname"@) {
            None => Err(LibZfsError::MissingField),
            Some(hostname) => match spec_pool_vdev_tree(p.config) {
                Err(e) => Err(e),
                Ok(vdev) => Ok(
                    PoolModel {
                        name: p.name,
                        guid: p.guid,
                        health: p.health,
                        hostname,
                        hostid: p.config.lookup_u64("hostid"@),
                        state: sys::spec_pool_state_name(p.state),
                        readonly: p.readonly,
                        size: spec_dec_digits(p.size as int),
                        vdev,
                        props: Seq::empty(),
                        datasets: ds,
                    },
                ),
            },
        },
    }
}

/// Converts a pool snapshot into a [`Pool`] record.
#[verifier::loop_isolation(false)]
pub fn convert_to_js_pool(p: &Zpool) -> (r: Result<Pool, LibZfsError>)
    requires
        p.wf(),
    ensures
        match r {
            Ok(pool) => spec_convert_to_pool(p@) == Ok::<PoolModel, LibZfsError>(pool@),
            Err(e) => spec_convert_to_pool(p@) == Err::<PoolModel, LibZfsError>(e),
        },
{
    let zs = match p.datasets() {
        Ok(zs) => zs,
        Err(e) => {
            return Err(e);
        },
    };
    let ghost zs_m: Seq<ZfsModel> = p@.datasets;
    proof {
        crate::zpool::lemma_zfs_list_model(zs@);
    }
    let n: usize = zs.len();
    let mut xs: Vec<Dataset> = Vec::new();
    let mut i: usize = 0;
    while i < n
        invariant
            0 <= i <= n,
            n == zs@.len(),
            spec_convert_datasets(zs_m.take(i as int)) == Ok::<Seq<DatasetModel>, LibZfsError>(
                datasets_model(xs@),
            ),
        decreases n - i,
    {
        let ghost prev: Seq<Dataset> = xs@;
        proof {
            assert(zs_m[i as int].wf());
            assert((&zs@[i as int])@ == zs_m[i as int]);
        }
        match convert_to_dataset(&zs[i]) {
            Ok(d) => {
                xs.push(d);
                proof {
                    assert(xs@.drop_last() =~= prev);
                    assert(zs_m.take(i + 1).drop_last() =~= zs_m.take(i as int));
                    assert(zs_m.take(i + 1).last() == zs_m[i as int]);
                }
            },
            Err(e) => {
                proof {
                    assert(zs_m.take(i + 1).drop_last() =~= zs_m.take(i as int));
                    assert(zs_m.take(i + 1).last() == zs_m[i as int]);
                    lemma_convert_datasets_err_extends(zs_m, i + 1);
                }
                return Err(e);
            },
        }
        i = i + 1;
    }
    proof {
        assert(zs_m.take(n as int) =~= zs_m);
    }
    let hostname = match p.hostname() {
        Ok(h) => h,
        Err(e) => {
            return Err(e);
        },
    };
    let hostid = match p.hostid() {
        Ok(n) => Some(n),
        Err(_) => None,
    };
    let health = match p.health() {
        Ok(h) => h,
        Err(e) => {
            return Err(e);
        },
    };
    let vdev = match p.vdev_tree() {
        Ok(v) => v,
        Err(e) => {
            return Err(e);
        },
    };
    Ok(
        Pool {
            name: p.name(),
            health,
            guid: p.guid(),
            hostname,
            hostid,
            state: p.state_name(),
            readonly: p.read_only(),
            size: u64_to_string(p.size()),
            props: Vec::new(),
            vdev,
            datasets: xs,
        },
    )
}

/// Given a pool name, finds the pool among the imported ones and
/// converts it to a [`Pool`].
pub fn get_pool_by_name(z: &Libzfs, pool_name: &str) -> (r: Result<Pool, LibZfsError>)
    requires
        z@.wf(),
    ensures
        match spec_pool_by_name(z@.pools, pool_name@) {
            None => {
                &&& r matches Err(LibZfsError::PoolNotFound(Some(s), None))
                &&& s@ == pool_name@
            },
            Some(pm) => match r {
                Ok(pool) => spec_convert_to_pool(pm) == Ok::<PoolModel, LibZfsError>(pool@),
                Err(e) => spec_convert_to_pool(pm) == Err::<PoolModel, LibZfsError>(e),
            },
        },
{
    match z.pool_by_name(pool_name) {
        None => Err(LibZfsError::PoolNotFound(Some(pool_name.to_owned()), None)),
        Some(x) => {
            proof {
                lemma_pool_by_name_wf(z@.pools, pool_name@);
            }
            convert_to_js_pool(x)
        },
    }
}

/// Given a pool name and guid, finds the pool by name, checks its
/// guid, and converts it to a [`Pool`].
pub fn get_pool_by_name_and_guid(z: &Libzfs, pool_name: &str, guid: u64) -> (r: Result<
    Pool,
    LibZfsError,
>)
    requires
        z@.wf(),
    ensures
        match spec_pool_by_name(z@.pools, pool_name@) {
            None => {
                &&& r matches Err(LibZfsError::PoolNotFound(Some(s), Some(g)))
                &&& s@ == pool_name@
                &&& g == guid
            },
            Some(pm) => if pm.guid != guid {
                &&& r matches Err(LibZfsError::PoolNotFound(Some(s), Some(g)))
                &&& s@ == pool_name@
                &&& g == guid
            } else {
                match r {
                    Ok(pool) => spec_convert_to_pool(pm) == Ok::<PoolModel, LibZfsError>(pool@),
                    Err(e) => spec_convert_to_pool(pm) == Err::<PoolModel, LibZfsError>(e),
                }
            },
        },
{
    match z.pool_by_name(pool_name) {
        None => Err(LibZfsError::PoolNotFound(Some(pool_name.to_owned()), Some(guid))),
        Some(x) => {
            if x.guid() != guid {
                Err(LibZfsError::PoolNotFound(Some(pool_name.to_owned()), Some(guid)))
            } else {
                proof {
                    lemma_pool_by_name_wf(z@.pools, pool_name@);
                }
                convert_to_js_pool(x)
            }
        },
    }
}

/// Given a dataset name, finds the dataset in any imported pool and
/// converts it to a [`Dataset`].
pub fn get_dataset_by_name(z: &Libzfs, ds_name: &str) -> (r: Result<Dataset, LibZfsError>)
    requires
        z@.wf(),
    ensures
        match spec_dataset_by_name(z@.pools, ds_name@) {
            None => {
                &&& r matches Err(LibZfsError::ZfsNotFound(s))
                &&& s@ == ds_name@
            },
            Some(dm) => match r {
                Ok(d) => spec_convert_to_dataset(dm) == Ok::<DatasetModel, LibZfsError>(d@),
                Err(e) => spec_convert_to_dataset(dm) == Err::<DatasetModel, LibZfsError>(e),
            },
        },
{
    match z.dataset_by_name(ds_name) {
        None => Err(LibZfsError::ZfsNotFound(ds_name.to_owned())),
        Some(x) => {
            proof {
                lemma_dataset_by_name_wf(z@.pools, ds_name@);
            }
            convert_to_dataset(x)
        },
    }
}

/// A dataset found by name in a well-formed pool list is well formed.
proof fn lemma_dataset_in_wf(ds: Seq<ZfsModel>, name: Seq<char>)
    requires
        forall|i: int| 0 <= i < ds.len() ==> (#[trigger] ds[i]).wf(),
    ensures
        spec_dataset_in(ds, name) matches Some(d) ==> d.wf(),
    decreases ds.len(),
{
    if ds.len() > 0 && ds[0].name != name {
        lemma_dataset_in_wf(ds.drop_first(), name);
    }
}

proof fn lemma_dataset_by_name_wf(ps: Seq<ZpoolModel>, name: Seq<char>)
    requires
        forall|i: int| 0 <= i < ps.len() ==> (#[trigger] ps[i]).wf(),
    ensures
        spec_dataset_by_name(ps, name) matches Some(d) ==> d.wf(),
    decreases ps.len(),
{
    if ps.len() > 0 {
        lemma_dataset_in_wf(ps[0].datasets, name);
        lemma_dataset_by_name_wf(ps.drop_first(), name);
    }
}

/// A pool found by name in a well-formed pool list is well formed.
proof fn lemma_pool_by_name_wf(ps: Seq<ZpoolModel>, name: Seq<char>)
    requires
        forall|i: int| 0 <= i < ps.len() ==> (#[trigger] ps[i]).wf(),
    ensures
        spec_pool_by_name(ps, name) matches Some(p) ==> p.wf(),
    decreases ps.len(),
{
    if ps.len() > 0 && ps[0].name != name {
        lemma_pool_by_name_wf(ps.drop_first(), name);
    }
}

/// What converting every imported pool yields, the earliest failure
/// aborting the whole conversion.
pub open spec fn spec_convert_pools(ps: Seq<ZpoolModel>) -> Result<Seq<PoolModel>, LibZfsError>
    decreases ps,
{
    if ps.len() == 0 {
        Ok(Seq::empty())
    } else {
        match spec_convert_pools(ps.drop_last()) {
            Err(e) => Err(e),
            Ok(rest) => match spec_convert_to_pool(ps.last()) {
                Err(e) => Err(e),
                Ok(p) => Ok(rest.push(p)),
            },
        }
    }
}

/// A failed prefix converts the whole sequence to the same failure.
proof fn lemma_convert_pools_err_extends(ps: Seq<ZpoolModel>, j: int)
    requires
        0 <= j <= ps.len(),
        spec_convert_pools(ps.take(j)) is Err,
    ensures
        spec_convert_pools(ps) == spec_convert_pools(ps.take(j)),
    decreases ps.len() - j,
{
    if j < ps.len() {
        assert(ps.take(j + 1).drop_last() =~= ps.take(j));
        lemma_convert_pools_err_extends(ps, j + 1);
    } else {
        assert(ps.take(j) =~= ps);
    }
}

pub open spec fn pools_model(ps: Seq<Pool>) -> Seq<PoolModel>
    decreases ps,
{
    if ps.len() == 0 {
        Seq::empty()
    } else {
        pools_model(ps.drop_last()).push(crate::libzfs_types::pool_model(ps.last()))
    }
}

/// Converts every imported pool to a [`Pool`], failing if any pool
/// fails conversion.
#[verifier::loop_isolation(false)]
pub fn get_imported_pools(z: &Libzfs) -> (r: Result<Vec<Pool>, LibZfsError>)
    requires
        z@.wf(),
    ensures
        match r {
            Ok(ps) => spec_convert_pools(z@.pools) == Ok::<Seq<PoolModel>, LibZfsError>(
                pools_model(ps@),
            ),
            Err(e) => spec_convert_pools(z@.pools) == Err::<Seq<PoolModel>, LibZfsError>(e),
        },
{
    let pools = match z.get_imported_pools() {
        Ok(ps) => ps,
        Err(e) => {
            return Err(e);
        },
    };
    let ghost ps_m: Seq<ZpoolModel> = z@.pools;
    proof {
        crate::libzfs::lemma_zpool_list_model(pools@);
    }
    let n: usize = pools.len();
    let mut out: Vec<Pool> = Vec::new();
    let mut i: usize = 0;
    while i < n
        invariant
            0 <= i <= n,
            n == pools@.len(),
            spec_convert_pools(ps_m.take(i as int)) == Ok::<Seq<PoolModel>, LibZfsError>(
                pools_model(out@),
            ),
        decreases n - i,
    {
        let ghost prev: Seq<Pool> = out@;
        proof {
            assert(ps_m[i as int].wf());
            assert((&pools@[i as int])@ == ps_m[i as int]);
        }
        match convert_to_js_pool(&pools[i]) {
            Ok(p) => {
                out.push(p);
                proof {
                    assert(out@.drop_last() =~= prev);
                    assert(ps_m.take(i + 1).drop_last() =~= ps_m.take(i as int));
                    assert(ps_m.take(i + 1).last() == ps_m[i as int]);
                }
            },
            Err(e) => {
                proof {
                    assert(ps_m.take(i + 1).drop_last() =~= ps_m.take(i as int));
                    assert(ps_m.take(i + 1).last() == ps_m[i as int]);
                    lemma_convert_pools_err_extends(ps_m, i + 1);
                }
                return Err(e);
            },
        }
        i = i + 1;
    }
    proof {
        assert(ps_m.take(n as int) =~= ps_m);
    }
    Ok(out)
}

} // verus!
