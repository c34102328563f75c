//! The imported-pool view of a host: the pools a management handle
//! sees, searchable by pool name and by dataset name.

use crate::zfs::{Zfs, ZfsModel};
use crate::zpool::{lemma_zfs_list_model, zfs_list_model, zpool_model, Zpool, ZpoolModel};
use vstd::prelude::*;

verus! {

/// The pools imported on a host, in iteration order.
pub struct Libzfs {
    pub pools: Vec<Zpool>,
}

/// The mathematical value of a [`Libzfs`].
#[verifier::ext_equal]
pub ghost struct LibzfsModel {
    pub pools: Seq<ZpoolModel>,
}

pub open spec fn zpool_list_model(ps: Seq<Zpool>) -> Seq<ZpoolModel>
    decreases ps,
{
    if ps.len() == 0 {
        Seq::empty()
    } else {
        zpool_list_model(ps.drop_last()).push(zpool_model(ps.last()))
    }
}

/// `zpool_list_model` maps the pools one for one, in order.
pub broadcast proof fn lemma_zpool_list_model(ps: Seq<Zpool>)
    ensures
        (#[trigger] zpool_list_model(ps)).len() == ps.len(),
        forall|i: int| 0 <= i < ps.len() ==> zpool_list_model(ps)[i] == zpool_model(ps[i]),
    decreases ps.len(),
{
    if ps.len() > 0 {
        lemma_zpool_list_model(ps.drop_last());
    }
}

impl View for Libzfs {
    type V = LibzfsModel;

    open spec fn view(&self) -> LibzfsModel {
        LibzfsModel { pools: zpool_list_model(self.pools@) }
    }
}

impl LibzfsModel {
    /// Every pool is well formed.
    pub open spec fn wf(self) -> bool {
        forall|i: int| 0 <= i < self.pools.len() ==> (#[trigger] self.pools[i]).wf()
    }
}

/// The first pool named `name`, in iteration order.
pub open spec fn spec_pool_by_name(ps: Seq<ZpoolModel>, name: Seq<char>) -> Option<ZpoolModel>
    decreases ps.len(),
{
    if ps.len() == 0 {
        None
    } else if ps[0].name == name {
        Some(ps[0])
    } else {
        spec_pool_by_name(ps.drop_first(), name)
    }
}

/// The first dataset named `name` within one pool's datasets.
pub open spec fn spec_dataset_in(ds: Seq<ZfsModel>, name: Seq<char>) -> Option<ZfsModel>
    decreases ds.len(),
{
    if ds.len() == 0 {
        None
    } else if ds[0].name == name {
        Some(ds[0])
    } else {
        spec_dataset_in(ds.drop_first(), name)
    }
}

/// The first dataset named `name`, scanning pools in iteration order.
pub open spec fn spec_dataset_by_name(ps: Seq<ZpoolModel>, name: Seq<char>) -> Option<ZfsModel>
    decreases ps.len(),
{
    if ps.len() == 0 {
        None
    } else {
        match spec_dataset_in(ps[0].datasets, name) {
            Some(d) => Some(d),
            None => spec_dataset_by_name(ps.drop_first(), name),
        }
    }
}

/// Skipping pools whose names all miss `name` leaves the search result
/// unchanged.
proof fn lemma_pool_by_name_skip(ps: Seq<ZpoolModel>, name: Seq<char>, i: int)
    requires
        0 <= i <= ps.len(),
        forall|j: int| 0 <= j < i ==> (#[trigger] ps[j]).name != name,
    ensures
        spec_pool_by_name(ps, name) == spec_pool_by_name(ps.subrange(i, ps.len() as int), name),
    decreases i,
{
    if i == 0 {
        assert(ps.subrange(0, ps.len() as int) =~= ps);
    } else {
        lemma_pool_by_name_skip(ps.drop_first(), name, i - 1);
        assert(ps.drop_first().subrange(i - 1, ps.drop_first().len() as int) =~= ps.subrange(
            i,
            ps.len() as int,
        ));
    }
}

/// Skipping datasets whose names all miss `name` leaves the search
/// result unchanged.
proof fn lemma_dataset_in_skip(ds: Seq<ZfsModel>, name: Seq<char>, i: int)
    requires
        0 <= i <= ds.len(),
        forall|j: int| 0 <= j < i ==> (#[trigger] ds[j]).name != name,
    ensures
        spec_dataset_in(ds, name) == spec_dataset_in(ds.subrange(i, ds.len() as int), name),
    decreases i,
{
    if i == 0 {
        assert(ds.subrange(0, ds.len() as int) =~= ds);
    } else {
        lemma_dataset_in_skip(ds.drop_first(), name, i - 1);
        assert(ds.drop_first().subrange(i - 1, ds.drop_first().len() as int) =~= ds.subrange(
            i,
            ds.len() as int,
        ));
    }
}

/// Skipping pools whose datasets all miss `name` leaves the search
/// result unchanged.
proof fn lemma_dataset_by_name_skip(ps: Seq<ZpoolModel>, name: Seq<char>, i: int)
    requires
        0 <= i <= ps.len(),
        forall|j: int| 0 <= j < i ==> spec_dataset_in((#[trigger] ps[j]).datasets, name) is None,
    ensures
        spec_dataset_by_name(ps, name) == spec_dataset_by_name(
            ps.subrange(i, ps.len() as int),
            name,
        ),
    decreases i,
{
    if i == 0 {
        assert(ps.subrange(0, ps.len() as int) =~= ps);
    } else {
        lemma_dataset_by_name_skip(ps.drop_first(), name, i - 1);
        assert(ps.drop_first().subrange(i - 1, ps.drop_first().len() as int) =~= ps.subrange(
            i,
            ps.len() as int,
        ));
    }
}

impl Libzfs {
    /// A handle over the given imported pools.
    pub fn new(pools: Vec<Zpool>) -> (z: Libzfs)
        requires
            forall|i: int| 0 <= i < pools@.len() ==> (#[trigger] pools@[i]).wf(),
        ensures
            z@.pools == zpool_list_model(pools@),
            z@.wf(),
    {
        proof {
            lemma_zpool_list_model(pools@);
        }
        Libzfs { pools }
    }

    /// The first imported pool named `name`.
    #[verifier::loop_isolation(false)]
    pub fn pool_by_name(&self, name: &str) -> (r: Option<&Zpool>)
        ensures
            match r {
                Some(p) => spec_pool_by_name(self@.pools, name@) == Some(p@),
                None => spec_pool_by_name(self@.pools, name@) is None,
            },
    {
        let ghost key: Seq<char> = name@;
        proof {
            lemma_zpool_list_model(self.pools@);
        }
        let n: usize = self.pools.len();
        let mut i: usize = 0;
        while i < n
            invariant
                0 <= i <= n,
                forall|j: int| 0 <= j < i ==> (#[trigger] self@.pools[j]).name != key,
            decreases n - i,
        {
            let p = &self.pools[i];
            if crate::nvpair::str_eq(p.name.as_str(), name) {
                proof {
                    lemma_pool_by_name_skip(self@.pools, key, i as int);
                    assert(self@.pools.subrange(i as int, self@.pools.len() as int)[0] == self@
                        .pools[i as int]);
                }
                return Some(p);
            }
            i = i + 1;
        }
        proof {
            lemma_pool_by_name_skip(self@.pools, key, n as int);
            assert(self@.pools.subrange(n as int, self@.pools.len() as int).len() == 0);
        }
        None
    }

    /// The first dataset named `name` in any imported pool.
    #[verifier::loop_isolation(false)]
    pub fn dataset_by_name(&self, name: &str) -> (r: Option<&Zfs>)
        ensures
            match r {
                Some(d) => spec_dataset_by_name(self@.pools, name@) == Some(d@),
                None => spec_dataset_by_name(self@.pools, name@) is None,
            },
    {
        let ghost key: Seq<char> = name@;
        proof {
            lemma_zpool_list_model(self.pools@);
        }
        let n: usize = self.pools.len();
        let mut i: usize = 0;
        while i < n
            invariant
                0 <= i <= n,
                forall|j: int|
                    0 <= j < i ==> spec_dataset_in(
                        (#[trigger] self@.pools[j]).datasets,
                        key,
                    ) is None,
            decreases n - i,
        {
            let pool = &self.pools[i];
            let ghost pool_ds: Seq<ZfsModel> = self@.pools[i as int].datasets;
            proof {
                lemma_zfs_list_model(pool.datasets@);
            }
            let m: usize = pool.datasets.len();
            let mut j: usize = 0;
            while j < m
                invariant
                    0 <= j <= m,
                    m == pool.datasets@.len(),
                    pool_ds == zfs_list_model(pool.datasets@),
                    forall|k: int| 0 <= k < j ==> (#[trigger] pool_ds[k]).name != key,
                decreases m - j,
            {
                let d = &pool.datasets[j];
                if crate::nvpair::str_eq(d.name.as_str(), name) {
                    proof {
                        lemma_dataset_in_skip(pool_ds, key, j as int);
                        assert(pool_ds.subrange(j as int, pool_ds.len() as int)[0] == pool_ds[j as int]);
                        lemma_dataset_by_name_skip(self@.pools, key, i as int);
                        assert(self@.pools.subrange(i as int, self@.pools.len() as int)[0] == self@
                            .pools[i as int]);
                    }
                    return Some(d);
                }
                j = j + 1;
            }
            proof {
                lemma_dataset_in_skip(pool_ds, key, m as int);
                assert(pool_ds.subrange(m as int, pool_ds.len() as int).len() == 0);
            }
            i = i + 1;
        }
        proof {
            lemma_dataset_by_name_skip(self@.pools, key, n as int);
            assert(self@.pools.subrange(n as int, self@.pools.len() as int).len() == 0);
        }
        None
    }

    /// All imported pools.
    pub fn get_imported_pools(&self) -> (r: Result<&Vec<Zpool>, crate::libzfs_types::LibZfsError>)
        ensures
            r matches Ok(ps) && zpool_list_model(ps@) == self@.pools,
    {
        Ok(&self.pools)
    }
}

impl Default for Libzfs {
    /// A handle that sees no imported pool.
    fn default() -> (z: Libzfs)
        ensures
            z@.pools.len() == 0,
    {
        Libzfs { pools: Vec::new() }
    }
}

} // verus!
