//! A dataset snapshot and its property resolution.
//!
//! [`Zfs::props`] is the property resolver: it walks the property
//! schema sequence in order and merges the fixed-schema properties
//! (whose values the fixed-buffer getter answered) with the
//! user-defined properties looked up by name in the user-property
//! store.  A failed lookup or a non-zero getter status skips the entry
//! silently; the resolver itself never fails.

use crate::libzfs_types::{lemma_zprops_model, zprops_model, LibZfsError, ZProp, ZPropModel};
use crate::nvpair::{list_model, NvList, NvListModel};
use crate::sys;
use crate::zprop_list::{
    lemma_zprop_items_model, zprop_items_model, ZpropItem, ZpropItemModel, ZpropList,
};
use vstd::prelude::*;

verus! {

/// A dataset at the moment its handle was read: its name, its object
/// type flag, its user-property store, and its expanded property
/// schema sequence with the getter's answers.
pub struct Zfs {
    pub name: String,
    pub ztype: u64,
    pub user_props: NvList,
    pub prop_list: Vec<ZpropItem>,
}

/// The mathematical value of a [`Zfs`].
#[verifier::ext_equal]
pub ghost struct ZfsModel {
    pub name: Seq<char>,
    pub ztype: u64,
    pub user_props: NvListModel,
    pub prop_items: Seq<ZpropItemModel>,
}

pub open spec fn zfs_model(z: Zfs) -> ZfsModel {
    ZfsModel {
        name: z.name@,
        ztype: z.ztype,
        user_props: list_model(z.user_props),
        prop_items: zprop_items_model(z.prop_list@),
    }
}

impl View for Zfs {
    type V = ZfsModel;

    open spec fn view(&self) -> ZfsModel {
        zfs_model(*self)
    }
}

impl ZfsModel {
    /// Every schema entry is well formed.
    pub open spec fn wf(self) -> bool {
        forall|i: int| 0 <= i < self.prop_items.len() ==> (#[trigger] self.prop_items[i]).wf()
    }
}

/// What one schema entry resolves to: a property, or nothing when the
/// entry is skipped.
///
/// A BAD-sentinel entry resolves through the user-property store: the
/// nested store under the entry's name must hold a string `value`; any
/// failure on the way skips the entry.  A fixed-schema entry resolves
/// to the getter's answer exactly when the getter's status is zero.
pub open spec fn spec_resolve_item(it: ZpropItemModel, user: NvListModel) -> Option<ZPropModel> {
    if it.pl_prop == sys::ZFS_PROP_BAD {
        match user.lookup_list(it.pl_user_prop) {
            None => None,
            Some(nv) => match nv.lookup_string("value"@) {
                None => None,
                Some(v) => Some(ZPropModel { name: it.pl_user_prop, value: v }),
            },
        }
    } else if it.prop_status == 0 {
        Some(ZPropModel { name: it.prop_name, value: it.prop_value })
    } else {
        None
    }
}

/// What the whole schema sequence resolves to: the resolved entries in
/// sequence order, skipped entries omitted.
pub open spec fn spec_resolve_props(items: Seq<ZpropItemModel>, user: NvListModel) -> Seq<
    ZPropModel,
>
    decreases items,
{
    if items.len() == 0 {
        Seq::empty()
    } else {
        let rest = spec_resolve_props(items.drop_last(), user);
        match spec_resolve_item(items.last(), user) {
            Some(p) => rest.push(p),
            None => rest,
        }
    }
}

/// What the resolver promises of a result `r` for a dataset model
/// `z`: the resolved list is exactly what [`spec_resolve_props`]
/// gives.
pub open spec fn props_post(z: ZfsModel, r: Result<Vec<ZProp>, LibZfsError>) -> bool {
    r matches Ok(ps) && zprops_model(ps@) == spec_resolve_props(z.prop_items, z.user_props)
}

/// Property resolution is a function of the schema sequence and the
/// user-property store alone: any two results the resolver's contract
/// admits for the same dataset are structurally equal.
pub proof fn lemma_props_deterministic(
    z: ZfsModel,
    r1: Result<Vec<ZProp>, LibZfsError>,
    r2: Result<Vec<ZProp>, LibZfsError>,
)
    requires
        props_post(z, r1),
        props_post(z, r2),
    ensures
        r1 matches Ok(ps1) ==> r2 matches Ok(ps2) && zprops_model(ps1@) == zprops_model(ps2@),
{
}

/// A schema sequence of one BAD-sentinel entry whose name has no
/// matching store among the user properties resolves to the empty
/// list: the entry is silently dropped, not reported as a failure.
pub proof fn lemma_unmatched_user_prop_skipped(it: ZpropItemModel, user: NvListModel)
    requires
        it.pl_prop == sys::ZFS_PROP_BAD,
        user.lookup_list(it.pl_user_prop) is None,
    ensures
        spec_resolve_props(seq![it], user) == Seq::<ZPropModel>::empty(),
{
    assert(seq![it].len() == 1);
    assert(seq![it].drop_last() =~= Seq::<ZpropItemModel>::empty());
    assert(seq![it].last() == it);
    assert(spec_resolve_props(Seq::empty(), user) == Seq::<ZPropModel>::empty());
    assert(spec_resolve_item(it, user) is None);
}

impl Zfs {
    /// Every schema entry is well formed.
    pub open spec fn wf(&self) -> bool {
        self@.wf()
    }

    pub fn new(name: String, ztype: u64, user_props: NvList, prop_list: Vec<ZpropItem>) -> (z: Zfs)
        requires
            forall|i: int| 0 <= i < prop_list@.len() ==> (#[trigger] prop_list@[i]).wf(),
        ensures
            z.wf(),
            z@ == (ZfsModel {
                name: name@,
                ztype,
                user_props: list_model(user_props),
                prop_items: zprop_items_model(prop_list@),
            }),
    {
        proof {
            lemma_zprop_items_model(prop_list@);
        }
        Zfs { name, ztype, user_props, prop_list }
    }

    /// The dataset's name.
    pub fn name(&self) -> (r: String)
        ensures
            r@ == self@.name,
    {
        self.name.clone()
    }

    /// The dataset's user-property store.
    pub fn user_props(&self) -> (r: &NvList)
        ensures
            r@ == self@.user_props,
    {
        &self.user_props
    }

    /// The dataset's object type flag.
    pub fn zfs_type(&self) -> (r: u64)
        ensures
            r == self@.ztype,
    {
        self.ztype
    }

    /// The name of the dataset's object type.
    pub fn zfs_type_name(&self) -> (r: String)
        ensures
            r@ == sys::spec_zfs_type_name(self@.ztype),
    {
        sys::zfs_type_to_name(self.ztype)
    }

    /// A cursor over the dataset's property schema sequence.
    pub fn prop_list(&self) -> (r: Result<ZpropList<'_>, LibZfsError>)
        ensures
            r matches Ok(pl) && pl.items() == self@.prop_items && pl.pos() == 0,
    {
        Ok(ZpropList::new(&self.prop_list))
    }

    /// Resolves the dataset's properties: fixed-schema entries through
    /// the getter's recorded answers, BAD-sentinel entries through the
    /// user-property store, in schema order, skipping silently what
    /// does not resolve.
    #[verifier::loop_isolation(false)]
    pub fn props(&self) -> (r: Result<Vec<ZProp>, LibZfsError>)
        requires
            self.wf(),
        ensures
            props_post(self@, r),
    {
        let ghost items: Seq<ZpropItemModel> = self@.prop_items;
        proof {
            lemma_zprop_items_model(self.prop_list@);
        }
        let n: usize = self.prop_list.len();
        let mut xs: Vec<ZProp> = Vec::new();
        let mut i: usize = 0;
        while i < n
            invariant
                self.wf(),
                n == self.prop_list@.len(),
                0 <= i <= n,
                items == self@.prop_items,
                zprops_model(xs@) == spec_resolve_props(items.take(i as int), self@.user_props),
            decreases n - i,
        {
            let it = &self.prop_list[i];
            proof {
                assert(self@.prop_items[i as int] == it@);
            }
            let ghost prev: Seq<ZProp> = xs@;
            if it.prop() == sys::ZFS_PROP_BAD {
                match self.user_props.lookup_nv_list(it.user_prop().as_str()) {
                    Ok(nv) => match nv.lookup_string(sys::zprop_value().as_str()) {
                        Ok(v) => {
                            xs.push(ZProp { name: it.user_prop().clone(), value: v });
                        },
                        Err(_) => {},
                    },
                    Err(_) => {},
                }
            } else {
                if it.prop_status == 0 {
                    xs.push(ZProp { name: it.prop_name.clone(), value: it.prop_value.clone() });
                }
            }
            proof {
                assert(items.take(i + 1).drop_last() =~= items.take(i as int));
                assert(items.take(i + 1).last() == items[i as int]);
                if xs@.len() > prev.len() {
                    assert(xs@.drop_last() =~= prev);
                }
            }
            i = i + 1;
        }
        proof {
            assert(items.take(n as int) =~= items);
        }
        Ok(xs)
    }
}

} // verus!
