//! The property schema sequence: the enumeration of well-known and
//! user-defined properties that a dataset's property resolution walks.
//!
//! Each entry carries a numeric identifier from the fixed schema range,
//! where the sentinel [`sys::ZFS_PROP_BAD`] marks a user-defined
//! property resolved by name; for fixed-schema entries the entry also
//! records what the fixed-buffer property getter answered: a status
//! code, the resolved name, and the buffer contents.

use crate::sys;
use vstd::prelude::*;

pub use crate::libzfs_types::ZProp;

verus! {

/// The capacity of the fixed property-value buffer, in bytes.
pub const PROP_BUFFER_LEN: usize = 319;

/// One entry of the property schema sequence.
#[derive(Debug, Clone, PartialEq, Eq)]
pub struct ZpropItem {
    /// The schema identifier, or the BAD sentinel for a user property.
    pub pl_prop: i64,
    /// For BAD entries, the user property's name.
    pub pl_user_prop: String,
    /// The canonical name the identifier resolves to.
    pub prop_name: String,
    /// The status code the fixed-buffer getter answered.
    pub prop_status: u64,
    /// The buffer contents the fixed-buffer getter filled in.
    pub prop_value: String,
}

/// The mathematical value of a [`ZpropItem`].
#[verifier::ext_equal]
pub ghost struct ZpropItemModel {
    pub pl_prop: i64,
    pub pl_user_prop: Seq<char>,
    pub prop_name: Seq<char>,
    pub prop_status: u64,
    pub prop_value: Seq<char>,
}

pub open spec fn zprop_item_model(it: ZpropItem) -> ZpropItemModel {
    ZpropItemModel {
        pl_prop: it.pl_prop,
        pl_user_prop: it.pl_user_prop@,
        prop_name: it.prop_name@,
        prop_status: it.prop_status,
        prop_value: it.prop_value@,
    }
}

pub open spec fn zprop_items_model(its: Seq<ZpropItem>) -> Seq<ZpropItemModel>
    decreases its,
{
    if its.len() == 0 {
        Seq::empty()
    } else {
        zprop_items_model(its.drop_last()).push(zprop_item_model(its.last()))
    }
}

/// `zprop_items_model` maps the entries one for one, in order.
pub broadcast proof fn lemma_zprop_items_model(its: Seq<ZpropItem>)
    ensures
        (#[trigger] zprop_items_model(its)).len() == its.len(),
        forall|i: int| 0 <= i < its.len() ==> zprop_items_model(its)[i] == zprop_item_model(
            its[i],
        ),
    decreases its.len(),
{
    if its.len() > 0 {
        lemma_zprop_items_model(its.drop_last());
    }
}

impl View for ZpropItem {
    type V = ZpropItemModel;

    open spec fn view(&self) -> ZpropItemModel {
        zprop_item_model(*self)
    }
}

impl ZpropItemModel {
    /// A well-formed entry: its identifier lies in the schema range and
    /// its buffer contents fit the fixed buffer.
    pub open spec fn wf(self) -> bool {
        &&& sys::ZFS_PROP_BAD <= self.pl_prop <= sys::ZFS_PROP_MAX
        &&& self.prop_value.len() <= PROP_BUFFER_LEN as int
    }
}

impl ZpropItem {
    pub open spec fn wf(&self) -> bool {
        self@.wf()
    }

    /// The entry's schema identifier.
    pub fn prop(&self) -> (r: i64)
        requires
            self.wf(),
        ensures
            r == self@.pl_prop,
    {
        self.pl_prop
    }

    /// The entry's user property name.
    pub fn user_prop(&self) -> (r: &String)
        ensures
            r@ == self@.pl_user_prop,
    {
        &self.pl_user_prop
    }
}

/// A forward-only cursor over the property schema sequence.
pub struct ZpropList<'a> {
    pub items: &'a Vec<ZpropItem>,
    pub pos: usize,
}

impl<'a> ZpropList<'a> {
    pub open spec fn items(self) -> Seq<ZpropItemModel> {
        zprop_items_model(self.items@)
    }

    pub open spec fn pos(self) -> int {
        self.pos as int
    }

    pub fn new(items: &'a Vec<ZpropItem>) -> (r: ZpropList<'a>)
        ensures
            r.items() == zprop_items_model(items@),
            r.pos() == 0,
    {
        ZpropList { items, pos: 0 }
    }

    /// The next schema entry, advancing the cursor.
    pub fn next(&mut self) -> (r: Option<&'a ZpropItem>)
        ensures
            old(self).pos() < old(self).items().len() ==> {
                &&& r matches Some(it) && it@ == old(self).items()[old(self).pos()]
                &&& final(self).pos() == old(self).pos() + 1
            },
            old(self).pos() >= old(self).items().len() ==> {
                &&& r is None
                &&& final(self).pos() == old(self).pos()
            },
            final(self).items() == old(self).items(),
    {
        proof {
            lemma_zprop_items_model(self.items@);
        }
        if self.pos < self.items.len() {
            let out = &self.items[self.pos];
            self.pos = self.pos + 1;
            Some(out)
        } else {
            None
        }
    }
}

} // verus!
