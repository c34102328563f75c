//! A pool snapshot: its scalar properties, its configuration store,
//! and its datasets.
//!
//! The configuration store feeds the topology decoder through
//! [`Zpool::vdev_tree`]; the scalar fields carry what the pool's
//! property handles answered when the snapshot was taken.

use crate::libzfs_types::{LibZfsError, VDev, VDevModel};
use crate::nvpair::{list_model, NvList, NvListModel};
use crate::strfmt::{spec_hex_digits, u64_to_hex};
use crate::sys;
use crate::vdev::{enumerate_vdev_tree, spec_vdev_tree};
use crate::zfs::{zfs_model, Zfs, ZfsModel};
use vstd::prelude::*;

verus! {

/// A pool at the moment its handle was read.
pub struct Zpool {
    pub name: String,
    pub state: u64,
    pub guid: u64,
    pub size: u64,
    pub readonly: bool,
    pub health: String,
    pub config: NvList,
    pub datasets: Vec<Zfs>,
}

/// The mathematical value of a [`Zpool`].
#[verifier::ext_equal]
pub ghost struct ZpoolModel {
    pub name: Seq<char>,
    pub state: u64,
    pub guid: u64,
    pub size: u64,
    pub readonly: bool,
    pub health: Seq<char>,
    pub config: NvListModel,
    pub datasets: Seq<ZfsModel>,
}

pub open spec fn zfs_list_model(zs: Seq<Zfs>) -> Seq<ZfsModel>
    decreases zs,
{
    if zs.len() == 0 {
        Seq::empty()
    } else {
        zfs_list_model(zs.drop_last()).push(zfs_model(zs.last()))
    }
}

/// `zfs_list_model` maps the datasets one for one, in order.
pub broadcast proof fn lemma_zfs_list_model(zs: Seq<Zfs>)
    ensures
        (#[trigger] zfs_list_model(zs)).len() == zs.len(),
        forall|i: int| 0 <= i < zs.len() ==> zfs_list_model(zs)[i] == zfs_model(zs[i]),
    decreases zs.len(),
{
    if zs.len() > 0 {
        lemma_zfs_list_model(zs.drop_last());
    }
}

pub open spec fn zpool_model(p: Zpool) -> ZpoolModel {
    ZpoolModel {
        name: p.name@,
        state: p.state,
        guid: p.guid,
        size: p.size,
        readonly: p.readonly,
        health: p.health@,
        config: list_model(p.config),
        datasets: zfs_list_model(p.datasets@),
    }
}

impl View for Zpool {
    type V = ZpoolModel;

    open spec fn view(&self) -> ZpoolModel {
        zpool_model(*self)
    }
}

impl ZpoolModel {
    /// Every dataset of the pool is well formed.
    pub open spec fn wf(self) -> bool {
        forall|i: int| 0 <= i < self.datasets.len() ==> (#[trigger] self.datasets[i]).wf()
    }
}

/// What the pool's device tree decodes to: the `vdev_tree` nested
/// store of the configuration, run through the topology decoder.
pub open spec fn spec_pool_vdev_tree(config: NvListModel) -> Result<VDevModel, LibZfsError> {
    match config.lookup_list("vdev_tree"@) {
        None => Err(LibZfsError::MissingField),
        Some(t) => spec_vdev_tree(t),
    }
}

impl Zpool {
    /// Every dataset of the pool is well formed.
    pub open spec fn wf(&self) -> bool {
        self@.wf()
    }

    pub fn new(
        name: String,
        state: u64,
        guid: u64,
        size: u64,
        readonly: bool,
        health: String,
        config: NvList,
        datasets: Vec<Zfs>,
    ) -> (p: Zpool)
        requires
            forall|i: int| 0 <= i < datasets@.len() ==> (#[trigger] datasets@[i]).wf(),
        ensures
            p.wf(),
            p@ == (ZpoolModel {
                name: name@,
                state,
                guid,
                size,
                readonly,
                health: health@,
                config: list_model(config),
                datasets: zfs_list_model(datasets@),
            }),
    {
        proof {
            lemma_zfs_list_model(datasets@);
        }
        Zpool { name, state, guid, size, readonly, health, config, datasets }
    }

    /// The pool's name.
    pub fn name(&self) -> (r: String)
        ensures
            r@ == self@.name,
    {
        self.name.clone()
    }

    /// The pool's state code.
    pub fn state(&self) -> (r: u64)
        ensures
            r == self@.state,
    {
        self.state
    }

    /// The name of the pool's state.
    pub fn state_name(&self) -> (r: String)
        ensures
            r@ == sys::spec_pool_state_name(self@.state),
    {
        sys::zpool_pool_state_to_name(self.state)
    }

    /// The pool's health, as its property handle answered it.
    pub fn health(&self) -> (r: Result<String, LibZfsError>)
        ensures
            r matches Ok(h) && h@ == self@.health,
    {
        Ok(self.health.clone())
    }

    /// The host name recorded in the pool configuration.
    pub fn hostname(&self) -> (r: Result<String, LibZfsError>)
        ensures
            match r {
                Ok(s) => self@.config.lookup_string("hostname"@) == Some(s@),
                Err(e) => e == LibZfsError::MissingField && self@.config.lookup_string("hostname"@)
                    is None,
            },
    {
        match self.config.lookup_string(sys::zpool_config_hostname().as_str()) {
            Ok(s) => Ok(s),
            Err(_) => Err(LibZfsError::MissingField),
        }
    }

    /// The host identifier recorded in the pool configuration.
    pub fn hostid(&self) -> (r: Result<u64, LibZfsError>)
        ensures
            match r {
                Ok(n) => self@.config.lookup_u64("hostid"@) == Some(n),
                Err(e) => e == LibZfsError::MissingField && self@.config.lookup_u64("hostid"@)
                    is None,
            },
    {
        match self.config.lookup_uint64(sys::zpool_config_hostid().as_str()) {
            Ok(n) => Ok(n),
            Err(_) => Err(LibZfsError::MissingField),
        }
    }

    /// The pool's GUID.
    pub fn guid(&self) -> (r: u64)
        ensures
            r == self@.guid,
    {
        self.guid
    }

    /// The pool's GUID, rendered as a zero-padded 16-digit uppercase
    /// hexadecimal literal.
    pub fn guid_hex(&self) -> (r: String)
        ensures
            r@ == "0x"@ + spec_hex_digits(self@.guid as int, 16),
    {
        let mut s: String = "0x".to_owned();
        let digits = u64_to_hex(self.guid, 16);
        s.append(digits.as_str());
        s
    }

    /// The pool's size in bytes.
    pub fn size(&self) -> (r: u64)
        ensures
            r == self@.size,
    {
        self.size
    }

    /// Whether the pool is read-only.
    pub fn read_only(&self) -> (r: bool)
        ensures
            r == self@.readonly,
    {
        self.readonly
    }

    /// The pool's configuration store.
    pub fn get_config(&self) -> (r: &NvList)
        ensures
            r@ == self@.config,
    {
        &self.config
    }

    /// Decodes the pool's device topology tree from its configuration.
    pub fn vdev_tree(&self) -> (r: Result<VDev, LibZfsError>)
        ensures
            match r {
                Ok(v) => spec_pool_vdev_tree(self@.config) == Ok::<VDevModel, LibZfsError>(v@),
                Err(e) => spec_pool_vdev_tree(self@.config) == Err::<VDevModel, LibZfsError>(e),
            },
    {
        let tree = match self.config.lookup_nv_list(sys::zpool_config_vdev_tree().as_str()) {
            Ok(t) => t,
            Err(_) => {
                return Err(LibZfsError::MissingField);
            },
        };
        enumerate_vdev_tree(tree)
    }

    /// The pool's datasets.
    pub fn datasets(&self) -> (r: Result<&Vec<Zfs>, LibZfsError>)
        ensures
            r matches Ok(ds) && zfs_list_model(ds@) == self@.datasets,
    {
        Ok(&self.datasets)
    }
}

} // verus!
