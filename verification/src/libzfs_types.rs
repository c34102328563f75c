//! Shared result types of the decoder layer: the error enum and the
//! typed snapshot records that decoding produces.

use vstd::prelude::*;

verus! {

/// Everything that can go wrong while decoding pool state.
///
/// The first four variants are decode failures; the last two report
/// that the object asked for does not exist.
#[derive(Debug, Clone, PartialEq, Eq)]
pub enum LibZfsError {
    /// A required attribute is absent or has the wrong type.
    MissingField,
    /// The `type` attribute of a device store names no known device type.
    UnknownDeviceType,
    /// A device state or auxiliary code lies outside its documented range.
    InvalidStatusCode,
    /// A status word array is shorter than its positional layout requires.
    BufferTooShort,
    /// No pool with the given name (and guid, when one was given) exists.
    PoolNotFound(Option<String>, Option<u64>),
    /// No dataset with the given name exists.
    ZfsNotFound(String),
}

/// A node of the device topology tree.
///
/// Container nodes hold their children in the array order the
/// configuration store gave them; leaf nodes carry the scalar fields
/// read from the store, each optional field `Some` exactly when the
/// store held it.
#[derive(Debug, PartialEq, Eq)]
pub enum VDev {
    Mirror { children: Vec<VDev>, is_log: Option<bool> },
    RaidZ { children: Vec<VDev> },
    Replacing { children: Vec<VDev> },
    Root { children: Vec<VDev>, spares: Vec<VDev>, cache: Vec<VDev> },
    Disk {
        guid: Option<u64>,
        state: String,
        path: String,
        dev_id: Option<String>,
        phys_path: Option<String>,
        whole_disk: Option<bool>,
        is_log: Option<bool>,
    },
    File { guid: Option<u64>, state: String, path: String, is_log: Option<bool> },
}

/// The mathematical value of a [`VDev`] tree.
#[verifier::ext_equal]
pub ghost enum VDevModel {
    Mirror { children: Seq<VDevModel>, is_log: Option<bool> },
    RaidZ { children: Seq<VDevModel> },
    Replacing { children: Seq<VDevModel> },
    Root { children: Seq<VDevModel>, spares: Seq<VDevModel>, cache: Seq<VDevModel> },
    Disk {
        guid: Option<u64>,
        state: Seq<char>,
        path: Seq<char>,
        dev_id: Option<Seq<char>>,
        phys_path: Option<Seq<char>>,
        whole_disk: Option<bool>,
        is_log: Option<bool>,
    },
    File { guid: Option<u64>, state: Seq<char>, path: Seq<char>, is_log: Option<bool> },
}

/// The view of an optional string.
pub open spec fn opt_str_model(o: Option<String>) -> Option<Seq<char>> {
    match o {
        Some(s) => Some(s@),
        None => None,
    }
}

pub open spec fn vdev_model(v: VDev) -> VDevModel
    decreases v,
    via vdev_model_dec
{
    match v {
        VDev::Mirror { children, is_log } => VDevModel::Mirror {
            children: vdevs_model(children@),
            is_log,
        },
        VDev::RaidZ { children } => VDevModel::RaidZ { children: vdevs_model(children@) },
        VDev::Replacing { children } => VDevModel::Replacing { children: vdevs_model(children@) },
        VDev::Root { children, spares, cache } => VDevModel::Root {
            children: vdevs_model(children@),
            spares: vdevs_model(spares@),
            cache: vdevs_model(cache@),
        },
        VDev::Disk { guid, state, path, dev_id, phys_path, whole_disk, is_log } => VDevModel::Disk {
            guid,
            state: state@,
            path: path@,
            dev_id: opt_str_model(dev_id),
            phys_path: opt_str_model(phys_path),
            whole_disk,
            is_log,
        },
        VDev::File { guid, state, path, is_log } => VDevModel::File {
            guid,
            state: state@,
            path: path@,
            is_log,
        },
    }
}

#[via_fn]
proof fn vdev_model_dec(v: VDev) {
    broadcast use vstd::std_specs::vec::group_vec_axioms;

    match v {
        VDev::Mirror { children, .. } => {
            assert(decreases_to!(v => children));
            assert(decreases_to!(children => children@));
        },
        VDev::RaidZ { children } => {
            assert(decreases_to!(v => children));
            assert(decreases_to!(children => children@));
        },
        VDev::Replacing { children } => {
            assert(decreases_to!(v => children));
            assert(decreases_to!(children => children@));
        },
        VDev::Root { children, spares, cache } => {
            assert(decreases_to!(v => children));
            assert(decreases_to!(children => children@));
            assert(decreases_to!(v => spares));
            assert(decreases_to!(spares => spares@));
            assert(decreases_to!(v => cache));
            assert(decreases_to!(cache => cache@));
        },
        _ => {},
    }
}

pub open spec fn vdevs_model(vs: Seq<VDev>) -> Seq<VDevModel>
    decreases vs,
    via vdevs_model_dec
{
    if vs.len() == 0 {
        Seq::empty()
    } else {
        vdevs_model(vs.drop_last()).push(vdev_model(vs.last()))
    }
}

#[via_fn]
proof fn vdevs_model_dec(vs: Seq<VDev>) {
    if vs.len() > 0 {
        assert(decreases_to!(vs => vs.subrange(0, vs.len() - 1)));
        assert(decreases_to!(vs => vs[vs.len() - 1]));
    }
}

impl View for VDev {
    type V = VDevModel;

    open spec fn view(&self) -> VDevModel {
        vdev_model(*self)
    }
}

/// One resolved property: a name and the string form of its value.
#[derive(Debug, Clone, PartialEq, Eq, Hash)]
pub struct ZProp {
    pub name: String,
    pub value: String,
}

/// The mathematical value of a [`ZProp`].
#[verifier::ext_equal]
pub ghost struct ZPropModel {
    pub name: Seq<char>,
    pub value: Seq<char>,
}

pub open spec fn zprop_model(p: ZProp) -> ZPropModel {
    ZPropModel { name: p.name@, value: p.value@ }
}

pub open spec fn zprops_model(ps: Seq<ZProp>) -> Seq<ZPropModel>
    decreases ps,
{
    if ps.len() == 0 {
        Seq::empty()
    } else {
        zprops_model(ps.drop_last()).push(zprop_model(ps.last()))
    }
}

/// `zprops_model` maps the properties one for one, in order.
pub broadcast proof fn lemma_zprops_model(ps: Seq<ZProp>)
    ensures
        (#[trigger] zprops_model(ps)).len() == ps.len(),
        forall|i: int| 0 <= i < ps.len() ==> zprops_model(ps)[i] == zprop_model(ps[i]),
    decreases ps.len(),
{
    if ps.len() > 0 {
        lemma_zprops_model(ps.drop_last());
    }
}

impl View for ZProp {
    type V = ZPropModel;

    open spec fn view(&self) -> ZPropModel {
        zprop_model(*self)
    }
}

/// A dataset at a point in time.
#[derive(Debug, Clone, PartialEq)]
pub struct Dataset {
    pub name: String,
    pub guid: String,
    pub kind: String,
    pub props: Vec<ZProp>,
}

/// The mathematical value of a [`Dataset`].
#[verifier::ext_equal]
pub ghost struct DatasetModel {
    pub name: Seq<char>,
    pub guid: Seq<char>,
    pub kind: Seq<char>,
    pub props: Seq<ZPropModel>,
}

pub open spec fn dataset_model(d: Dataset) -> DatasetModel {
    DatasetModel { name: d.name@, guid: d.guid@, kind: d.kind@, props: zprops_model(d.props@) }
}

pub open spec fn datasets_model(ds: Seq<Dataset>) -> Seq<DatasetModel>
    decreases ds,
{
    if ds.len() == 0 {
        Seq::empty()
    } else {
        datasets_model(ds.drop_last()).push(dataset_model(ds.last()))
    }
}

impl View for Dataset {
    type V = DatasetModel;

    open spec fn view(&self) -> DatasetModel {
        dataset_model(*self)
    }
}

/// A pool at a point in time.
#[derive(Debug, PartialEq)]
pub struct Pool {
    pub name: String,
    pub guid: u64,
    pub health: String,
    pub hostname: String,
    pub hostid: Option<u64>,
    pub state: String,
    pub readonly: bool,
    pub size: String,
    pub vdev: VDev,
    pub props: Vec<ZProp>,
    pub datasets: Vec<Dataset>,
}

/// The mathematical value of a [`Pool`].
#[verifier::ext_equal]
pub ghost struct PoolModel {
    pub name: Seq<char>,
    pub guid: u64,
    pub health: Seq<char>,
    pub hostname: Seq<char>,
    pub hostid: Option<u64>,
    pub state: Seq<char>,
    pub readonly: bool,
    pub size: Seq<char>,
    pub vdev: VDevModel,
    pub props: Seq<ZPropModel>,
    pub datasets: Seq<DatasetModel>,
}

pub open spec fn pool_model(p: Pool) -> PoolModel {
    PoolModel {
        name: p.name@,
        guid: p.guid,
        health: p.health@,
        hostname: p.hostname@,
        hostid: p.hostid,
        state: p.state@,
        readonly: p.readonly,
        size: p.size@,
        vdev: vdev_model(p.vdev),
        props: zprops_model(p.props@),
        datasets: datasets_model(p.datasets@),
    }
}

impl View for Pool {
    type V = PoolModel;

    open spec fn view(&self) -> PoolModel {
        pool_model(*self)
    }
}

} // verus!
