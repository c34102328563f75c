//! A read-only, typed projection of ZFS pool state.
//!
//! The heart of the crate is a verified decoder layer: it turns an
//! `NvList` attribute store (the key/typed-value container that the ZFS
//! management library hands out) into a strongly typed device-topology
//! tree (`VDev`) and resolved property lists (`ZProp`), and assembles
//! those into serializable `Pool` and `Dataset` snapshots.

pub mod libzfs;
pub mod libzfs_types;
pub mod nvpair;
pub mod state;
pub mod strfmt;
pub mod sys;
pub mod vdev;
pub mod zfs;
pub mod zpool;
pub mod zprop_list;

pub use libzfs_types::{Dataset, LibZfsError, Pool, VDev, ZProp};
pub use libzfs::Libzfs;
pub use state::{convert_to_dataset, convert_to_js_pool, get_dataset_by_name, get_imported_pools, get_pool_by_name, get_pool_by_name_and_guid};
pub use vdev::enumerate_vdev_tree;
pub use zfs::Zfs;
pub use zpool::Zpool;
