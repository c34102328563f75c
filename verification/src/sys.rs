//! Fixed names, codes and layouts of the ZFS on-disk configuration:
//! the attribute keys of a pool configuration store, the device state
//! and auxiliary code ranges, the positional layout of the device
//! status words, and the code-to-name tables.

use crate::libzfs_types::LibZfsError;
use vstd::prelude::*;

verus! {

/// Device state codes (`vdev_state_t`): 0 through 7.
pub const VDEV_STATE_UNKNOWN: u64 = 0;

pub const VDEV_STATE_CLOSED: u64 = 1;

pub const VDEV_STATE_OFFLINE: u64 = 2;

pub const VDEV_STATE_REMOVED: u64 = 3;

pub const VDEV_STATE_CANT_OPEN: u64 = 4;

pub const VDEV_STATE_FAULTED: u64 = 5;

pub const VDEV_STATE_DEGRADED: u64 = 6;

pub const VDEV_STATE_HEALTHY: u64 = 7;

/// Auxiliary state codes (`vdev_aux_t`): 0 through 18.
pub const VDEV_AUX_CORRUPT_DATA: u64 = 2;

pub const VDEV_AUX_BAD_LOG: u64 = 13;

pub const VDEV_AUX_SPLIT_POOL: u64 = 15;

pub const VDEV_AUX_MAX: u64 = 18;

/// Pool state codes (`pool_state_t`).
pub const POOL_STATE_ACTIVE: u64 = 0;

pub const POOL_STATE_EXPORTED: u64 = 1;

pub const POOL_STATE_DESTROYED: u64 = 2;

pub const POOL_STATE_SPARE: u64 = 3;

pub const POOL_STATE_L2CACHE: u64 = 4;

pub const POOL_STATE_UNINITIALIZED: u64 = 5;

pub const POOL_STATE_UNAVAIL: u64 = 6;

pub const POOL_STATE_POTENTIALLY_ACTIVE: u64 = 7;

/// Object type flags (`zfs_type_t`).
pub const ZFS_TYPE_FILESYSTEM: u64 = 1;

pub const ZFS_TYPE_SNAPSHOT: u64 = 2;

pub const ZFS_TYPE_VOLUME: u64 = 4;

pub const ZFS_TYPE_POOL: u64 = 8;

pub const ZFS_TYPE_BOOKMARK: u64 = 16;

/// The schema identifier meaning "not a fixed-schema property":
/// such a property is resolved by name instead.
pub const ZFS_PROP_BAD: i64 = -1;

/// The largest fixed-schema property identifier.
pub const ZFS_PROP_MAX: i64 = 82;

pub fn zpool_config_vdev_tree() -> (r: String)
    ensures
        r@ == "vdev_tree"@,
{
    "vdev_tree".to_owned()
}

pub fn zpool_config_type() -> (r: String)
    ensures
        r@ == "type"@,
{
    "type".to_owned()
}

pub fn zpool_config_children() -> (r: String)
    ensures
        r@ == "children"@,
{
    "children".to_owned()
}

pub fn zpool_config_spares() -> (r: String)
    ensures
        r@ == "spares"@,
{
    "spares".to_owned()
}

pub fn zpool_config_l2cache() -> (r: String)
    ensures
        r@ == "l2cache"@,
{
    "l2cache".to_owned()
}

pub fn zpool_config_path() -> (r: String)
    ensures
        r@ == "path"@,
{
    "path".to_owned()
}

pub fn zpool_config_dev_id() -> (r: String)
    ensures
        r@ == "devid"@,
{
    "devid".to_owned()
}

pub fn zpool_config_phys_path() -> (r: String)
    ensures
        r@ == "phys_path"@,
{
    "phys_path".to_owned()
}

pub fn zpool_config_is_log() -> (r: String)
    ensures
        r@ == "is_log"@,
{
    "is_log".to_owned()
}

pub fn zpool_config_whole_disk() -> (r: String)
    ensures
        r@ == "whole_disk"@,
{
    "whole_disk".to_owned()
}

pub fn zpool_config_hostid() -> (r: String)
    ensures
        r@ == "hostid"@,
{
    "hostid".to_owned()
}

pub fn zpool_config_hostname() -> (r: String)
    ensures
        r@ == "hostname"@,
{
    "hostname".to_owned()
}

pub fn zpool_config_guid() -> (r: String)
    ensures
        r@ == "guid"@,
{
    "guid".to_owned()
}

pub fn zprop_value() -> (r: String)
    ensures
        r@ == "value"@,
{
    "value".to_owned()
}

pub fn zpool_config_vdev_stats() -> (r: String)
    ensures
        r@ == "vdev_stats"@,
{
    "vdev_stats".to_owned()
}

/// The type flags that count as datasets: filesystems, volumes and
/// snapshots.
pub fn zfs_type_dataset() -> (r: u64)
    ensures
        r == (ZFS_TYPE_FILESYSTEM | ZFS_TYPE_VOLUME | ZFS_TYPE_SNAPSHOT),
{
    ZFS_TYPE_FILESYSTEM | ZFS_TYPE_VOLUME | ZFS_TYPE_SNAPSHOT
}

/// The device status words, positionally decoded: a timestamp, then
/// the state code, then the auxiliary code.
#[derive(Debug, Clone, Copy, PartialEq, Eq)]
pub struct VdevStat {
    pub vs_timestamp: u64,
    pub vs_state: u64,
    pub vs_aux: u64,
}

/// How many words the positional layout of [`VdevStat`] requires.
pub const VDEV_STAT_WORDS: usize = 3;

/// Decodes an array of unsigned 64-bit words into a [`VdevStat`].
///
/// Fails when the array holds fewer words than the positional layout
/// requires; codes are read at their fixed positions, unvalidated.
pub fn to_vdev_stat(xs: &Vec<u64>) -> (r: Result<VdevStat, LibZfsError>)
    ensures
        r is Ok <==> xs@.len() >= VDEV_STAT_WORDS,
        r matches Ok(st) ==> st.vs_timestamp == xs@[0] && st.vs_state == xs@[1] && st.vs_aux
            == xs@[2],
        r matches Err(e) ==> e == LibZfsError::BufferTooShort,
{
    if xs.len() >= VDEV_STAT_WORDS {
        Ok(
            VdevStat {
                vs_timestamp: xs[0],
                vs_state: xs[1],
                vs_aux: xs[2],
            },
        )
    } else {
        Err(LibZfsError::BufferTooShort)
    }
}

/// A state code is valid when it lies in the documented range 0..=7.
pub fn to_vdev_state(n: u64) -> (r: Option<u64>)
    ensures
        r == if n <= VDEV_STATE_HEALTHY {
            Some(n)
        } else {
            None::<u64>
        },
{
    if n <= VDEV_STATE_HEALTHY {
        Some(n)
    } else {
        None
    }
}

/// An auxiliary code is valid when it lies in the documented range 0..=18.
pub fn to_vdev_aux(n: u64) -> (r: Option<u64>)
    ensures
        r == if n <= VDEV_AUX_MAX {
            Some(n)
        } else {
            None::<u64>
        },
{
    if n <= VDEV_AUX_MAX {
        Some(n)
    } else {
        None
    }
}

/// A property identifier is valid when it lies in the schema range,
/// the "not in schema" sentinel included.
pub fn to_zfs_prop_t(n: i64) -> (r: Option<i64>)
    ensures
        r == if ZFS_PROP_BAD <= n <= ZFS_PROP_MAX {
            Some(n)
        } else {
            None::<i64>
        },
{
    if n >= ZFS_PROP_BAD && n <= ZFS_PROP_MAX {
        Some(n)
    } else {
        None
    }
}

/// The name a device state resolves to, given its state and auxiliary
/// codes.
pub open spec fn spec_zpool_state_name(state: u64, aux: u64) -> Seq<char> {
    if state == VDEV_STATE_CLOSED || state == VDEV_STATE_OFFLINE {
        "OFFLINE"@
    } else if state == VDEV_STATE_REMOVED {
        "REMOVED"@
    } else if state == VDEV_STATE_CANT_OPEN {
        if aux == VDEV_AUX_CORRUPT_DATA || aux == VDEV_AUX_BAD_LOG {
            "FAULTED"@
        } else if aux == VDEV_AUX_SPLIT_POOL {
            "SPLIT"@
        } else {
            "UNAVAIL"@
        }
    } else if state == VDEV_STATE_FAULTED {
        "FAULTED"@
    } else if state == VDEV_STATE_DEGRADED {
        "DEGRADED"@
    } else if state == VDEV_STATE_HEALTHY {
        "ONLINE"@
    } else {
        "UNKNOWN"@
    }
}

/// Resolves a device state and auxiliary code to the state's name.
pub fn zpool_state_to_name(state: u64, aux: u64) -> (r: String)
    ensures
        r@ == spec_zpool_state_name(state, aux),
{
    if state == VDEV_STATE_CLOSED || state == VDEV_STATE_OFFLINE {
        "OFFLINE".to_owned()
    } else if state == VDEV_STATE_REMOVED {
        "REMOVED".to_owned()
    } else if state == VDEV_STATE_CANT_OPEN {
        if aux == VDEV_AUX_CORRUPT_DATA || aux == VDEV_AUX_BAD_LOG {
            "FAULTED".to_owned()
        } else if aux == VDEV_AUX_SPLIT_POOL {
            "SPLIT".to_owned()
        } else {
            "UNAVAIL".to_owned()
        }
    } else if state == VDEV_STATE_FAULTED {
        "FAULTED".to_owned()
    } else if state == VDEV_STATE_DEGRADED {
        "DEGRADED".to_owned()
    } else if state == VDEV_STATE_HEALTHY {
        "ONLINE".to_owned()
    } else {
        "UNKNOWN".to_owned()
    }
}

/// The name of a pool state code.
pub open spec fn spec_pool_state_name(state: u64) -> Seq<char> {
    if state == POOL_STATE_ACTIVE {
        "ACTIVE"@
    } else if state == POOL_STATE_EXPORTED {
        "EXPORTED"@
    } else if state == POOL_STATE_DESTROYED {
        "DESTROYED"@
    } else if state == POOL_STATE_SPARE {
        "SPARE"@
    } else if state == POOL_STATE_L2CACHE {
        "L2CACHE"@
    } else if state == POOL_STATE_UNINITIALIZED {
        "UNINITIALIZED"@
    } else if state == POOL_STATE_UNAVAIL {
        "UNAVAIL"@
    } else if state == POOL_STATE_POTENTIALLY_ACTIVE {
        "POTENTIALLY_ACTIVE"@
    } else {
        "UNKNOWN"@
    }
}

/// Resolves a pool state code to its name.
pub fn zpool_pool_state_to_name(state: u64) -> (r: String)
    ensures
        r@ == spec_pool_state_name(state),
{
    if state == POOL_STATE_ACTIVE {
        "ACTIVE".to_owned()
    } else if state == POOL_STATE_EXPORTED {
        "EXPORTED".to_owned()
    } else if state == POOL_STATE_DESTROYED {
        "DESTROYED".to_owned()
    } else if state == POOL_STATE_SPARE {
        "SPARE".to_owned()
    } else if state == POOL_STATE_L2CACHE {
        "L2CACHE".to_owned()
    } else if state == POOL_STATE_UNINITIALIZED {
        "UNINITIALIZED".to_owned()
    } else if state == POOL_STATE_UNAVAIL {
        "UNAVAIL".to_owned()
    } else if state == POOL_STATE_POTENTIALLY_ACTIVE {
        "POTENTIALLY_ACTIVE".to_owned()
    } else {
        "UNKNOWN".to_owned()
    }
}

/// The name of an object type flag.
pub open spec fn spec_zfs_type_name(t: u64) -> Seq<char> {
    if t == ZFS_TYPE_FILESYSTEM {
        "filesystem"@
    } else if t == ZFS_TYPE_SNAPSHOT {
        "snapshot"@
    } else if t == ZFS_TYPE_VOLUME {
        "volume"@
    } else if t == ZFS_TYPE_POOL {
        "pool"@
    } else if t == ZFS_TYPE_BOOKMARK {
        "bookmark"@
    } else {
        "UNKNOWN"@
    }
}

/// Resolves an object type flag to its name.
pub fn zfs_type_to_name(t: u64) -> (r: String)
    ensures
        r@ == spec_zfs_type_name(t),
{
    if t == ZFS_TYPE_FILESYSTEM {
        "filesystem".to_owned()
    } else if t == ZFS_TYPE_SNAPSHOT {
        "snapshot".to_owned()
    } else if t == ZFS_TYPE_VOLUME {
        "volume".to_owned()
    } else if t == ZFS_TYPE_POOL {
        "pool".to_owned()
    } else if t == ZFS_TYPE_BOOKMARK {
        "bookmark".to_owned()
    } else {
        "UNKNOWN".to_owned()
    }
}

} // verus!
