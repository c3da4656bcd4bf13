//! The coordinate snapshot: its wire layout, and the model of how a snapshot
//! folds into a device under the freshness and quality policies.
//!
//! A snapshot holds a fixed number of coordinate slots. A slot is meaningful
//! only for a device with the same address; it is accepted only when its
//! quality is a valid reading (at most 100) and the snapshot's observation
//! time is strictly newer than the device's last accepted update. An accepted
//! slot overwrites position, quality and update time together; a rejected
//! slot changes nothing.

use vstd::prelude::*;
use crate::bytes::i32_from_le;
use crate::device::Device;

verus! {

/// Size of one coordinate slot on the wire, in bytes.
pub const COORD_SLOT_BYTES: usize = 20;

/// Number of coordinate slots in one snapshot.
pub const COORD_SLOT_COUNT: usize = 6;

/// Bytes a coordinate snapshot must hold at least: the slot area. Trailing
/// bytes beyond it are reserved payload and are not interpreted.
pub const COORD_AREA_BYTES: usize = 120;

/// One decoded coordinate slot.
#[derive(Debug, Clone, Copy, PartialEq, Eq, Structural)]
pub struct Coordinate {
    /// Address of the device the reading is for.
    pub address: u8,
    /// X coordinate, millimeters.
    pub x: i32,
    /// Y coordinate, millimeters.
    pub y: i32,
    /// Z coordinate, millimeters.
    pub z: i32,
    /// Quality of the fix; values above 100 are invalid sentinels.
    pub q: u8,
}

/// Whether a buffer is large enough to hold the slot area of a snapshot.
pub open spec fn coords_well_sized(b: Seq<u8>) -> bool {
    b.len() >= COORD_AREA_BYTES
}

/// The slot stored at index `i` of a snapshot buffer. Within a slot: the
/// address byte, one reserved byte, the three axes as little-endian signed
/// 32-bit integers, one reserved status byte, the quality byte, and four
/// reserved trailing bytes.
pub open spec fn slot_of(b: Seq<u8>, i: int) -> Coordinate {
    let off = i * COORD_SLOT_BYTES;
    Coordinate {
        address: b[off],
        x: i32_from_le(b[off + 2], b[off + 3], b[off + 4], b[off + 5]),
        y: i32_from_le(b[off + 6], b[off + 7], b[off + 8], b[off + 9]),
        z: i32_from_le(b[off + 10], b[off + 11], b[off + 12], b[off + 13]),
        q: b[off + 15],
    }
}

/// All slots of a snapshot buffer, in order.
pub open spec fn slots_of(b: Seq<u8>) -> Seq<Coordinate> {
    Seq::new(COORD_SLOT_COUNT as nat, |i: int| slot_of(b, i))
}

/// Whether a slot is accepted for a device observed at time `t`: the
/// addresses agree, the quality is a valid reading, and the observation is
/// strictly newer than the device's last accepted update.
pub open spec fn slot_accepted(d: Device, c: Coordinate, t: u64) -> bool {
    &&& c.address == d.address
    &&& c.q <= 100
    &&& t > d.update_time
}

/// The device after one slot: an accepted slot overwrites position, quality
/// and update time together; any other slot leaves the device unchanged.
pub open spec fn apply_slot(d: Device, c: Coordinate, t: u64) -> Device {
    if slot_accepted(d, c, t) {
        Device {
            address: d.address,
            is_duplicated: d.is_duplicated,
            is_sleeping: d.is_sleeping,
            v_major: d.v_major,
            v_minor: d.v_minor,
            v_second: d.v_second,
            dtype: d.dtype,
            is_connected: d.is_connected,
            x: c.x,
            y: c.y,
            z: c.z,
            q: c.q,
            update_time: t,
        }
    } else {
        d
    }
}

/// The device after the slots from index `k` on, applied in order.
pub open spec fn fold_from(d: Device, cs: Seq<Coordinate>, k: int, t: u64) -> Device
    decreases cs.len() - k,
{
    if k < 0 || k >= cs.len() {
        d
    } else {
        fold_from(apply_slot(d, cs[k], t), cs, k + 1, t)
    }
}

/// The device after a whole snapshot observed at time `t`.
pub open spec fn merged_device(d: Device, cs: Seq<Coordinate>, t: u64) -> Device {
    fold_from(d, cs, 0, t)
}

/// A device at least as fresh as the snapshot accepts no slot of it: the fold
/// leaves it untouched.
pub proof fn lemma_fold_stale(d: Device, cs: Seq<Coordinate>, k: int, t: u64)
    requires
        d.update_time >= t,
    ensures
        fold_from(d, cs, k, t) == d,
    decreases cs.len() - k,
{
    if 0 <= k < cs.len() {
        assert(!slot_accepted(d, cs[k], t));
        lemma_fold_stale(d, cs, k + 1, t);
    }
}

/// The fold either leaves the device as it was, or stamps it with the
/// observation time; identity fields never change, the update time never
/// goes backwards, and a changed device carries a valid quality.
pub proof fn lemma_fold_shape(d: Device, cs: Seq<Coordinate>, k: int, t: u64)
    ensures
        fold_from(d, cs, k, t).address == d.address,
        fold_from(d, cs, k, t).is_duplicated == d.is_duplicated,
        fold_from(d, cs, k, t).is_sleeping == d.is_sleeping,
        fold_from(d, cs, k, t).v_major == d.v_major,
        fold_from(d, cs, k, t).v_minor == d.v_minor,
        fold_from(d, cs, k, t).v_second == d.v_second,
        fold_from(d, cs, k, t).dtype == d.dtype,
        fold_from(d, cs, k, t).is_connected == d.is_connected,
        fold_from(d, cs, k, t).update_time >= d.update_time,
        fold_from(d, cs, k, t) == d || (fold_from(d, cs, k, t).update_time == t && fold_from(
            d,
            cs,
            k,
            t,
        ).q <= 100),
    decreases cs.len() - k,
{
    if 0 <= k < cs.len() {
        lemma_fold_shape(apply_slot(d, cs[k], t), cs, k + 1, t);
        if slot_accepted(d, cs[k], t) {
            lemma_fold_stale(apply_slot(d, cs[k], t), cs, k + 1, t);
        }
    }
}

/// Merging never changes a device's identity: address, flags, firmware
/// version and hardware type survive every snapshot, and the update time is
/// monotonically non-decreasing.
pub proof fn lemma_merge_preserves_identity(d: Device, cs: Seq<Coordinate>, t: u64)
    ensures
        merged_device(d, cs, t).address == d.address,
        merged_device(d, cs, t).is_duplicated == d.is_duplicated,
        merged_device(d, cs, t).is_sleeping == d.is_sleeping,
        merged_device(d, cs, t).v_major == d.v_major,
        merged_device(d, cs, t).v_minor == d.v_minor,
        merged_device(d, cs, t).v_second == d.v_second,
        merged_device(d, cs, t).dtype == d.dtype,
        merged_device(d, cs, t).is_connected == d.is_connected,
        merged_device(d, cs, t).update_time >= d.update_time,
{
    lemma_fold_shape(d, cs, 0, t);
}

/// Any accepted update leaves the quality a valid reading: a device a
/// snapshot changed has quality at most 100 and carries the snapshot's
/// observation time.
pub proof fn lemma_merge_quality_bounded(d: Device, cs: Seq<Coordinate>, t: u64)
    ensures
        merged_device(d, cs, t) != d ==> merged_device(d, cs, t).q <= 100,
        merged_device(d, cs, t) != d ==> merged_device(d, cs, t).update_time == t,
{
    lemma_fold_shape(d, cs, 0, t);
}

/// Replaying a snapshot is idempotent: folding the same slots at the same
/// observation time into a device a second time changes nothing further.
pub proof fn lemma_merge_idempotent(d: Device, cs: Seq<Coordinate>, t: u64)
    ensures
        merged_device(merged_device(d, cs, t), cs, t) == merged_device(d, cs, t),
{
    lemma_fold_shape(d, cs, 0, t);
    let m = merged_device(d, cs, t);
    if m == d {
    } else {
        lemma_fold_stale(m, cs, 0, t);
    }
}

} // verus!
