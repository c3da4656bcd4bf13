//! The device roster: built once from a roster snapshot buffer, and updated
//! in place by folding coordinate snapshots into it.

use vstd::prelude::*;
use crate::bytes::read_i32_le;
use crate::coords::{
    Coordinate, COORD_AREA_BYTES, COORD_SLOT_BYTES, COORD_SLOT_COUNT, coords_well_sized,
    fold_from, merged_device, slots_of,
};
use crate::device::{Device, DeviceType, spec_device_type, type_code_known};
use crate::errors::DecodeError;

verus! {

/// Size of one roster entry on the wire, in bytes.
pub const ROSTER_ENTRY_BYTES: usize = 9;

/// Whether a buffer has the shape of a roster snapshot: a one-byte
/// active-count header followed by whole fixed-size entries.
pub open spec fn roster_well_sized(b: Seq<u8>) -> bool {
    b.len() >= 1 && (b.len() - 1) % (ROSTER_ENTRY_BYTES as int) == 0
}

/// The number of entry records the buffer has room for.
pub open spec fn roster_capacity_of(b: Seq<u8>) -> int {
    (b.len() - 1) / (ROSTER_ENTRY_BYTES as int)
}

/// The declared active-entry count: the buffer's header byte.
pub open spec fn roster_count_of(b: Seq<u8>) -> u8 {
    b[0]
}

/// Byte `k` of entry `i` of a roster snapshot buffer.
pub open spec fn entry_byte(b: Seq<u8>, i: int, k: int) -> u8 {
    b[1 + i * ROSTER_ENTRY_BYTES + k]
}

/// The hardware type code of entry `i`. Within an entry: the address byte,
/// the duplicate and sleeping flags, the three firmware version bytes, the
/// type code, one reserved byte, and the status-flags byte.
pub open spec fn entry_type_code(b: Seq<u8>, i: int) -> u8 {
    entry_byte(b, i, 6)
}

/// The device entry `i` decodes to: identity fields from the wire, the
/// connected flag from bit 0 of the status byte, and the never-updated
/// sentinel for position, quality and update time.
pub open spec fn device_of_entry(b: Seq<u8>, i: int) -> Device {
    Device {
        address: entry_byte(b, i, 0),
        is_duplicated: entry_byte(b, i, 1) != 0,
        is_sleeping: entry_byte(b, i, 2) != 0,
        v_major: entry_byte(b, i, 3),
        v_minor: entry_byte(b, i, 4),
        v_second: entry_byte(b, i, 5),
        dtype: spec_device_type(entry_type_code(b, i))->Some_0,
        is_connected: entry_byte(b, i, 8) % 2 == 1,
        x: 0,
        y: 0,
        z: 0,
        q: 0,
        update_time: 0,
    }
}

/// Whether a roster snapshot buffer decodes to a roster: it is well sized,
/// its declared count fits its capacity, and every active entry carries a
/// known hardware type code.
pub open spec fn roster_ok(b: Seq<u8>) -> bool {
    &&& roster_well_sized(b)
    &&& roster_count_of(b) <= roster_capacity_of(b)
    &&& forall|i: int|
        0 <= i < roster_count_of(b) ==> type_code_known(entry_type_code(b, i))
}

/// A roster buffer whose declared active-count exceeds its capacity never
/// decodes, whatever its entry bytes hold: it is not a well-formed snapshot,
/// so by `build`'s contract the build fails with the malformed-buffer error.
/// The rejection comes from the bounds check alone — no entry byte takes part
/// in it, and the verifier rules out any read past the buffer throughout.
pub proof fn lemma_excess_count_rejected(b: Seq<u8>)
    requires
        roster_count_of(b) > roster_capacity_of(b),
    ensures
        !roster_ok(b),
{
}

/// The persistent list of devices known to a session.
#[derive(Debug, Clone)]
pub struct DeviceList {
    devices: Vec<Device>,
}

impl View for DeviceList {
    type V = Seq<Device>;

    closed spec fn view(&self) -> Seq<Device> {
        self.devices@
    }
}

impl DeviceList {
    /// Get the devices' information.
    #[inline]
    pub fn devices(&self) -> (r: &Vec<Device>)
        ensures
            r@ == self@,
    {
        &self.devices
    }

    /// Builds the roster from a roster snapshot buffer.
    ///
    /// The buffer is a one-byte active-count header followed by fixed-size
    /// entries. A buffer of the wrong shape, or one whose declared count
    /// exceeds its capacity, is malformed; an active entry with a hardware
    /// type code outside the known table fails the whole build with that
    /// code. Otherwise the roster holds exactly the active entries, decoded
    /// in source order, each starting in the never-updated sentinel state.
    pub fn build(buf: &Vec<u8>) -> (r: Result<DeviceList, DecodeError>)
        ensures
            r is Ok <==> roster_ok(buf@),
            r is Ok ==> r->Ok_0@.len() == roster_count_of(buf@) && forall|i: int|
                0 <= i < roster_count_of(buf@) ==> r->Ok_0@[i] == device_of_entry(buf@, i),
            !roster_well_sized(buf@) ==> r == Err::<DeviceList, DecodeError>(
                DecodeError::MalformedBuffer,
            ),
            roster_well_sized(buf@) && roster_count_of(buf@) > roster_capacity_of(buf@) ==> r
                == Err::<DeviceList, DecodeError>(DecodeError::MalformedBuffer),
            roster_well_sized(buf@) && roster_count_of(buf@) <= roster_capacity_of(buf@)
                ==> forall|i: int|
                0 <= i < roster_count_of(buf@) && !type_code_known(entry_type_code(buf@, i)) && (
                forall|j: int| 0 <= j < i ==> type_code_known(entry_type_code(buf@, j))) ==> r
                    == Err::<DeviceList, DecodeError>(
                    DecodeError::UnknownDeviceType(entry_type_code(buf@, i)),
                ),
    {
        if buf.len() < 1 {
            return Err(DecodeError::MalformedBuffer);
        }
        if (buf.len() - 1) % ROSTER_ENTRY_BYTES != 0 {
            return Err(DecodeError::MalformedBuffer);
        }
        let capacity = (buf.len() - 1) / ROSTER_ENTRY_BYTES;
        let count = buf[0] as usize;
        if count > capacity {
            return Err(DecodeError::MalformedBuffer);
        }
        assert(ROSTER_ENTRY_BYTES * capacity == buf.len() - 1) by {
            vstd::arithmetic::div_mod::lemma_fundamental_div_mod(
                buf.len() - 1,
                ROSTER_ENTRY_BYTES as int,
            );
        }

        let mut devices: Vec<Device> = Vec::new();
        let mut i: usize = 0;
        while i < count
            invariant
                i <= count,
                count == roster_count_of(buf@),
                count <= capacity,
                roster_well_sized(buf@),
                capacity == roster_capacity_of(buf@),
                ROSTER_ENTRY_BYTES * capacity == buf.len() - 1,
                devices@.len() == i,
                forall|j: int| 0 <= j < i ==> type_code_known(entry_type_code(buf@, j)),
                forall|j: int| 0 <= j < i ==> devices@[j] == device_of_entry(buf@, j),
            decreases count - i,
        {
            let off = 1 + i * ROSTER_ENTRY_BYTES;
            let code = buf[off + 6];
            assert(code == entry_type_code(buf@, i as int));
            let dtype = match DeviceType::try_from(code) {
                Ok(t) => t,
                Err(e) => {
                    return Err(e);
                },
            };
            let device = Device {
                address: buf[off],
                is_duplicated: buf[off + 1] != 0,
                is_sleeping: buf[off + 2] != 0,
                v_major: buf[off + 3],
                v_minor: buf[off + 4],
                v_second: buf[off + 5],
                dtype,
                is_connected: buf[off + 8] % 2 == 1,
                x: 0,
                y: 0,
                z: 0,
                q: 0,
                update_time: 0,
            };
            devices.push(device);
            i += 1;
        }
        Ok(DeviceList { devices })
    }

    /// Folds a coordinate snapshot, observed at `observed_at`, into the
    /// roster in place, and reports whether any device's state changed.
    ///
    /// Every slot is considered against every device: a slot is accepted for
    /// a device only when the addresses agree, its quality is a valid reading
    /// (at most 100), and `observed_at` is strictly newer than the device's
    /// last accepted update; an accepted slot overwrites position, quality
    /// and update time together. A slot whose address matches no device, a
    /// low-confidence slot and a stale snapshot are skipped silently: they
    /// are not errors. No device is ever added or removed. A buffer too
    /// small to hold the slot area is malformed and leaves the roster
    /// untouched.
    #[verifier::loop_isolation(false)]
    pub fn update_last_locations(&mut self, buf: &Vec<u8>, observed_at: u64) -> (r: Result<
        bool,
        DecodeError,
    >)
        ensures
            !coords_well_sized(buf@) ==> r == Err::<bool, DecodeError>(
                DecodeError::MalformedBuffer,
            ) && final(self)@ == old(self)@,
            coords_well_sized(buf@) ==> final(self)@.len() == old(self)@.len(),
            coords_well_sized(buf@) ==> forall|i: int|
                0 <= i < old(self)@.len() ==> final(self)@[i] == merged_device(
                    old(self)@[i],
                    slots_of(buf@),
                    observed_at,
                ),
            coords_well_sized(buf@) ==> r == Ok::<bool, DecodeError>(
                exists|i: int|
                    0 <= i < old(self)@.len() && merged_device(
                        old(self)@[i],
                        slots_of(buf@),
                        observed_at,
                    ) != old(self)@[i],
            ),
    {
        if buf.len() < COORD_AREA_BYTES {
            return Err(DecodeError::MalformedBuffer);
        }
        let ghost cs = slots_of(buf@);
        let ghost orig = self.devices@;

        let mut updated: Vec<Device> = Vec::new();
        let mut is_update = false;
        let mut di: usize = 0;
        while di < self.devices.len()
            invariant
                di <= orig.len(),
                updated@.len() == di,
                forall|j: int|
                    0 <= j < di ==> updated@[j] == merged_device(orig[j], cs, observed_at),
                is_update == exists|j: int|
                    0 <= j < di && merged_device(orig[j], cs, observed_at) != orig[j],
            decreases orig.len() - di,
        {
            let mut d = self.devices[di];
            let ghost d0 = d;
            let mut accepted = false;
            let mut k: usize = 0;
            while k < COORD_SLOT_COUNT
                invariant
                    k <= COORD_SLOT_COUNT,
                    fold_from(d, cs, k as int, observed_at) == merged_device(d0, cs, observed_at),
                    !accepted ==> d == d0,
                    accepted ==> d.update_time == observed_at && observed_at > d0.update_time,
                decreases COORD_SLOT_COUNT - k,
            {
                let off = k * COORD_SLOT_BYTES;
                let c = Coordinate {
                    address: buf[off],
                    x: read_i32_le(buf, off + 2),
                    y: read_i32_le(buf, off + 6),
                    z: read_i32_le(buf, off + 10),
                    q: buf[off + 15],
                };
                if c.address == d.address && c.q <= 100 && observed_at > d.update_time {
                    d = Device {
                        address: d.address,
                        is_duplicated: d.is_duplicated,
                        is_sleeping: d.is_sleeping,
                        v_major: d.v_major,
                        v_minor: d.v_minor,
                        v_second: d.v_second,
                        dtype: d.dtype,
                        is_connected: d.is_connected,
                        x: c.x,
                        y: c.y,
                        z: c.z,
                        q: c.q,
                        update_time: observed_at,
                    };
                    accepted = true;
                }
                k += 1;
            }
            if accepted {
                is_update = true;
            }
            updated.push(d);
            di += 1;
        }
        self.devices = updated;
        Ok(is_update)
    }
}

} // verus!
