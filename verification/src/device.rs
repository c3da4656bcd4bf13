//! Device hardware types and the decoded device entity.

use vstd::prelude::*;
use crate::errors::DecodeError;

verus! {

/// The hardware model of a positioning device.
#[derive(Debug, Clone, Copy, PartialEq, Eq, Structural)]
pub enum DeviceType {
    /// Beacon HW V4.5
    BeaconHwV45,
    /// Beacon HW V4.5 (hedgehog mode)
    BeaconHwV45Hedgehog,
    /// Modem HW V4.9
    ModemHwV49,
    /// Beacon HW V4.9
    BeaconHwV49,
    /// Beacon HW V4.9 (hedgehog mode)
    BeaconHwV49Hedgehog,
    /// Beacon Mini-RX
    BeaconMiniRx,
    /// Beacon Mini-TX
    BeaconMiniTx,
    /// Beacon-TX-IP67
    BeaconTxIp67,
    /// Beacon industrial-RX
    BeaconIndustrialRx,
    /// Super-Beacon
    SuperBeacon,
    /// Super-Beacon (hedgehog mode)
    SuperBeaconHedgedog,
    /// Industrial Super-Beacon
    IndustrialSuperBeacon,
    /// Industrial Super-Beacon (hedgehog mode)
    IndustrialSuperBeaconHedgedog,
    /// Super-Modem
    SuperModem,
    /// Modem HW V5.1
    ModemHwV51,
}

/// The closed hardware-code table: the model a documented type code denotes,
/// or `None` for a code outside the table.
pub open spec fn spec_device_type(code: u8) -> Option<DeviceType> {
    if code == 22 {
        Some(DeviceType::BeaconHwV45)
    } else if code == 23 {
        Some(DeviceType::BeaconHwV45Hedgehog)
    } else if code == 24 {
        Some(DeviceType::ModemHwV49)
    } else if code == 30 {
        Some(DeviceType::BeaconHwV49)
    } else if code == 31 {
        Some(DeviceType::BeaconHwV49Hedgehog)
    } else if code == 32 {
        Some(DeviceType::BeaconMiniRx)
    } else if code == 36 {
        Some(DeviceType::BeaconMiniTx)
    } else if code == 37 {
        Some(DeviceType::BeaconTxIp67)
    } else if code == 41 {
        Some(DeviceType::BeaconIndustrialRx)
    } else if code == 42 {
        Some(DeviceType::SuperBeacon)
    } else if code == 43 {
        Some(DeviceType::SuperBeaconHedgedog)
    } else if code == 44 {
        Some(DeviceType::IndustrialSuperBeacon)
    } else if code == 45 {
        Some(DeviceType::IndustrialSuperBeaconHedgedog)
    } else if code == 46 {
        Some(DeviceType::SuperModem)
    } else if code == 48 {
        Some(DeviceType::ModemHwV51)
    } else {
        None
    }
}

/// Whether a hardware type code is in the known table.
pub open spec fn type_code_known(code: u8) -> bool {
    spec_device_type(code) is Some
}

impl DeviceType {
    /// Resolves a hardware type code against the closed table; an unknown
    /// code is an explicit error carrying the code, never a silent default.
    pub fn try_from(code: u8) -> (r: Result<DeviceType, DecodeError>)
        ensures
            type_code_known(code) ==> r == Ok::<DeviceType, DecodeError>(
                spec_device_type(code)->Some_0,
            ),
            !type_code_known(code) ==> r == Err::<DeviceType, DecodeError>(
                DecodeError::UnknownDeviceType(code),
            ),
    {
        match code {
            22 => Ok(DeviceType::BeaconHwV45),
            23 => Ok(DeviceType::BeaconHwV45Hedgehog),
            24 => Ok(DeviceType::ModemHwV49),
            30 => Ok(DeviceType::BeaconHwV49),
            31 => Ok(DeviceType::BeaconHwV49Hedgehog),
            32 => Ok(DeviceType::BeaconMiniRx),
            36 => Ok(DeviceType::BeaconMiniTx),
            37 => Ok(DeviceType::BeaconTxIp67),
            41 => Ok(DeviceType::BeaconIndustrialRx),
            42 => Ok(DeviceType::SuperBeacon),
            43 => Ok(DeviceType::SuperBeaconHedgedog),
            44 => Ok(DeviceType::IndustrialSuperBeacon),
            45 => Ok(DeviceType::IndustrialSuperBeaconHedgedog),
            46 => Ok(DeviceType::SuperModem),
            48 => Ok(DeviceType::ModemHwV51),
            _ => Err(DecodeError::UnknownDeviceType(code)),
        }
    }
}

/// A decoded positioning device.
///
/// Identity fields (address, flags, firmware version, hardware type) are set
/// once when the roster is built; position, quality and the update time
/// advance together, atomically, on each accepted coordinate update. Until
/// the first accepted update they hold the never-updated sentinel: zero
/// position, zero quality, update time zero.
#[derive(Debug, Clone, Copy, PartialEq, Eq, Structural)]
pub struct Device {
    /// Address of the device: its identity key within a session.
    pub address: u8,
    /// Whether more than one device with the same address was found.
    pub is_duplicated: bool,
    /// Whether the device is sleeping.
    pub is_sleeping: bool,
    /// Major firmware version.
    pub v_major: u8,
    /// Minor firmware version.
    pub v_minor: u8,
    /// Second minor firmware version.
    pub v_second: u8,
    /// Resolved hardware type.
    pub dtype: DeviceType,
    /// Whether the device has a confirmed connection (status bit 0).
    pub is_connected: bool,
    /// X coordinate, millimeters.
    pub x: i32,
    /// Y coordinate, millimeters.
    pub y: i32,
    /// Z coordinate, millimeters.
    pub z: i32,
    /// Quality of positioning, 0..=100.
    pub q: u8,
    /// Time of the last accepted location update, in milliseconds; zero means
    /// never updated.
    pub update_time: u64,
}

impl Device {
    /// Get the address of the device.
    #[inline]
    pub fn address(&self) -> (r: u8)
        ensures
            r == self.address,
    {
        self.address
    }

    /// If the address of the device is duplicated - more than 1 device with
    /// the same address was found.
    #[inline]
    pub fn is_duplicated(&self) -> (r: bool)
        ensures
            r == self.is_duplicated,
    {
        self.is_duplicated
    }

    /// If the device is sleeping.
    #[inline]
    pub fn is_sleeping(&self) -> (r: bool)
        ensures
            r == self.is_sleeping,
    {
        self.is_sleeping
    }

    /// Get major version of firmware.
    #[inline]
    pub fn v_major(&self) -> (r: u8)
        ensures
            r == self.v_major,
    {
        self.v_major
    }

    /// Get minor version of firmware.
    #[inline]
    pub fn v_minor(&self) -> (r: u8)
        ensures
            r == self.v_minor,
    {
        self.v_minor
    }

    /// Get second minor version of firmware.
    #[inline]
    pub fn v_second(&self) -> (r: u8)
        ensures
            r == self.v_second,
    {
        self.v_second
    }

    /// Get the device's hardware type.
    #[inline]
    pub fn dtype(&self) -> (r: DeviceType)
        ensures
            r == self.dtype,
    {
        self.dtype
    }

    /// If the device has confirmed connection.
    #[inline]
    pub fn is_connected(&self) -> (r: bool)
        ensures
            r == self.is_connected,
    {
        self.is_connected
    }

    /// Get X coordinate, mm.
    #[inline]
    pub fn x(&self) -> (r: i32)
        ensures
            r == self.x,
    {
        self.x
    }

    /// Get Y coordinate, mm.
    #[inline]
    pub fn y(&self) -> (r: i32)
        ensures
            r == self.y,
    {
        self.y
    }

    /// Get Z coordinate, mm.
    #[inline]
    pub fn z(&self) -> (r: i32)
        ensures
            r == self.z,
    {
        self.z
    }

    /// Get quality of positioning, 0...100%.
    #[inline]
    pub fn q(&self) -> (r: u8)
        ensures
            r == self.q,
    {
        self.q
    }

    /// Get the time of the last accepted location update, in milliseconds;
    /// zero means the device was never updated.
    #[inline]
    pub fn update_time(&self) -> (r: u64)
        ensures
            r == self.update_time,
    {
        self.update_time
    }
}

} // verus!
