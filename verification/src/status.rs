//! Per-sensor status values and the cell the supervisor publishes them in.

use vstd::prelude::*;

verus! {

/// The status of one I2C sensor, as published by its supervisor task.
#[derive(Copy, Clone, PartialEq, Eq, Structural, Debug)]
pub enum SensorStatus {
    /// A sensor of this type has never been initialized; most likely no
    /// such sensor is connected to the bus.
    Unknown,
    /// The sensor is initializing.
    Initializing,
    /// The sensor's I2C address was not acknowledged.
    NoAcknowledge,
    /// The sensor is connected and healthy.
    Up,
    /// The sensor driver reported an error that was not an I2C error.
    SensorError,
    /// An I2C bus error occurred while communicating with the sensor.
    BusError,
    /// Any other I2C error.
    OtherI2cError,
}

impl SensorStatus {
    /// The wire encoding of a status: a single byte, starting at 1 so
    /// that zeroed memory never reads as a valid status.
    pub open spec fn spec_as_u8(self) -> u8 {
        match self {
            SensorStatus::Unknown => 1,
            SensorStatus::Initializing => 2,
            SensorStatus::NoAcknowledge => 3,
            SensorStatus::Up => 4,
            SensorStatus::SensorError => 5,
            SensorStatus::BusError => 6,
            SensorStatus::OtherI2cError => 7,
        }
    }

    /// Encode this status as its byte form.
    pub fn as_u8(self) -> (b: u8)
        ensures
            b == self.spec_as_u8(),
    {
        match self {
            SensorStatus::Unknown => 1,
            SensorStatus::Initializing => 2,
            SensorStatus::NoAcknowledge => 3,
            SensorStatus::Up => 4,
            SensorStatus::SensorError => 5,
            SensorStatus::BusError => 6,
            SensorStatus::OtherI2cError => 7,
        }
    }

    pub open spec fn spec_from_u8(u: u8) -> SensorStatus {
        match u {
            1u8 => SensorStatus::Unknown,
            2u8 => SensorStatus::Initializing,
            3u8 => SensorStatus::NoAcknowledge,
            4u8 => SensorStatus::Up,
            5u8 => SensorStatus::SensorError,
            6u8 => SensorStatus::BusError,
            7u8 => SensorStatus::OtherI2cError,
            // An unrecognized byte is treated as a missing sensor.
            _ => SensorStatus::Unknown,
        }
    }

    /// Decode a status byte; unknown bytes decode to `Unknown`.
    pub fn from_u8(u: u8) -> (s: SensorStatus)
        ensures
            s == SensorStatus::spec_from_u8(u),
            s.spec_as_u8() == u || s == SensorStatus::Unknown,
    {
        match u {
            1u8 => SensorStatus::Unknown,
            2u8 => SensorStatus::Initializing,
            3u8 => SensorStatus::NoAcknowledge,
            4u8 => SensorStatus::Up,
            5u8 => SensorStatus::SensorError,
            6u8 => SensorStatus::BusError,
            7u8 => SensorStatus::OtherI2cError,
            _ => SensorStatus::Unknown,
        }
    }

    pub open spec fn spec_is_present(self) -> bool {
        self != SensorStatus::Unknown && self != SensorStatus::NoAcknowledge
    }

    /// A sensor is present when it has ever answered on the bus.
    pub fn is_present(&self) -> (r: bool)
        ensures
            r == self.spec_is_present(),
    {
        !matches!(self, SensorStatus::Unknown | SensorStatus::NoAcknowledge)
    }

    pub open spec fn spec_is_error(self) -> bool {
        self == SensorStatus::SensorError || self == SensorStatus::BusError
            || self == SensorStatus::OtherI2cError
    }

    /// Whether this status reports a failure.
    pub fn is_error(&self) -> (r: bool)
        ensures
            r == self.spec_is_error(),
    {
        matches!(
            self,
            SensorStatus::SensorError | SensorStatus::BusError | SensorStatus::OtherI2cError
        )
    }

    /// The canonical text of a status, as published over HTTP.
    pub fn as_str(&self) -> (r: &'static str)
        ensures
            r@ == self.spec_str(),
    {
        proof {
            reveal_strlit("Unknown");
            reveal_strlit("Initializing");
            reveal_strlit("NoAcknowledge");
            reveal_strlit("Up");
            reveal_strlit("SensorError");
            reveal_strlit("BusError");
            reveal_strlit("OtherI2cError");
        }
        match self {
            SensorStatus::Unknown => "Unknown",
            SensorStatus::Initializing => "Initializing",
            SensorStatus::NoAcknowledge => "NoAcknowledge",
            SensorStatus::Up => "Up",
            SensorStatus::SensorError => "SensorError",
            SensorStatus::BusError => "BusError",
            SensorStatus::OtherI2cError => "OtherI2cError",
        }
    }

    pub open spec fn spec_str(self) -> Seq<char> {
        match self {
            SensorStatus::Unknown => "Unknown"@,
            SensorStatus::Initializing => "Initializing"@,
            SensorStatus::NoAcknowledge => "NoAcknowledge"@,
            SensorStatus::Up => "Up"@,
            SensorStatus::SensorError => "SensorError"@,
            SensorStatus::BusError => "BusError"@,
            SensorStatus::OtherI2cError => "OtherI2cError"@,
        }
    }
}

/// The cell a supervisor publishes its sensor's current status in.
///
/// The cell stores the encoded byte, exactly as the HTTP surface reads it.
#[derive(Debug)]
pub struct StatusCell {
    byte: u8,
}

impl StatusCell {
    pub closed spec fn spec_status(&self) -> SensorStatus {
        SensorStatus::spec_from_u8(self.byte)
    }

    /// A fresh cell reads `Unknown`.
    pub fn new() -> (c: StatusCell)
        ensures
            c.spec_status() == SensorStatus::Unknown,
    {
        StatusCell { byte: 1 }
    }

    /// Publish a new status; returns the status that was previously held.
    pub fn set_status(&mut self, status: SensorStatus) -> (prev: SensorStatus)
        ensures
            final(self).spec_status() == status,
            prev == old(self).spec_status(),
    {
        let prev = SensorStatus::from_u8(self.byte);
        self.byte = status.as_u8();
        prev
    }

    /// The status currently held.
    pub fn status(&self) -> (s: SensorStatus)
        ensures
            s == self.spec_status(),
    {
        SensorStatus::from_u8(self.byte)
    }
}

} // verus!
