//! Error classification: how driver failures map onto sensor status.

use vstd::prelude::*;

use crate::status::SensorStatus;

verus! {

/// The I2C-level failure classes the supervisor distinguishes. Mirrors
/// the error kinds an I2C bus driver reports.
#[derive(Copy, Clone, PartialEq, Eq, Structural, Debug)]
pub enum I2cErrorKind {
    /// The device did not acknowledge its address or a data byte.
    NoAcknowledge,
    /// An error occurred at the bus level (e.g. arbitration lost).
    Bus,
    /// Any other I2C error.
    Other,
}

/// The status a failure maps to: sensor-protocol errors (no I2C error
/// underneath) are `SensorError`; I2C errors map to their kind.
pub open spec fn spec_status_for(i2c: Option<I2cErrorKind>) -> SensorStatus {
    match i2c {
        None => SensorStatus::SensorError,
        Some(I2cErrorKind::NoAcknowledge) => SensorStatus::NoAcknowledge,
        Some(I2cErrorKind::Bus) => SensorStatus::BusError,
        Some(I2cErrorKind::Other) => SensorStatus::OtherI2cError,
    }
}

/// Map a failure's I2C classification to the status the supervisor
/// publishes for it.
pub fn status_for(i2c: Option<I2cErrorKind>) -> (s: SensorStatus)
    ensures
        s == spec_status_for(i2c),
{
    match i2c {
        None => SensorStatus::SensorError,
        Some(I2cErrorKind::NoAcknowledge) => SensorStatus::NoAcknowledge,
        Some(I2cErrorKind::Bus) => SensorStatus::BusError,
        Some(I2cErrorKind::Other) => SensorStatus::OtherI2cError,
    }
}

/// What every sensor adapter error can tell the supervisor.
pub trait SensorError: Sized {
    /// The I2C failure underneath, if the error came from the bus.
    spec fn spec_i2c_error(&self) -> Option<I2cErrorKind>;

    /// Whether the remedy is to re-run `init` rather than retry.
    spec fn spec_should_reset(&self) -> bool;

    fn i2c_error(&self) -> (r: Option<I2cErrorKind>)
        ensures
            r == self.spec_i2c_error(),
    ;

    fn should_reset(&self) -> (r: bool)
        ensures
            r == self.spec_should_reset(),
    ;

    /// The status the supervisor publishes for this error.
    fn as_status(&self) -> (s: SensorStatus)
        ensures
            s == spec_status_for(self.spec_i2c_error()),
    {
        status_for(self.i2c_error())
    }
}

/// An error that is nothing but an I2C failure.
#[derive(Copy, Clone, PartialEq, Eq, Structural, Debug)]
pub struct I2cSensorError(pub I2cErrorKind);

impl SensorError for I2cSensorError {
    open spec fn spec_i2c_error(&self) -> Option<I2cErrorKind> {
        Some(self.0)
    }

    open spec fn spec_should_reset(&self) -> bool {
        false
    }

    fn i2c_error(&self) -> (r: Option<I2cErrorKind>) {
        Some(self.0)
    }

    fn should_reset(&self) -> (r: bool) {
        false
    }
}

/// An adapter error carrying the context message it was wrapped with.
#[derive(Debug)]
pub struct EclssError<E> {
    pub msg: Option<&'static str>,
    pub error: E,
}

impl<E: SensorError> SensorError for EclssError<E> {
    open spec fn spec_i2c_error(&self) -> Option<I2cErrorKind> {
        self.error.spec_i2c_error()
    }

    open spec fn spec_should_reset(&self) -> bool {
        self.error.spec_should_reset()
    }

    fn i2c_error(&self) -> (r: Option<I2cErrorKind>) {
        self.error.i2c_error()
    }

    fn should_reset(&self) -> (r: bool) {
        self.error.should_reset()
    }
}

/// Attach a static context message to the error of a `Result`.
pub trait Context<T, E>: Sized {
    fn context(self, msg: &'static str) -> (r: Result<T, EclssError<E>>);
}

impl<T, E> Context<T, E> for Result<T, E> {
    /// Wrap the error, if any, with a context message; `Ok` passes
    /// through untouched.
    fn context(self, msg: &'static str) -> (r: Result<T, EclssError<E>>)
        ensures
            self is Ok <==> r is Ok,
            r matches Ok(v) ==> self matches Ok(w) && v == w,
            r matches Err(e) ==> self matches Err(inner) && e.error == inner && e.msg == Some(
                msg,
            ),
    {
        match self {
            Ok(v) => Ok(v),
            Err(error) => Err(EclssError { msg: Some(msg), error }),
        }
    }
}

} // verus!
