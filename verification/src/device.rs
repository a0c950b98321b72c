//! Device-session queries: enumeration of device names and the thermal
//! throttling level.
//!
//! A device session owns an opaque native handle; the handle itself lives
//! in the unverified shell, which performs the foreign calls and hands
//! their outcomes — a status code and the bytes or integer the driver
//! wrote — to the functions here for the decoding and the decisions.
use vstd::prelude::*;

use crate::api;
use crate::c_string_value;
use crate::from_c_string;
use crate::Error;
use crate::status_error;

verus! {

/// Whether the device has reached one of its two temperature limits.
#[derive(Clone, Copy, Debug, PartialEq, Eq, Structural)]
pub enum ThermalThrottlingLevel {
    Normal,
    TemperatureLimitLowerReached,
    TemperatureLimitHigherReached,
}

/// The throttling level a reported option value decodes to; a value outside
/// 0..=2 is `Unknown` rather than a crash, since this is a routinely polled
/// status.
pub open spec fn spec_throttling_level_of(value: i32) -> Result<ThermalThrottlingLevel, Error> {
    if value == api::MVNC_TEMP_LIM_NORMAL {
        Ok(ThermalThrottlingLevel::Normal)
    } else if value == api::MVNC_TEMP_LIM_LOWER {
        Ok(ThermalThrottlingLevel::TemperatureLimitLowerReached)
    } else if value == api::MVNC_TEMP_LIM_HIGHER {
        Ok(ThermalThrottlingLevel::TemperatureLimitHigherReached)
    } else {
        Err(Error::Unknown)
    }
}

/// Decodes the answer of a device-name query at some enumeration index:
/// `status` is the driver's status code and `buf` the fixed name buffer it
/// filled.
///
/// Absence of a device at the index is not an error: any failing status —
/// the driver answers `MVNC_DEVICE_NOT_FOUND` past the last device — gives
/// `None`, which ends an enumeration loop.  A name buffer without a NUL
/// terminator or without valid text is folded into `None` as well.  A name
/// that is returned is always shorter than the buffer, since the NUL is
/// inside it, and holds no NUL character itself.
pub fn get_name(status: i32, buf: &[u8]) -> (r: Option<String>)
    ensures
        status != api::MVNC_OK ==> r is None,
        status == api::MVNC_OK ==> match c_string_value(buf@) {
            Some(cs) => r matches Some(s) && s@ == cs,
            None => r is None,
        },
        r matches Some(s) ==> s@.len() < buf@.len(),
        r matches Some(s) ==> forall|i: int| 0 <= i < s@.len() ==> s@[i] != '\0',
{
    match crate::into_result(status) {
        Ok(()) => match from_c_string(buf) {
            Ok(s) => Some(s),
            Err(_) => None,
        },
        Err(_) => None,
    }
}

/// Decodes the answer of a device-option query for the thermal throttling
/// level: `status` is the driver's status code, `value` the 4-byte integer
/// it wrote and `size` the length it reported for it.
///
/// A reported size other than the width of the fixed-size integer would
/// mean an incompatible driver; the shell asserts on it before calling, so
/// it is ruled out here.
pub fn get_thermal_throttling_level(status: i32, value: i32, size: u32) -> (r: Result<
    ThermalThrottlingLevel,
    Error,
>)
    requires
        status == api::MVNC_OK ==> size == api::SIZEOF_C_INT,
    ensures
        status == api::MVNC_OK ==> r == spec_throttling_level_of(value),
        status != api::MVNC_OK ==> r == Err::<ThermalThrottlingLevel, Error>(
            status_error(status),
        ),
{
    match crate::into_result(status) {
        Ok(()) => {
            if value == api::MVNC_TEMP_LIM_NORMAL {
                Ok(ThermalThrottlingLevel::Normal)
            } else if value == api::MVNC_TEMP_LIM_LOWER {
                Ok(ThermalThrottlingLevel::TemperatureLimitLowerReached)
            } else if value == api::MVNC_TEMP_LIM_HIGHER {
                Ok(ThermalThrottlingLevel::TemperatureLimitHigherReached)
            } else {
                Err(Error::Unknown)
            }
        },
        Err(e) => Err(e),
    }
}

} // verus!
