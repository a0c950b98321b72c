//! Process-wide log-level configuration.
//!
//! The level is a single 4-byte integer option stored by the driver,
//! independent of any device or graph.  The functions here decode a value
//! the driver reported and encode a value to hand back to it; the foreign
//! calls themselves are made by the unverified shell around this crate.
use vstd::prelude::*;

use crate::api;
use crate::Error;
use crate::status_error;

verus! {

/// How much the driver logs: nothing, errors only, or everything.
#[derive(Clone, Copy, Debug, PartialEq, Eq, Structural)]
pub enum LogLevel {
    Off,
    Error,
    Verbose,
}

/// The integer the driver stores for a log level.
pub open spec fn spec_log_level_code(level: LogLevel) -> i32 {
    match level {
        LogLevel::Off => 0,
        LogLevel::Error => 1,
        LogLevel::Verbose => 2,
    }
}

/// The log level a reported option value decodes to; a value outside 0..=2
/// is `Unknown` rather than a crash.
pub open spec fn spec_log_level_of(value: i32) -> Result<LogLevel, Error> {
    if value == 0 {
        Ok(LogLevel::Off)
    } else if value == 1 {
        Ok(LogLevel::Error)
    } else if value == 2 {
        Ok(LogLevel::Verbose)
    } else {
        Err(Error::Unknown)
    }
}

/// Decodes the answer of a global-option query for the log level: `status`
/// is the driver's status code, `value` the 4-byte integer it wrote and
/// `size` the length it reported for it.
///
/// A reported size other than the width of the fixed-size integer would
/// mean an incompatible driver; the shell asserts on it before calling, so
/// it is ruled out here.
pub fn get_log_level(status: i32, value: i32, size: u32) -> (r: Result<LogLevel, Error>)
    requires
        status == api::MVNC_OK ==> size == api::SIZEOF_C_INT,
    ensures
        status == api::MVNC_OK ==> r == spec_log_level_of(value),
        status != api::MVNC_OK ==> r == Err::<LogLevel, Error>(status_error(status)),
{
    match crate::into_result(status) {
        Ok(()) => {
            if value == 0 {
                Ok(LogLevel::Off)
            } else if value == 1 {
                Ok(LogLevel::Error)
            } else if value == 2 {
                Ok(LogLevel::Verbose)
            } else {
                Err(Error::Unknown)
            }
        },
        Err(e) => Err(e),
    }
}

/// Encodes a log level as the 4-byte integer value handed to the driver
/// when setting the global option.
pub fn set_log_level_code(level: &LogLevel) -> (value: i32)
    ensures
        value == spec_log_level_code(*level),
{
    match *level {
        LogLevel::Off => 0,
        LogLevel::Error => 1,
        LogLevel::Verbose => 2,
    }
}

/// Writing a log level and decoding what was written yields the same level
/// back: the two directions of the option encoding agree.
pub proof fn lemma_log_level_round_trip(level: LogLevel)
    ensures
        spec_log_level_of(spec_log_level_code(level)) == Ok::<LogLevel, Error>(level),
{
}

} // verus!
