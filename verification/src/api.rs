//! The fixed integer protocol of the accelerator driver: status codes,
//! option tags and the sizes of the fixed-width option values.
//!
//! Every call into the driver answers with one of the signed status codes
//! below; `0` is success and every failure is negative.  The option tags
//! select which device, graph or global setting a query reads or writes.
use vstd::prelude::*;

verus! {

/// A device name is reported in a fixed 28-byte NUL-terminated buffer.
pub const MVNC_MAX_NAME_SIZE: usize = 28;

pub const MVNC_OK: i32 = 0;
/// The device is busy; retry later.
pub const MVNC_BUSY: i32 = -1;
/// Error communicating with the device.
pub const MVNC_ERROR: i32 = -2;
/// Out of memory.
pub const MVNC_OUT_OF_MEMORY: i32 = -3;
/// No device at the given index or name.
pub const MVNC_DEVICE_NOT_FOUND: i32 = -4;
/// At least one of the given parameters is wrong.
pub const MVNC_INVALID_PARAMETERS: i32 = -5;
/// Timeout in the communication with the device.
pub const MVNC_TIMEOUT: i32 = -6;
/// The file needed to boot the device was not found.
pub const MVNC_MVCMD_NOT_FOUND: i32 = -7;
/// No result to return yet; submit a tensor first or retry later.
pub const MVNC_NO_DATA: i32 = -8;
/// The graph or device was closed during the operation.
pub const MVNC_GONE: i32 = -9;
/// The graph file version is not supported.
pub const MVNC_UNSUPPORTED_GRAPH_FILE: i32 = -10;
/// The device itself reported an error; debug info will say more.
pub const MVNC_MYRIAD_ERROR: i32 = -11;

/// Global option tag: log level, one 4-byte integer, 0/1/2.
pub const MVNC_LOG_LEVEL: i32 = 0;

/// Graph option tag: non-blocking mode, one 4-byte integer, 0 = block, 1 = do not block.
pub const MVNC_DONT_BLOCK: i32 = 2;
/// Graph option tag: time taken per stage, an array of 4-byte floats.
pub const MVNC_TIME_TAKEN: i32 = 1000;
/// Graph option tag: debug info, a NUL-terminated string.
pub const MVNC_DEBUG_INFO: i32 = 1001;

/// Device option tag: thermal throttling level, one 4-byte integer, 0/1/2.
pub const MVNC_THERMAL_THROTTLING_LEVEL: i32 = 1002;

pub const MVNC_TEMP_LIM_NORMAL: i32 = 0;
pub const MVNC_TEMP_LIM_LOWER: i32 = 1;
pub const MVNC_TEMP_LIM_HIGHER: i32 = 2;

/// Width in bytes of a 4-byte float option element.
pub const SIZEOF_C_FLOAT: u32 = 4;
/// Width in bytes of a 4-byte integer option value.
pub const SIZEOF_C_INT: u32 = 4;

} // verus!
