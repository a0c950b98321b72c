//! Verified protocol core of a session layer for a neural-inference
//! accelerator.
//!
//! The driver of the accelerator is a foreign library: every call into it
//! answers with a signed status code, and results of submitted computations
//! come back asynchronously, identified only by an opaque correlation tag
//! echoed verbatim.  This crate holds the logic that can be wrong on this
//! side of that boundary — the status translation, the decoding of option
//! values and NUL-terminated name buffers, and above all the correlation-id
//! bookkeeping of a graph execution channel — as verified functions from
//! plain values to plain values.  The thin layer that owns the native
//! handles performs each foreign call and hands its outcome to these
//! functions.
use vstd::prelude::*;

pub mod api;
pub mod device;
pub mod graph;
pub mod log;

verus! {

/// Everything a session operation can report besides success.
///
/// The first twelve variants translate the driver's status codes
/// (`Unknown` standing for any code outside the documented set, so that an
/// undocumented code never becomes a crash).  `Idle` and
/// `ProtocolViolation` are raised by this layer itself: `Idle` when a
/// retrieval finds no outstanding request, `ProtocolViolation` when the
/// driver answers with a result buffer whose length is not a whole number
/// of elements.
#[derive(Clone, Copy, Debug, PartialEq, Eq, Structural)]
pub enum Error {
    Busy,
    DeviceError,
    OutOfMemory,
    DeviceNotFound,
    InvalidParameters,
    Timeout,
    BootFileNotFound,
    NoData,
    Gone,
    UnsupportedGraphFile,
    DeviceReportedError,
    Unknown,
    Idle,
    ProtocolViolation,
}

/// The error a driver status code stands for, for codes other than success.
pub open spec fn status_error(status: i32) -> Error {
    if status == api::MVNC_BUSY {
        Error::Busy
    } else if status == api::MVNC_ERROR {
        Error::DeviceError
    } else if status == api::MVNC_OUT_OF_MEMORY {
        Error::OutOfMemory
    } else if status == api::MVNC_DEVICE_NOT_FOUND {
        Error::DeviceNotFound
    } else if status == api::MVNC_INVALID_PARAMETERS {
        Error::InvalidParameters
    } else if status == api::MVNC_TIMEOUT {
        Error::Timeout
    } else if status == api::MVNC_MVCMD_NOT_FOUND {
        Error::BootFileNotFound
    } else if status == api::MVNC_NO_DATA {
        Error::NoData
    } else if status == api::MVNC_GONE {
        Error::Gone
    } else if status == api::MVNC_UNSUPPORTED_GRAPH_FILE {
        Error::UnsupportedGraphFile
    } else if status == api::MVNC_MYRIAD_ERROR {
        Error::DeviceReportedError
    } else {
        Error::Unknown
    }
}

/// Translates a status code of the driver: success for `MVNC_OK`, otherwise
/// the member of the closed error set that the code stands for, `Unknown`
/// for any undocumented code.
pub fn into_result(status: i32) -> (r: Result<(), Error>)
    ensures
        status == api::MVNC_OK ==> r == Ok::<(), Error>(()),
        status != api::MVNC_OK ==> r == Err::<(), Error>(status_error(status)),
{
    if status == api::MVNC_OK {
        Ok(())
    } else if status == api::MVNC_BUSY {
        Err(Error::Busy)
    } else if status == api::MVNC_ERROR {
        Err(Error::DeviceError)
    } else if status == api::MVNC_OUT_OF_MEMORY {
        Err(Error::OutOfMemory)
    } else if status == api::MVNC_DEVICE_NOT_FOUND {
        Err(Error::DeviceNotFound)
    } else if status == api::MVNC_INVALID_PARAMETERS {
        Err(Error::InvalidParameters)
    } else if status == api::MVNC_TIMEOUT {
        Err(Error::Timeout)
    } else if status == api::MVNC_MVCMD_NOT_FOUND {
        Err(Error::BootFileNotFound)
    } else if status == api::MVNC_NO_DATA {
        Err(Error::NoData)
    } else if status == api::MVNC_GONE {
        Err(Error::Gone)
    } else if status == api::MVNC_UNSUPPORTED_GRAPH_FILE {
        Err(Error::UnsupportedGraphFile)
    } else if status == api::MVNC_MYRIAD_ERROR {
        Err(Error::DeviceReportedError)
    } else {
        Err(Error::Unknown)
    }
}

/// The text a byte sequence spells in UTF-8, where it spells any.
pub uninterp spec fn utf8_decoding(bytes: Seq<u8>) -> Option<Seq<char>>;

/// Relies on std::str::from_utf8: returns the text the bytes spell in
/// UTF-8, or nothing where they are not valid UTF-8.  The outcome depends
/// on the bytes alone; a decoded text never has more characters than the
/// bytes it was decoded from, each character taking at least one byte;
/// and a text decoded from bytes among which none is 0 contains no NUL
/// character, the NUL character being encoded by the byte 0 alone.
#[verifier::external_body]
fn decode_utf8(bytes: &[u8]) -> (r: Option<String>)
    ensures
        r is Some <==> utf8_decoding(bytes@) is Some,
        r matches Some(s) ==> Some(s@) == utf8_decoding(bytes@) && s@.len() <= bytes@.len(),
        r matches Some(s) ==> ((forall|i: int| 0 <= i < bytes@.len() ==> bytes@[i] != 0)
            ==> (forall|i: int| 0 <= i < s@.len() ==> s@[i] != '\0')),
{
    match std::str::from_utf8(bytes) {
        Ok(s) => Some(s.to_string()),
        Err(_) => None,
    }
}

/// `p` is the position of the first NUL byte of `s`.
pub open spec fn is_first_nul(s: Seq<u8>, p: int) -> bool {
    &&& 0 <= p < s.len()
    &&& s[p] == 0
    &&& forall|i: int| 0 <= i < p ==> s[i] != 0
}

/// What a NUL-terminated byte buffer holds: the text its bytes before the
/// first NUL spell in UTF-8, or nothing where no NUL terminates it or the
/// bytes are not valid UTF-8.
pub open spec fn c_string_value(s: Seq<u8>) -> Option<Seq<char>> {
    if exists|p: int| is_first_nul(s, p) {
        utf8_decoding(s.take(choose|p: int| is_first_nul(s, p)))
    } else {
        None
    }
}

/// A sequence has at most one first NUL position.
proof fn lemma_first_nul_unique(s: Seq<u8>, p1: int, p2: int)
    requires
        is_first_nul(s, p1),
        is_first_nul(s, p2),
    ensures
        p1 == p2,
{
    if p1 < p2 {
        assert(s[p1] != 0);
    }
    if p2 < p1 {
        assert(s[p2] != 0);
    }
}

/// Reads the text out of a NUL-terminated byte buffer, as the driver
/// returns device names and debug info: the bytes before the first NUL,
/// decoded as UTF-8.  A buffer without a terminator, or whose bytes are
/// not valid text, is `Unknown` — malformed strings are reported, never
/// propagated as a crash.  The text is always shorter than the buffer,
/// since the terminator is inside it, and holds no NUL character, since
/// it was decoded from the bytes before the first one.
pub fn from_c_string(c_string: &[u8]) -> (r: Result<String, Error>)
    ensures
        match c_string_value(c_string@) {
            Some(cs) => r matches Ok(s) && s@ == cs,
            None => r matches Err(e) && e == Error::Unknown,
        },
        r matches Ok(s) ==> s@.len() < c_string@.len(),
        r matches Ok(s) ==> forall|i: int| 0 <= i < s@.len() ==> s@[i] != '\0',
{
    let n = c_string.len();
    let mut i: usize = 0;
    while i < n && *vstd::slice::slice_index_get(c_string, i) != 0
        invariant
            i <= n,
            n == c_string@.len(),
            forall|k: int| 0 <= k < i ==> c_string@[k] != 0,
        decreases n - i,
    {
        i = i + 1;
    }
    if i == n {
        proof {
            if exists|p: int| is_first_nul(c_string@, p) {
                let p = choose|p: int| is_first_nul(c_string@, p);
                assert(c_string@[p] != 0);
            }
        }
        return Err(Error::Unknown);
    }
    proof {
        assert(is_first_nul(c_string@, i as int));
        let p = choose|p: int| is_first_nul(c_string@, p);
        lemma_first_nul_unique(c_string@, p, i as int);
    }
    let prefix = vstd::slice::slice_subrange(c_string, 0, i);
    proof {
        assert(forall|k: int| 0 <= k < prefix@.len() ==> prefix@[k] != 0);
    }
    match decode_utf8(prefix) {
        Some(s) => Ok(s),
        None => Err(Error::Unknown),
    }
}

} // verus!
