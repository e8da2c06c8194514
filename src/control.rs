//! The control requests of a PPS device: their codes, the size of the record
//! each one carries, and how the driver's return value reads as a result.

use vstd::prelude::*;

use crate::pps::{PPS_CAP_SIZE, PPS_FDATA_SIZE, PPS_KPARAMS_SIZE};

verus! {

/// Direction of a request code: the driver writes the record.
pub const IOC_READ: u64 = 2;
/// Direction of a request code: the driver reads the record.
pub const IOC_WRITE: u64 = 1;
/// The type byte of the PPS requests, `'p'`.
pub const PPS_IOC_TYPE: u64 = 0x70;
/// The size that the codes carry: the kernel header declares the requests
/// with pointer types, so eight on a 64-bit target, whatever the record.
pub const PPS_IOC_SIZE: u64 = 8;

/// The generic Linux request code: direction in bits 30 and 31, size in bits
/// 16 to 29, type in bits 8 to 15, number in bits 0 to 7.
pub open spec fn ioc(dir: u64, ty: u64, nr: u64, size: u64) -> u64 {
    (dir << 30u64) | (size << 16u64) | (ty << 8u64) | nr
}

/// `_IOR('p', 0xa1, struct pps_kparams *)`
pub const PPS_GETPARAMS: u64 = 0x800870a1;
/// `_IOW('p', 0xa2, struct pps_kparams *)`
pub const PPS_SETPARAMS: u64 = 0x400870a2;
/// `_IOR('p', 0xa3, int *)`
pub const PPS_GETCAP: u64 = 0x800870a3;
/// `_IOWR('p', 0xa4, struct pps_fdata *)`
pub const PPS_FETCH: u64 = 0xc00870a4;

/// Each request code is the generic encoding of its direction, type, number
/// and size.
pub proof fn lemma_request_codes()
    ensures
        PPS_GETPARAMS == ioc(IOC_READ, PPS_IOC_TYPE, 0xa1, PPS_IOC_SIZE),
        PPS_SETPARAMS == ioc(IOC_WRITE, PPS_IOC_TYPE, 0xa2, PPS_IOC_SIZE),
        PPS_GETCAP == ioc(IOC_READ, PPS_IOC_TYPE, 0xa3, PPS_IOC_SIZE),
        PPS_FETCH == ioc(IOC_READ | IOC_WRITE, PPS_IOC_TYPE, 0xa4, PPS_IOC_SIZE),
{
    assert(0x800870a1u64 == ioc(2, 0x70, 0xa1, 8)) by (bit_vector);
    assert(0x400870a2u64 == ioc(1, 0x70, 0xa2, 8)) by (bit_vector);
    assert(0x800870a3u64 == ioc(2, 0x70, 0xa3, 8)) by (bit_vector);
    assert(0xc00870a4u64 == ioc(2u64 | 1u64, 0x70, 0xa4, 8)) by (bit_vector);
}

/// The four requests a PPS device answers.
#[derive(Clone, Copy, Debug, PartialEq, Eq, Structural)]
pub enum Request {
    GetParams,
    SetParams,
    GetCap,
    Fetch,
}

impl Request {
    pub open spec fn spec_code(self) -> u64 {
        match self {
            Request::GetParams => PPS_GETPARAMS,
            Request::SetParams => PPS_SETPARAMS,
            Request::GetCap => PPS_GETCAP,
            Request::Fetch => PPS_FETCH,
        }
    }

    pub open spec fn spec_payload_size(self) -> usize {
        match self {
            Request::GetParams => PPS_KPARAMS_SIZE,
            Request::SetParams => PPS_KPARAMS_SIZE,
            Request::GetCap => PPS_CAP_SIZE,
            Request::Fetch => PPS_FDATA_SIZE,
        }
    }

    /// Whether the driver writes the whole record on success, so that what
    /// the buffer held before does not matter.
    pub open spec fn spec_fills_record(self) -> bool {
        self == Request::GetParams || self == Request::GetCap
    }

    /// The request code handed to the device.
    pub fn code(&self) -> (r: u64)
        ensures
            r == self.spec_code(),
    {
        match self {
            Request::GetParams => PPS_GETPARAMS,
            Request::SetParams => PPS_SETPARAMS,
            Request::GetCap => PPS_GETCAP,
            Request::Fetch => PPS_FETCH,
        }
    }

    /// The size of the record whose address goes with the request.
    pub fn payload_size(&self) -> (r: usize)
        ensures
            r == self.spec_payload_size(),
    {
        match self {
            Request::GetParams => PPS_KPARAMS_SIZE,
            Request::SetParams => PPS_KPARAMS_SIZE,
            Request::GetCap => PPS_CAP_SIZE,
            Request::Fetch => PPS_FDATA_SIZE,
        }
    }

    /// Whether the driver writes the whole record on success.
    pub fn fills_record(&self) -> (r: bool)
        ensures
            r == self.spec_fills_record(),
    {
        match self {
            Request::GetParams => true,
            Request::GetCap => true,
            _ => false,
        }
    }
}

/// Linux's code for a wait that ran out of time.
pub const ETIMEDOUT: i32 = 110;
/// Linux's code for an operation the device does not support.
pub const EOPNOTSUPP: i32 = 95;

/// The operating system's error code for a failed request, as it came.
#[derive(Clone, Copy, Debug, PartialEq, Eq, Structural)]
pub struct OsError {
    pub code: i32,
}

impl OsError {
    /// The raw error code.
    pub fn raw_os_error(&self) -> (r: i32)
        ensures
            r == self.code,
    {
        self.code
    }

    /// Whether a bounded fetch ran out of time.
    pub fn is_timed_out(&self) -> (r: bool)
        ensures
            r == (self.code == ETIMEDOUT),
    {
        self.code == ETIMEDOUT
    }

    /// Whether the device cannot do what was asked, such as waiting for an event.
    pub fn is_not_supported(&self) -> (r: bool)
        ensures
            r == (self.code == EOPNOTSUPP),
    {
        self.code == EOPNOTSUPP
    }
}

/// Reads the driver's return value: zero is success, anything else a failure
/// that carries, unchanged, the error code the system gave.
pub fn check_return(ret: i32, errno: i32) -> (r: Result<(), OsError>)
    ensures
        ret == 0 ==> r == Ok::<(), OsError>(()),
        ret != 0 ==> r == Err::<(), OsError>(OsError { code: errno }),
{
    if ret == 0 {
        Ok(())
    } else {
        Err(OsError { code: errno })
    }
}

} // verus!
