//! What a PPS device handle sends and how it reads the answer. Each operation
//! is one control request: the handle builds the buffer here, the system call
//! carries it to the driver, and the reply is decoded here from the return
//! value, the error code and the buffer as the driver left it.

use vstd::prelude::*;

use crate::bytes::{read_u32, u32_at, u32_le};
use crate::control::{check_return, OsError, Request};
use crate::pps::{
    fdata_at, fdata_bytes, kparams_at, kparams_bytes, lemma_fdata_round_trip,
    lemma_kparams_bytes_round_trip, lemma_kparams_round_trip, lemma_record_sizes, pps_fdata,
    pps_kinfo, pps_kparams, pps_ktime, zero_kinfo, PPS_CAP_SIZE, PPS_FDATA_SIZE,
    PPS_KPARAMS_SIZE, PPS_TIME_INVALID,
};

verus! {

/// A request as it goes to the device: which one, and the buffer whose
/// address goes with its code.
pub struct Exchange {
    pub request: Request,
    pub buffer: Vec<u8>,
}

impl Exchange {
    /// The buffer has the size of the record that the request carries.
    pub open spec fn wf(&self) -> bool {
        self.buffer@.len() == self.request.spec_payload_size()
    }
}

/// `n` zero bytes.
fn zeroed(n: usize) -> (r: Vec<u8>)
    ensures
        r@ == Seq::new(n as nat, |i: int| 0u8),
{
    let mut out: Vec<u8> = Vec::with_capacity(n);
    let mut i: usize = 0;
    while i < n
        invariant
            i <= n,
            out@ == Seq::new(i as nat, |j: int| 0u8),
        decreases n - i,
    {
        out.push(0u8);
        i = i + 1;
        assert(out@ =~= Seq::new(i as nat, |j: int| 0u8));
    }
    out
}

/// Asks for the parameters of the source. The driver fills the whole record,
/// so the buffer's contents do not matter; it goes zeroed.
pub fn get_params_request() -> (r: Exchange)
    ensures
        r.wf(),
        r.request == Request::GetParams,
        r.buffer@ == Seq::new(PPS_KPARAMS_SIZE as nat, |i: int| 0u8),
{
    Exchange { request: Request::GetParams, buffer: zeroed(PPS_KPARAMS_SIZE) }
}

/// The parameters that a get request brought back, or the error it failed with.
pub fn get_params_reply(ret: i32, errno: i32, buffer: &[u8]) -> (r: Result<
    pps_kparams,
    OsError,
>)
    requires
        buffer@.len() == PPS_KPARAMS_SIZE,
    ensures
        ret == 0 ==> r == Ok::<pps_kparams, OsError>(kparams_at(buffer@, 0)),
        ret != 0 ==> r == Err::<pps_kparams, OsError>(OsError { code: errno }),
{
    match check_return(ret, errno) {
        Ok(()) => match pps_kparams::from_bytes(buffer) {
            Some(p) => Ok(p),
            None => Err(OsError { code: errno }),
        },
        Err(e) => Err(e),
    }
}

/// Hands the whole of `params` to the driver. Every record is sent as it is,
/// mode bits that the source cannot honour included: which bits to set is the
/// caller's choice.
pub fn set_params_request(params: &pps_kparams) -> (r: Exchange)
    ensures
        r.wf(),
        r.request == Request::SetParams,
        r.buffer@ == kparams_bytes(*params),
        kparams_at(r.buffer@, 0) == *params,
{
    proof {
        lemma_kparams_round_trip(*params);
    }
    Exchange { request: Request::SetParams, buffer: params.to_bytes() }
}

/// Whether a set request succeeded, or the error it failed with.
pub fn set_params_reply(ret: i32, errno: i32) -> (r: Result<(), OsError>)
    ensures
        ret == 0 ==> r == Ok::<(), OsError>(()),
        ret != 0 ==> r == Err::<(), OsError>(OsError { code: errno }),
{
    check_return(ret, errno)
}

/// Asks for the capability word of the source. The driver fills it whole.
pub fn get_cap_request() -> (r: Exchange)
    ensures
        r.wf(),
        r.request == Request::GetCap,
        r.buffer@ == Seq::new(PPS_CAP_SIZE as nat, |i: int| 0u8),
{
    Exchange { request: Request::GetCap, buffer: zeroed(PPS_CAP_SIZE) }
}

/// The capability word that a get request brought back, or the error it
/// failed with.
pub fn get_cap_reply(ret: i32, errno: i32, buffer: &[u8]) -> (r: Result<u32, OsError>)
    requires
        buffer@.len() == PPS_CAP_SIZE,
    ensures
        ret == 0 ==> r == Ok::<u32, OsError>(u32_at(buffer@, 0)),
        ret != 0 ==> r == Err::<u32, OsError>(OsError { code: errno }),
{
    match check_return(ret, errno) {
        Ok(()) => Ok(read_u32(buffer, 0)),
        Err(e) => Err(e),
    }
}

/// The timeout that waits for the next event without limit.
pub open spec fn spec_blocking_timeout() -> pps_ktime {
    pps_ktime { sec: 0, nsec: 0, flags: PPS_TIME_INVALID }
}

/// The timeout that waits at most `seconds` and `nanoseconds`.
pub open spec fn spec_bounded_timeout(seconds: i64, nanoseconds: i32) -> pps_ktime {
    pps_ktime { sec: seconds, nsec: nanoseconds, flags: 0 }
}

/// The timeout that does not wait at all.
pub open spec fn spec_non_blocking_timeout() -> pps_ktime {
    pps_ktime { sec: 0, nsec: 0, flags: 0 }
}

/// The record a fetch hands the driver: no edge information, and `timeout`.
pub open spec fn fetch_record(timeout: pps_ktime) -> pps_fdata {
    pps_fdata { info: zero_kinfo(), timeout }
}

/// Asks for the next event, waiting as `timeout` says: without limit where its
/// flags hold the invalid-time bit, else at most its seconds and nanoseconds.
pub fn fetch_request(timeout: pps_ktime) -> (r: Exchange)
    ensures
        r.wf(),
        r.request == Request::Fetch,
        r.buffer@ == fdata_bytes(fetch_record(timeout)),
        fdata_at(r.buffer@, 0) == fetch_record(timeout),
{
    let data = pps_fdata { info: pps_kinfo::default(), timeout };
    proof {
        lemma_fdata_round_trip(data);
    }
    Exchange { request: Request::Fetch, buffer: data.to_bytes() }
}

/// Asks for the next event, blocking until it comes. A source without the
/// wait capability refuses it as not supported.
pub fn fetch_blocking_request() -> (r: Exchange)
    ensures
        r.wf(),
        r.request == Request::Fetch,
        r.buffer@ == fdata_bytes(fetch_record(spec_blocking_timeout())),
        fdata_at(r.buffer@, 0).timeout == spec_blocking_timeout(),
{
    fetch_request(pps_ktime { sec: 0, nsec: 0, flags: PPS_TIME_INVALID })
}

/// Asks for the next event, waiting at most `seconds` and `nanoseconds`; the
/// driver answers timed out where none comes in time.
pub fn fetch_timeout_request(seconds: i64, nanoseconds: i32) -> (r: Exchange)
    ensures
        r.wf(),
        r.request == Request::Fetch,
        r.buffer@ == fdata_bytes(fetch_record(spec_bounded_timeout(seconds, nanoseconds))),
        fdata_at(r.buffer@, 0).timeout == spec_bounded_timeout(seconds, nanoseconds),
{
    fetch_request(pps_ktime { sec: seconds, nsec: nanoseconds, flags: 0 })
}

/// Asks for the newest event without waiting: a zero bound with clear flags.
/// Every such request is the same, so the driver answers it at once each time.
pub fn fetch_non_blocking_request() -> (r: Exchange)
    ensures
        r.wf(),
        r.request == Request::Fetch,
        r.buffer@ == fdata_bytes(fetch_record(spec_non_blocking_timeout())),
        fdata_at(r.buffer@, 0).timeout == spec_non_blocking_timeout(),
{
    fetch_request(pps_ktime { sec: 0, nsec: 0, flags: 0 })
}

/// The event record that a fetch brought back, or the error it failed with
/// (timed out, not supported, or another the system gave).
pub fn fetch_reply(ret: i32, errno: i32, buffer: &[u8]) -> (r: Result<pps_fdata, OsError>)
    requires
        buffer@.len() == PPS_FDATA_SIZE,
    ensures
        ret == 0 ==> r == Ok::<pps_fdata, OsError>(fdata_at(buffer@, 0)),
        ret != 0 ==> r == Err::<pps_fdata, OsError>(OsError { code: errno }),
{
    match check_return(ret, errno) {
        Ok(()) => match pps_fdata::from_bytes(buffer) {
            Some(d) => Ok(d),
            None => Err(OsError { code: errno }),
        },
        Err(e) => Err(e),
    }
}

/// Every request carries a record of the size its kind calls for: the layout
/// of a parameter record for both parameter requests, of a capability word for
/// the capability request, of a fetch record for a fetch.
pub proof fn lemma_request_payloads(req: Request, params: pps_kparams, cap: u32, data: pps_fdata)
    ensures
        (req == Request::GetParams || req == Request::SetParams) ==> kparams_bytes(params).len()
            == req.spec_payload_size(),
        req == Request::GetCap ==> u32_le(cap).len() == req.spec_payload_size(),
        req == Request::Fetch ==> fdata_bytes(data).len() == req.spec_payload_size(),
{
    lemma_record_sizes(data.timeout, data.info, data, params);
}

/// Setting, unchanged, the parameters that a successful get returned hands the
/// driver the very bytes it wrote: the round trip changes nothing.
pub proof fn lemma_get_then_set_unchanged(reply: Seq<u8>)
    requires
        reply.len() == PPS_KPARAMS_SIZE,
    ensures
        kparams_bytes(kparams_at(reply, 0)) == reply,
{
    lemma_kparams_bytes_round_trip(reply);
}

/// Any two non-blocking fetches send the same record, and its timeout asks
/// the driver not to wait: zero seconds, zero nanoseconds, and no invalid-time
/// bit that would make it wait without limit.
pub proof fn lemma_non_blocking_never_waits(first: Exchange, second: Exchange)
    requires
        first.buffer@ == fdata_bytes(fetch_record(spec_non_blocking_timeout())),
        second.buffer@ == fdata_bytes(fetch_record(spec_non_blocking_timeout())),
    ensures
        first.buffer@ == second.buffer@,
        fdata_at(first.buffer@, 0).timeout.sec == 0,
        fdata_at(first.buffer@, 0).timeout.nsec == 0,
        fdata_at(first.buffer@, 0).timeout.flags & PPS_TIME_INVALID == 0,
{
    lemma_fdata_round_trip(fetch_record(spec_non_blocking_timeout()));
    assert(0u32 & 1u32 == 0) by (bit_vector);
}

} // verus!
