//! The records of the kernel's PPS interface (`linux/pps.h`), their sizes and
//! their byte layout on a little-endian 64-bit target, where `struct
//! pps_kinfo` ends in four bytes of padding that align it to eight.

#![allow(non_camel_case_types)]

use vstd::prelude::*;

use crate::bytes::{
    i32_bits, i32_of_bits, i64_bits, i64_of_bits, lemma_i32_bits, lemma_i64_bits,
    lemma_u32_bytes_round_trip, lemma_u32_round_trip, lemma_u64_bytes_round_trip,
    lemma_u64_round_trip, push_u32, push_u64, read_u32, read_u64, u32_at, u32_le, u64_at, u64_le,
};

verus! {

/// The time fields are not valid: as a fetch timeout, wait without limit.
pub const PPS_TIME_INVALID: u32 = 1;

/// Capture the assert edge.
pub const PPS_CAPTUREASSERT: u32 = 0x01;
/// Capture the clear edge.
pub const PPS_CAPTURECLEAR: u32 = 0x02;
/// Capture both edges.
pub const PPS_CAPTUREBOTH: u32 = 0x03;
/// Apply the assert offset correction.
pub const PPS_OFFSETASSERT: u32 = 0x10;
/// Apply the clear offset correction.
pub const PPS_OFFSETCLEAR: u32 = 0x20;
/// Echo the assert edge on an output line.
pub const PPS_ECHOASSERT: u32 = 0x40;
/// Echo the clear edge on an output line.
pub const PPS_ECHOCLEAR: u32 = 0x80;
/// A fetch may wait for the next event.
pub const PPS_CANWAIT: u32 = 0x100;
/// The source can be polled.
pub const PPS_CANPOLL: u32 = 0x200;
/// Timestamps as seconds and nanoseconds.
pub const PPS_TSFMT_TSPEC: u32 = 0x1000;
/// Timestamps in NTP fixed point.
pub const PPS_TSFMT_NTPFP: u32 = 0x2000;

/// Version 1 of the interface.
pub const PPS_API_VERS_1: u32 = 1;
/// The version of the interface spoken here.
pub const PPS_API_VERS: u32 = 1;

/// Bytes of `struct pps_ktime`.
pub const PPS_KTIME_SIZE: usize = 16;
/// Bytes of `struct pps_kinfo`, padding included.
pub const PPS_KINFO_SIZE: usize = 48;
/// Bytes of `struct pps_fdata`.
pub const PPS_FDATA_SIZE: usize = 64;
/// Bytes of `struct pps_kparams`.
pub const PPS_KPARAMS_SIZE: usize = 40;
/// Bytes of the capability word.
pub const PPS_CAP_SIZE: usize = 4;

/// A kernel timestamp: whole seconds, nanoseconds within the second, flags.
#[derive(Clone, Copy, Debug, PartialEq, Eq, Structural)]
pub struct pps_ktime {
    pub sec: i64,
    pub nsec: i32,
    pub flags: u32,
}

/// What the driver recorded of the last assert and clear edges.
#[derive(Clone, Copy, Debug, PartialEq, Eq, Structural)]
pub struct pps_kinfo {
    pub assert_sequence: u32,
    pub clear_sequence: u32,
    pub assert_tu: pps_ktime,
    pub clear_tu: pps_ktime,
    pub current_mode: i32,
}

/// The record of a fetch: edge information out, the wait timeout in.
#[derive(Clone, Copy, Debug, PartialEq, Eq, Structural)]
pub struct pps_fdata {
    pub info: pps_kinfo,
    pub timeout: pps_ktime,
}

/// The parameters of a source: interface version, mode bits, offset corrections.
#[derive(Clone, Copy, Debug, PartialEq, Eq, Structural)]
pub struct pps_kparams {
    pub api_version: i32,
    pub mode: i32,
    pub assert_off_tu: pps_ktime,
    pub clear_off_tu: pps_ktime,
}

/// The layout of `struct pps_ktime`.
pub open spec fn ktime_bytes(t: pps_ktime) -> Seq<u8> {
    u64_le(i64_bits(t.sec)) + u32_le(i32_bits(t.nsec)) + u32_le(t.flags)
}

/// The layout of `struct pps_kinfo`; the trailing padding is written as zeros.
#[verifier::opaque]
pub open spec fn kinfo_bytes(i: pps_kinfo) -> Seq<u8> {
    u32_le(i.assert_sequence) + u32_le(i.clear_sequence) + ktime_bytes(i.assert_tu)
        + ktime_bytes(i.clear_tu) + u32_le(i32_bits(i.current_mode)) + seq![0u8, 0u8, 0u8, 0u8]
}

/// The layout of `struct pps_fdata`.
pub open spec fn fdata_bytes(d: pps_fdata) -> Seq<u8> {
    kinfo_bytes(d.info) + ktime_bytes(d.timeout)
}

/// The layout of `struct pps_kparams`.
#[verifier::opaque]
pub open spec fn kparams_bytes(p: pps_kparams) -> Seq<u8> {
    u32_le(i32_bits(p.api_version)) + u32_le(i32_bits(p.mode)) + ktime_bytes(p.assert_off_tu)
        + ktime_bytes(p.clear_off_tu)
}

/// The `pps_ktime` laid out from `at` in `s`.
pub open spec fn ktime_at(s: Seq<u8>, at: int) -> pps_ktime {
    pps_ktime {
        sec: i64_of_bits(u64_at(s, at)),
        nsec: i32_of_bits(u32_at(s, at + 8)),
        flags: u32_at(s, at + 12),
    }
}

/// The `pps_kinfo` laid out from `at` in `s`; its padding is not read.
pub open spec fn kinfo_at(s: Seq<u8>, at: int) -> pps_kinfo {
    pps_kinfo {
        assert_sequence: u32_at(s, at),
        clear_sequence: u32_at(s, at + 4),
        assert_tu: ktime_at(s, at + 8),
        clear_tu: ktime_at(s, at + 24),
        current_mode: i32_of_bits(u32_at(s, at + 40)),
    }
}

/// The `pps_fdata` laid out from `at` in `s`.
pub open spec fn fdata_at(s: Seq<u8>, at: int) -> pps_fdata {
    pps_fdata { info: kinfo_at(s, at), timeout: ktime_at(s, at + 48) }
}

/// The `pps_kparams` laid out from `at` in `s`.
pub open spec fn kparams_at(s: Seq<u8>, at: int) -> pps_kparams {
    pps_kparams {
        api_version: i32_of_bits(u32_at(s, at)),
        mode: i32_of_bits(u32_at(s, at + 4)),
        assert_off_tu: ktime_at(s, at + 8),
        clear_off_tu: ktime_at(s, at + 24),
    }
}

proof fn lemma_ktime_round_trip(t: pps_ktime, pre: Seq<u8>, post: Seq<u8>)
    ensures
        ktime_at(pre + ktime_bytes(t) + post, pre.len() as int) == t,
{
    let s = pre + ktime_bytes(t) + post;
    let at = pre.len() as int;
    lemma_u64_round_trip(i64_bits(t.sec));
    lemma_u32_round_trip(i32_bits(t.nsec));
    lemma_u32_round_trip(t.flags);
    lemma_i64_bits(t.sec, 0);
    lemma_i32_bits(t.nsec, 0);
    assert(s.subrange(at, at + 8) =~= u64_le(i64_bits(t.sec)));
    assert(s.subrange(at + 8, at + 12) =~= u32_le(i32_bits(t.nsec)));
    assert(s.subrange(at + 12, at + 16) =~= u32_le(t.flags));
    assert(u64_at(s, at) == u64_at(s.subrange(at, at + 8), 0));
    assert(u32_at(s, at + 8) == u32_at(s.subrange(at + 8, at + 12), 0));
    assert(u32_at(s, at + 12) == u32_at(s.subrange(at + 12, at + 16), 0));
}

proof fn lemma_u32_in(x: u32, pre: Seq<u8>, post: Seq<u8>)
    ensures
        u32_at(pre + u32_le(x) + post, pre.len() as int) == x,
{
    let s = pre + u32_le(x) + post;
    let at = pre.len() as int;
    lemma_u32_round_trip(x);
    assert(s.subrange(at, at + 4) =~= u32_le(x));
    assert(u32_at(s, at) == u32_at(s.subrange(at, at + 4), 0));
}

proof fn lemma_ktime_bytes_round_trip(s: Seq<u8>, at: int)
    requires
        0 <= at,
        at + 16 <= s.len(),
    ensures
        ktime_bytes(ktime_at(s, at)) == s.subrange(at, at + 16),
{
    let t = ktime_at(s, at);
    lemma_u64_bytes_round_trip(s, at);
    lemma_u32_bytes_round_trip(s, at + 8);
    lemma_u32_bytes_round_trip(s, at + 12);
    lemma_i64_bits(0, u64_at(s, at));
    lemma_i32_bits(0, u32_at(s, at + 8));
    assert(ktime_bytes(t) =~= s.subrange(at, at + 8) + s.subrange(at + 8, at + 12) + s.subrange(
        at + 12,
        at + 16,
    ));
    assert(s.subrange(at, at + 16) =~= s.subrange(at, at + 8) + s.subrange(at + 8, at + 12)
        + s.subrange(at + 12, at + 16));
}

proof fn lemma_kinfo_round_trip(i: pps_kinfo, pre: Seq<u8>, post: Seq<u8>)
    ensures
        kinfo_at(pre + kinfo_bytes(i) + post, pre.len() as int) == i,
{
    reveal(kinfo_bytes);
    let s = pre + kinfo_bytes(i) + post;
    let a = u32_le(i.assert_sequence);
    let b = u32_le(i.clear_sequence);
    let c = ktime_bytes(i.assert_tu);
    let d = ktime_bytes(i.clear_tu);
    let e = u32_le(i32_bits(i.current_mode));
    let z = seq![0u8, 0u8, 0u8, 0u8];
    assert(s =~= pre + a + (b + c + d + e + z + post));
    lemma_u32_in(i.assert_sequence, pre, b + c + d + e + z + post);
    assert(s =~= (pre + a) + b + (c + d + e + z + post));
    lemma_u32_in(i.clear_sequence, pre + a, c + d + e + z + post);
    assert(s =~= (pre + a + b) + c + (d + e + z + post));
    lemma_ktime_round_trip(i.assert_tu, pre + a + b, d + e + z + post);
    assert(s =~= (pre + a + b + c) + d + (e + z + post));
    lemma_ktime_round_trip(i.clear_tu, pre + a + b + c, e + z + post);
    assert(s =~= (pre + a + b + c + d) + e + (z + post));
    lemma_u32_in(i32_bits(i.current_mode), pre + a + b + c + d, z + post);
    lemma_i32_bits(i.current_mode, 0);
}

proof fn lemma_regroup(a: Seq<u8>, b: Seq<u8>, c: Seq<u8>)
    ensures
        a + (b + c) == (a + b) + c,
        Seq::<u8>::empty() + a == a,
        a + Seq::<u8>::empty() == a,
{
    assert(a + (b + c) =~= (a + b) + c);
    assert(Seq::<u8>::empty() + a =~= a);
    assert(a + Seq::<u8>::empty() =~= a);
}

/// Decoding the layout of a fetch record gives back the record.
pub proof fn lemma_fdata_round_trip(d: pps_fdata)
    ensures
        fdata_at(fdata_bytes(d), 0) == d,
{
    let empty = Seq::<u8>::empty();
    let i = kinfo_bytes(d.info);
    let t = ktime_bytes(d.timeout);
    reveal(kinfo_bytes);
    assert(i.len() == PPS_KINFO_SIZE);
    lemma_regroup(i, t, empty);
    lemma_regroup(i + t, empty, empty);
    lemma_kinfo_round_trip(d.info, empty, t);
    lemma_ktime_round_trip(d.timeout, i, empty);
}

proof fn lemma_kparams_in(p: pps_kparams, pre: Seq<u8>, post: Seq<u8>)
    ensures
        kparams_at(pre + kparams_bytes(p) + post, pre.len() as int) == p,
{
    reveal(kparams_bytes);
    let s = pre + kparams_bytes(p) + post;
    let n = pre.len() as int;
    let a = u32_le(i32_bits(p.api_version));
    let b = u32_le(i32_bits(p.mode));
    let c = ktime_bytes(p.assert_off_tu);
    let d = ktime_bytes(p.clear_off_tu);
    assert(s =~= pre + a + (b + c + d + post));
    lemma_u32_in(i32_bits(p.api_version), pre, b + c + d + post);
    assert(s =~= (pre + a) + b + (c + d + post));
    lemma_u32_in(i32_bits(p.mode), pre + a, c + d + post);
    lemma_i32_bits(p.api_version, 0);
    lemma_i32_bits(p.mode, 0);
    assert(i32_of_bits(u32_at(s, n)) == p.api_version);
    assert(i32_of_bits(u32_at(s, n + 4)) == p.mode);
    assert(s =~= (pre + a + b) + c + (d + post));
    lemma_ktime_round_trip(p.assert_off_tu, pre + a + b, d + post);
    assert(ktime_at(s, n + 8) == p.assert_off_tu);
    assert(s =~= (pre + a + b + c) + d + post);
    lemma_ktime_round_trip(p.clear_off_tu, pre + a + b + c, post);
    assert(ktime_at(s, n + 24) == p.clear_off_tu);
}

/// Decoding the layout of a parameter record gives back the record.
pub proof fn lemma_kparams_round_trip(p: pps_kparams)
    ensures
        kparams_at(kparams_bytes(p), 0) == p,
{
    let empty = Seq::<u8>::empty();
    let k = kparams_bytes(p);
    lemma_regroup(k, empty, empty);
    lemma_regroup(empty + k, empty, empty);
    lemma_kparams_in(p, empty, empty);
}

/// Any forty bytes are the layout of the parameter record decoded from them:
/// a record read from the driver and written back unchanged hands the driver
/// the very bytes it gave.
pub proof fn lemma_kparams_bytes_round_trip(s: Seq<u8>)
    requires
        s.len() == PPS_KPARAMS_SIZE,
    ensures
        kparams_bytes(kparams_at(s, 0)) == s,
{
    reveal(kparams_bytes);
    lemma_u32_bytes_round_trip(s, 0);
    lemma_u32_bytes_round_trip(s, 4);
    lemma_i32_bits(0, u32_at(s, 0));
    lemma_i32_bits(0, u32_at(s, 4));
    lemma_ktime_bytes_round_trip(s, 8);
    lemma_ktime_bytes_round_trip(s, 24);
    assert(s =~= s.subrange(0, 4) + s.subrange(4, 8) + s.subrange(8, 24) + s.subrange(24, 40));
}

/// The layout of each record has the size of the kernel's structure.
pub proof fn lemma_record_sizes(t: pps_ktime, i: pps_kinfo, d: pps_fdata, p: pps_kparams)
    ensures
        ktime_bytes(t).len() == PPS_KTIME_SIZE,
        kinfo_bytes(i).len() == PPS_KINFO_SIZE,
        fdata_bytes(d).len() == PPS_FDATA_SIZE,
        kparams_bytes(p).len() == PPS_KPARAMS_SIZE,
        u32_le(0).len() == PPS_CAP_SIZE,
{
    reveal(kinfo_bytes);
    reveal(kparams_bytes);
}

impl pps_ktime {
    /// Appends the layout of this timestamp to `out`.
    pub fn write_to(&self, out: &mut Vec<u8>)
        ensures
            final(out)@ == old(out)@ + ktime_bytes(*self),
    {
        push_u64(out, #[verifier::truncate] (self.sec as u64));
        push_u32(out, #[verifier::truncate] (self.nsec as u32));
        push_u32(out, self.flags);
        assert(final(out)@ =~= old(out)@ + ktime_bytes(*self));
    }

    /// The timestamp laid out from `at` in `b`.
    pub fn read_from(b: &[u8], at: usize) -> (r: pps_ktime)
        requires
            at + PPS_KTIME_SIZE <= b@.len(),
        ensures
            r == ktime_at(b@, at as int),
    {
        let n = b.len();
        assert(at + 16 <= n);
        let sec = read_u64(b, at);
        let nsec = read_u32(b, at + 8);
        let flags = read_u32(b, at + 12);
        pps_ktime {
            sec: #[verifier::truncate]
            (sec as i64),
            nsec: #[verifier::truncate]
            (nsec as i32),
            flags,
        }
    }
}

impl pps_kinfo {
    /// Appends the layout of this record to `out`, padding as zeros.
    pub fn write_to(&self, out: &mut Vec<u8>)
        ensures
            final(out)@ == old(out)@ + kinfo_bytes(*self),
    {
        push_u32(out, self.assert_sequence);
        push_u32(out, self.clear_sequence);
        self.assert_tu.write_to(out);
        self.clear_tu.write_to(out);
        push_u32(out, #[verifier::truncate] (self.current_mode as u32));
        push_u32(out, 0);
        reveal(kinfo_bytes);
        assert(u32_le(0) =~= seq![0u8, 0u8, 0u8, 0u8]) by {
            assert((0u32 >> 8u32) as u8 == 0u8 && (0u32 >> 16u32) as u8 == 0u8 && (0u32
                >> 24u32) as u8 == 0u8) by (bit_vector);
        }
        assert(final(out)@ =~= old(out)@ + kinfo_bytes(*self));
    }

    /// The record laid out from `at` in `b`.
    pub fn read_from(b: &[u8], at: usize) -> (r: pps_kinfo)
        requires
            at + PPS_KINFO_SIZE <= b@.len(),
        ensures
            r == kinfo_at(b@, at as int),
    {
        let n = b.len();
        assert(at + 48 <= n);
        let assert_sequence = read_u32(b, at);
        let clear_sequence = read_u32(b, at + 4);
        let assert_tu = pps_ktime::read_from(b, at + 8);
        let clear_tu = pps_ktime::read_from(b, at + 24);
        let mode = read_u32(b, at + 40);
        pps_kinfo {
            assert_sequence,
            clear_sequence,
            assert_tu,
            clear_tu,
            current_mode: #[verifier::truncate]
            (mode as i32),
        }
    }
}

impl pps_fdata {
    /// The layout of this record, as handed to the driver.
    pub fn to_bytes(&self) -> (r: Vec<u8>)
        ensures
            r@ == fdata_bytes(*self),
            r@.len() == PPS_FDATA_SIZE,
    {
        let mut out: Vec<u8> = Vec::with_capacity(PPS_FDATA_SIZE);
        self.info.write_to(&mut out);
        self.timeout.write_to(&mut out);
        proof {
            reveal(kinfo_bytes);
        }
        assert(out@ =~= fdata_bytes(*self));
        out
    }

    /// The record laid out in `b`, if `b` has the size of one.
    pub fn from_bytes(b: &[u8]) -> (r: Option<pps_fdata>)
        ensures
            r is Some <==> b@.len() == PPS_FDATA_SIZE,
            r is Some ==> r->0 == fdata_at(b@, 0),
    {
        if b.len() != PPS_FDATA_SIZE {
            return None;
        }
        let info = pps_kinfo::read_from(b, 0);
        let timeout = pps_ktime::read_from(b, PPS_KINFO_SIZE);
        Some(pps_fdata { info, timeout })
    }
}

impl pps_kparams {
    /// The layout of this record, as handed to the driver.
    pub fn to_bytes(&self) -> (r: Vec<u8>)
        ensures
            r@ == kparams_bytes(*self),
            r@.len() == PPS_KPARAMS_SIZE,
    {
        let mut out: Vec<u8> = Vec::with_capacity(PPS_KPARAMS_SIZE);
        push_u32(&mut out, #[verifier::truncate] (self.api_version as u32));
        push_u32(&mut out, #[verifier::truncate] (self.mode as u32));
        self.assert_off_tu.write_to(&mut out);
        self.clear_off_tu.write_to(&mut out);
        proof {
            reveal(kparams_bytes);
        }
        assert(out@ =~= kparams_bytes(*self));
        out
    }

    /// The record laid out in `b`, if `b` has the size of one.
    pub fn from_bytes(b: &[u8]) -> (r: Option<pps_kparams>)
        ensures
            r is Some <==> b@.len() == PPS_KPARAMS_SIZE,
            r is Some ==> r->0 == kparams_at(b@, 0),
    {
        if b.len() != PPS_KPARAMS_SIZE {
            return None;
        }
        let api_version = read_u32(b, 0);
        let mode = read_u32(b, 4);
        let assert_off_tu = pps_ktime::read_from(b, 8);
        let clear_off_tu = pps_ktime::read_from(b, 24);
        Some(
            pps_kparams {
                api_version: #[verifier::truncate]
                (api_version as i32),
                mode: #[verifier::truncate]
                (mode as i32),
                assert_off_tu,
                clear_off_tu,
            },
        )
    }
}

/// The timestamp of all zeros.
pub open spec fn zero_ktime() -> pps_ktime {
    pps_ktime { sec: 0, nsec: 0, flags: 0 }
}

/// The edge information of all zeros.
pub open spec fn zero_kinfo() -> pps_kinfo {
    pps_kinfo {
        assert_sequence: 0,
        clear_sequence: 0,
        assert_tu: zero_ktime(),
        clear_tu: zero_ktime(),
        current_mode: 0,
    }
}

impl Default for pps_ktime {
    fn default() -> (r: pps_ktime)
        ensures
            r == zero_ktime(),
    {
        pps_ktime { sec: 0, nsec: 0, flags: 0 }
    }
}

impl Default for pps_kinfo {
    fn default() -> (r: pps_kinfo)
        ensures
            r == zero_kinfo(),
    {
        pps_kinfo {
            assert_sequence: 0,
            clear_sequence: 0,
            assert_tu: pps_ktime::default(),
            clear_tu: pps_ktime::default(),
            current_mode: 0,
        }
    }
}

impl Default for pps_fdata {
    fn default() -> (r: pps_fdata)
        ensures
            r == (pps_fdata { info: zero_kinfo(), timeout: zero_ktime() }),
    {
        pps_fdata { info: pps_kinfo::default(), timeout: pps_ktime::default() }
    }
}

impl Default for pps_kparams {
    fn default() -> (r: pps_kparams)
        ensures
            r == (pps_kparams {
                api_version: 0,
                mode: 0,
                assert_off_tu: zero_ktime(),
                clear_off_tu: zero_ktime(),
            }),
    {
        pps_kparams {
            api_version: 0,
            mode: 0,
            assert_off_tu: pps_ktime::default(),
            clear_off_tu: pps_ktime::default(),
        }
    }
}

} // verus!
