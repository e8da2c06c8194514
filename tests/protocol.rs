use pps_time::control::{check_return, OsError, Request, EOPNOTSUPP, ETIMEDOUT};
use pps_time::device::{
    fetch_blocking_request, fetch_non_blocking_request, fetch_reply, fetch_request,
    fetch_timeout_request, get_cap_reply, get_cap_request, get_params_reply, get_params_request,
    set_params_reply, set_params_request,
};
use pps_time::pps::{
    pps_fdata, pps_kinfo, pps_kparams, pps_ktime, PPS_CANWAIT, PPS_CAPTUREASSERT,
    PPS_CAPTURECLEAR, PPS_CAP_SIZE, PPS_FDATA_SIZE, PPS_KPARAMS_SIZE, PPS_TIME_INVALID,
};

fn ktime_bytes(sec: i64, nsec: i32, flags: u32) -> Vec<u8> {
    let mut v = Vec::new();
    v.extend_from_slice(&sec.to_le_bytes());
    v.extend_from_slice(&nsec.to_le_bytes());
    v.extend_from_slice(&flags.to_le_bytes());
    v
}

fn sample_params() -> pps_kparams {
    pps_kparams {
        api_version: 1,
        mode: -2,
        assert_off_tu: pps_ktime { sec: -5, nsec: 999_999_999, flags: 0 },
        clear_off_tu: pps_ktime { sec: i64::MAX, nsec: i32::MIN, flags: u32::MAX },
    }
}

fn driver_event() -> (pps_fdata, Vec<u8>) {
    let data = pps_fdata {
        info: pps_kinfo {
            assert_sequence: 7,
            clear_sequence: 6,
            assert_tu: pps_ktime { sec: 1_700_000_000, nsec: 123_456_789, flags: 0 },
            clear_tu: pps_ktime { sec: 1_699_999_999, nsec: 623_456_789, flags: 0 },
            current_mode: (PPS_CAPTUREASSERT | PPS_CANWAIT) as i32,
        },
        timeout: pps_ktime { sec: 0, nsec: 0, flags: 0 },
    };
    let mut b = Vec::new();
    b.extend_from_slice(&7u32.to_le_bytes());
    b.extend_from_slice(&6u32.to_le_bytes());
    b.extend(ktime_bytes(1_700_000_000, 123_456_789, 0));
    b.extend(ktime_bytes(1_699_999_999, 623_456_789, 0));
    b.extend_from_slice(&((PPS_CAPTUREASSERT | PPS_CANWAIT) as i32).to_le_bytes());
    b.extend_from_slice(&[0xaa, 0xbb, 0xcc, 0xdd]);
    b.extend(ktime_bytes(0, 0, 0));
    (data, b)
}

#[test]
fn record_sizes_match_the_kernel() {
    assert_eq!(pps_kparams::default().to_bytes().len(), 40);
    assert_eq!(pps_fdata::default().to_bytes().len(), 64);
    assert_eq!(PPS_KPARAMS_SIZE, 40);
    assert_eq!(PPS_FDATA_SIZE, 64);
    assert_eq!(PPS_CAP_SIZE, 4);
    assert_eq!(Request::GetParams.payload_size(), 40);
    assert_eq!(Request::SetParams.payload_size(), 40);
    assert_eq!(Request::GetCap.payload_size(), 4);
    assert_eq!(Request::Fetch.payload_size(), 64);
}

#[test]
fn every_request_buffer_has_its_payload_size() {
    let p = sample_params();
    for ex in [
        get_params_request(),
        set_params_request(&p),
        get_cap_request(),
        fetch_blocking_request(),
        fetch_timeout_request(3, 4),
        fetch_non_blocking_request(),
    ] {
        assert_eq!(ex.buffer.len(), ex.request.payload_size());
    }
}

#[test]
fn request_codes_are_the_kernel_abi() {
    let ioc = |dir: u64, nr: u64| (dir << 30) | (8 << 16) | (0x70 << 8) | nr;
    assert_eq!(Request::GetParams.code(), 0x800870a1);
    assert_eq!(Request::SetParams.code(), 0x400870a2);
    assert_eq!(Request::GetCap.code(), 0x800870a3);
    assert_eq!(Request::Fetch.code(), 0xc00870a4);
    assert_eq!(Request::GetParams.code(), ioc(2, 0xa1));
    assert_eq!(Request::SetParams.code(), ioc(1, 0xa2));
    assert_eq!(Request::GetCap.code(), ioc(2, 0xa3));
    assert_eq!(Request::Fetch.code(), ioc(3, 0xa4));
}

#[test]
fn only_read_requests_fill_their_record() {
    assert!(Request::GetParams.fills_record());
    assert!(Request::GetCap.fills_record());
    assert!(!Request::SetParams.fills_record());
    assert!(!Request::Fetch.fills_record());
}

#[test]
fn kparams_layout_is_little_endian_c_order() {
    let p = sample_params();
    let mut want = Vec::new();
    want.extend_from_slice(&1i32.to_le_bytes());
    want.extend_from_slice(&(-2i32).to_le_bytes());
    want.extend(ktime_bytes(-5, 999_999_999, 0));
    want.extend(ktime_bytes(i64::MAX, i32::MIN, u32::MAX));
    assert_eq!(p.to_bytes(), want);
    assert_eq!(pps_kparams::from_bytes(&want), Some(p));
}

#[test]
fn fdata_layout_pads_kinfo_to_eight() {
    let (data, bytes) = driver_event();
    assert_eq!(pps_fdata::from_bytes(&bytes), Some(data));
    let out = data.to_bytes();
    assert_eq!(&out[..44], &bytes[..44]);
    assert_eq!(&out[44..48], &[0, 0, 0, 0]);
    assert_eq!(&out[48..], &bytes[48..]);
}

#[test]
fn decoding_refuses_wrong_sizes() {
    assert_eq!(pps_kparams::from_bytes(&[0u8; 39]), None);
    assert_eq!(pps_kparams::from_bytes(&[0u8; 41]), None);
    assert_eq!(pps_fdata::from_bytes(&[0u8; 63]), None);
    assert_eq!(pps_fdata::from_bytes(&[]), None);
}

#[test]
fn defaults_are_zero() {
    assert_eq!(pps_ktime::default(), pps_ktime { sec: 0, nsec: 0, flags: 0 });
    assert_eq!(pps_fdata::default().to_bytes(), vec![0u8; 64]);
    assert_eq!(pps_kparams::default().to_bytes(), vec![0u8; 40]);
}

#[test]
fn get_then_set_unchanged_sends_the_same_bytes() {
    let reply: Vec<u8> = (0u8..40).map(|i| i.wrapping_mul(37).wrapping_add(200)).collect();
    let params = get_params_reply(0, 0, &reply).unwrap();
    let ex = set_params_request(&params);
    assert_eq!(ex.request, Request::SetParams);
    assert_eq!(ex.buffer, reply);
}

#[test]
fn set_params_sends_bits_outside_the_capabilities() {
    let cap = PPS_CAPTUREASSERT | PPS_CANWAIT;
    let mut params = sample_params();
    params.mode = PPS_CAPTURECLEAR as i32;
    assert_eq!(cap & PPS_CAPTURECLEAR, 0);
    let ex = set_params_request(&params);
    assert_eq!(&ex.buffer[4..8], &(PPS_CAPTURECLEAR as i32).to_le_bytes());
    assert_eq!(pps_kparams::from_bytes(&ex.buffer), Some(params));
    assert_eq!(set_params_reply(0, 0), Ok(()));
}

#[test]
fn non_blocking_fetches_send_a_zero_timeout_each_time() {
    let first = fetch_non_blocking_request();
    let second = fetch_non_blocking_request();
    assert_eq!(first.buffer, second.buffer);
    assert_eq!(first.request, Request::Fetch);
    let sent = pps_fdata::from_bytes(&first.buffer).unwrap();
    assert_eq!(sent.timeout, pps_ktime { sec: 0, nsec: 0, flags: 0 });
    assert_eq!(sent.info, pps_kinfo::default());
}

#[test]
fn one_nanosecond_fetch_times_out() {
    let ex = fetch_timeout_request(0, 1);
    let sent = pps_fdata::from_bytes(&ex.buffer).unwrap();
    assert_eq!(sent.timeout, pps_ktime { sec: 0, nsec: 1, flags: 0 });
    assert_eq!(&ex.buffer[48..], &ktime_bytes(0, 1, 0)[..]);
    let r = fetch_reply(-1, libc::ETIMEDOUT, &ex.buffer);
    let e = r.unwrap_err();
    assert!(e.is_timed_out());
    assert!(!e.is_not_supported());
    assert_eq!(e.raw_os_error(), libc::ETIMEDOUT);
}

#[test]
fn capture_assert_then_blocking_fetch() {
    let cap_ex = get_cap_request();
    assert_eq!(cap_ex.request, Request::GetCap);
    let cap = get_cap_reply(0, 0, &(PPS_CAPTUREASSERT | PPS_CANWAIT).to_le_bytes()).unwrap();
    assert_eq!(cap, 0x101);

    let get_ex = get_params_request();
    assert_eq!(get_ex.buffer, vec![0u8; 40]);
    let mut reply = Vec::new();
    reply.extend_from_slice(&1i32.to_le_bytes());
    reply.extend_from_slice(&0i32.to_le_bytes());
    reply.extend(ktime_bytes(0, 0, 0));
    reply.extend(ktime_bytes(0, 0, 0));
    let mut params = get_params_reply(0, 0, &reply).unwrap();
    assert_eq!(params.api_version, 1);
    assert_eq!(params.mode, 0);
    assert!(cap & PPS_CAPTUREASSERT != 0);
    params.mode |= PPS_CAPTUREASSERT as i32;
    let set_ex = set_params_request(&params);
    assert_eq!(&set_ex.buffer[4..8], &1i32.to_le_bytes());

    let fetch_ex = fetch_blocking_request();
    assert_eq!(fetch_ex.request.code(), 0xc00870a4);
    assert_eq!(&fetch_ex.buffer[48..], &ktime_bytes(0, 0, PPS_TIME_INVALID)[..]);
    let (data, bytes) = driver_event();
    assert_eq!(fetch_reply(0, 0, &bytes), Ok(data));
    assert_eq!(data.info.assert_sequence, 7);
}

#[test]
fn blocking_fetch_without_wait_capability_is_not_supported() {
    let cap = get_cap_reply(0, 0, &PPS_CAPTUREASSERT.to_le_bytes()).unwrap();
    assert_eq!(cap & PPS_CANWAIT, 0);
    let ex = fetch_blocking_request();
    let e = fetch_reply(-1, libc::EOPNOTSUPP, &ex.buffer).unwrap_err();
    assert!(e.is_not_supported());
    assert!(!e.is_timed_out());
}

#[test]
fn errno_values_are_the_systems() {
    assert_eq!(ETIMEDOUT, libc::ETIMEDOUT);
    assert_eq!(EOPNOTSUPP, libc::EOPNOTSUPP);
}

#[test]
fn failures_carry_the_raw_error() {
    assert_eq!(check_return(0, 5), Ok(()));
    assert_eq!(check_return(-1, 5), Err(OsError { code: 5 }));
    assert_eq!(check_return(1, 13), Err(OsError { code: 13 }));
    assert_eq!(set_params_reply(-1, libc::EACCES), Err(OsError { code: libc::EACCES }));
    assert_eq!(get_params_reply(-1, libc::ENODEV, &[0u8; 40]), Err(OsError { code: libc::ENODEV }));
    assert_eq!(get_cap_reply(-1, libc::EIO, &[1, 2, 3, 4]), Err(OsError { code: libc::EIO }));
}

#[test]
fn fetch_request_carries_any_timeout() {
    let t = pps_ktime { sec: -1, nsec: 500_000_000, flags: 0 };
    let ex = fetch_request(t);
    assert_eq!(&ex.buffer[..48], &[0u8; 48][..]);
    assert_eq!(&ex.buffer[48..], &ktime_bytes(-1, 500_000_000, 0)[..]);
}

#[test]
fn cap_word_is_read_little_endian() {
    assert_eq!(get_cap_reply(0, 0, &[0x03, 0x11, 0x00, 0x00]), Ok(0x1103));
}
