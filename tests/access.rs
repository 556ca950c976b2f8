use deck_tdp::backlight::{
    get_brightness, probe_backlight_device, set_brightness, BacklightDevice, BacklightProbe,
    BACKLIGHT_DIR,
};
use deck_tdp::decimal::{decode_u32, encode_u32, DecodeError};
use deck_tdp::error::AccessError;
use deck_tdp::exchange::{join_path, NodeAccess, Reply, Request, Step};
use deck_tdp::power::{
    get_fast_device_micro_watt, get_slow_device_micro_watt, set_fast_device_micro_watt,
    set_slow_device_micro_watt, PowerAccess, HWMON_PARENT,
};

fn expect_request<T: std::fmt::Debug>(s: Step<T>) -> Request {
    match s {
        Step::Perform(q) => q,
        other => panic!("expected a request, got {:?}", other),
    }
}

fn expect_outcome<T: std::fmt::Debug>(s: Step<T>) -> Result<T, AccessError> {
    match s {
        Step::Finished(r) => r,
        other => panic!("expected an outcome, got {:?}", other),
    }
}

/// Drives a power access up to its transfer of the control file.
fn located(a: &mut PowerAccess, first: Request, node: &str) -> Request {
    assert!(matches!(first, Request::IsDir(ref p) if p == HWMON_PARENT));
    let q = expect_request(a.resume(Reply::Flag(true)));
    assert!(matches!(q, Request::NextEntry(ref p) if p == HWMON_PARENT));
    let hwmon = format!("{}/hwmon4", HWMON_PARENT);
    let q = expect_request(a.resume(Reply::Entry(Some(Ok(hwmon.clone())))));
    let expected = format!("{}/{}", hwmon, node);
    assert!(matches!(q, Request::Exists(ref p) if *p == expected));
    expect_request(a.resume(Reply::Flag(true)))
}

#[test]
fn round_trip_of_values() {
    for v in [0u32, 1, 9, 10, 99, 100, 15000000, 4294967295] {
        assert_eq!(decode_u32(&encode_u32(v)), Ok(v));
    }
}

#[test]
fn encodes_shortest_decimal() {
    assert_eq!(encode_u32(0), b"0".to_vec());
    assert_eq!(encode_u32(42), b"42".to_vec());
    assert_eq!(encode_u32(4294967295), b"4294967295".to_vec());
}

#[test]
fn decodes_trimmed_text() {
    assert_eq!(decode_u32(b" 42\n"), Ok(42));
    assert_eq!(decode_u32(b"+7"), Ok(7));
    assert_eq!(decode_u32("12\u{a0}".as_bytes()), Ok(12));
    assert_eq!(decode_u32(b"0007"), Ok(7));
}

#[test]
fn malformed_text_is_not_a_number() {
    assert_eq!(decode_u32(b"abc"), Err(DecodeError::NotANumber));
    assert_eq!(decode_u32(b"12a"), Err(DecodeError::NotANumber));
    assert_eq!(decode_u32(b""), Err(DecodeError::NotANumber));
    assert_eq!(decode_u32(b" \n"), Err(DecodeError::NotANumber));
    assert_eq!(decode_u32(b"+"), Err(DecodeError::NotANumber));
    assert_eq!(decode_u32(b"-1"), Err(DecodeError::NotANumber));
    assert_eq!(decode_u32(b"1 2"), Err(DecodeError::NotANumber));
    assert_eq!(decode_u32(b"4294967296"), Err(DecodeError::NotANumber));
}

#[test]
fn invalid_utf8_is_not_text() {
    assert_eq!(decode_u32(&[0xff, 0x31]), Err(DecodeError::NotText));
}

#[test]
fn joins_paths() {
    assert_eq!(join_path("/a/b", "c"), "/a/b/c");
}

#[test]
fn reads_slow_cap() {
    let (mut a, first) = get_slow_device_micro_watt();
    let q = located(&mut a, first, "power1_cap");
    let node = format!("{}/hwmon4/power1_cap", HWMON_PARENT);
    assert!(matches!(q, Request::Read(ref p) if *p == node));
    let r = expect_outcome(a.resume(Reply::Contents(Ok(b"15000000\n".to_vec()))));
    assert_eq!(r.unwrap(), 15000000);
}

#[test]
fn writes_fast_cap() {
    let (mut a, first) = set_fast_device_micro_watt(9000000);
    let q = located(&mut a, first, "power2_cap");
    let node = format!("{}/hwmon4/power2_cap", HWMON_PARENT);
    match q {
        Request::Write(p, bytes) => {
            assert_eq!(p, node);
            assert_eq!(bytes, b"9000000".to_vec());
        }
        other => panic!("expected a write, got {:?}", other),
    }
    let r = expect_outcome(a.resume(Reply::Written(Ok(()))));
    assert_eq!(r.unwrap(), 9000000);
}

#[test]
fn written_cap_reads_back() {
    let (mut w, first) = set_slow_device_micro_watt(12000000);
    let bytes = match located(&mut w, first, "power1_cap") {
        Request::Write(_, b) => b,
        other => panic!("expected a write, got {:?}", other),
    };
    let (mut r, first) = get_slow_device_micro_watt();
    located(&mut r, first, "power1_cap");
    let v = expect_outcome(r.resume(Reply::Contents(Ok(bytes))));
    assert_eq!(v.unwrap(), 12000000);
}

#[test]
fn empty_hwmon_directory() {
    let (mut a, _) = get_fast_device_micro_watt();
    expect_request(a.resume(Reply::Flag(true)));
    let r = expect_outcome(a.resume(Reply::Entry(None)));
    assert!(matches!(r, Err(AccessError::EmptyDirectory(ref p)) if p == HWMON_PARENT));
}

#[test]
fn hwmon_parent_not_a_directory() {
    let (mut a, _) = get_slow_device_micro_watt();
    let r = expect_outcome(a.resume(Reply::Flag(false)));
    assert!(matches!(r, Err(AccessError::NotADirectory(ref p)) if p == HWMON_PARENT));
}

#[test]
fn hwmon_listing_fails() {
    let (mut a, _) = get_slow_device_micro_watt();
    expect_request(a.resume(Reply::Flag(true)));
    let r = expect_outcome(a.resume(Reply::Entry(Some(Err("denied".to_string())))));
    assert!(matches!(r, Err(AccessError::Enumeration(ref p, ref e)) if p == HWMON_PARENT && e == "denied"));
}

#[test]
fn cap_file_missing() {
    let (mut a, _) = get_slow_device_micro_watt();
    expect_request(a.resume(Reply::Flag(true)));
    expect_request(a.resume(Reply::Entry(Some(Ok("/h".to_string())))));
    let r = expect_outcome(a.resume(Reply::Flag(false)));
    assert!(matches!(r, Err(AccessError::MissingNode(ref p)) if p == "/h/power1_cap"));
}

#[test]
fn malformed_cap_file() {
    let (mut a, first) = get_fast_device_micro_watt();
    located(&mut a, first, "power2_cap");
    let r = expect_outcome(a.resume(Reply::Contents(Ok(b"fifteen\n".to_vec()))));
    let node = format!("{}/hwmon4/power2_cap", HWMON_PARENT);
    assert!(matches!(r, Err(AccessError::NotANumber(ref p)) if *p == node));
}

#[test]
fn cap_file_unreadable() {
    let (mut a, first) = get_fast_device_micro_watt();
    located(&mut a, first, "power2_cap");
    let r = expect_outcome(a.resume(Reply::Contents(Err("io".to_string()))));
    assert!(matches!(r, Err(AccessError::ReadFailed(_, ref e)) if e == "io"));
}

#[test]
fn cap_write_fails() {
    let (mut a, first) = set_slow_device_micro_watt(1);
    located(&mut a, first, "power1_cap");
    let r = expect_outcome(a.resume(Reply::Written(Err("busy".to_string()))));
    assert!(matches!(r, Err(AccessError::WriteFailed(_, ref e)) if e == "busy"));
}

#[test]
fn reply_that_does_not_fit() {
    let (mut a, _) = get_slow_device_micro_watt();
    let r = expect_outcome(a.resume(Reply::Written(Ok(()))));
    assert!(matches!(r, Err(AccessError::UnexpectedReply)));
}

fn offer(p: &mut BacklightProbe, entry: &str) -> Step<BacklightDevice> {
    p.resume(Reply::Entry(Some(Ok(entry.to_string()))))
}

#[test]
fn finds_backlight_device() {
    let (mut p, first) = probe_backlight_device();
    assert!(matches!(first, Request::NextEntry(ref d) if d == BACKLIGHT_DIR));
    let q = expect_request(offer(&mut p, "/sys/class/backlight/acpi_video0"));
    assert!(matches!(q, Request::NextEntry(ref d) if d == BACKLIGHT_DIR));
    let q = expect_request(offer(&mut p, "/sys/class/backlight/amdgpu_bl0"));
    assert!(matches!(q, Request::Exists(ref d) if d == "/sys/class/backlight/amdgpu_bl0/brightness"));
    let q = expect_request(p.resume(Reply::Flag(true)));
    assert!(matches!(q, Request::Read(ref d) if d == "/sys/class/backlight/amdgpu_bl0/max_brightness"));
    let dev = expect_outcome(p.resume(Reply::Contents(Ok(b"255\n".to_vec())))).unwrap();
    assert_eq!(dev.path, "/sys/class/backlight/amdgpu_bl0/brightness");
    assert_eq!(dev.max_brightness, 255);
}

#[test]
fn names_that_do_not_fit_the_pattern() {
    let (mut p, _) = probe_backlight_device();
    for name in [
        "/sys/class/backlight/amdgpu_bl",
        "/sys/class/backlight/amdgpu_bl1x",
        "/sys/class/backlight/intel_backlight",
        "/x/sys/class/backlight/amdgpu_bl1",
    ] {
        let q = expect_request(offer(&mut p, name));
        assert!(matches!(q, Request::NextEntry(_)));
    }
    let r = expect_outcome(p.resume(Reply::Entry(None)));
    assert!(matches!(r, Err(AccessError::BacklightNotFound)));
}

#[test]
fn empty_backlight_directory() {
    let (mut p, _) = probe_backlight_device();
    let r = expect_outcome(p.resume(Reply::Entry(None)));
    assert!(matches!(r, Err(AccessError::BacklightNotFound)));
}

#[test]
fn backlight_without_brightness_file() {
    let (mut p, _) = probe_backlight_device();
    expect_request(offer(&mut p, "/sys/class/backlight/amdgpu_bl12"));
    let r = expect_outcome(p.resume(Reply::Flag(false)));
    assert!(matches!(r, Err(AccessError::NoBrightnessNode(ref d)) if d == "/sys/class/backlight/amdgpu_bl12"));
}

#[test]
fn malformed_max_brightness() {
    let (mut p, _) = probe_backlight_device();
    expect_request(offer(&mut p, "/sys/class/backlight/amdgpu_bl1"));
    expect_request(p.resume(Reply::Flag(true)));
    let r = expect_outcome(p.resume(Reply::Contents(Ok(b"full".to_vec()))));
    assert!(matches!(r, Err(AccessError::NotANumber(ref d)) if d == "/sys/class/backlight/amdgpu_bl1/max_brightness"));
}

#[test]
fn backlight_listing_fails() {
    let (mut p, _) = probe_backlight_device();
    let r = expect_outcome(p.resume(Reply::Entry(Some(Err("gone".to_string())))));
    assert!(matches!(r, Err(AccessError::Enumeration(ref d, _)) if d == BACKLIGHT_DIR));
}

fn device(max: u32) -> BacklightDevice {
    BacklightDevice { path: "/sys/class/backlight/amdgpu_bl0/brightness".to_string(), max_brightness: max }
}

#[test]
fn brightness_above_maximum_is_refused() {
    let r = set_brightness(&device(255), 256);
    assert!(matches!(r, Err(AccessError::AboveMaximum(256, 255))));
}

#[test]
fn brightness_at_maximum_is_written() {
    let a = set_brightness(&device(255), 255).unwrap();
    match a.request() {
        Request::Write(p, b) => {
            assert_eq!(p, "/sys/class/backlight/amdgpu_bl0/brightness");
            assert_eq!(b, b"255".to_vec());
        }
        other => panic!("expected a write, got {:?}", other),
    }
    assert_eq!(a.finish(Reply::Written(Ok(()))).unwrap(), 255);
}

#[test]
fn zero_brightness_is_written() {
    let a = set_brightness(&device(0), 0).unwrap();
    assert_eq!(a.setting, Some(0));
}

#[test]
fn reads_brightness() {
    let a: NodeAccess = get_brightness(&device(255));
    assert!(matches!(a.request(), Request::Read(ref p) if p == "/sys/class/backlight/amdgpu_bl0/brightness"));
    assert_eq!(a.finish(Reply::Contents(Ok(b"128\n".to_vec()))).unwrap(), 128);
    assert!(matches!(a.finish(Reply::Contents(Ok(vec![0xc3]))), Err(AccessError::NotText(_))));
}
