use ao::device::OpenRequest;
use ao::error::{AO_EBADFORMAT, AO_ENODRIVER, AO_EOPENDEVICE};
use ao::{Ao, ByteFormat, Device, Driver, Error, Format, Settings, SubsystemCall};

fn opened(handle: usize) -> Device {
    match Device::from_open_result(handle, 0) {
        Ok(d) => d,
        Err(e) => panic!("open failed: {:?}", e),
    }
}

#[test]
fn error_from_each_code() {
    assert_eq!(Error::from_code(1), Error::NoDriver);
    assert_eq!(Error::from_code(2), Error::NotFile);
    assert_eq!(Error::from_code(3), Error::NotLive);
    assert_eq!(Error::from_code(4), Error::BadOption);
    assert_eq!(Error::from_code(5), Error::OpenDevice);
    assert_eq!(Error::from_code(6), Error::OpenFile);
    assert_eq!(Error::from_code(7), Error::FileExists);
    assert_eq!(Error::from_code(8), Error::BadFormat);
    assert_eq!(Error::from_code(100), Error::Fail);
    assert_eq!(Error::from_code(0), Error::Unknown(0));
    assert_eq!(Error::from_code(-3), Error::Unknown(-3));
}

#[test]
fn error_code_round_trip() {
    for code in [-1, 0, 1, 2, 3, 4, 5, 6, 7, 8, 9, 99, 100, 101] {
        assert_eq!(Error::from_code(code).code(), code);
    }
    assert_eq!(Error::BadFormat.code(), AO_EBADFORMAT);
}

#[test]
fn nul_free_strings() {
    assert!(ao::cstr::is_nul_free(""));
    assert!(ao::cstr::is_nul_free("pulse"));
    assert!(ao::cstr::is_nul_free("h\u{e9}llo"));
    assert!(!ao::cstr::is_nul_free("a\0b"));
    assert!(!ao::cstr::is_nul_free("\0"));
    assert!(!ao::cstr::is_nul_free("end\0"));
}

#[test]
fn driver_by_empty_name_is_not_refused_up_front() {
    // The empty string holds no zero byte: the lookup is left to the native layer.
    assert!(ao::cstr::is_nul_free(""));
    match Driver::from_lookup(-1, AO_ENODRIVER) {
        Err(e) => assert_eq!(e, Error::NoDriver),
        Ok(_) => panic!("a negative id must not give a driver"),
    }
}

#[test]
fn driver_lookup_outcomes() {
    let d = Driver::from_lookup(3, 0).ok().unwrap();
    assert_eq!(d.driver_id(), 3);
    let d = Driver::from_lookup(0, AO_ENODRIVER).ok().unwrap();
    assert_eq!(d.driver_id(), 0);
    assert!(matches!(Driver::from_lookup(-1, AO_ENODRIVER), Err(Error::NoDriver)));
    assert!(matches!(Driver::from_lookup(i32::MIN, 42), Err(Error::Unknown(42))));
}

#[test]
fn default_format() {
    let f = Format::new();
    assert_eq!(f.bits, 16);
    assert_eq!(f.rate, 44100);
    assert_eq!(f.channels, 2);
    assert_eq!(f.byte_format, ByteFormat::Little);
    assert!(f.channel_format.is_none());
    let g = Format::default();
    assert_eq!((g.bits, g.rate, g.channels), (16, 44100, 2));
    assert_eq!(g.byte_format, ByteFormat::Little);
}

#[test]
fn byte_format_codes() {
    assert_eq!(ByteFormat::Little.code(), 1);
    assert_eq!(ByteFormat::Big.code(), 2);
    assert_eq!(ByteFormat::Native.code(), 4);
}

#[test]
fn descriptor_copies_numbers_and_has_no_matrix() {
    let f = Format {
        bits: 24,
        rate: 48000,
        channels: 6,
        byte_format: ByteFormat::Big,
        channel_format: Some("L,R,C,LFE,BL,BR".to_string()),
    };
    let d = f.to_ao_format();
    assert_eq!((d.bits, d.rate, d.channels, d.byte_format), (24, 48000, 6, 2));
    assert!(d.matrix.is_none());
    let d = Format::new().to_ao_format();
    assert_eq!((d.bits, d.rate, d.channels, d.byte_format), (16, 44100, 2, 1));
    assert!(d.matrix.is_none());
}

#[test]
fn descriptor_narrows_large_numbers() {
    let f = Format {
        bits: 3_000_000_000,
        rate: u32::MAX,
        channels: 0,
        byte_format: ByteFormat::Native,
        channel_format: None,
    };
    let d = f.to_ao_format();
    assert_eq!(d.bits, 3_000_000_000u32 as i32);
    assert_eq!(d.rate, -1);
    assert_eq!(d.channels, 0);
    assert_eq!(d.byte_format, 4);
    assert_eq!(d.bits as u32, 3_000_000_000);
}

#[test]
fn empty_settings_give_null_options() {
    let s = Settings::new();
    assert_eq!(s.len(), 0);
    assert!(s.is_empty());
    assert!(s.as_ao_option().is_none());
    assert!(Settings::default().as_ao_option().is_none());
}

#[test]
fn two_appends_give_both_pairs() {
    let mut s = Settings::new();
    s.append("key", "value");
    s.append("other", "thing");
    assert_eq!(s.len(), 2);
    assert!(!s.is_empty());
    let v = s.as_ao_option().unwrap();
    assert_eq!(v.len(), 2);
    assert_eq!(v[0], ("key".to_string(), "value".to_string()));
    assert_eq!(v[1], ("other".to_string(), "thing".to_string()));
    drop(s);
}

#[test]
fn appended_strings_are_copies() {
    let mut s = Settings::new();
    {
        let k = String::from("dev");
        let v = String::from("hw:0");
        s.append(&k, &v);
    }
    assert_eq!(s.as_ao_option().unwrap()[0], ("dev".to_string(), "hw:0".to_string()));
}

#[test]
fn open_request_without_settings() {
    let d = Driver::from_lookup(7, 0).ok().unwrap();
    let f = Format::new();
    let r: OpenRequest = Device::open_request(&d, &f, None);
    assert_eq!(r.driver_id, 7);
    assert_eq!((r.format.bits, r.format.rate, r.format.channels), (16, 44100, 2));
    assert!(r.format.matrix.is_none());
    assert!(r.options.is_none());
}

#[test]
fn open_request_with_settings() {
    let d = Driver::from_lookup(1, 0).ok().unwrap();
    let f = Format::new();
    let empty = Settings::new();
    assert!(Device::open_request(&d, &f, Some(&empty)).options.is_none());
    let mut s = Settings::new();
    s.append("buffer_time", "500");
    let r = Device::open_request(&d, &f, Some(&s));
    let v = r.options.unwrap();
    assert_eq!(v.len(), 1);
    assert_eq!(v[0], ("buffer_time".to_string(), "500".to_string()));
}

#[test]
fn failed_open_gives_error_and_no_device() {
    assert!(matches!(Device::from_open_result(0, AO_EOPENDEVICE), Err(Error::OpenDevice)));
    assert!(matches!(Device::from_open_result(0, AO_EBADFORMAT), Err(Error::BadFormat)));
}

#[test]
fn device_closes_exactly_once() {
    let mut d = opened(0x1000);
    assert_eq!(d.handle(), 0x1000);
    assert!(d.is_open());
    assert_eq!(d.release(), Some(0x1000));
    assert!(!d.is_open());
    assert_eq!(d.release(), None);
    assert_eq!(d.release(), None);
    assert_eq!(d.handle(), 0x1000);
}

#[test]
fn play_lengths() {
    let mut d = opened(0x2000);
    assert_eq!(d.play_len(&[]), Some(0));
    assert_eq!(d.play_len(&[1, -2, 3]), Some(3));
    let buf = vec![0i8; 4096];
    assert_eq!(d.play_len(&buf), Some(4096));
    d.release();
    assert_eq!(d.play_len(&[1]), None);
}

#[test]
fn subsystem_shuts_down_once() {
    let mut a = Ao::new();
    assert!(a.is_live());
    assert!(a.shutdown());
    assert!(!a.is_live());
    assert!(!a.shutdown());
}

#[test]
fn subsystem_reload_order() {
    let mut a = Ao::new();
    let calls = a.reload();
    assert_eq!(calls, vec![SubsystemCall::Shutdown, SubsystemCall::Initialize]);
    assert!(a.is_live());
    assert!(a.shutdown());
}

#[test]
fn end_to_end_lifecycle() {
    let mut ao = Ao::new();
    let driver = Driver::from_lookup(0, 0).ok().unwrap();
    assert!(driver.driver_id() >= 0);
    let format = Format::new();
    let req = Device::open_request(&driver, &format, None);
    assert_eq!(req.driver_id, 0);
    assert!(req.options.is_none());
    let mut dev = opened(0x4000);
    assert_eq!(dev.play_len(&[]), Some(0));
    assert_eq!(dev.release(), Some(0x4000));
    assert!(ao.shutdown());
    assert_eq!(dev.release(), None);
    assert!(!ao.shutdown());
}
