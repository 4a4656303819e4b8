use libraw_rs::Error;

#[test]
fn test_from_raw_success() {
    assert!(Error::check(0, String::new()).is_ok());
}

#[test]
fn test_maps_unsupported_format() {
    let err = Error::from_raw(-2, String::new());
    assert!(matches!(err, Error::UnsupportedFormat));
}

#[test]
fn test_maps_out_of_memory() {
    let err = Error::from_raw(-100007, String::new());
    assert!(matches!(err, Error::OutOfMemory));
}

#[test]
fn test_maps_data_error() {
    let err = Error::from_raw(-100008, String::new());
    assert!(matches!(err, Error::DataError));
}

#[test]
fn test_maps_cancelled() {
    let err = Error::from_raw(-100010, String::new());
    assert!(matches!(err, Error::Cancelled));
}

#[test]
fn test_unknown_error_code() {
    let err = Error::from_raw(-999999, String::new());
    assert!(matches!(err, Error::Unknown { .. }));
}

#[test]
fn test_display_contains_message() {
    let err = Error::BadParams("test".into());
    let s = err.message();
    assert!(s.contains("test"));
}

#[test]
fn test_from_io_error() {
    let io_err = std::io::Error::new(std::io::ErrorKind::NotFound, "no file");
    let err: Error = io_err.into();
    assert!(matches!(err, Error::Io(_)));
}

#[test]
fn io_error_keeps_its_text() {
    let io_err = std::io::Error::new(std::io::ErrorKind::NotFound, "no file");
    let err: Error = io_err.into();
    assert_eq!(err.message(), "I/O error: no file");
}

#[test]
fn every_libraw_code_maps_to_its_variant() {
    let m = || String::from("msg");
    assert!(matches!(Error::from_raw(-1, m()), Error::UnsupportedFeature(s) if s == "msg"));
    assert!(matches!(Error::from_raw(-3, m()), Error::UnsupportedFeature(s) if s == "msg"));
    assert!(matches!(Error::from_raw(-9, m()), Error::UnsupportedFeature(s) if s == "msg"));
    assert!(matches!(Error::from_raw(-4, m()), Error::OutOfOrderCall));
    assert!(matches!(Error::from_raw(-5, m()), Error::NoThumbnail));
    assert!(matches!(Error::from_raw(-6, m()), Error::UnsupportedThumbnail));
    assert!(matches!(Error::from_raw(-7, m()), Error::InputClosed));
    assert!(matches!(Error::from_raw(-8, m()), Error::NotImplemented));
    assert!(matches!(Error::from_raw(-100009, m()), Error::Io(s) if s == "msg"));
    assert!(matches!(Error::from_raw(-100011, m()), Error::BadCrop));
    assert!(matches!(Error::from_raw(-100012, m()), Error::TooBig));
    assert!(matches!(Error::from_raw(-100013, m()), Error::MempoolOverflow));
    assert!(matches!(Error::from_raw(7, m()), Error::Unknown { code: 7, msg } if msg == "msg"));
}

#[test]
fn check_fails_exactly_on_nonzero_codes() {
    assert!(matches!(Error::check(-2, String::new()), Err(Error::UnsupportedFormat)));
    assert!(matches!(Error::check(1, String::from("x")), Err(Error::Unknown { code: 1, .. })));
}

#[test]
fn messages_match_the_display_texts() {
    assert_eq!(Error::OutOfMemory.message(), "Out of memory");
    assert_eq!(Error::Io("disk".into()).message(), "I/O error: disk");
    assert_eq!(
        Error::OutOfOrderCall.message(),
        "Out of order call — check processing pipeline order"
    );
    assert_eq!(Error::MempoolOverflow.message(), "Memory pool overflow");
    assert_eq!(
        Error::Unknown { code: -999999, msg: "weird".into() }.message(),
        "LibRaw error -999999: weird"
    );
    assert_eq!(
        Error::Unknown { code: 0, msg: String::new() }.message(),
        "LibRaw error 0: "
    );
    assert_eq!(
        Error::Unknown { code: i32::MIN, msg: "m".into() }.message(),
        "LibRaw error -2147483648: m"
    );
    assert_eq!(
        Error::Unknown { code: i32::MAX, msg: "m".into() }.message(),
        "LibRaw error 2147483647: m"
    );
}

#[test]
fn nul_in_path_is_bad_params() {
    let e = Error::nul_in_path();
    assert!(matches!(&e, Error::BadParams(s) if s == "path contains null byte"));
    assert_eq!(e.message(), "Bad parameters: path contains null byte");
}
