use vsp_router::config::{parse_physical, parse_route, parse_virtual};
use vsp_router::error::Error;
use vsp_router::text::parse_u32;

#[test]
fn virtual_id_defaults_to_file_name() {
    match parse_virtual("path/to/file") {
        Ok(v) => {
            assert_eq!(v.id, "file");
            assert_eq!(v.path, "path/to/file");
        }
        Err(_) => panic!("expected a parsed virtual port"),
    }
}

#[test]
fn virtual_with_explicit_id() {
    match parse_virtual("0:dev/ttyUSB0") {
        Ok(v) => {
            assert_eq!(v.id, "0");
            assert_eq!(v.path, "dev/ttyUSB0");
        }
        Err(_) => panic!("expected a parsed virtual port"),
    }
}

#[test]
fn virtual_splits_at_first_colon() {
    match parse_virtual("a:b:c") {
        Ok(v) => {
            assert_eq!(v.id, "a");
            assert_eq!(v.path, "b:c");
        }
        Err(_) => panic!("expected a parsed virtual port"),
    }
}

#[test]
fn virtual_path_without_file_name_is_rejected() {
    match parse_virtual("..") {
        Err(Error::InvalidPath { input }) => assert_eq!(input, ".."),
        _ => panic!("expected an invalid-path error"),
    }
}

#[test]
fn physical_baud_rate_defaults() {
    match parse_physical("/dev/ttyUSB0") {
        Ok(p) => {
            assert_eq!(p.id, "ttyUSB0");
            assert_eq!(p.path, "/dev/ttyUSB0");
            assert_eq!(p.baud_rate, 9600);
        }
        Err(_) => panic!("expected a parsed physical port"),
    }
}

#[test]
fn physical_with_id_and_baud_rate() {
    match parse_physical("1:/dev/ttyUSB0,115200") {
        Ok(p) => {
            assert_eq!(p.id, "1");
            assert_eq!(p.path, "/dev/ttyUSB0");
            assert_eq!(p.baud_rate, 115200);
        }
        Err(_) => panic!("expected a parsed physical port"),
    }
}

#[test]
fn physical_bad_baud_rate_is_rejected() {
    match parse_physical("1:/dev/ttyUSB0,fast") {
        Err(Error::InvalidBaudRate { input }) => assert_eq!(input, "fast"),
        _ => panic!("expected an invalid-baud-rate error"),
    }
}

#[test]
fn physical_overflowing_baud_rate_is_rejected() {
    match parse_physical("1:/dev/ttyUSB0,4294967296") {
        Err(Error::InvalidBaudRate { input }) => assert_eq!(input, "4294967296"),
        _ => panic!("expected an invalid-baud-rate error"),
    }
}

#[test]
fn route_parses_source_and_destination() {
    match parse_route("0:1") {
        Ok(r) => {
            assert_eq!(r.src, "0");
            assert_eq!(r.dst, "1");
        }
        Err(_) => panic!("expected a parsed route"),
    }
}

#[test]
fn route_without_separator_is_rejected() {
    match parse_route("01") {
        Err(Error::InvalidRoute { input }) => assert_eq!(input, "01"),
        _ => panic!("expected an invalid-route error"),
    }
}

#[test]
fn u32_numerals() {
    assert_eq!(parse_u32("0"), Some(0));
    assert_eq!(parse_u32("115200"), Some(115200));
    assert_eq!(parse_u32("+115200"), Some(115200));
    assert_eq!(parse_u32("4294967295"), Some(u32::MAX));
    assert_eq!(parse_u32("4294967296"), None);
    assert_eq!(parse_u32(""), None);
    assert_eq!(parse_u32("+"), None);
    assert_eq!(parse_u32("96o0"), None);
    assert_eq!(parse_u32("-1"), None);
}
