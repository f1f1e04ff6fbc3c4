use mcumgr_toolkit::datetime::{parse_datetime, DateTime};
use mcumgr_toolkit::fs::FileChecksumData;
use mcumgr_toolkit::smp_errors::MCUmgrErr;
use mcumgr_toolkit::MCUmgrGroup;

#[test]
fn datetime_format_with_millis() {
    let dt = DateTime {
        year: 2025,
        month: 11,
        day: 20,
        hour: 12,
        minute: 3,
        second: 56,
        nanosecond: 642133000,
    };
    assert_eq!(dt.format_zephyr(), "2025-11-20T12:03:56.642");
}

#[test]
fn datetime_format_without_millis() {
    let dt = DateTime {
        year: 2025,
        month: 11,
        day: 20,
        hour: 12,
        minute: 3,
        second: 56,
        nanosecond: 0,
    };
    assert_eq!(dt.format_zephyr(), "2025-11-20T12:03:56");
}

#[test]
fn datetime_parse_with_timezone() {
    let dt = parse_datetime("2025-11-20T11:56:05.366345+01:00").unwrap();
    assert_eq!(
        (dt.year, dt.month, dt.day, dt.hour, dt.minute, dt.second),
        (2025, 11, 20, 11, 56, 5)
    );
    assert_eq!(dt.nanosecond, 366345000);
}

#[test]
fn datetime_parse_timezone_forms() {
    assert!(parse_datetime("2025-11-20T11:56:05Z").is_some());
    assert!(parse_datetime("2025-11-20T11:56:05z").is_some());
    assert!(parse_datetime("2025-11-20T11:56:05+0100").is_some());
    assert!(parse_datetime("2025-11-20T11:56:05-05:30").is_some());
    assert!(parse_datetime("2025-11-20T11:56:05.5+01:00").is_some());
    // the suffix must be a complete time zone and end the text
    assert!(parse_datetime("2025-11-20T11:56:05+garbage").is_none());
    assert!(parse_datetime("2025-11-20T11:56:05+01:00x").is_none());
    assert!(parse_datetime("2025-11-20T11:56:05Zx").is_none());
    assert!(parse_datetime("2025-11-20T11:56:05+25:00").is_none());
    assert!(parse_datetime("2025-11-20T11:56:05+01:60").is_none());
    assert!(parse_datetime("2025-11-20T11:56:05.+01:00").is_none());
}

#[test]
fn datetime_parse_plain() {
    let dt = parse_datetime("2025-11-20T11:56:05").unwrap();
    assert_eq!(dt.nanosecond, 0);
    assert!(parse_datetime("2025-13-20T11:56:05").is_none());
    assert!(parse_datetime("garbage").is_none());
}

#[test]
fn datetime_roundtrip_millis() {
    let dt = DateTime {
        year: 2024,
        month: 2,
        day: 29,
        hour: 23,
        minute: 59,
        second: 59,
        nanosecond: 125000000,
    };
    let text = dt.format_zephyr();
    assert_eq!(parse_datetime(&text).unwrap(), dt);
}

#[test]
fn checksum_hex_rendering() {
    assert_eq!(
        FileChecksumData::Hash(vec![0xde, 0xad, 0xbe, 0xef]).hex(),
        "deadbeef"
    );
    // the integer form is exactly eight digits, zero padded
    assert_eq!(FileChecksumData::Checksum(0x1234).hex(), "00001234");
    assert_eq!(FileChecksumData::Checksum(100000).hex(), "000186a0");
}

#[test]
fn error_code_strings() {
    assert_eq!(MCUmgrErr::err_to_string(0), "MGMT_ERR_EOK");
    assert_eq!(MCUmgrErr::err_to_string(8), "MGMT_ERR_ENOTSUP");
    assert_eq!(MCUmgrErr::err_to_string(258), "MGMT_ERR_EPERUSER(258)");
    assert_eq!(MCUmgrErr::err_to_string(100), "MGMT_ERR_UNKNOWN(100)");
}

#[test]
fn group_id_strings() {
    assert_eq!(MCUmgrGroup::group_id_to_string(0), "MGMT_GROUP_ID_OS");
    assert_eq!(MCUmgrGroup::group_id_to_string(63), "ZEPHYR_MGMT_GRP_BASIC");
    assert_eq!(
        MCUmgrGroup::group_id_to_string(70),
        "MGMT_GROUP_ID_PERUSER(70)"
    );
    assert_eq!(
        MCUmgrGroup::group_id_to_string(11),
        "MGMT_GROUP_ID_UNKNOWN(11)"
    );
}

#[test]
fn v2_error_strings() {
    let s = mcumgr_toolkit::smp_errors::v2_err_to_string(8, 3).unwrap();
    assert_eq!(s, "FS_MGMT_ERR_FILE_NOT_FOUND");
    assert!(mcumgr_toolkit::smp_errors::v2_err_to_string(40, 1).is_none());
}

#[test]
fn application_info_flags_accumulate() {
    let flags = mcumgr_toolkit::os::ApplicationInfoFlags {
        kernel_name: true,
        node_name: false,
        kernel_release: true,
        kernel_version: false,
        build_time: false,
        machine: false,
        processor: false,
        hardware_platform: false,
        operating_system: false,
        all: true,
    };
    let chars = flags.accumulate();
    assert_eq!(chars, vec!['s', 'r', 'a']);
}
