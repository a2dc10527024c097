use tauridock::envelope::Failure;
use tauridock::info::{format_memory, parse_info, InfoFields, SystemInfo};

fn no_fields() -> InfoFields {
    InfoFields {
        server_version: None,
        api_version: None,
        operating_system: None,
        architecture: None,
        mem_total: None,
        ncpu: None,
        containers_running: None,
        containers: None,
        images: None,
    }
}

fn defaults() -> SystemInfo {
    SystemInfo {
        version: "Unknown".to_string(),
        api_version: "Unknown".to_string(),
        os: "Unknown".to_string(),
        architecture: "Unknown".to_string(),
        memory: "0.00 GB".to_string(),
        cpus: 0,
        containers_running: 0,
        containers_total: 0,
        images: 0,
    }
}

fn as_double_prints(bytes: u64) -> String {
    format!("{:.2} GB", bytes as f64 / 1024.0 / 1024.0 / 1024.0)
}

#[test]
fn missing_fields_get_their_defaults() {
    assert_eq!(SystemInfo::from_fields(no_fields()), defaults());
    assert_eq!(InfoFields::default(), no_fields());
}

#[test]
fn whole_units_end_in_two_zeros() {
    for units in [0u64, 1, 2, 9, 10, 64, 1024, 17179869183] {
        assert_eq!(format_memory(units * 1_073_741_824), format!("{}.00 GB", units));
    }
}

#[test]
fn fields_that_are_there_are_kept() {
    let fields = InfoFields {
        server_version: Some("24.0.7".to_string()),
        api_version: Some("1.43".to_string()),
        operating_system: Some("Ubuntu 22.04".to_string()),
        architecture: Some("x86_64".to_string()),
        mem_total: Some(16_000_000_000),
        ncpu: Some(8),
        containers_running: Some(2),
        containers: Some(5),
        images: Some(12),
    };
    let info = SystemInfo::from_fields(fields);
    assert_eq!(
        info,
        SystemInfo {
            version: "24.0.7".to_string(),
            api_version: "1.43".to_string(),
            os: "Ubuntu 22.04".to_string(),
            architecture: "x86_64".to_string(),
            memory: "14.90 GB".to_string(),
            cpus: 8,
            containers_running: 2,
            containers_total: 5,
            images: 12,
        }
    );
}

#[test]
fn each_field_is_defaulted_on_its_own() {
    let mut fields = no_fields();
    fields.architecture = Some("aarch64".to_string());
    fields.images = Some(3);
    let info = SystemInfo::from_fields(fields);
    let mut expected = defaults();
    expected.architecture = "aarch64".to_string();
    expected.images = 3;
    assert_eq!(info, expected);
}

#[test]
fn memory_is_stated_to_two_places() {
    assert_eq!(format_memory(0), "0.00 GB");
    assert_eq!(format_memory(1), "0.00 GB");
    assert_eq!(format_memory(1_073_741_824), "1.00 GB");
    assert_eq!(format_memory(1_610_612_736), "1.50 GB");
    assert_eq!(format_memory(8_589_934_592), "8.00 GB");
    assert_eq!(format_memory(16_000_000_000), "14.90 GB");
    assert_eq!(format_memory(5_368_709), "0.00 GB");
    assert_eq!(format_memory(5_368_710), "0.01 GB");
    assert_eq!(format_memory(1_073_741_823), "1.00 GB");
    assert_eq!(format_memory(u64::MAX), "17179869184.00 GB");
}

#[test]
fn memory_halfway_goes_to_the_even_place() {
    // 2^27 bytes are 0.125 GB, 3 * 2^27 are 0.375 GB
    assert_eq!(format_memory(134_217_728), "0.12 GB");
    assert_eq!(format_memory(402_653_184), "0.38 GB");
    assert_eq!(format_memory(134_217_729), "0.13 GB");
    assert_eq!(format_memory(134_217_727), "0.12 GB");
    let mut k: u64 = 1;
    while k < 4000 {
        let bytes = k * 134_217_728;
        assert_eq!(format_memory(bytes), as_double_prints(bytes), "{}", bytes);
        k += 2;
    }
}

#[test]
fn memory_agrees_with_a_double_printed_to_two_places() {
    let mut x: u64 = 0x9E37_79B9_7F4A_7C15;
    for _ in 0..200_000 {
        x ^= x << 13;
        x ^= x >> 7;
        x ^= x << 17;
        let shift = (x >> 58) % 54;
        let bytes = (x & ((1u64 << 53) - 1)) >> shift;
        assert_eq!(format_memory(bytes), as_double_prints(bytes), "{}", bytes);
    }
    let mut h: u64 = 0;
    while h < 3000 {
        // the counts on both sides of the place where the second decimal changes
        let edge = ((2 * h + 1) * 1_073_741_824) / 200;
        for bytes in [edge.saturating_sub(1), edge, edge + 1] {
            assert_eq!(format_memory(bytes), as_double_prints(bytes), "{}", bytes);
        }
        h += 1;
    }
}

#[test]
fn empty_object_gives_all_defaults() {
    assert_eq!(parse_info("{}"), Ok(defaults()));
    assert_eq!(parse_info(" { \"Other\": 1, \"Name\": \"host\" } "), Ok(defaults()));
}

#[test]
fn values_that_are_no_objects_give_all_defaults() {
    assert_eq!(parse_info("[]"), Ok(defaults()));
    assert_eq!(parse_info("null"), Ok(defaults()));
    assert_eq!(parse_info("42"), Ok(defaults()));
    assert_eq!(parse_info("\"ServerVersion\""), Ok(defaults()));
}

#[test]
fn text_that_is_not_json_is_malformed() {
    assert_eq!(parse_info("not json at all"), Err(Failure::MalformedInfo));
    assert_eq!(parse_info(""), Err(Failure::MalformedInfo));
    assert_eq!(parse_info("{"), Err(Failure::MalformedInfo));
    assert_eq!(parse_info("{} trailing"), Err(Failure::MalformedInfo));
    assert_eq!(parse_info("{\"ServerVersion\": }"), Err(Failure::MalformedInfo));
}

#[test]
fn full_report_is_read() {
    let text = r#"{
        "ID": "abc",
        "Containers": 7,
        "ContainersRunning": 3,
        "ContainersPaused": 0,
        "Images": 21,
        "NCPU": 12,
        "MemTotal": 33554432000,
        "OperatingSystem": "Docker Desktop",
        "Architecture": "aarch64",
        "ServerVersion": "25.0.3",
        "APIVersion": "1.44"
    }"#;
    assert_eq!(
        parse_info(text),
        Ok(SystemInfo {
            version: "25.0.3".to_string(),
            api_version: "1.44".to_string(),
            os: "Docker Desktop".to_string(),
            architecture: "aarch64".to_string(),
            memory: "31.25 GB".to_string(),
            cpus: 12,
            containers_running: 3,
            containers_total: 7,
            images: 21,
        })
    );
}

#[test]
fn members_of_another_kind_get_the_default() {
    let text = r#"{
        "ServerVersion": 25,
        "APIVersion": null,
        "OperatingSystem": ["linux"],
        "Architecture": {"name": "x86_64"},
        "MemTotal": "8589934592",
        "NCPU": -4,
        "ContainersRunning": 1.5,
        "Containers": true,
        "Images": 18446744073709551616
    }"#;
    assert_eq!(parse_info(text), Ok(defaults()));
}

#[test]
fn keys_are_matched_exactly() {
    let text = r#"{"serverversion": "1", "ncpu": 4, "ServerVersion ": "2", "MemTotal": 1073741824}"#;
    let mut expected = defaults();
    expected.memory = "1.00 GB".to_string();
    assert_eq!(parse_info(text), Ok(expected));
}

#[test]
fn strings_are_unescaped_by_the_parser() {
    let text = r#"{"OperatingSystem": "AB\n\"C\"", "NCPU": 18446744073709551615}"#;
    let info = parse_info(text).unwrap();
    assert_eq!(info.os, "AB\n\"C\"");
    assert_eq!(info.cpus, u64::MAX);
}
