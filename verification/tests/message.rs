use batch_rs::{Batch, BatchRecord, RunError, SipPackage, Timestamp, WatchfolderMsg};

fn stamp(secs: i64, nanos: u32) -> Timestamp {
    Timestamp::new(secs, nanos).unwrap()
}

fn sample_batch() -> Batch {
    Batch {
        row_id: 7,
        batch_id: String::from("QAS-BD-OR-123abc-2022-01-01-00-00-00-000"),
        description: String::from("a batch"),
        cp_id: String::from("OR-123abc"),
        status: String::from("new"),
        host: String::from("ftp.example.org"),
        path: String::from("/incoming/batch-7"),
        created_at: stamp(1640995200, 0),
        last_modified_at: stamp(1640995200, 0),
    }
}

fn sample_record(filename: &str) -> BatchRecord {
    BatchRecord {
        row_id: 70,
        batch_row_id: 7,
        dc_identifier_localid: String::from("local-1"),
        dc_title: String::from("A title"),
        filename: String::from(filename),
        filesize: 1024,
        md5_hash: String::from("0cc175b9c0f1b6a831c399e269772661"),
        created_at: stamp(1640995200, 0),
        last_modified_at: stamp(1641000000, 0),
    }
}

#[test]
fn message_holds_essence_then_sidecar() {
    let now = stamp(1650000000, 0);
    let m = WatchfolderMsg::new(&sample_batch(), &sample_record("abc_123.N.005.tif"), now)
        .unwrap();
    assert_eq!(m.sip_package.len(), 2);
    assert_eq!(
        m.sip_package[0],
        SipPackage {
            file_name: String::from("abc_123.N.005.tif"),
            file_path: String::from("/incoming/batch-7"),
            file_type: String::from("essence"),
            md5: String::from("0cc175b9c0f1b6a831c399e269772661"),
            timestamp: now,
        }
    );
    assert_eq!(
        m.sip_package[1],
        SipPackage {
            file_name: String::from("abc_123.N.005.xml"),
            file_path: String::from("/incoming/batch-7"),
            file_type: String::from("sidecar"),
            md5: String::new(),
            timestamp: now,
        }
    );
}

#[test]
fn message_takes_flow_and_server_from_the_batch() {
    let now = stamp(1650000000, 0);
    let m = WatchfolderMsg::new(&sample_batch(), &sample_record("file.tif"), now).unwrap();
    assert_eq!(m.cp_name, "CP_NAME:TODO");
    assert_eq!(m.flow_id, "QAS-BD-OR-123abc-2022-01-01-00-00-00-000");
    assert_eq!(m.server, "ftp.example.org");
    assert_eq!(m.username, "");
    assert_eq!(m.password, "");
    assert_eq!(m.timestamp, now);
}

#[test]
fn essence_keeps_the_file_name_as_the_record_has_it() {
    let now = stamp(1650000000, 0);
    let m = WatchfolderMsg::new(&sample_batch(), &sample_record("/path/to/file.tif"), now)
        .unwrap();
    assert_eq!(m.sip_package[0].file_name, "/path/to/file.tif");
    assert_eq!(m.sip_package[1].file_name, "file.xml");
}

#[test]
fn record_without_file_name_has_no_message() {
    let now = stamp(1650000000, 0);
    assert_eq!(
        WatchfolderMsg::new(&sample_batch(), &sample_record(""), now),
        Err(RunError::DerivationFailure)
    );
    assert_eq!(
        WatchfolderMsg::new(&sample_batch(), &sample_record("/"), now),
        Err(RunError::DerivationFailure)
    );
}

#[test]
fn message_and_packages_carry_the_one_time() {
    let now = stamp(1650000000, 987_654_321);
    let m = WatchfolderMsg::new(&sample_batch(), &sample_record("file.tif"), now).unwrap();
    assert_eq!(m.timestamp, now);
    assert_eq!(m.sip_package[0].timestamp, now);
    assert_eq!(m.sip_package[1].timestamp, now);
    let text = m.to_json();
    assert_eq!(text.matches("\"timestamp\":\"2022-04-15T05:20:00.987654321Z\"").count(), 3);
}

fn json_text(s: &str) -> String {
    let mut text = String::from("\"");
    for c in s.chars() {
        match c {
            '"' => text.push_str("\\\""),
            '\\' => text.push_str("\\\\"),
            '\u{8}' => text.push_str("\\b"),
            '\t' => text.push_str("\\t"),
            '\n' => text.push_str("\\n"),
            '\u{c}' => text.push_str("\\f"),
            '\r' => text.push_str("\\r"),
            c if (c as u32) < 0x20 => text.push_str(&format!("\\u{:04x}", c as u32)),
            c => text.push(c),
        }
    }
    text.push('"');
    text
}

fn package_with_md5(md5: &str) -> SipPackage {
    SipPackage {
        file_name: String::new(),
        file_path: String::new(),
        file_type: String::new(),
        md5: String::from(md5),
        timestamp: stamp(0, 0),
    }
}

#[test]
fn every_character_is_written_as_json_writes_it() {
    let mut block = String::new();
    let mut blocks = 0;
    for code in 0..=0x10ffff_u32 {
        if let Some(c) = char::from_u32(code) {
            block.push(c);
        }
        if block.len() >= 8192 || code == 0x10ffff {
            let expected = format!(
                "{{\"file_name\":\"\",\"file_path\":\"\",\"file_type\":\"\",\"md5\":{},\"timestamp\":\"1970-01-01T00:00:00Z\"}}",
                json_text(&block)
            );
            assert_eq!(package_with_md5(&block).to_json(), expected);
            block.clear();
            blocks += 1;
        }
    }
    assert!(blocks > 100);
}

#[test]
fn control_characters_and_quotes_get_their_escapes() {
    let text = package_with_md5("a\"b\\c\u{0}\u{8}\t\n\u{b}\u{c}\r\u{1f} \u{7f}é").to_json();
    assert!(text.contains(
        "\"md5\":\"a\\\"b\\\\c\\u0000\\b\\t\\n\\u000b\\f\\r\\u001f \u{7f}é\""
    ));
}

#[test]
fn json_has_the_fields_in_order() {
    let now = stamp(1640995200, 0);
    let m = WatchfolderMsg::new(&sample_batch(), &sample_record("file.tif"), now).unwrap();
    let expected = String::from("{\"cp_name\":\"CP_NAME:TODO\",")
        + "\"flow_id\":\"QAS-BD-OR-123abc-2022-01-01-00-00-00-000\","
        + "\"server\":\"ftp.example.org\",\"username\":\"\",\"password\":\"\","
        + "\"timestamp\":\"2022-01-01T00:00:00Z\",\"sip_package\":["
        + "{\"file_name\":\"file.tif\",\"file_path\":\"/incoming/batch-7\","
        + "\"file_type\":\"essence\",\"md5\":\"0cc175b9c0f1b6a831c399e269772661\","
        + "\"timestamp\":\"2022-01-01T00:00:00Z\"},"
        + "{\"file_name\":\"file.xml\",\"file_path\":\"/incoming/batch-7\","
        + "\"file_type\":\"sidecar\",\"md5\":\"\","
        + "\"timestamp\":\"2022-01-01T00:00:00Z\"}]}";
    assert_eq!(m.to_json(), expected);
}

#[test]
fn json_of_a_package() {
    let p = SipPackage {
        file_name: String::from("a.xml"),
        file_path: String::from("/p"),
        file_type: String::from("sidecar"),
        md5: String::new(),
        timestamp: stamp(1640995200, 250_000_000),
    };
    assert_eq!(
        p.to_json(),
        "{\"file_name\":\"a.xml\",\"file_path\":\"/p\",\"file_type\":\"sidecar\",\"md5\":\"\",\"timestamp\":\"2022-01-01T00:00:00.250Z\"}"
    );
}

#[test]
fn json_escapes_what_json_must() {
    let mut batch = sample_batch();
    batch.path = String::from("C:\\in\\batch \"7\"");
    batch.host = String::from("line\nbreak\ttab\u{1}");
    let now = stamp(1640995200, 0);
    let m = WatchfolderMsg::new(&batch, &sample_record("dir/fi\"le.tif"), now).unwrap();
    let text = m.to_json();
    assert!(text.contains("\"server\":\"line\\nbreak\\ttab\\u0001\""));
    assert!(text.contains("\"file_path\":\"C:\\\\in\\\\batch \\\"7\\\"\""));
    assert!(text.contains("\"file_name\":\"dir/fi\\\"le.tif\""));
    assert!(text.contains("\"file_name\":\"fi\\\"le.xml\""));
    let value: serde_json::Value = serde_json::from_str(&text).unwrap();
    assert_eq!(value["server"].as_str(), Some("line\nbreak\ttab\u{1}"));
    assert_eq!(value["sip_package"][0]["file_path"].as_str(), Some("C:\\in\\batch \"7\""));
    assert_eq!(value["sip_package"][1]["file_name"].as_str(), Some("fi\"le.xml"));
}

#[test]
fn json_is_read_back_by_serde() {
    let now = stamp(1650000000, 5_000);
    let m = WatchfolderMsg::new(&sample_batch(), &sample_record("été.tif"), now).unwrap();
    let value: serde_json::Value = serde_json::from_str(&m.to_json()).unwrap();
    let keys: Vec<&str> = value.as_object().unwrap().keys().map(|k| k.as_str()).collect();
    let mut expected = vec![
        "cp_name", "flow_id", "server", "username", "password", "timestamp", "sip_package",
    ];
    expected.sort();
    assert_eq!(keys, expected);
    assert_eq!(value["cp_name"].as_str(), Some("CP_NAME:TODO"));
    assert_eq!(value["flow_id"].as_str(), Some("QAS-BD-OR-123abc-2022-01-01-00-00-00-000"));
    assert_eq!(value["timestamp"].as_str(), Some("2022-04-15T05:20:00.000005Z"));
    let packages = value["sip_package"].as_array().unwrap();
    assert_eq!(packages.len(), 2);
    assert_eq!(packages[0]["file_type"].as_str(), Some("essence"));
    assert_eq!(packages[0]["file_name"].as_str(), Some("été.tif"));
    assert_eq!(packages[0]["md5"].as_str(), Some("0cc175b9c0f1b6a831c399e269772661"));
    assert_eq!(packages[1]["file_type"].as_str(), Some("sidecar"));
    assert_eq!(packages[1]["file_name"].as_str(), Some("été.xml"));
    assert_eq!(packages[1]["md5"].as_str(), Some(""));
    assert_eq!(packages[1]["timestamp"].as_str(), Some("2022-04-15T05:20:00.000005Z"));
}

#[test]
fn assembling_twice_at_one_instant_gives_the_same_bytes() {
    let now = stamp(1650000000, 123);
    let first = WatchfolderMsg::new(&sample_batch(), &sample_record("file.tif"), now).unwrap();
    let second = WatchfolderMsg::new(&sample_batch(), &sample_record("file.tif"), now).unwrap();
    assert_eq!(first, second);
    assert_eq!(first.to_json().into_bytes(), second.to_json().into_bytes());
}

#[test]
fn assembling_at_two_instants_differs_in_the_times_only() {
    let earlier = stamp(1650000000, 0);
    let later = stamp(1650000001, 0);
    let first = WatchfolderMsg::new(&sample_batch(), &sample_record("file.tif"), earlier)
        .unwrap();
    let mut second = WatchfolderMsg::new(&sample_batch(), &sample_record("file.tif"), later)
        .unwrap();
    assert_ne!(first.to_json(), second.to_json());
    assert_eq!(
        first.to_json().replace("2022-04-15T05:20:00Z", "2022-04-15T05:20:01Z"),
        second.to_json()
    );
    second.timestamp = earlier;
    second.sip_package[0].timestamp = earlier;
    second.sip_package[1].timestamp = earlier;
    assert_eq!(first, second);
}

#[test]
fn flow_is_the_batch_identifier_whatever_the_content_partner() {
    let now = stamp(1650000000, 0);
    let mut batch = sample_batch();
    batch.cp_id = String::from("another partner");
    let m = WatchfolderMsg::new(&batch, &sample_record("file.tif"), now).unwrap();
    assert_eq!(m.flow_id, batch.batch_id);
    assert_eq!(m, WatchfolderMsg::new(&sample_batch(), &sample_record("file.tif"), now).unwrap());
    batch.batch_id = String::from("B-2");
    let m = WatchfolderMsg::new(&batch, &sample_record("file.tif"), now).unwrap();
    assert_eq!(m.flow_id, "B-2");
    assert!(m.to_json().contains("\"flow_id\":\"B-2\""));
}
