use rust_masscan::{decode_output, decode_records, encode_info, Info, Json, Masscan, Ports,
    ScanError, Service};

fn base_config() -> Masscan {
    Masscan::default()
        .set_system_path("/usr/local/bin/masscan".to_string())
        .set_ports("22,8080-8100".to_string())
        .set_ranges("10.0.0.0/24".to_string())
        .set_rate("10000".to_string())
}

#[test]
fn assembly_is_stable() {
    let mas = base_config().set_other_args(vec!["--banners".to_string()]);
    let first = mas.assemble_args();
    let second = mas.assemble_args();
    assert_eq!(first, second);
}

#[test]
fn assembly_fixed_order() {
    let mas = base_config();
    let args = mas.assemble_args();
    let expected: Vec<String> = vec![
        "-p".to_string(),
        "22,8080-8100".to_string(),
        "--range".to_string(),
        "10.0.0.0/24".to_string(),
        "--rate".to_string(),
        "10000".to_string(),
        "--wait".to_string(),
        "0".to_string(),
        "-oJ".to_string(),
        "-".to_string(),
    ];
    assert_eq!(args, expected);
}

#[test]
fn empty_exclude_omits_flag() {
    let args = base_config().assemble_args();
    assert!(!args.iter().any(|a| a == "--exclude"));
}

#[test]
fn nonempty_exclude_emits_flag_and_value() {
    let mas = base_config().set_exclude("192.168.0.1".to_string());
    let args = mas.assemble_args();
    assert_eq!(args[6], "--exclude");
    assert_eq!(args[7], "192.168.0.1");
    assert_eq!(args.len(), 12);
}

#[test]
fn extra_args_kept_in_order() {
    let extra = vec!["--banners".to_string(), "--retries".to_string(), "3".to_string()];
    let mas = base_config().set_other_args(extra.clone());
    let args = mas.assemble_args();
    assert_eq!(&args[4..7], &extra[..]);
}

#[test]
fn setters_update_their_field() {
    let mas = Masscan::default()
        .set_system_path("/bin/scanner".to_string())
        .set_ports("80".to_string())
        .set_ranges("1.2.3.4".to_string())
        .set_rate("100".to_string())
        .set_exclude("5.6.7.8".to_string())
        .set_other_args(vec!["-v".to_string()])
        .set_sudo();
    assert_eq!(mas.system_path, "/bin/scanner");
    assert_eq!(mas.ports, "80");
    assert_eq!(mas.ranges, "1.2.3.4");
    assert_eq!(mas.rate, "100");
    assert_eq!(mas.exclude, "5.6.7.8");
    assert_eq!(mas.args, vec!["-v".to_string()]);
    assert!(mas.sudo);
}

#[test]
fn default_is_all_empty() {
    let mas = Masscan::default();
    assert!(!mas.sudo);
    assert_eq!(mas.system_path, "");
    assert_eq!(mas.ports, "");
    assert_eq!(mas.ranges, "");
    assert_eq!(mas.rate, "");
    assert_eq!(mas.exclude, "");
    assert!(mas.args.is_empty());
}

#[test]
fn empty_array_decodes_to_no_records() {
    let result = decode_output(b"[]".to_vec());
    assert_eq!(result, Ok(Vec::new()));
}

#[test]
fn non_array_json_decodes_to_no_records() {
    assert_eq!(decode_output(b"{}".to_vec()), Ok(Vec::new()));
    assert_eq!(decode_output(b"null".to_vec()), Ok(Vec::new()));
}

#[test]
fn one_record_decodes_exactly() {
    let text = br#"[{"ip":"10.0.0.1","ports":[{"port":22,"proto":"tcp","status":"open"}]}]"#;
    let result = decode_output(text.to_vec()).unwrap();
    let expected = vec![Info {
        ip: Some("10.0.0.1".to_string()),
        timestamp: None,
        ports: Some(vec![Ports {
            port: Some(22),
            proto: Some("tcp".to_string()),
            status: Some("open".to_string()),
            reason: None,
            service: None,
            ttl: None,
        }]),
    }];
    assert_eq!(result, expected);
}

#[test]
fn invalid_json_is_a_parse_error() {
    assert_eq!(decode_output(b"not json".to_vec()), Err(ScanError::OutputParseError));
}

#[test]
fn invalid_text_is_an_encoding_error() {
    assert_eq!(decode_output(vec![0xff, 0xfe, 0x20]), Err(ScanError::EncodingError));
}

#[test]
fn malformed_element_fails_the_call() {
    assert_eq!(decode_output(b"[5]".to_vec()), Err(ScanError::OutputParseError));
    assert_eq!(decode_output(br#"[{"ip":5}]"#.to_vec()), Err(ScanError::OutputParseError));
    assert_eq!(
        decode_output(br#"[{"ports":[{"port":"22"}]}]"#.to_vec()),
        Err(ScanError::OutputParseError)
    );
}

#[test]
fn port_must_fit_unsigned_32_bits() {
    assert_eq!(
        decode_output(br#"[{"ports":[{"port":4294967296}]}]"#.to_vec()),
        Err(ScanError::OutputParseError)
    );
    assert_eq!(
        decode_output(br#"[{"ports":[{"port":22.5}]}]"#.to_vec()),
        Err(ScanError::OutputParseError)
    );
    let ok = decode_output(br#"[{"ports":[{"port":4294967295}]}]"#.to_vec()).unwrap();
    assert_eq!(ok[0].ports.as_ref().unwrap()[0].port, Some(u32::MAX));
}

#[test]
fn null_fields_decode_as_absent() {
    let result = decode_output(br#"[{"ip":null,"timestamp":null,"ports":null}]"#.to_vec()).unwrap();
    assert_eq!(result, vec![Info { ip: None, timestamp: None, ports: None }]);
}

#[test]
fn unknown_fields_are_ignored() {
    let result =
        decode_output(br#"[{"ip":"a","extra":[1,2],"other":{"x":true}}]"#.to_vec()).unwrap();
    assert_eq!(result, vec![Info { ip: Some("a".to_string()), timestamp: None, ports: None }]);
}

#[test]
fn nested_service_decodes() {
    let text = br#"[{"ports":[{"service":{"name":"ssh","banner":"OpenSSH"},"ttl":64}]}]"#;
    let result = decode_output(text.to_vec()).unwrap();
    let port = &result[0].ports.as_ref().unwrap()[0];
    assert_eq!(
        port.service,
        Some(Service { name: Some("ssh".to_string()), banner: Some("OpenSSH".to_string()) })
    );
    assert_eq!(port.ttl, Some(64));
}

#[test]
fn round_trip_full_record() {
    let record = Info {
        ip: Some("10.0.0.1".to_string()),
        timestamp: Some("1700000000".to_string()),
        ports: Some(vec![Ports {
            port: Some(22),
            proto: Some("tcp".to_string()),
            status: Some("open".to_string()),
            reason: Some("syn-ack".to_string()),
            service: Some(Service {
                name: Some("ssh".to_string()),
                banner: Some("OpenSSH_8.9".to_string()),
            }),
            ttl: Some(53),
        }]),
    };
    let encoded = Json::Arr(vec![encode_info(&record)]);
    assert_eq!(decode_records(&encoded), Ok(vec![record]));
}

#[test]
fn round_trip_sparse_record() {
    let record = Info { ip: None, timestamp: None, ports: None };
    let encoded = Json::Arr(vec![encode_info(&record)]);
    assert_eq!(decode_records(&encoded), Ok(vec![record]));
}

#[test]
fn encoding_omits_absent_fields() {
    let record = Info { ip: Some("10.0.0.1".to_string()), timestamp: None, ports: None };
    match encode_info(&record) {
        Json::Obj(fields) => {
            let keys: Vec<&str> = fields.iter().map(|(k, _)| k.as_str()).collect();
            assert_eq!(keys, vec!["ip"]);
        }
        other => panic!("expected an object, got {:?}", other),
    }
}
