use vertex_sources::pushgateway::{
    decode_label_pair, parse_path_labels, timestamp_parts, with_instance_label, PathError,
};

#[test]
fn parse_simple_path() {
    let path = "/metrics/job/foo/instance/bar";
    let expected: Vec<_> = vec![("job", "foo"), ("instance", "bar")]
        .into_iter()
        .map(|(k, v)| (k.to_owned(), v.to_owned()))
        .collect();
    let actual = parse_path_labels(path);

    assert!(actual.is_ok());
    assert_eq!(actual.unwrap(), expected);
}

#[test]
fn parse_path_wrong_number_of_segments() {
    let path = "/metrics/job/foo/instance";
    let result = parse_path_labels(path);

    assert!(result.is_err());
    assert!(result.unwrap_err().message().contains("number of segments"));
}

#[test]
fn parse_path_with_base64_segment() {
    let path = "/metrics/job/foo/instance@base64/YmFyL2Jheg==";
    let expected: Vec<_> = vec![("job", "foo"), ("instance", "bar/baz")]
        .into_iter()
        .map(|(k, v)| (k.to_owned(), v.to_owned()))
        .collect();
    let actual = parse_path_labels(path);

    assert!(actual.is_ok());
    assert_eq!(actual.unwrap(), expected);
}

#[test]
fn parse_path_with_base64_segment_missing_padding() {
    let path = "/metrics/job/foo/instance@base64/YmFyL2Jheg";
    let expected: Vec<_> = vec![("job", "foo"), ("instance", "bar/baz")]
        .into_iter()
        .map(|(k, v)| (k.to_owned(), v.to_owned()))
        .collect();
    let actual = parse_path_labels(path);

    assert!(actual.is_ok());
    assert_eq!(actual.unwrap(), expected);
}

#[test]
fn parse_path_empty_job_name_invalid() {
    let path = "/metrics/job@base64/=";
    let result = parse_path_labels(path);

    assert!(result.is_err());
    assert!(result.unwrap_err().message().contains("Job must not"));
}

#[test]
fn parse_path_empty_path_invalid() {
    let path = "/";
    let result = parse_path_labels(path);

    assert!(result.is_err());
    assert!(result.unwrap_err().message().contains("Path must begin"));
}

#[test]
fn parse_path_duplicate_labels_preserves_order() {
    let path = "/metrics/job/foo/instance/bar/instance/baz";
    let expected: Vec<_> = vec![("job", "foo"), ("instance", "bar"), ("instance", "baz")]
        .into_iter()
        .map(|(k, v)| (k.to_owned(), v.to_owned()))
        .collect();
    let actual = parse_path_labels(path);

    assert!(actual.is_ok());
    assert_eq!(actual.unwrap(), expected);
}

#[test]
fn base64_values_that_do_not_decode() {
    let err = parse_path_labels("/metrics/job/foo/instance@base64/!!!!").unwrap_err();
    assert_eq!(
        err,
        PathError::InvalidBase64 { key: "instance@base64".to_string(), value: "!!!!".to_string() }
    );
    assert_eq!(
        err.message(),
        "Grouping key invalid - invalid base64 value for key instance@base64: !!!!"
    );
    // "/w==" decodes to the byte 0xff, which is not UTF-8.
    let err = decode_label_pair("x@base64", "_w").unwrap_err();
    assert_eq!(err, PathError::InvalidUtf8 { key: "x@base64".to_string() });
    assert_eq!(
        err.message(),
        "Grouping key invalid - invalid UTF-8 in decoded base64 value for key x@base64"
    );
}

#[test]
fn padding_only_value_is_empty_and_unicode_keys_pass_through() {
    assert_eq!(
        decode_label_pair("instance@base64", "=="),
        Ok(("instance".to_string(), String::new()))
    );
    assert_eq!(decode_label_pair("é", "ü"), Ok(("é".to_string(), "ü".to_string())));
    assert_eq!(parse_path_labels("/metrics/job"), Err(PathError::OddSegments));
    assert_eq!(parse_path_labels("/metrics/jobs/x"), Ok(vec![("jobs".to_string(), "x".to_string())]));
}

#[test]
fn instance_label_is_added_unless_given() {
    let labels = parse_path_labels("/metrics/job/backup/zone/eu").unwrap();
    let with = with_instance_label(labels, "10.0.0.7");
    assert_eq!(
        with,
        vec![
            ("job".to_string(), "backup".to_string()),
            ("zone".to_string(), "eu".to_string()),
            ("instance".to_string(), "10.0.0.7".to_string()),
        ]
    );
    let labels = parse_path_labels("/metrics/job/backup/instance/db1").unwrap();
    let kept = with_instance_label(labels.clone(), "10.0.0.7");
    assert_eq!(kept, labels);
}

#[test]
fn base64_value_missing_one_padding_character() {
    let actual = parse_path_labels("/metrics/job/foo/instance@base64/YmE");
    let expected: Vec<(String, String)> = vec![
        ("job".to_owned(), "foo".to_owned()),
        ("instance".to_owned(), "ba".to_owned()),
    ];
    assert_eq!(actual.unwrap(), expected);
    // already padded
    let actual = parse_path_labels("/metrics/job/foo/instance@base64/YmE=");
    assert_eq!(actual.unwrap(), expected);
}

#[test]
fn timestamp_parts_split_millis() {
    assert_eq!(timestamp_parts(1_700_000_000_123), (1_700_000_000, 123_000_000));
    assert_eq!(timestamp_parts(0), (0, 0));
    assert_eq!(timestamp_parts(999), (0, 999_000_000));
    assert_eq!(timestamp_parts(-2000), (-2, 0));
}
