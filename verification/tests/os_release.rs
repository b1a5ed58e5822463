use vertex_sources::kv::ByteMap;
use vertex_sources::node::os_release::{
    midnight_timestamp, parse_os_release, support_end_timestamp,
};

const OS_RELEASE: &str = r#"NAME="Ubuntu"
VERSION="20.04.2 LTS (Focal Fossa)"
ID=ubuntu
ID_LIKE=debian
PRETTY_NAME="Ubuntu 20.04.2 LTS"
VERSION_ID="20.04"
HOME_URL="https://www.ubuntu.com/"
SUPPORT_URL="https://help.ubuntu.com/"
BUG_REPORT_URL="https://bugs.launchpad.net/ubuntu/"
PRIVACY_POLICY_URL="https://www.ubuntu.com/legal/terms-and-policies/privacy-policy"
VERSION_CODENAME=focal
UBUNTU_CODENAME=focal
"#;

#[test]
fn os_release_parse() {
    let info = parse_os_release(OS_RELEASE);

    assert_eq!(info.get(b"NAME").unwrap(), b"Ubuntu");
    assert_eq!(info.get(b"ID").unwrap(), b"ubuntu");
    assert_eq!(info.get(b"ID_LIKE").unwrap(), b"debian");
    assert_eq!(info.get(b"PRETTY_NAME").unwrap(), b"Ubuntu 20.04.2 LTS");
    assert_eq!(info.get(b"VERSION").unwrap(), b"20.04.2 LTS (Focal Fossa)");
    assert_eq!(info.get(b"VERSION_ID").unwrap(), b"20.04");
    assert_eq!(info.get(b"VERSION_CODENAME").unwrap(), b"focal");
    assert_eq!(info.len(), 12);
}

#[test]
fn later_line_replaces_earlier_and_lines_without_equals_are_skipped() {
    let info = parse_os_release("ID=a\nno equals here\nID=\"b\"\nX==y\n");
    assert_eq!(info.get(b"ID").unwrap(), b"b");
    assert_eq!(info.get(b"X").unwrap(), b"=y");
    assert_eq!(info.get(b"no equals here"), None);
    assert_eq!(info.len(), 2);
}

#[test]
fn quotes_are_stripped_from_both_ends_only() {
    let info = parse_os_release("A=\"\"x\"y\"\"\nB=\"\"\n");
    assert_eq!(info.get(b"A").unwrap(), b"x\"y");
    assert_eq!(info.get(b"B").unwrap(), b"");
}

#[test]
fn insert_and_get() {
    let mut m = ByteMap::new();
    assert_eq!(m.len(), 0);
    m.insert(b"K", b"1");
    m.insert(b"K", b"2");
    assert_eq!(m.get(b"K").unwrap(), b"2");
    assert_eq!(m.len(), 1);
}

#[test]
fn midnight_timestamps() {
    assert_eq!(midnight_timestamp(1970, 1, 1), 0);
    assert_eq!(midnight_timestamp(2025, 4, 30), 1745971200);
    assert_eq!(midnight_timestamp(2000, 3, 1), 951868800);
    assert_eq!(midnight_timestamp(2024, 2, 29), 1709164800);
    assert_eq!(midnight_timestamp(1900, 3, 1), -2203891200);
    assert_eq!(midnight_timestamp(1, 1, 1), -62135596800);
    assert_eq!(midnight_timestamp(9999, 12, 31), 253402214400);
}

#[test]
fn support_end_dates() {
    assert_eq!(support_end_timestamp("2025-04-30"), Some(1745971200));
    assert_eq!(support_end_timestamp("2024-02-29"), Some(1709164800));
    assert_eq!(support_end_timestamp("2023-02-29"), None);
    assert_eq!(support_end_timestamp("not a date"), None);
}

#[test]
fn byte_map_pairs_keep_first_insertion_order() {
    let mut map = ByteMap::new();
    map.insert(b"b", b"1");
    map.insert(b"a", b"2");
    map.insert(b"b", b"3");
    assert_eq!(map.pairs(), &vec![(&b"b"[..], &b"3"[..]), (&b"a"[..], &b"2"[..])]);
}
