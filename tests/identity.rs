use ctr::{choose_identity, parse_uid, rootfs_for_home, rootfs_path, LaunchError};

#[test]
fn parse_uid_plain_digits() {
    assert_eq!(parse_uid("1000"), Some(1000));
    assert_eq!(parse_uid("0"), Some(0));
    assert_eq!(parse_uid("007"), Some(7));
}

#[test]
fn parse_uid_leading_plus() {
    assert_eq!(parse_uid("+42"), Some(42));
    assert_eq!(parse_uid("+"), None);
    assert_eq!(parse_uid("++1"), None);
}

#[test]
fn parse_uid_rejects_non_digits() {
    assert_eq!(parse_uid(""), None);
    assert_eq!(parse_uid("-1"), None);
    assert_eq!(parse_uid("12a"), None);
    assert_eq!(parse_uid(" 12"), None);
}

#[test]
fn parse_uid_largest_value() {
    assert_eq!(parse_uid("4294967295"), Some(u32::MAX));
    assert_eq!(parse_uid("4294967296"), None);
    assert_eq!(parse_uid("99999999999999999999"), None);
}

#[test]
fn override_identity_wins() {
    assert_eq!(choose_identity(Some("1000"), 0), Ok(1000));
}

#[test]
fn real_identity_without_override() {
    assert_eq!(choose_identity(None, 501), Ok(501));
}

#[test]
fn malformed_override_is_identity_error() {
    assert_eq!(choose_identity(Some("alice"), 0), Err(LaunchError::Identity));
    assert_eq!(choose_identity(Some(""), 0), Err(LaunchError::Identity));
}

#[test]
fn rootfs_under_home() {
    assert_eq!(rootfs_path("/home/alice"), "/home/alice/rootfs-x86_64");
}

#[test]
fn rootfs_under_home_with_trailing_separator() {
    assert_eq!(rootfs_path("/root/"), "/root/rootfs-x86_64");
    assert_eq!(rootfs_path("/"), "/rootfs-x86_64");
}

#[test]
fn rootfs_under_empty_home() {
    assert_eq!(rootfs_path(""), "rootfs-x86_64");
}

#[test]
fn rootfs_for_override_user_scenario() {
    let uid = choose_identity(Some("1000"), 0).unwrap();
    assert_eq!(uid, 1000);
    let home = if uid == 1000 { Some("/home/alice") } else { None };
    assert_eq!(rootfs_for_home(home), Ok(String::from("/home/alice/rootfs-x86_64")));
}

#[test]
fn rootfs_without_user_record() {
    assert_eq!(rootfs_for_home(None), Err(LaunchError::Identity));
}
