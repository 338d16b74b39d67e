use ban_ahri_client::errors::AppError;
use ban_ahri_client::lockfile::{parse_lockfile, split_fields};

#[test]
fn well_formed_lockfile_yields_port_and_credential() {
    let d = parse_lockfile("LeagueClient:12345:61234:abc123:https").unwrap();
    assert_eq!(d.port, "61234");
    assert_eq!(d.credential, "abc123");
}

#[test]
fn exactly_four_fields_is_enough() {
    let d = parse_lockfile("a:b:9999:tok").unwrap();
    assert_eq!(d.port, "9999");
    assert_eq!(d.credential, "tok");
}

#[test]
fn empty_fields_are_kept() {
    let d = parse_lockfile("::p:c:").unwrap();
    assert_eq!(d.port, "p");
    assert_eq!(d.credential, "c");
}

#[test]
fn three_fields_fail_with_path_error() {
    let r = parse_lockfile("a:b:c");
    assert!(matches!(r, Err(AppError::PathError(_))));
}

#[test]
fn empty_contents_fail_with_path_error() {
    let r = parse_lockfile("");
    assert!(matches!(r, Err(AppError::PathError(_))));
}

#[test]
fn split_fields_matches_separators() {
    let fields = split_fields("a:bc::d");
    assert_eq!(fields, vec!["a", "bc", "", "d"]);
    assert_eq!(split_fields(""), vec![""]);
    assert_eq!(split_fields("::"), vec!["", "", ""]);
    assert_eq!(split_fields("plain"), vec!["plain"]);
}
