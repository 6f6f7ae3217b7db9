use anime_game_core::version::Version;
use anime_game_core::version_scan::{find_nul_version, find_underscore_version, parse_version_file, pick, window, VersionNotFound};

#[test]
fn version_text_round_trip() {
    let v = Version::from_str("1.2.3").unwrap();
    assert_eq!(v.version, [1, 2, 3]);
    assert_eq!(v.to_string(), "1.2.3");
    assert_eq!(v.to_plain_string(), "123");
    assert_eq!(Version::from_str(&Version::new(4, 10, 255).to_string()), Some(Version::new(4, 10, 255)));
}

#[test]
fn version_parsing_edges() {
    assert_eq!(Version::from_str("1.2"), None);
    assert_eq!(Version::from_str("1.2.3.4"), None);
    assert_eq!(Version::from_str("256.0.0"), None);
    assert_eq!(Version::from_str("a.b.c"), None);
    assert_eq!(Version::from_str(""), None);
    assert_eq!(Version::from_str("+1.2.3"), Some(Version::new(1, 2, 3)));
    assert_eq!(Version::from_str("01.002.3"), Some(Version::new(1, 2, 3)));
}

#[test]
fn version_comparisons() {
    let a = Version::new(1, 2, 3);
    let b = Version::new(1, 10, 0);
    assert!(a.lt(&b));
    assert!(!b.lt(&a));
    assert!(!a.lt(&a));
    assert!(a.same(&Version::new(1, 2, 3)));
    assert!(a.eq_str("1.2.3"));
    assert!(!a.eq_str("1.2.4"));
    assert!(b.ge_str("1.2.3"));
    assert!(!a.ge_str("1.10.0"));
    assert!(!a.ge_str("not a version"));
}

fn data_with(prefix_len: usize, bytes: &[u8]) -> Vec<u8> {
    let mut data = vec![b'x'; prefix_len];
    data.extend_from_slice(bytes);
    data
}

#[test]
fn underscore_version_in_data_file() {
    let data = data_with(4000, b"\x00junk\x004.7.0_12345\x00");
    assert_eq!(find_underscore_version(window(&data)), Some(Version::new(4, 7, 0)));
}

#[test]
fn version_before_the_window_is_not_read() {
    let mut data = b"\x001.0.0_x".to_vec();
    data.resize(4000, b'y');
    assert_eq!(find_underscore_version(window(&data)), None);
}

#[test]
fn nul_ended_version() {
    let data = data_with(4000, b"\x002.5.1\x00");
    assert_eq!(find_nul_version(window(&data)), Some(Version::new(2, 5, 1)));
    let broken = data_with(4000, b"\x002.5\x00");
    assert_eq!(find_nul_version(window(&broken)), None);
}

#[test]
fn stored_version_wins_when_newer() {
    assert_eq!(pick(Some(Version::new(1, 0, 0)), Some(Version::new(1, 0, 1))), Ok(Version::new(1, 0, 1)));
    assert_eq!(pick(Some(Version::new(1, 1, 0)), Some(Version::new(1, 0, 1))), Ok(Version::new(1, 1, 0)));
    assert_eq!(pick(None, Some(Version::new(3, 0, 0))), Ok(Version::new(3, 0, 0)));
    assert_eq!(pick(None, None), Err(VersionNotFound));
    assert_eq!(parse_version_file(&[2, 7, 0, 9]), Version::new(2, 7, 0));
}
