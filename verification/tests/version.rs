use dross_manager::version::Version;

#[test]
fn parse_reads_the_three_numbers() {
    assert_eq!(Version::parse("0.2.3"), Some(Version::new(0, 2, 3)));
    assert_eq!(Version::parse("10.0.7"), Some(Version { major: 10, minor: 0, patch: 7 }));
    assert_eq!(Version::parse("0.0.0"), Some(Version::zero()));
    assert_eq!(
        Version::parse("18446744073709551615.1.2"),
        Some(Version::new(u64::MAX, 1, 2))
    );
}

#[test]
fn parse_rejects_what_is_no_version() {
    assert_eq!(Version::parse(""), None);
    assert_eq!(Version::parse("1.0"), None);
    assert_eq!(Version::parse("1.0.01"), None);
    assert_eq!(Version::parse("1.0.unknown"), None);
    assert_eq!(Version::parse("1.0.0-"), None);
    assert_eq!(Version::parse("23456789999999999999.0.0"), None);
    assert_eq!(Version::parse(" 1.0.0"), None);
}

#[test]
fn parse_rejects_tagged_versions() {
    assert_eq!(Version::parse("1.0.0-alpha"), None);
    assert_eq!(Version::parse("1.0.0+build.5"), None);
    assert_eq!(Version::parse("1.0.0-rc.1+build.5"), None);
}

#[test]
fn text_is_the_numbers_with_dots() {
    assert_eq!(Version::new(0, 2, 3).to_string(), "0.2.3");
    assert_eq!(Version::new(0, 0, 0).to_string(), "0.0.0");
    assert_eq!(Version::new(12, 340, 5).to_string(), "12.340.5");
    assert_eq!(
        Version::new(u64::MAX, 0, 10).to_string(),
        "18446744073709551615.0.10"
    );
}

#[test]
fn text_reads_back() {
    let version = Version::new(3, 14, 159);
    assert_eq!(Version::parse(&version.to_string()), Some(version));
}

#[test]
fn satisfies_compares_left_to_right() {
    let floor = Version::new(0, 2, 3);
    assert!(Version::new(0, 2, 3).satisfies(&floor));
    assert!(Version::new(0, 2, 4).satisfies(&floor));
    assert!(Version::new(0, 3, 0).satisfies(&floor));
    assert!(Version::new(1, 0, 0).satisfies(&floor));
    assert!(!Version::new(0, 2, 2).satisfies(&floor));
    assert!(!Version::new(0, 1, 9).satisfies(&floor));
    assert!(!Version::new(0, 0, 0).satisfies(&floor));
    assert!(!Version::new(0, 2, 3).satisfies(&Version::new(1, 0, 0)));
    assert!(Version::new(0, 0, 0).satisfies(&Version::new(0, 0, 0)));
}
