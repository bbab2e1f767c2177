use product_config::version::{Version, VersionError};

#[test]
fn test_parse() {
    let v1 = Version::parse("1.5.2");
    assert!(v1.is_ok());
    let v1 = v1.as_ref().unwrap();
    assert_eq!(v1.major == 1 && v1.minor == 5 && v1.patch == 2, true);

    let v2 = Version::parse("2.1.100");
    assert!(v2.is_ok());
    let v2 = v2.as_ref().unwrap();
    assert_eq!(v2.major == 2 && v2.minor == 1 && v2.patch == 100, true);

    let v3 = Version::parse("a.bc.2");
    assert!(v3.is_err());
}

#[test]
fn test_eq_ord() {
    let v1 = Version {
        major: 1,
        minor: 200,
        patch: 1,
    };
    assert_eq!(v1.major == 1 && v1.minor == 200 && v1.patch == 1, true);

    let v2 = Version {
        major: 200,
        minor: 3,
        patch: 12,
    };
    assert_eq!(v2.major == 200 && v2.minor == 3 && v2.patch == 12, true);

    assert_eq!(v1 < v2, true);
    assert_eq!(v1 == v1, true);
    assert_eq!(v1 > v2, false);
}

#[test]
fn test_to_string() {
    let v1 = Version {
        major: 1,
        minor: 200,
        patch: 1,
    };

    assert_eq!(v1.to_string() == "1.200.1", true);
}

#[test]
fn parse_error_carries_the_text() {
    assert_eq!(
        Version::parse("1.0.0"),
        Err(VersionError::WrongVersionPattern("1.0.0".to_string()))
    );
}

#[test]
fn parse_takes_the_version_at_the_end() {
    let v = Version::parse("release 12.34.56").unwrap();
    assert_eq!((v.major, v.minor, v.patch), (12, 34, 56));
}

#[test]
fn parse_refuses_numbers_too_large() {
    assert!(Version::parse("1.1.99999999999999999999999").is_err());
}
