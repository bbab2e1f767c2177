use std::collections::BTreeMap;

use product_config::error::Error;
use product_config::types::{
    Datatype, ProductConfig, PropertyAnchor, PropertyExpansion, PropertyName, PropertyNameKind,
    PropertySpec, PropertyValueSpec, Role, Spec, StackableRegex, StackableVersion, Unit,
    UnitAnchor,
};
use product_config::validation::{check_allowed_values, FloatCheck};
use product_config::{ProductConfigManager, PropertyValidationResult};

struct F64Check;

impl FloatCheck for F64Check {
    fn check_float(
        &self,
        name: &str,
        value: &str,
        min: &Option<String>,
        max: &Option<String>,
    ) -> Result<(), Error> {
        let parse = |s: &str| {
            s.parse::<f64>().map_err(|_| Error::DatatypeNotMatching {
                property_name: name.to_string(),
                value: s.to_string(),
                datatype: "f64".to_string(),
            })
        };
        let v = parse(value)?;
        if let Some(m) = min {
            let b = parse(m)?;
            if v < b {
                return Err(Error::PropertyValueOutOfBounds {
                    property_name: name.to_string(),
                    received: v.to_string(),
                    expected: b.to_string(),
                });
            }
        }
        if let Some(m) = max {
            let b = parse(m)?;
            if v > b {
                return Err(Error::PropertyValueOutOfBounds {
                    property_name: name.to_string(),
                    received: v.to_string(),
                    expected: b.to_string(),
                });
            }
        }
        Ok(())
    }
}

const ROLE: &str = "role_1";

fn version(s: &str) -> StackableVersion {
    StackableVersion::parse(s).unwrap()
}

fn value(v: &str, from: Option<&str>, to: Option<&str>) -> PropertyValueSpec {
    PropertyValueSpec {
        from_version: from.map(version),
        to_version: to.map(version),
        value: v.to_string(),
    }
}

fn role(name: &str, required: bool, no_copy: Option<bool>) -> Role {
    Role {
        name: name.to_string(),
        required,
        no_copy,
    }
}

fn env_sh() -> PropertyNameKind {
    PropertyNameKind::File("env.sh".to_string())
}

fn name(n: &str, kind: PropertyNameKind) -> PropertyName {
    PropertyName {
        name: n.to_string(),
        kind,
    }
}

fn property(names: Vec<PropertyName>, datatype: Datatype, roles: Vec<Role>) -> PropertySpec {
    PropertySpec {
        property_names: names,
        datatype,
        roles,
        as_of_version: version("0.1.0"),
        default_values: None,
        recommended_values: None,
        allowed_values: None,
        deprecated_since: None,
        deprecated_for: None,
        expands_to: None,
        restart_required: None,
        tags: None,
        additional_doc: None,
        comment: None,
        description: None,
    }
}

fn integer(min: Option<&str>, max: Option<&str>) -> Datatype {
    Datatype::Integer {
        min: min.map(str::to_string),
        max: max.map(str::to_string),
        unit: None,
        accepted_units: None,
        default_unit: None,
    }
}

fn float(min: Option<&str>, max: Option<&str>) -> Datatype {
    Datatype::Float {
        min: min.map(str::to_string),
        max: max.map(str::to_string),
        unit: None,
        accepted_units: None,
        default_unit: None,
    }
}

fn text(min: Option<&str>, max: Option<&str>, unit: Option<Unit>) -> Datatype {
    Datatype::String {
        min: min.map(str::to_string),
        max: max.map(str::to_string),
        unit,
        accepted_units: None,
        default_unit: None,
    }
}

fn memory_unit() -> Unit {
    Unit::new("memory", r"^\d+(k|m|g|t)?b?$", None, None).unwrap()
}

fn config(properties: Vec<PropertySpec>) -> ProductConfig {
    ProductConfig {
        version: "0.1.0".to_string(),
        spec: Spec {
            units: vec![UnitAnchor {
                unit: memory_unit(),
            }],
        },
        properties: properties
            .into_iter()
            .map(|property| PropertyAnchor { property })
            .collect(),
    }
}

fn manager(properties: Vec<PropertySpec>) -> ProductConfigManager {
    ProductConfigManager::new(config(properties), &F64Check).unwrap()
}

fn user(entries: &[(&str, Option<&str>)]) -> Vec<(String, Option<String>)> {
    entries
        .iter()
        .map(|(k, v)| (k.to_string(), v.map(str::to_string)))
        .collect()
}

fn as_map<V>(entries: Vec<(String, V)>) -> BTreeMap<String, V> {
    let n = entries.len();
    let map: BTreeMap<String, V> = entries.into_iter().collect();
    assert_eq!(map.len(), n, "names are unique");
    map
}

fn get(
    m: &ProductConfigManager,
    kind: &PropertyNameKind,
    entries: &[(&str, Option<&str>)],
) -> BTreeMap<String, PropertyValidationResult> {
    as_map(m.get("0.5.0", ROLE, kind, user(entries), &F64Check).unwrap())
}

fn expected(entries: Vec<(&str, PropertyValidationResult)>) -> BTreeMap<String, PropertyValidationResult> {
    entries.into_iter().map(|(k, v)| (k.to_string(), v)).collect()
}

fn port() -> PropertySpec {
    let mut p = property(
        vec![name("ENV_INTEGER_PORT_MIN_MAX", PropertyNameKind::Env)],
        integer(Some("1024"), Some("65535")),
        vec![role(ROLE, true, None)],
    );
    p.as_of_version = version("0.5.0");
    p.recommended_values = Some(vec![value("20000", Some("0.5.0"), None)]);
    p
}

fn out_of_bounds(name: &str, received: &str, expected: &str) -> Error {
    Error::PropertyValueOutOfBounds {
        property_name: name.to_string(),
        received: received.to_string(),
        expected: expected.to_string(),
    }
}

const PORT: &str = "ENV_INTEGER_PORT_MIN_MAX";

#[test]
fn recommended_port_without_user_input() {
    let m = manager(vec![port()]);
    assert_eq!(
        get(&m, &PropertyNameKind::Env, &[]),
        expected(vec![(PORT, PropertyValidationResult::RecommendedDefault("20000".to_string()))])
    );
}

#[test]
fn port_user_value_too_small() {
    let m = manager(vec![port()]);
    assert_eq!(
        get(&m, &PropertyNameKind::Env, &[(PORT, Some("42"))]),
        expected(vec![(
            PORT,
            PropertyValidationResult::Error("42".to_string(), out_of_bounds(PORT, "42", "1024"))
        )])
    );
}

#[test]
fn port_user_value_too_high() {
    let m = manager(vec![port()]);
    assert_eq!(
        get(&m, &PropertyNameKind::Env, &[(PORT, Some("65536"))]),
        expected(vec![(
            PORT,
            PropertyValidationResult::Error("65536".to_string(), out_of_bounds(PORT, "65536", "65535"))
        )])
    );
}

#[test]
fn port_user_value_invalid() {
    let m = manager(vec![port()]);
    assert_eq!(
        get(&m, &PropertyNameKind::Env, &[(PORT, Some("invalid"))]),
        expected(vec![(
            PORT,
            PropertyValidationResult::Error(
                "invalid".to_string(),
                Error::DatatypeNotMatching {
                    property_name: PORT.to_string(),
                    value: "invalid".to_string(),
                    datatype: "i64".to_string(),
                }
            )
        )])
    );
}

#[test]
fn port_bounds_are_inclusive() {
    let m = manager(vec![port()]);
    for v in ["1024", "65535", "+1024"] {
        assert_eq!(
            get(&m, &PropertyNameKind::Env, &[(PORT, Some(v))]),
            expected(vec![(PORT, PropertyValidationResult::Valid(v.to_string()))])
        );
    }
    assert_eq!(
        get(&m, &PropertyNameKind::Env, &[(PORT, Some("1023"))]),
        expected(vec![(
            PORT,
            PropertyValidationResult::Error("1023".to_string(), out_of_bounds(PORT, "1023", "1024"))
        )])
    );
    assert_eq!(
        get(&m, &PropertyNameKind::Env, &[(PORT, Some("+0065536"))]),
        expected(vec![(
            PORT,
            PropertyValidationResult::Error("+0065536".to_string(), out_of_bounds(PORT, "65536", "65535"))
        )])
    );
}

#[test]
fn user_value_wins_over_recommended() {
    let m = manager(vec![port()]);
    let merged = m
        .get_and_expand_properties(&version("0.5.0"), ROLE, &PropertyNameKind::Env, &user(&[(PORT, Some("30000"))]))
        .unwrap();
    assert_eq!(as_map(merged), BTreeMap::from([(PORT.to_string(), Some("30000".to_string()))]));
    assert_eq!(
        get(&m, &PropertyNameKind::Env, &[(PORT, Some("30000"))]),
        expected(vec![(PORT, PropertyValidationResult::Valid("30000".to_string()))])
    );
}

#[test]
fn value_equal_to_default_is_default() {
    let mut p = port();
    p.recommended_values = None;
    p.as_of_version = version("0.1.0");
    p.default_values = Some(vec![value("2181", None, Some("0.4.0")), value("2182", Some("0.4.1"), None)]);
    let m = manager(vec![p]);
    assert_eq!(
        get(&m, &PropertyNameKind::Env, &[]),
        expected(vec![(PORT, PropertyValidationResult::Default("2182".to_string()))])
    );
    assert_eq!(
        get(&m, &PropertyNameKind::Env, &[(PORT, Some("2181"))]),
        expected(vec![(PORT, PropertyValidationResult::Valid("2181".to_string()))])
    );
}

#[test]
fn selection_takes_the_first_matching_entry() {
    let p = port();
    let values = vec![
        value("a", Some("0.2.0"), Some("0.6.0")),
        value("b", Some("0.5.0"), Some("0.5.0")),
        value("c", None, None),
    ];
    let v = version("0.5.0");
    assert_eq!(p.filter_value(&v, &values), Some("a".to_string()));
    assert_eq!(p.filter_value(&v, &values), p.filter_value(&version("0.5.0"), &values));
    assert_eq!(p.filter_value(&version("0.7.0"), &values), Some("c".to_string()));
    assert_eq!(p.filter_value(&version("0.7.0"), &values[..2]), None);
}

fn password() -> PropertySpec {
    property(
        vec![name("ENV_PASSWORD", env_sh())],
        text(None, None, None),
        vec![role(ROLE, true, None)],
    )
}

fn enable_password() -> PropertySpec {
    property(
        vec![name("ENV_ENABLE_PASSWORD", env_sh())],
        Datatype::Bool,
        vec![role(ROLE, false, None)],
    )
}

fn password_expanding() -> PropertySpec {
    let mut p = password();
    p.expands_to = Some(vec![PropertyExpansion {
        property: enable_password(),
        value: Some("true".to_string()),
    }]);
    p
}

#[test]
fn expansion_injects_the_required_value() {
    let m = manager(vec![password_expanding(), enable_password()]);
    let merged = m
        .get_and_expand_properties(&version("0.5.0"), ROLE, &env_sh(), &user(&[("ENV_PASSWORD", Some("secret"))]))
        .unwrap();
    assert_eq!(
        as_map(merged),
        BTreeMap::from([
            ("ENV_PASSWORD".to_string(), Some("secret".to_string())),
            ("ENV_ENABLE_PASSWORD".to_string(), Some("true".to_string())),
        ])
    );
}

#[test]
fn required_property_without_value_is_missing() {
    let m = manager(vec![password_expanding(), enable_password()]);
    let merged = m
        .get_and_expand_properties(&version("0.5.0"), ROLE, &env_sh(), &vec![])
        .unwrap();
    assert_eq!(
        as_map(merged),
        BTreeMap::from([
            ("ENV_PASSWORD".to_string(), None),
            ("ENV_ENABLE_PASSWORD".to_string(), Some("true".to_string())),
        ])
    );
    assert_eq!(
        get(&m, &env_sh(), &[]),
        expected(vec![
            (
                "ENV_PASSWORD",
                PropertyValidationResult::Error(
                    "ENV_PASSWORD".to_string(),
                    Error::PropertyValueMissing {
                        property_name: "ENV_PASSWORD".to_string()
                    }
                )
            ),
            ("ENV_ENABLE_PASSWORD", PropertyValidationResult::Valid("true".to_string())),
        ])
    );
}

#[test]
fn expansion_falls_back_to_the_target_recommended_value() {
    let mut target = enable_password();
    target.recommended_values = Some(vec![value("false", None, None)]);
    let mut p = password();
    p.roles = vec![role(ROLE, false, None)];
    p.expands_to = Some(vec![PropertyExpansion {
        property: target,
        value: None,
    }]);
    let m = manager(vec![p, enable_password()]);
    assert_eq!(
        as_map(
            m.get_and_expand_properties(&version("0.5.0"), ROLE, &env_sh(), &user(&[("ENV_PASSWORD", Some("x"))]))
                .unwrap()
        ),
        BTreeMap::from([
            ("ENV_PASSWORD".to_string(), Some("x".to_string())),
            ("ENV_ENABLE_PASSWORD".to_string(), Some("false".to_string())),
        ])
    );
    assert!(m
        .get_and_expand_properties(&version("0.5.0"), ROLE, &env_sh(), &vec![])
        .unwrap()
        .is_empty());
}

#[test]
fn no_copy_property_never_appears() {
    let mut ssl = property(
        vec![name("ENV_SSL_ENABLED", env_sh())],
        Datatype::Bool,
        vec![role(ROLE, true, Some(true))],
    );
    ssl.recommended_values = Some(vec![value("true", None, None)]);
    let certificate = || {
        let mut c = property(
            vec![name("ENV_SSL_CERTIFICATE_PATH", env_sh())],
            text(None, None, None),
            vec![role(ROLE, false, None)],
        );
        c.default_values = Some(vec![value("path/to/certificates", None, None)]);
        c
    };
    ssl.expands_to = Some(vec![PropertyExpansion {
        property: certificate(),
        value: None,
    }]);
    let m = manager(vec![ssl, certificate()]);
    for input in [vec![], user(&[("ENV_SSL_ENABLED", Some("true"))])] {
        let merged = m
            .get_and_expand_properties(&version("0.5.0"), ROLE, &env_sh(), &input)
            .unwrap();
        assert_eq!(
            as_map(merged),
            BTreeMap::from([(
                "ENV_SSL_CERTIFICATE_PATH".to_string(),
                Some("path/to/certificates".to_string())
            )])
        );
    }
    assert_eq!(
        get(&m, &env_sh(), &[("ENV_SSL_ENABLED", Some("true"))]),
        expected(vec![(
            "ENV_SSL_CERTIFICATE_PATH",
            PropertyValidationResult::Default("path/to/certificates".to_string())
        )])
    );
}

fn certificate_path() -> PropertySpec {
    let mut p = property(
        vec![name("ENV_SSL_CERTIFICATE_PATH", PropertyNameKind::Env)],
        text(None, None, Some(Unit::new("directory", r"^([^/]*/)+[^/]*$", None, None).unwrap())),
        vec![role(ROLE, false, None)],
    );
    p.default_values = Some(vec![value("path/to/certificates", None, None)]);
    p
}

#[test]
fn unknown_name_passes_through() {
    let m = manager(vec![certificate_path()]);
    let v = "/opt/stackable/zookeeper-operator/pki";
    assert_eq!(
        get(
            &m,
            &PropertyNameKind::File("should_not_be_found_therefore_is_an_override".to_string()),
            &[("ENV_SSL_CERTIFICATE_PATH", Some(v))]
        ),
        expected(vec![("ENV_SSL_CERTIFICATE_PATH", PropertyValidationResult::Unknown(v.to_string()))])
    );
    assert_eq!(
        get(&m, &PropertyNameKind::Env, &[("ENV_SSL_CERTIFICATE_PATH", Some(v))]),
        expected(vec![("ENV_SSL_CERTIFICATE_PATH", PropertyValidationResult::Valid(v.to_string()))])
    );
    assert_eq!(
        get(&m, &PropertyNameKind::Env, &[("NOT_A_PROPERTY", None)]),
        BTreeMap::new()
    );
}

#[test]
fn invalid_certificate_path() {
    let m = manager(vec![certificate_path()]);
    assert_eq!(
        get(&m, &PropertyNameKind::Env, &[("ENV_SSL_CERTIFICATE_PATH", Some("CAFE"))]),
        expected(vec![(
            "ENV_SSL_CERTIFICATE_PATH",
            PropertyValidationResult::Error(
                "CAFE".to_string(),
                Error::DatatypeRegexNotMatching {
                    property_name: "ENV_SSL_CERTIFICATE_PATH".to_string(),
                    value: "CAFE".to_string(),
                }
            )
        )])
    );
}

fn memory(deprecated: bool) -> PropertySpec {
    let mut p = property(
        vec![name("ENV_PROPERTY_STRING_MEMORY", PropertyNameKind::Env)],
        text(None, None, Some(memory_unit())),
        vec![role(ROLE, false, None)],
    );
    p.recommended_values = Some(vec![value("100mb", None, None)]);
    if deprecated {
        p.deprecated_since = Some(version("0.4.0"));
    }
    p
}

const MEMORY: &str = "ENV_PROPERTY_STRING_MEMORY";

#[test]
fn deprecated_property_warns() {
    let m = manager(vec![memory(true)]);
    assert_eq!(
        get(&m, &PropertyNameKind::Env, &[(MEMORY, Some("100mb"))]),
        expected(vec![(
            MEMORY,
            PropertyValidationResult::Warn(
                "100mb".to_string(),
                Error::VersionDeprecated {
                    property_name: MEMORY.to_string(),
                    product_version: "0.5.0".to_string(),
                    deprecated_version: "0.4.0".to_string(),
                }
            )
        )])
    );
    let early = m
        .get("0.3.0", ROLE, &PropertyNameKind::Env, user(&[(MEMORY, Some("100mb"))]), &F64Check)
        .unwrap();
    assert_eq!(
        as_map(early),
        expected(vec![(MEMORY, PropertyValidationResult::RecommendedDefault("100mb".to_string()))])
    );
}

#[test]
fn unit_pattern_mismatch() {
    let m = manager(vec![memory(false)]);
    assert_eq!(
        get(&m, &PropertyNameKind::Env, &[(MEMORY, Some("abc"))]),
        expected(vec![(
            MEMORY,
            PropertyValidationResult::Error(
                "abc".to_string(),
                Error::DatatypeRegexNotMatching {
                    property_name: MEMORY.to_string(),
                    value: "abc".to_string(),
                }
            )
        )])
    );
    assert_eq!(
        get(&m, &PropertyNameKind::Env, &[(MEMORY, Some("2g"))]),
        expected(vec![(MEMORY, PropertyValidationResult::Valid("2g".to_string()))])
    );
}

#[test]
fn text_length_is_bounded_in_bytes() {
    let p = property(
        vec![name("NAME", PropertyNameKind::Env)],
        text(Some("3"), Some("4"), None),
        vec![role(ROLE, false, None)],
    );
    let m = manager(vec![p]);
    assert_eq!(
        get(&m, &PropertyNameKind::Env, &[("NAME", Some("ab"))]),
        expected(vec![(
            "NAME",
            PropertyValidationResult::Error("ab".to_string(), out_of_bounds("NAME", "2", "3"))
        )])
    );
    assert_eq!(
        get(&m, &PropertyNameKind::Env, &[("NAME", Some("éé"))]),
        expected(vec![("NAME", PropertyValidationResult::Valid("éé".to_string()))])
    );
    assert_eq!(
        get(&m, &PropertyNameKind::Env, &[("NAME", Some("ééé"))]),
        expected(vec![(
            "NAME",
            PropertyValidationResult::Error("ééé".to_string(), out_of_bounds("NAME", "6", "4"))
        )])
    );
}

fn float_property() -> PropertySpec {
    let mut p = property(
        vec![name("ENV_FLOAT", env_sh())],
        float(Some("0"), Some("100")),
        vec![role(ROLE, true, None)],
    );
    p.recommended_values = Some(vec![value("50.0", None, None)]);
    p
}

#[test]
fn float_values() {
    let m = manager(vec![float_property()]);
    assert_eq!(
        get(&m, &env_sh(), &[]),
        expected(vec![("ENV_FLOAT", PropertyValidationResult::RecommendedDefault("50.0".to_string()))])
    );
    assert_eq!(
        get(&m, &env_sh(), &[("ENV_FLOAT", Some("42.0"))]),
        expected(vec![("ENV_FLOAT", PropertyValidationResult::Valid("42.0".to_string()))])
    );
    assert_eq!(
        get(&m, &env_sh(), &[("ENV_FLOAT", Some("CAFE"))]),
        expected(vec![(
            "ENV_FLOAT",
            PropertyValidationResult::Error(
                "CAFE".to_string(),
                Error::DatatypeNotMatching {
                    property_name: "ENV_FLOAT".to_string(),
                    value: "CAFE".to_string(),
                    datatype: "f64".to_string(),
                }
            )
        )])
    );
    assert_eq!(
        get(&m, &env_sh(), &[("ENV_FLOAT", Some("-1"))]),
        expected(vec![(
            "ENV_FLOAT",
            PropertyValidationResult::Error("-1".to_string(), out_of_bounds("ENV_FLOAT", "-1", "0"))
        )])
    );
    assert_eq!(
        get(&m, &env_sh(), &[("ENV_FLOAT", Some("101"))]),
        expected(vec![(
            "ENV_FLOAT",
            PropertyValidationResult::Error("101".to_string(), out_of_bounds("ENV_FLOAT", "101", "100"))
        )])
    );
}

#[test]
fn allowed_values_are_enforced() {
    let mut p = property(
        vec![name("MODE", PropertyNameKind::Cli)],
        text(None, None, None),
        vec![role(ROLE, false, None)],
    );
    p.allowed_values = Some(vec!["fast".to_string(), "safe".to_string()]);
    let m = manager(vec![p]);
    assert_eq!(
        get(&m, &PropertyNameKind::Cli, &[("MODE", Some("safe"))]),
        expected(vec![("MODE", PropertyValidationResult::Valid("safe".to_string()))])
    );
    assert_eq!(
        get(&m, &PropertyNameKind::Cli, &[("MODE", Some("slow"))]),
        expected(vec![(
            "MODE",
            PropertyValidationResult::Error(
                "slow".to_string(),
                Error::PropertyValueNotInAllowedValues {
                    property_name: "MODE".to_string(),
                    value: "slow".to_string(),
                    allowed_values: vec!["fast".to_string(), "safe".to_string()],
                }
            )
        )])
    );
}

#[test]
fn check_allowed_values_cases() {
    let allowed = Some(vec![
        "allowed_value_1".to_string(),
        "allowed_value_2".to_string(),
        "allowed_value_3".to_string(),
    ]);
    assert_eq!(check_allowed_values("ENV_ALLOWED_VALUES", "allowed_value_1", &allowed), Ok(()));
    assert_eq!(
        check_allowed_values("ENV_ALLOWED_VALUES", "not_allowed_value", &allowed),
        Err(Error::PropertyValueNotInAllowedValues {
            property_name: "ENV_ALLOWED_VALUES".to_string(),
            value: "not_allowed_value".to_string(),
            allowed_values: allowed.clone().unwrap(),
        })
    );
    assert_eq!(check_allowed_values("X", "anything", &Some(vec![])), Ok(()));
    assert_eq!(check_allowed_values("X", "anything", &None), Ok(()));
}

#[test]
fn invalid_product_version_fails_the_call() {
    let m = manager(vec![port()]);
    match m.get("not-a-version", ROLE, &PropertyNameKind::Env, vec![], &F64Check) {
        Err(Error::InvalidVersion { version, reason }) => {
            assert_eq!(version, "not-a-version");
            assert!(!reason.is_empty());
        }
        other => panic!("unexpected: {:?}", other),
    }
}

#[test]
fn property_not_yet_supported_is_unknown() {
    let mut p = port();
    p.as_of_version = version("0.6.0");
    p.recommended_values = Some(vec![value("20000", None, None)]);
    let m = manager(vec![p]);
    assert_eq!(get(&m, &PropertyNameKind::Env, &[]), BTreeMap::new());
    assert_eq!(
        get(&m, &PropertyNameKind::Env, &[(PORT, Some("1"))]),
        expected(vec![(PORT, PropertyValidationResult::Unknown("1".to_string()))])
    );
}

#[test]
fn semantic_versions_compare_as_semver() {
    assert!(version("1.0.0-alpha").le(&version("1.0.0")));
    assert!(!version("1.0.0").le(&version("1.0.0-alpha")));
    assert!(version("0.9.10").le(&version("0.10.0")));
    assert_eq!(version("1.2.3-rc.1+build.5").to_string(), "1.2.3-rc.1+build.5");
    assert_eq!(version("1.2.3").compare(&version("1.2.3")), std::cmp::Ordering::Equal);
}

#[test]
fn configuration_checks() {
    let mut no_role = port();
    no_role.roles = vec![];
    assert_eq!(
        ProductConfigManager::new(config(vec![no_role]), &F64Check).err(),
        Some(Error::PropertySpecRoleNotProvided {
            name: name(PORT, PropertyNameKind::Env)
        })
    );

    let mut bad_default = port();
    bad_default.default_values = Some(vec![value("80", None, None)]);
    assert_eq!(
        ProductConfigManager::new(config(vec![bad_default]), &F64Check).err(),
        Some(out_of_bounds(PORT, "80", "1024"))
    );

    let mut no_value_for_version = port();
    no_value_for_version.as_of_version = version("0.1.0");
    no_value_for_version.recommended_values = Some(vec![value("20000", Some("0.5.0"), None)]);
    assert_eq!(
        ProductConfigManager::new(config(vec![no_value_for_version]), &F64Check).err(),
        Some(Error::PropertySpecValueMissingForVersion {
            property_name: name(PORT, PropertyNameKind::Env),
            property_values: vec![value("20000", Some("0.5.0"), None)],
            version: "0.1.0".to_string(),
        })
    );

    assert_eq!(
        ProductConfigManager::new(config(vec![password_expanding()]), &F64Check).err(),
        Some(Error::PropertyNotFound {
            property_name: name("ENV_ENABLE_PASSWORD", env_sh())
        })
    );

    let mut empty_pattern = config(vec![]);
    empty_pattern.spec.units = vec![UnitAnchor {
        unit: Unit {
            name: "size".to_string(),
            regex: StackableRegex::new("").unwrap(),
            examples: None,
            comment: None,
        },
    }];
    assert_eq!(
        ProductConfigManager::new(empty_pattern, &F64Check).err(),
        Some(Error::EmptyRegexPattern {
            unit: "size".to_string()
        })
    );

    let mut empty_unit = config(vec![]);
    empty_unit.spec.units = vec![UnitAnchor {
        unit: Unit {
            name: String::new(),
            regex: StackableRegex::new("x").unwrap(),
            examples: None,
            comment: None,
        },
    }];
    assert_eq!(
        ProductConfigManager::new(empty_unit, &F64Check).err(),
        Some(Error::ConfigSpecPropertiesNotFound {
            name: "unit".to_string()
        })
    );

    assert_eq!(
        Unit::new("", "(", None, None).err(),
        Some(Error::ConfigSpecPropertiesNotFound {
            name: "unit".to_string()
        })
    );
    assert_eq!(
        Unit::new("broken", "", None, None).err(),
        Some(Error::EmptyRegexPattern {
            unit: "broken".to_string()
        })
    );
    assert_eq!(
        Unit::new("broken", "(", None, None).err(),
        Some(Error::InvalidRegexPattern {
            unit: "broken".to_string(),
            regex: "(".to_string()
        })
    );
}

#[test]
fn outcomes_are_ordered_by_kind() {
    let v = || "v".to_string();
    let e = || Error::PropertyValueMissing {
        property_name: "p".to_string(),
    };
    let ordered = vec![
        PropertyValidationResult::Default(v()),
        PropertyValidationResult::RecommendedDefault(v()),
        PropertyValidationResult::Valid(v()),
        PropertyValidationResult::Unknown(v()),
        PropertyValidationResult::Warn(v(), e()),
        PropertyValidationResult::Error(v(), e()),
    ];
    for pair in ordered.windows(2) {
        assert!(pair[0] < pair[1]);
    }
}

#[test]
fn recommended_falls_back_to_default_for_the_version() {
    let mut p = port();
    p.as_of_version = version("0.1.0");
    p.recommended_values = Some(vec![value("20000", Some("0.1.0"), Some("0.4.0"))]);
    p.default_values = Some(vec![value("2181", None, None)]);
    let m = manager(vec![p]);
    let merged = m
        .get_and_expand_properties(&version("0.5.0"), ROLE, &PropertyNameKind::Env, &vec![])
        .unwrap();
    assert_eq!(as_map(merged), BTreeMap::from([(PORT.to_string(), Some("2181".to_string()))]));
    assert_eq!(
        get(&m, &PropertyNameKind::Env, &[]),
        expected(vec![(PORT, PropertyValidationResult::Default("2181".to_string()))])
    );
    let early = m
        .get("0.3.0", ROLE, &PropertyNameKind::Env, vec![], &F64Check)
        .unwrap();
    assert_eq!(
        as_map(early),
        expected(vec![(PORT, PropertyValidationResult::RecommendedDefault("20000".to_string()))])
    );
}
