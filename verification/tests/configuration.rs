use v2board_application::configuration::{
    is_unsigned_decimal, validate_patch, ConfigurationGroups, ConfigurationMap,
    ConfigurationPortError, ConfigurationService, ConfigurationSnapshot,
    ConfigurationSnapshotSource, ConfigurationValue, REDACTED_SECRET,
};
use v2board_application::keyed_map::KeyedMap;

struct FakeSnapshots;

impl ConfigurationSnapshotSource for FakeSnapshots {
    fn current_snapshot(&self) -> Result<ConfigurationSnapshot, ConfigurationPortError> {
        let groups: ConfigurationGroups = KeyedMap::from_pairs(vec![
            (
                "site".to_string(),
                KeyedMap::from_pairs(vec![(
                    "app_name".to_string(),
                    ConfigurationValue::String("Before".to_string()),
                )]),
            ),
            (
                "server".to_string(),
                KeyedMap::from_pairs(vec![(
                    "server_token".to_string(),
                    ConfigurationValue::String("a-real-secret-value".to_string()),
                )]),
            ),
        ]);
        Ok(ConfigurationSnapshot { revision: 7, groups })
    }
}

fn single(key: &str, value: ConfigurationValue) -> ConfigurationMap {
    KeyedMap::from_pairs(vec![(key.to_string(), value)])
}

#[test]
fn view_redacts_secrets_and_selects_only_known_groups() {
    let service = ConfigurationService::new(FakeSnapshots, (), ());
    let selected = service.view(Some("server")).expect("selected view");
    assert_eq!(selected.revision, 7);
    assert_eq!(selected.groups.len(), 1);
    assert_eq!(
        selected.groups.get("server").unwrap().get("server_token"),
        Some(&ConfigurationValue::String(REDACTED_SECRET.to_string()))
    );

    let unknown = service.view(Some("unknown")).expect("full fallback view");
    assert_eq!(unknown.groups.len(), 2);
}

#[test]
fn patch_validation_preserves_native_types_and_security_rules() {
    for (key, value) in [
        ("force_https", ConfigurationValue::String("1".to_string())),
        ("email_port", ConfigurationValue::Integer(65_536)),
        ("secure_path", ConfigurationValue::String("short".to_string())),
        ("deposit_bounus", ConfigurationValue::StringList(vec!["invalid".to_string()])),
        ("server_token", ConfigurationValue::String("too-short".to_string())),
    ] {
        assert!(validate_patch(&single(key, value)).is_err());
    }
    validate_patch(&KeyedMap::from_pairs(vec![
        (
            "deposit_bounus".to_string(),
            ConfigurationValue::StringList(vec!["100:20.5".to_string()]),
        ),
        ("try_out_hour".to_string(), ConfigurationValue::Number("1.5".to_string())),
    ]))
    .expect("valid native patch");
}

#[test]
fn patch_validation_pins_duration_and_exact_decimal_bounds() {
    for field in ["show_subscribe_expire", "register_limit_expire", "password_limit_expire"] {
        for value in [0, -1, 525_601] {
            assert!(validate_patch(&single(field, ConfigurationValue::Integer(value))).is_err());
        }
        validate_patch(&single(field, ConfigurationValue::Integer(525_600)))
            .expect("maximum safe duration");
    }

    for (field, accepted, rejected) in [
        (
            "commission_withdraw_limit",
            ConfigurationValue::String("92233720368547758.07".to_string()),
            ConfigurationValue::String("92233720368547758.08".to_string()),
        ),
        (
            "try_out_hour",
            ConfigurationValue::Number("2562047788015215.5019444444".to_string()),
            ConfigurationValue::Number("2562047788015216".to_string()),
        ),
    ] {
        validate_patch(&single(field, accepted)).expect("exact upper bound");
        assert!(validate_patch(&single(field, rejected)).is_err());
    }
}

#[test]
fn the_secret_of_every_group_is_masked_in_the_full_view() {
    let service = ConfigurationService::new(FakeSnapshots, (), ());
    let full = service.view(None).expect("full view");
    assert_eq!(full.groups.len(), 2);
    assert_eq!(
        full.groups.get("site").unwrap().get("app_name"),
        Some(&ConfigurationValue::String("Before".to_string()))
    );
    assert_eq!(
        full.groups.get("server").unwrap().get("server_token"),
        Some(&ConfigurationValue::String(REDACTED_SECRET.to_string()))
    );
}

#[test]
fn unsigned_decimals_need_digits_on_both_sides_of_a_point() {
    assert!(is_unsigned_decimal("12"));
    assert!(is_unsigned_decimal("12.50"));
    assert!(!is_unsigned_decimal("12."));
    assert!(!is_unsigned_decimal(".5"));
    assert!(!is_unsigned_decimal("-1"));
    assert!(!is_unsigned_decimal(""));
}
