//! The operator configuration patch, driven through the library's checks
//! against an in-memory configuration store, the way the application
//! shell drives it.
use v2board_application::configuration::{
    bulk_mail_actor, check_active_revision, check_expected_revision, committed_revision,
    drop_unchanged_effective_secure_path, patch_actor, strip_redacted_secrets, validate_bulk_mail,
    validate_patch, BulkMailInput, ConfigurationCode, ConfigurationError, ConfigurationMap,
    ConfigurationPatchOutcome, ConfigurationValue, MailAudience, BULK_MAIL_MAX_RECIPIENTS,
    REDACTED_SECRET,
};
use v2board_application::keyed_map::KeyedMap;

struct Store {
    revision: i64,
    values: ConfigurationMap,
    effective_admin_path: String,
    commits: Vec<(i64, ConfigurationMap, String)>,
}

fn store() -> Store {
    Store {
        revision: 7,
        values: KeyedMap::from_pairs(vec![
            ("app_name".to_string(), ConfigurationValue::String("Before".to_string())),
            (
                "server_token".to_string(),
                ConfigurationValue::String("a-real-secret-value".to_string()),
            ),
        ]),
        effective_admin_path: "fallback1".to_string(),
        commits: Vec::new(),
    }
}

fn patch(
    store: &mut Store,
    mut changes: ConfigurationMap,
    expected_revision: i64,
    admin_email: &str,
) -> Result<ConfigurationPatchOutcome<ConfigurationMap>, ConfigurationError> {
    check_expected_revision(expected_revision)?;
    assert!(changes.keys_ascend());
    strip_redacted_secrets(&mut changes);
    check_active_revision(store.revision, expected_revision)?;
    drop_unchanged_effective_secure_path(&mut changes, &store.effective_admin_path);
    validate_patch(&changes)?;
    let mut values = store.values.clone();
    for (key, value) in changes.entries() {
        values.insert(key.clone(), value.clone());
    }
    if values == store.values {
        return Ok(ConfigurationPatchOutcome::Unchanged);
    }
    let actor = patch_actor(admin_email);
    store.commits.push((expected_revision, values.clone(), actor));
    let revision = committed_revision(expected_revision + 1)?;
    let mut activation = values;
    activation.insert("revision".to_string(), ConfigurationValue::Integer(revision));
    Ok(ConfigurationPatchOutcome::Committed { activation, revision })
}

#[test]
fn patch_strips_round_tripped_secrets_and_effective_path_before_noop_check() {
    let mut store = store();
    let changes = KeyedMap::from_pairs(vec![
        ("server_token".to_string(), ConfigurationValue::String(REDACTED_SECRET.to_string())),
        ("secure_path".to_string(), ConfigurationValue::String("/fallback1/".to_string())),
    ]);
    assert!(matches!(
        patch(&mut store, changes, 7, "admin@example.test"),
        Ok(ConfigurationPatchOutcome::Unchanged)
    ));
    assert!(store.commits.is_empty());
}

#[test]
fn patch_commits_normalized_values_with_actor_and_attaches_database_revision() {
    let mut store = store();
    let outcome = patch(
        &mut store,
        KeyedMap::from_pairs(vec![(
            "app_name".to_string(),
            ConfigurationValue::String("After".to_string()),
        )]),
        7,
        " admin@example.test ",
    )
    .expect("patch");
    let ConfigurationPatchOutcome::Committed { activation, revision } = outcome else {
        panic!("expected commit");
    };
    assert_eq!(revision, 8);
    assert_eq!(activation.get("revision"), Some(&ConfigurationValue::Integer(8)));
    assert_eq!(store.commits[0].0, 7);
    assert_eq!(store.commits[0].2, "admin:admin@example.test");
}

#[test]
fn stale_and_nonpositive_revisions_are_rejected_before_commit() {
    let mut store = store();
    for revision in [0, -1, 6] {
        let error = patch(&mut store, KeyedMap::new(), revision, "admin@example.test")
            .expect_err("revision rejected");
        let expected = if revision <= 0 {
            ConfigurationCode::ConfigValidationFailed
        } else {
            ConfigurationCode::ConfigRevisionConflict
        };
        assert!(matches!(
            error,
            ConfigurationError::Business { code, .. } if code == expected
        ));
    }
    assert!(store.commits.is_empty());
}

#[test]
fn empty_bulk_mail_fields_are_rejected_without_touching_outbox_port() {
    for (subject, content, field) in [("", "content", "subject"), ("subject", "", "content")] {
        let error = validate_bulk_mail(&BulkMailInput {
            subject: subject.to_string(),
            content: content.to_string(),
            filter: None,
        })
        .expect_err("empty field");
        assert!(
            matches!(error, ConfigurationError::Validation { field: actual, .. } if actual == field)
        );
    }
}

#[test]
fn bulk_mail_is_attributed_to_its_audience() {
    assert_eq!(bulk_mail_actor(MailAudience::Staff, "staff@example.test"), "staff:staff@example.test");
    assert_eq!(bulk_mail_actor(MailAudience::Admin, "a@b"), "admin:a@b");
    assert_eq!(BULK_MAIL_MAX_RECIPIENTS, 50_000);
    assert!(validate_bulk_mail(&BulkMailInput {
        subject: "Subject".to_string(),
        content: "Content".to_string(),
        filter: None,
    })
    .is_ok());
}
