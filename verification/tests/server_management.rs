use v2board_application::keyed_map::KeyedMap;
use v2board_application::server_management::{
    canonical_server_group_ids, delete_group_result, persistence_error, prepare_server_write,
    protocol_fields, stored_id, update_result, v2node_effective_tls, validate_group_name,
    validate_route_remarks, validate_server_port, DeleteGroupOutcome, RateInput,
    ServerColumnValue, ServerCredentialError, ServerCredentialProvisioner, ServerGroupReference,
    ServerInputViolation, ServerKind, ServerManagementError, ServerPersistenceOutcome,
    ServerSettingValue, ServerWriteInput, UpdateOutcome, WriteMode,
};

struct FakeCredentials;

impl ServerCredentialProvisioner for FakeCredentials {
    fn spec_tls_prepared(
        &self,
        _input: Option<ServerSettingValue>,
        _tls: i64,
        _v2node: bool,
        _out: ServerSettingValue,
    ) -> bool {
        unreachable!("a specification is never run")
    }

    fn spec_encryption_prepared(
        &self,
        _input: Option<ServerSettingValue>,
        _encryption: Option<vstd::seq::Seq<char>>,
        _v2node: bool,
        _out: ServerSettingValue,
    ) -> bool {
        unreachable!("a specification is never run")
    }

    fn spec_obfs_generated(&self, _now: i64, _out: vstd::seq::Seq<char>) -> bool {
        unreachable!("a specification is never run")
    }

    fn prepare_tls_settings(
        &self,
        input: Option<&ServerSettingValue>,
        _: i64,
        _: bool,
    ) -> Result<ServerSettingValue, ServerCredentialError> {
        Ok(match input {
            Some(_) => ServerSettingValue::String("given".into()),
            None => {
                let mut generated = KeyedMap::new();
                generated.insert("generated".into(), ServerSettingValue::Bool(true));
                ServerSettingValue::Object(generated)
            }
        })
    }

    fn prepare_encryption_settings(
        &self,
        _: Option<&ServerSettingValue>,
        _: Option<&str>,
        _: bool,
    ) -> Result<ServerSettingValue, ServerCredentialError> {
        Ok(ServerSettingValue::Object(KeyedMap::new()))
    }

    fn generate_obfs_password(&self, _: i64) -> Result<String, ServerCredentialError> {
        Ok("generated-password".into())
    }

    fn node_token(&self, kind: ServerKind, id: i32, epoch: i64) -> Option<String> {
        Some(format!("{}-{id}-{epoch}", kind.as_str()))
    }

    fn v2node_install_command(&self, id: i32, token: Option<&str>) -> String {
        format!("install {id} {}", token.unwrap_or_default())
    }
}

fn valid_server() -> ServerWriteInput {
    ServerWriteInput {
        group_id: Some(vec![3, 1, 3]),
        name: Some("edge".into()),
        rate: Some(RateInput::Finite("1".into())),
        host: Some("edge.test".into()),
        port: Some(443),
        server_port: Some(443),
        network: Some("tcp".into()),
        ..ServerWriteInput::default()
    }
}

#[test]
fn invalid_protocol_matrix_never_reaches_the_repository() {
    let mut input = valid_server();
    input.network = None;
    input.cipher = Some(Some("aes-128-gcm".into()));
    assert!(matches!(
        prepare_server_write(&FakeCredentials, ServerKind::Trojan, input, WriteMode::Create, 10),
        Err(ServerManagementError::InvalidInput(ServerInputViolation::UnsupportedField("cipher")))
    ));
}

#[test]
fn create_sends_canonical_group_locks_and_preserves_stored_order() {
    let mut input = valid_server();
    input.network = None;
    input.cipher = Some(Some("aes-128-gcm".into()));
    let write =
        prepare_server_write(&FakeCredentials, ServerKind::Shadowsocks, input, WriteMode::Create, 42)
            .unwrap();
    assert_eq!(write.group_ids, [1, 3]);
    assert_eq!(write.updated_at, 42);
    let stored_groups = write
        .values
        .iter()
        .find(|(column, _)| *column == "group_id")
        .map(|(_, value)| value)
        .unwrap();
    match stored_groups {
        ServerColumnValue::Structured(Some(ServerSettingValue::Array(items))) => {
            let numbers = items
                .iter()
                .map(|item| match item {
                    ServerSettingValue::Integer(value) => *value,
                    other => panic!("unexpected {other:?}"),
                })
                .collect::<Vec<_>>();
            assert_eq!(numbers, [3, 1, 3]);
        }
        other => panic!("unexpected {other:?}"),
    }
}

#[test]
fn creating_without_required_fields_names_the_first_missing_one() {
    let mut input = valid_server();
    input.group_id = None;
    assert!(matches!(
        prepare_server_write(&FakeCredentials, ServerKind::Vmess, input, WriteMode::Create, 1),
        Err(ServerManagementError::InvalidInput(ServerInputViolation::Required("group_id")))
    ));
    let mut input = valid_server();
    input.rate = Some(RateInput::NonFinite);
    assert!(matches!(
        prepare_server_write(&FakeCredentials, ServerKind::Vmess, input, WriteMode::Create, 1),
        Err(ServerManagementError::InvalidInput(ServerInputViolation::InvalidRate))
    ));
    let mut input = valid_server();
    input.port = Some(0);
    assert!(matches!(
        prepare_server_write(&FakeCredentials, ServerKind::Vmess, input, WriteMode::Create, 1),
        Err(ServerManagementError::InvalidInput(ServerInputViolation::InvalidPort("port")))
    ));
}

#[test]
fn a_patch_may_leave_everything_out() {
    let write = prepare_server_write(
        &FakeCredentials,
        ServerKind::Vmess,
        ServerWriteInput::default(),
        WriteMode::Patch,
        9,
    )
    .unwrap();
    assert!(write.group_ids.is_empty());
    assert!(!write.rotate_credential);
    assert_eq!(write.updated_at, 9);
}

#[test]
fn group_ids_are_required_positive_and_canonical() {
    assert_eq!(canonical_server_group_ids(&[]), Err(ServerInputViolation::Required("group_id")));
    assert_eq!(canonical_server_group_ids(&[0]), Err(ServerInputViolation::InvalidGroupId));
    assert_eq!(
        canonical_server_group_ids(&[i64::from(i32::MAX) + 1]),
        Err(ServerInputViolation::InvalidGroupId)
    );
    assert_eq!(canonical_server_group_ids(&[5, 2, 5, 9]), Ok(vec![2, 5, 9]));
}

#[test]
fn ports_and_names() {
    assert_eq!(validate_server_port(1, "port"), Ok(1));
    assert_eq!(validate_server_port(65_535, "port"), Ok(65_535));
    assert_eq!(
        validate_server_port(65_536, "server_port"),
        Err(ServerInputViolation::InvalidPort("server_port"))
    );
    assert!(validate_group_name("  ").is_err());
    assert!(validate_group_name(" a ").is_ok());
    assert!(matches!(
        validate_route_remarks(""),
        Err(ServerManagementError::InvalidInput(ServerInputViolation::EmptyRouteRemarks))
    ));
}

#[test]
fn v2node_protocols_force_tls_where_they_need_it() {
    assert_eq!(v2node_effective_tls(0, "anytls"), 1);
    assert_eq!(v2node_effective_tls(2, "anytls"), 2);
    assert_eq!(v2node_effective_tls(0, "trojan"), 1);
    assert_eq!(v2node_effective_tls(0, "vless"), 0);
    assert_eq!(v2node_effective_tls(2, "vmess"), 2);
}

#[test]
fn protocol_field_lists_start_with_the_common_fields() {
    let fields = protocol_fields(ServerKind::Shadowsocks);
    assert!(fields.contains(&"cipher"));
    assert!(!protocol_fields(ServerKind::Trojan).contains(&"cipher"));
}

#[test]
fn store_outcomes_map_to_management_errors() {
    assert!(matches!(stored_id(i64::from(i32::MAX) + 1, ServerManagementError::ServerNotFound), Err(ServerManagementError::ServerNotFound)));
    assert_eq!(stored_id(-4, ServerManagementError::RouteNotFound).unwrap(), -4);
    assert!(update_result(UpdateOutcome::Updated, ServerManagementError::RouteNotFound).is_ok());
    assert!(matches!(
        update_result(UpdateOutcome::NotFound, ServerManagementError::RouteNotFound),
        Err(ServerManagementError::RouteNotFound)
    ));
    assert!(matches!(
        delete_group_result(DeleteGroupOutcome::InUse(ServerGroupReference::Plan)),
        Err(ServerManagementError::ServerGroupInUse(ServerGroupReference::Plan))
    ));
    assert!(matches!(
        persistence_error(ServerPersistenceOutcome::ServerGroupNotFound),
        ServerManagementError::ServerGroupNotFound
    ));
    assert!(matches!(
        persistence_error(ServerPersistenceOutcome::Applied),
        ServerManagementError::ServerNotFound
    ));
}
