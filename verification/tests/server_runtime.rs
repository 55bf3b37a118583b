use v2board_application::server_management::ServerKind;
use v2board_application::server_runtime::{
    alive_counts_of, NodeCredentialVerifier, ServerMetric, ServerRuntimeService,
};

struct FakeCredentials;

impl NodeCredentialVerifier for FakeCredentials {
    fn spec_accepts(
        &self,
        _kind: ServerKind,
        _node_id: i32,
        _epoch: i64,
        _candidate: vstd::seq::Seq<char>,
    ) -> bool {
        unreachable!("a specification is never run")
    }

    fn verify(&self, kind: ServerKind, node_id: i32, epoch: i64, candidate: &str) -> bool {
        (kind, node_id, epoch, candidate) == (ServerKind::V2node, 7, 4, "ok")
    }
}

#[test]
fn authentication_is_bound_to_repository_epoch_and_identity() {
    let service = ServerRuntimeService::new((), (), FakeCredentials);
    assert!(service.authenticate_with_epoch(Some(4), ServerKind::V2node, 7, "ok"));
    assert!(!service.authenticate_with_epoch(Some(5), ServerKind::V2node, 7, "ok"));
    assert!(!service.authenticate_with_epoch(None, ServerKind::V2node, 7, "ok"));
}

#[test]
fn alive_counts_preserve_user_alignment_and_drop_cache_misses() {
    assert_eq!(alive_counts_of(&vec![7, 9], &vec![Some(2), None]).unwrap(), vec![(7, 2)]);
}

#[test]
fn a_misaligned_cache_answer_is_a_failure() {
    let error = alive_counts_of(&vec![7, 9], &vec![Some(2)]).unwrap_err();
    assert_eq!(error.operation(), "load alive user counts");
    assert!(alive_counts_of(&vec![], &vec![]).unwrap().is_empty());
    assert_eq!(
        alive_counts_of(&vec![1, 2, 3], &vec![None, Some(0), Some(5)]).unwrap(),
        vec![(2, 0), (3, 5)]
    );
}

#[test]
fn metric_keys_are_frozen() {
    assert_eq!(ServerMetric::OnlineUser.key_suffix(), "ONLINE_USER");
    assert_eq!(ServerMetric::LastCheckAt.key_suffix(), "LAST_CHECK_AT");
    assert_eq!(ServerMetric::LastPushAt.key_suffix(), "LAST_PUSH_AT");
}
