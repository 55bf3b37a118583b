use v2board_application::admin_order::{AdminOrderLifecycleError, AdminOrderLifecycleFailure};
use v2board_application::admin_user::{
    export_progress, AdminUserCode, AdminUserError, UserFilterField,
};
use v2board_application::auth::{AuthCode, AuthError};
use v2board_application::configuration::{ConfigurationCode, ConfigurationError};
use v2board_application::order::{OrderFailure, OrderPortError};
use v2board_application::payment::PaymentSecurityError;
use v2board_application::RepositoryError;

#[test]
fn configuration_errors_render_their_display_text() {
    let business =
        ConfigurationError::business_detail(ConfigurationCode::ConfigRevisionConflict, "stale");
    assert_eq!(business.rendered(), "configuration business error: ConfigRevisionConflict");
    assert_eq!(
        ConfigurationError::validation("app_url", "bad url").rendered(),
        "validation failed for app_url: bad url"
    );
    assert_eq!(
        ConfigurationError::Internal("down".to_string()).rendered(),
        "configuration internal error: down"
    );
}

#[test]
fn user_and_auth_errors_render_their_display_text() {
    assert_eq!(
        AdminUserError::validation("email", "taken").rendered(),
        "validation failed for email: taken"
    );
    assert_eq!(
        AdminUserError::business(AdminUserCode::PlanNotFound).rendered(),
        "admin user business error: PlanNotFound"
    );
    assert_eq!(
        AdminUserError::External("timeout".to_string()).rendered(),
        "admin user external adapter failed: timeout"
    );
    assert_eq!(
        AdminUserError::Repository(RepositoryError::new("load users", "gone")).rendered(),
        "load users failed: gone"
    );
    assert_eq!(
        AuthError::validation("password", "too short").rendered(),
        "validation failed for password: too short"
    );
    assert_eq!(
        AuthError::business(AuthCode::InvalidCredentials).rendered(),
        "authentication business error: InvalidCredentials"
    );
    assert_eq!(AuthError::Unauthorized.rendered(), "session is not authorized");
    assert_eq!(
        AuthError::Internal("clock".to_string()).rendered(),
        "authentication internal error: clock"
    );
}

#[test]
fn adapter_errors_render_operation_and_message() {
    let infra = OrderPortError::infrastructure("save order", "disk full");
    assert_eq!(infra.message(), "disk full");
    assert_eq!(infra.rendered(), "save order failed: disk full");
    let business =
        OrderPortError::business("create order", OrderFailure::PlanNotFound, "no such plan");
    assert_eq!(business.message(), "no such plan");
    assert_eq!(business.rendered(), "create order failed: no such plan");
    let security = PaymentSecurityError::new("seal", "bad key");
    assert_eq!(security.message(), "bad key");
    assert_eq!(security.rendered(), "payment security adapter failed during seal: bad key");
    let other = AdminOrderLifecycleError::new("cancel", "locked");
    assert_eq!(other.rendered(), "order lifecycle adapter failed during cancel: locked");
    let classified =
        AdminOrderLifecycleError::classified(AdminOrderLifecycleFailure::NotPending, "paid", 7);
    assert_eq!(classified.failure(), AdminOrderLifecycleFailure::NotPending);
    assert_eq!(classified.message(), "7");
    assert_eq!(classified.rendered(), "order lifecycle adapter failed during paid: 7");
}

#[test]
fn an_export_past_the_cap_and_one_past_the_counter_say_different_things() {
    assert_eq!(export_progress(49_000, 1_000).unwrap(), 50_000);
    match export_progress(49_000, 1_001) {
        Err(AdminUserError::Business { code: AdminUserCode::InvalidParameter, detail: Some(d) }) => {
            assert_eq!(d, "单次最多导出 50000 个用户，请缩小筛选范围")
        }
        other => panic!("{other:?}"),
    }
    match export_progress(usize::MAX, 1) {
        Err(AdminUserError::Business { code: AdminUserCode::InvalidParameter, detail: Some(d) }) => {
            assert_eq!(d, "导出用户数量超出支持范围，请缩小筛选范围")
        }
        other => panic!("{other:?}"),
    }
}

#[test]
fn filter_field_names_parse_back_and_are_distinct() {
    let fields = [
        UserFilterField::Id,
        UserFilterField::Email,
        UserFilterField::LastTrafficResetAt,
        UserFilterField::Uploaded,
        UserFilterField::Downloaded,
        UserFilterField::UpdatedAt,
    ];
    for f in fields {
        assert_eq!(UserFilterField::parse(f.name()), Some(f));
    }
    for f in fields {
        for g in fields {
            assert_eq!(f == g, f.name() == g.name());
        }
    }
    assert_eq!(UserFilterField::parse("raw_sql"), None);
}
