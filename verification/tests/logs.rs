use v2board_application::filter_dsl::{ColumnKind, FilterField};
use v2board_application::logs::{AuditLogField, SystemLogField};

#[test]
fn field_vocabularies_are_closed_to_their_text_columns() {
    assert_eq!(SystemLogField::parse("level"), Some(SystemLogField::Level));
    assert_eq!(SystemLogField::parse("other"), None);
    assert_eq!(SystemLogField::Level.kind(), ColumnKind::Text);
    assert_eq!(AuditLogField::parse("surface"), Some(AuditLogField::Surface));
    assert_eq!(AuditLogField::parse("raw_sql"), None);
    assert_eq!(AuditLogField::ActorEmail.name(), "actor_email");
}
