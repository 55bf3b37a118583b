use v2board_application::admin_order::{escape_like_pattern, OrderField, OrderFieldKind};

#[test]
fn field_vocabulary_and_like_escaping_are_closed() {
    assert_eq!(OrderField::from_name("trade_no"), Some(OrderField::TradeNo));
    assert_eq!(OrderField::TradeNo.kind(), OrderFieldKind::Text);
    assert_eq!(OrderField::PaidAt.kind(), OrderFieldKind::Timestamp);
    assert!(OrderField::from_name("raw_sql").is_none());
    assert_eq!(escape_like_pattern(r"a%b_c\d"), r"a\%b\_c\\d");
}

use v2board_application::admin_order::{AdminOrderService, AssignOrderInput, AssignOrderPolicy};
use v2board_application::admin_order::OrderNumberGenerator;

struct FixedGenerator;

impl OrderNumberGenerator for FixedGenerator {
    fn spec_issues(&self, _trade_no: vstd::seq::Seq<char>) -> bool {
        unreachable!("a specification is never run")
    }

    fn generate(&self) -> String {
        "fixed-trade".to_string()
    }
}

#[test]
fn assign_validates_and_builds_a_closed_command() {
    let service = AdminOrderService::new(
        (),
        (),
        FixedGenerator,
        AssignOrderPolicy { default_commission_rate: 12, commission_first_time_enable: true },
    );
    let command = service
        .assign_command(
            AssignOrderInput {
                email: "person@example.test".to_string(),
                plan_id: 3,
                period: " month_price ".to_string(),
                total_amount: Some(500),
            },
            20,
        )
        .unwrap();
    assert_eq!(command.trade_no, "fixed-trade");
    assert_eq!(command.period, "month_price");
    assert_eq!(command.total_amount, 500);
    assert_eq!(command.policy.default_commission_rate, 12);
}
