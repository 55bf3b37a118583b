//! Administrative user management: validation, scoping, bounded bulk
//! policies, projection shaping and post-commit session-revocation policy.
//! Persistence, hashing, link minting and CSV encoding are outer adapters;
//! the decisions between their calls are the functions of this module.
use vstd::prelude::*;

use crate::filter_dsl::{self, clause_ok, ColumnKind, FilterClause, FilterField, FilterViolation};
use crate::text::{chars_of, str_eq, to_owned, trim, trim_str, append_str_to};
use crate::RepositoryError;
use crate::system_monitoring::{has_name, insert_name, names_sorted};

pub use crate::filter_dsl::{
    ColumnKind as UserColumnKind, FilterOperator as UserFilterOperator,
    FilterValue as UserFilterValue,
};

verus! {

pub type UserFilterClause = FilterClause<UserFilterField>;

pub type UserFilterViolation = FilterViolation;

pub const USER_BULK_MAX_ROWS: usize = 10_000;

pub const USER_CSV_PAGE_SIZE: i64 = 500;

pub const USER_CSV_MAX_ROWS: usize = 50_000;

pub const GENERATED_USER_MAX_ROWS: usize = 500;

pub const GENERATED_EMAIL_ATTEMPT_FACTOR: usize = 32;

pub const GIB: i64 = 1_073_741_824;

pub type RepositoryResult<T> = Result<T, RepositoryError>;

#[derive(Clone, Copy, Debug, Eq, PartialEq, Structural)]
pub enum AdminUserCode {
    EmailAlreadyRegistered,
    InvalidParameter,
    PlanNotFound,
    PlanUnavailable,
    UserNotFound,
}

impl AdminUserCode {
    /// The code's variant name, as `{:?}` prints it.
    pub open spec fn spec_debug_name(self) -> Seq<char> {
        match self {
            AdminUserCode::EmailAlreadyRegistered => "EmailAlreadyRegistered"@,
            AdminUserCode::InvalidParameter => "InvalidParameter"@,
            AdminUserCode::PlanNotFound => "PlanNotFound"@,
            AdminUserCode::PlanUnavailable => "PlanUnavailable"@,
            AdminUserCode::UserNotFound => "UserNotFound"@,
        }
    }

    /// The code's variant name, as `{:?}` prints it.
    pub fn debug_name(self) -> (r: &'static str)
        ensures
            r@ == self.spec_debug_name(),
    {
        match self {
            AdminUserCode::EmailAlreadyRegistered => "EmailAlreadyRegistered",
            AdminUserCode::InvalidParameter => "InvalidParameter",
            AdminUserCode::PlanNotFound => "PlanNotFound",
            AdminUserCode::PlanUnavailable => "PlanUnavailable",
            AdminUserCode::UserNotFound => "UserNotFound",
        }
    }
}

#[derive(Debug)]
pub enum AdminUserError {
    Validation { field: String, message: String },
    Business { code: AdminUserCode, detail: Option<String> },
    External(String),
    Repository(RepositoryError),
}

impl AdminUserError {
    /// The error as text; a repository failure renders as itself.
    pub open spec fn spec_rendered(self) -> Seq<char> {
        match self {
            AdminUserError::Validation { field, message } => "validation failed for "@ + field@
                + ": "@ + message@,
            AdminUserError::Business { code, .. } => "admin user business error: "@
                + code.spec_debug_name(),
            AdminUserError::External(m) => "admin user external adapter failed: "@ + m@,
            AdminUserError::Repository(e) => e.spec_operation()@ + " failed: "@ + e.spec_message(),
        }
    }

    /// The error as text: what the error reports to an operator.
    pub fn rendered(&self) -> (r: String)
        ensures
            r@ == self.spec_rendered(),
    {
        match self {
            AdminUserError::Validation { field, message } => {
                let mut text = to_owned("validation failed for ");
                append_str_to(&mut text, field.as_str());
                append_str_to(&mut text, ": ");
                append_str_to(&mut text, message.as_str());
                text
            },
            AdminUserError::Business { code, .. } => {
                let mut text = to_owned("admin user business error: ");
                append_str_to(&mut text, code.debug_name());
                text
            },
            AdminUserError::External(m) => {
                let mut text = to_owned("admin user external adapter failed: ");
                append_str_to(&mut text, m.as_str());
                text
            },
            AdminUserError::Repository(e) => e.rendered(),
        }
    }

    pub open spec fn is_validation(self, field: Seq<char>, message: Seq<char>) -> bool {
        self matches AdminUserError::Validation { field: f, message: m } && f@ == field && m@
            == message
    }

    pub open spec fn is_business(self, code: AdminUserCode) -> bool {
        self matches AdminUserError::Business { code: c, detail: None } && c == code
    }

    pub fn validation(field: &str, message: &str) -> (r: Self)
        ensures
            r.is_validation(field@, message@),
    {
        Self::Validation { field: to_owned(field), message: to_owned(message) }
    }

    pub fn business(code: AdminUserCode) -> (r: Self)
        ensures
            r.is_business(code),
    {
        Self::Business { code, detail: None }
    }

    pub fn business_detail(code: AdminUserCode, detail: &str) -> (r: Self)
        ensures
            r matches AdminUserError::Business { code: c, detail: Some(d) } && c == code && d@
                == detail@,
    {
        Self::Business { code, detail: Some(to_owned(detail)) }
    }
}

#[derive(Clone, Debug, Eq, PartialEq)]
pub struct AdminUser {
    pub id: i64,
    pub email: String,
    pub balance: i32,
    pub commission_balance: i32,
    pub transfer_enable: i64,
    pub device_limit: Option<i32>,
    pub uploaded: i64,
    pub downloaded: i64,
    pub plan_id: Option<i32>,
    pub plan_name: Option<String>,
    pub group_id: Option<i32>,
    pub expired_at: Option<i64>,
    pub uuid: String,
    pub token: String,
    pub banned: bool,
    pub is_admin: bool,
    pub is_staff: bool,
    pub admin_permissions: Vec<String>,
    pub invite_user_id: Option<i64>,
    pub discount: Option<i32>,
    pub commission_type: i16,
    pub commission_rate: Option<i32>,
    pub speed_limit: Option<i32>,
    pub auto_renewal: Option<bool>,
    pub remind_expire: Option<bool>,
    pub remind_traffic: Option<bool>,
    pub remarks: Option<String>,
    pub telegram_id: Option<i64>,
    pub last_login_at: Option<i64>,
    pub created_at: i64,
    pub updated_at: i64,
}

#[derive(Clone, Debug, Eq, PartialEq)]
pub struct AdminUserListItem {
    pub user: AdminUser,
    pub total_used: u64,
    pub alive_ip: i64,
    pub ips: String,
    pub subscribe_url: String,
}

/// Traffic used: uploaded plus downloaded, negative counters read as zero,
/// saturating at `u64::MAX`.
pub open spec fn total_used(uploaded: i64, downloaded: i64) -> u64 {
    let u: int = if uploaded < 0 {
        0
    } else {
        uploaded as int
    };
    let d: int = if downloaded < 0 {
        0
    } else {
        downloaded as int
    };
    if u + d > u64::MAX {
        u64::MAX
    } else {
        (u + d) as u64
    }
}

impl AdminUserListItem {
    /// Projects a repository row, computing its used traffic; the enrichment
    /// fields start empty for the external adapter to fill.
    pub fn from_user(user: AdminUser) -> (r: Self)
        ensures
            r.user == user,
            r.total_used == total_used(user.uploaded, user.downloaded),
            r.alive_ip == 0,
            r.ips@.len() == 0,
            r.subscribe_url@.len() == 0,
    {
        let uploaded: u64 = if user.uploaded < 0 {
            0
        } else {
            user.uploaded as u64
        };
        let downloaded: u64 = if user.downloaded < 0 {
            0
        } else {
            user.downloaded as u64
        };
        let total_used = uploaded.saturating_add(downloaded);
        Self { user, total_used, alive_ip: 0, ips: String::new(), subscribe_url: String::new() }
    }
}

#[derive(Clone, Debug, Eq, PartialEq)]
pub struct AdminInviter {
    pub id: i64,
    pub email: String,
}

#[derive(Clone, Debug, Eq, PartialEq)]
pub struct AdminUserDetailRecord {
    pub user: AdminUser,
    pub inviter: Option<AdminInviter>,
}

#[derive(Clone, Debug, Eq, PartialEq)]
pub struct AdminUserDetail {
    pub user: AdminUserListItem,
    pub inviter: Option<AdminInviter>,
}

#[derive(Clone, Debug, Eq, PartialEq)]
pub struct StaffUserDetail {
    pub user: AdminUserListItem,
}

#[derive(Clone, Debug, Eq, PartialEq)]
pub struct AdminUserPage {
    pub items: Vec<AdminUserListItem>,
    pub total: i64,
}

#[derive(Clone, Copy, Debug, Eq, PartialEq, Structural)]
pub enum UserFilterField {
    Id,
    Email,
    TelegramId,
    Balance,
    Discount,
    CommissionType,
    CommissionRate,
    CommissionBalance,
    LastTrafficResetAt,
    Uploaded,
    Downloaded,
    TransferEnable,
    DeviceLimit,
    Banned,
    IsAdmin,
    IsStaff,
    LastLoginAt,
    Uuid,
    GroupId,
    PlanId,
    SpeedLimit,
    Token,
    ExpiredAt,
    Remarks,
    InviteUserId,
    CreatedAt,
    UpdatedAt,
}

pub open spec fn user_field_kind(field: UserFilterField) -> ColumnKind {
    match field {
        UserFilterField::Email => ColumnKind::Email,
        UserFilterField::Banned | UserFilterField::IsAdmin | UserFilterField::IsStaff => {
            ColumnKind::Boolean
        },
        UserFilterField::Uuid | UserFilterField::Token | UserFilterField::Remarks => {
            ColumnKind::Text
        },
        UserFilterField::LastLoginAt | UserFilterField::ExpiredAt | UserFilterField::CreatedAt
        | UserFilterField::UpdatedAt => ColumnKind::Timestamp,
        _ => ColumnKind::Integer,
    }
}

pub open spec fn user_field_name(field: UserFilterField) -> Seq<char> {
    match field {
        UserFilterField::Id => "id"@,
        UserFilterField::Email => "email"@,
        UserFilterField::TelegramId => "telegram_id"@,
        UserFilterField::Balance => "balance"@,
        UserFilterField::Discount => "discount"@,
        UserFilterField::CommissionType => "commission_type"@,
        UserFilterField::CommissionRate => "commission_rate"@,
        UserFilterField::CommissionBalance => "commission_balance"@,
        UserFilterField::LastTrafficResetAt => "t"@,
        UserFilterField::Uploaded => "u"@,
        UserFilterField::Downloaded => "d"@,
        UserFilterField::TransferEnable => "transfer_enable"@,
        UserFilterField::DeviceLimit => "device_limit"@,
        UserFilterField::Banned => "banned"@,
        UserFilterField::IsAdmin => "is_admin"@,
        UserFilterField::IsStaff => "is_staff"@,
        UserFilterField::LastLoginAt => "last_login_at"@,
        UserFilterField::Uuid => "uuid"@,
        UserFilterField::GroupId => "group_id"@,
        UserFilterField::PlanId => "plan_id"@,
        UserFilterField::SpeedLimit => "speed_limit"@,
        UserFilterField::Token => "token"@,
        UserFilterField::ExpiredAt => "expired_at"@,
        UserFilterField::Remarks => "remarks"@,
        UserFilterField::InviteUserId => "invite_user_id"@,
        UserFilterField::CreatedAt => "created_at"@,
        UserFilterField::UpdatedAt => "updated_at"@,
    }
}

pub open spec fn user_field_parse(name: Seq<char>) -> Option<UserFilterField> {
    if name == "id"@ {
        Some(UserFilterField::Id)
    } else if name == "email"@ {
        Some(UserFilterField::Email)
    } else if name == "telegram_id"@ {
        Some(UserFilterField::TelegramId)
    } else if name == "balance"@ {
        Some(UserFilterField::Balance)
    } else if name == "discount"@ {
        Some(UserFilterField::Discount)
    } else if name == "commission_type"@ {
        Some(UserFilterField::CommissionType)
    } else if name == "commission_rate"@ {
        Some(UserFilterField::CommissionRate)
    } else if name == "commission_balance"@ {
        Some(UserFilterField::CommissionBalance)
    } else if name == "t"@ {
        Some(UserFilterField::LastTrafficResetAt)
    } else if name == "u"@ {
        Some(UserFilterField::Uploaded)
    } else if name == "d"@ {
        Some(UserFilterField::Downloaded)
    } else if name == "transfer_enable"@ {
        Some(UserFilterField::TransferEnable)
    } else if name == "device_limit"@ {
        Some(UserFilterField::DeviceLimit)
    } else if name == "banned"@ {
        Some(UserFilterField::Banned)
    } else if name == "is_admin"@ {
        Some(UserFilterField::IsAdmin)
    } else if name == "is_staff"@ {
        Some(UserFilterField::IsStaff)
    } else if name == "last_login_at"@ {
        Some(UserFilterField::LastLoginAt)
    } else if name == "uuid"@ {
        Some(UserFilterField::Uuid)
    } else if name == "group_id"@ {
        Some(UserFilterField::GroupId)
    } else if name == "plan_id"@ {
        Some(UserFilterField::PlanId)
    } else if name == "speed_limit"@ {
        Some(UserFilterField::SpeedLimit)
    } else if name == "token"@ {
        Some(UserFilterField::Token)
    } else if name == "expired_at"@ {
        Some(UserFilterField::ExpiredAt)
    } else if name == "remarks"@ {
        Some(UserFilterField::Remarks)
    } else if name == "invite_user_id"@ {
        Some(UserFilterField::InviteUserId)
    } else if name == "created_at"@ {
        Some(UserFilterField::CreatedAt)
    } else if name == "updated_at"@ {
        Some(UserFilterField::UpdatedAt)
    } else {
        None
    }
}

/// Parsing a field's name gives the field back.
pub proof fn law_filter_field_name_parses_back(field: UserFilterField)
    ensures
        user_field_parse(user_field_name(field)) == Some(field),
{
    reveal_strlit("id");
    reveal_strlit("email");
    reveal_strlit("telegram_id");
    reveal_strlit("balance");
    reveal_strlit("discount");
    reveal_strlit("commission_type");
    reveal_strlit("commission_rate");
    reveal_strlit("commission_balance");
    reveal_strlit("t");
    reveal_strlit("u");
    reveal_strlit("d");
    reveal_strlit("transfer_enable");
    reveal_strlit("device_limit");
    reveal_strlit("banned");
    reveal_strlit("is_admin");
    reveal_strlit("is_staff");
    reveal_strlit("last_login_at");
    reveal_strlit("uuid");
    reveal_strlit("group_id");
    reveal_strlit("plan_id");
    reveal_strlit("speed_limit");
    reveal_strlit("token");
    reveal_strlit("expired_at");
    reveal_strlit("remarks");
    reveal_strlit("invite_user_id");
    reveal_strlit("created_at");
    reveal_strlit("updated_at");
    match field {
        UserFilterField::Id => {
            assert(user_field_parse(user_field_name(UserFilterField::Id)) == Some(UserFilterField::Id));
        },
        UserFilterField::Email => {
            assert("email"@.len() != "id"@.len());
            assert(user_field_parse(user_field_name(UserFilterField::Email)) == Some(UserFilterField::Email));
        },
        UserFilterField::TelegramId => {
            assert("telegram_id"@.len() != "id"@.len());
            assert("telegram_id"@.len() != "email"@.len());
            assert(user_field_parse(user_field_name(UserFilterField::TelegramId)) == Some(UserFilterField::TelegramId));
        },
        UserFilterField::Balance => {
            assert("balance"@.len() != "id"@.len());
            assert("balance"@.len() != "email"@.len());
            assert("balance"@.len() != "telegram_id"@.len());
            assert(user_field_parse(user_field_name(UserFilterField::Balance)) == Some(UserFilterField::Balance));
        },
        UserFilterField::Discount => {
            assert("discount"@.len() != "id"@.len());
            assert("discount"@.len() != "email"@.len());
            assert("discount"@.len() != "telegram_id"@.len());
            assert("discount"@.len() != "balance"@.len());
            assert(user_field_parse(user_field_name(UserFilterField::Discount)) == Some(UserFilterField::Discount));
        },
        UserFilterField::CommissionType => {
            assert("commission_type"@.len() != "id"@.len());
            assert("commission_type"@.len() != "email"@.len());
            assert("commission_type"@.len() != "telegram_id"@.len());
            assert("commission_type"@.len() != "balance"@.len());
            assert("commission_type"@.len() != "discount"@.len());
            assert(user_field_parse(user_field_name(UserFilterField::CommissionType)) == Some(UserFilterField::CommissionType));
        },
        UserFilterField::CommissionRate => {
            assert("commission_rate"@.len() != "id"@.len());
            assert("commission_rate"@.len() != "email"@.len());
            assert("commission_rate"@.len() != "telegram_id"@.len());
            assert("commission_rate"@.len() != "balance"@.len());
            assert("commission_rate"@.len() != "discount"@.len());
            assert("commission_rate"@[11] != "commission_type"@[11]);
            assert(user_field_parse(user_field_name(UserFilterField::CommissionRate)) == Some(UserFilterField::CommissionRate));
        },
        UserFilterField::CommissionBalance => {
            assert("commission_balance"@.len() != "id"@.len());
            assert("commission_balance"@.len() != "email"@.len());
            assert("commission_balance"@.len() != "telegram_id"@.len());
            assert("commission_balance"@.len() != "balance"@.len());
            assert("commission_balance"@.len() != "discount"@.len());
            assert("commission_balance"@.len() != "commission_type"@.len());
            assert("commission_balance"@.len() != "commission_rate"@.len());
            assert(user_field_parse(user_field_name(UserFilterField::CommissionBalance)) == Some(UserFilterField::CommissionBalance));
        },
        UserFilterField::LastTrafficResetAt => {
            assert("t"@.len() != "id"@.len());
            assert("t"@.len() != "email"@.len());
            assert("t"@.len() != "telegram_id"@.len());
            assert("t"@.len() != "balance"@.len());
            assert("t"@.len() != "discount"@.len());
            assert("t"@.len() != "commission_type"@.len());
            assert("t"@.len() != "commission_rate"@.len());
            assert("t"@.len() != "commission_balance"@.len());
            assert(user_field_parse(user_field_name(UserFilterField::LastTrafficResetAt)) == Some(UserFilterField::LastTrafficResetAt));
        },
        UserFilterField::Uploaded => {
            assert("u"@.len() != "id"@.len());
            assert("u"@.len() != "email"@.len());
            assert("u"@.len() != "telegram_id"@.len());
            assert("u"@.len() != "balance"@.len());
            assert("u"@.len() != "discount"@.len());
            assert("u"@.len() != "commission_type"@.len());
            assert("u"@.len() != "commission_rate"@.len());
            assert("u"@.len() != "commission_balance"@.len());
            assert("u"@[0] != "t"@[0]);
            assert(user_field_parse(user_field_name(UserFilterField::Uploaded)) == Some(UserFilterField::Uploaded));
        },
        UserFilterField::Downloaded => {
            assert("d"@.len() != "id"@.len());
            assert("d"@.len() != "email"@.len());
            assert("d"@.len() != "telegram_id"@.len());
            assert("d"@.len() != "balance"@.len());
            assert("d"@.len() != "discount"@.len());
            assert("d"@.len() != "commission_type"@.len());
            assert("d"@.len() != "commission_rate"@.len());
            assert("d"@.len() != "commission_balance"@.len());
            assert("d"@[0] != "t"@[0]);
            assert("d"@[0] != "u"@[0]);
            assert(user_field_parse(user_field_name(UserFilterField::Downloaded)) == Some(UserFilterField::Downloaded));
        },
        UserFilterField::TransferEnable => {
            assert("transfer_enable"@.len() != "id"@.len());
            assert("transfer_enable"@.len() != "email"@.len());
            assert("transfer_enable"@.len() != "telegram_id"@.len());
            assert("transfer_enable"@.len() != "balance"@.len());
            assert("transfer_enable"@.len() != "discount"@.len());
            assert("transfer_enable"@[0] != "commission_type"@[0]);
            assert("transfer_enable"@[0] != "commission_rate"@[0]);
            assert("transfer_enable"@.len() != "commission_balance"@.len());
            assert("transfer_enable"@.len() != "t"@.len());
            assert("transfer_enable"@.len() != "u"@.len());
            assert("transfer_enable"@.len() != "d"@.len());
            assert(user_field_parse(user_field_name(UserFilterField::TransferEnable)) == Some(UserFilterField::TransferEnable));
        },
        UserFilterField::DeviceLimit => {
            assert("device_limit"@.len() != "id"@.len());
            assert("device_limit"@.len() != "email"@.len());
            assert("device_limit"@.len() != "telegram_id"@.len());
            assert("device_limit"@.len() != "balance"@.len());
            assert("device_limit"@.len() != "discount"@.len());
            assert("device_limit"@.len() != "commission_type"@.len());
            assert("device_limit"@.len() != "commission_rate"@.len());
            assert("device_limit"@.len() != "commission_balance"@.len());
            assert("device_limit"@.len() != "t"@.len());
            assert("device_limit"@.len() != "u"@.len());
            assert("device_limit"@.len() != "d"@.len());
            assert("device_limit"@.len() != "transfer_enable"@.len());
            assert(user_field_parse(user_field_name(UserFilterField::DeviceLimit)) == Some(UserFilterField::DeviceLimit));
        },
        UserFilterField::Banned => {
            assert("banned"@.len() != "id"@.len());
            assert("banned"@.len() != "email"@.len());
            assert("banned"@.len() != "telegram_id"@.len());
            assert("banned"@.len() != "balance"@.len());
            assert("banned"@.len() != "discount"@.len());
            assert("banned"@.len() != "commission_type"@.len());
            assert("banned"@.len() != "commission_rate"@.len());
            assert("banned"@.len() != "commission_balance"@.len());
            assert("banned"@.len() != "t"@.len());
            assert("banned"@.len() != "u"@.len());
            assert("banned"@.len() != "d"@.len());
            assert("banned"@.len() != "transfer_enable"@.len());
            assert("banned"@.len() != "device_limit"@.len());
            assert(user_field_parse(user_field_name(UserFilterField::Banned)) == Some(UserFilterField::Banned));
        },
        UserFilterField::IsAdmin => {
            assert("is_admin"@.len() != "id"@.len());
            assert("is_admin"@.len() != "email"@.len());
            assert("is_admin"@.len() != "telegram_id"@.len());
            assert("is_admin"@.len() != "balance"@.len());
            assert("is_admin"@[0] != "discount"@[0]);
            assert("is_admin"@.len() != "commission_type"@.len());
            assert("is_admin"@.len() != "commission_rate"@.len());
            assert("is_admin"@.len() != "commission_balance"@.len());
            assert("is_admin"@.len() != "t"@.len());
            assert("is_admin"@.len() != "u"@.len());
            assert("is_admin"@.len() != "d"@.len());
            assert("is_admin"@.len() != "transfer_enable"@.len());
            assert("is_admin"@.len() != "device_limit"@.len());
            assert("is_admin"@.len() != "banned"@.len());
            assert(user_field_parse(user_field_name(UserFilterField::IsAdmin)) == Some(UserFilterField::IsAdmin));
        },
        UserFilterField::IsStaff => {
            assert("is_staff"@.len() != "id"@.len());
            assert("is_staff"@.len() != "email"@.len());
            assert("is_staff"@.len() != "telegram_id"@.len());
            assert("is_staff"@.len() != "balance"@.len());
            assert("is_staff"@[0] != "discount"@[0]);
            assert("is_staff"@.len() != "commission_type"@.len());
            assert("is_staff"@.len() != "commission_rate"@.len());
            assert("is_staff"@.len() != "commission_balance"@.len());
            assert("is_staff"@.len() != "t"@.len());
            assert("is_staff"@.len() != "u"@.len());
            assert("is_staff"@.len() != "d"@.len());
            assert("is_staff"@.len() != "transfer_enable"@.len());
            assert("is_staff"@.len() != "device_limit"@.len());
            assert("is_staff"@.len() != "banned"@.len());
            assert("is_staff"@[3] != "is_admin"@[3]);
            assert(user_field_parse(user_field_name(UserFilterField::IsStaff)) == Some(UserFilterField::IsStaff));
        },
        UserFilterField::LastLoginAt => {
            assert("last_login_at"@.len() != "id"@.len());
            assert("last_login_at"@.len() != "email"@.len());
            assert("last_login_at"@.len() != "telegram_id"@.len());
            assert("last_login_at"@.len() != "balance"@.len());
            assert("last_login_at"@.len() != "discount"@.len());
            assert("last_login_at"@.len() != "commission_type"@.len());
            assert("last_login_at"@.len() != "commission_rate"@.len());
            assert("last_login_at"@.len() != "commission_balance"@.len());
            assert("last_login_at"@.len() != "t"@.len());
            assert("last_login_at"@.len() != "u"@.len());
            assert("last_login_at"@.len() != "d"@.len());
            assert("last_login_at"@.len() != "transfer_enable"@.len());
            assert("last_login_at"@.len() != "device_limit"@.len());
            assert("last_login_at"@.len() != "banned"@.len());
            assert("last_login_at"@.len() != "is_admin"@.len());
            assert("last_login_at"@.len() != "is_staff"@.len());
            assert(user_field_parse(user_field_name(UserFilterField::LastLoginAt)) == Some(UserFilterField::LastLoginAt));
        },
        UserFilterField::Uuid => {
            assert("uuid"@.len() != "id"@.len());
            assert("uuid"@.len() != "email"@.len());
            assert("uuid"@.len() != "telegram_id"@.len());
            assert("uuid"@.len() != "balance"@.len());
            assert("uuid"@.len() != "discount"@.len());
            assert("uuid"@.len() != "commission_type"@.len());
            assert("uuid"@.len() != "commission_rate"@.len());
            assert("uuid"@.len() != "commission_balance"@.len());
            assert("uuid"@.len() != "t"@.len());
            assert("uuid"@.len() != "u"@.len());
            assert("uuid"@.len() != "d"@.len());
            assert("uuid"@.len() != "transfer_enable"@.len());
            assert("uuid"@.len() != "device_limit"@.len());
            assert("uuid"@.len() != "banned"@.len());
            assert("uuid"@.len() != "is_admin"@.len());
            assert("uuid"@.len() != "is_staff"@.len());
            assert("uuid"@.len() != "last_login_at"@.len());
            assert(user_field_parse(user_field_name(UserFilterField::Uuid)) == Some(UserFilterField::Uuid));
        },
        UserFilterField::GroupId => {
            assert("group_id"@.len() != "id"@.len());
            assert("group_id"@.len() != "email"@.len());
            assert("group_id"@.len() != "telegram_id"@.len());
            assert("group_id"@.len() != "balance"@.len());
            assert("group_id"@[0] != "discount"@[0]);
            assert("group_id"@.len() != "commission_type"@.len());
            assert("group_id"@.len() != "commission_rate"@.len());
            assert("group_id"@.len() != "commission_balance"@.len());
            assert("group_id"@.len() != "t"@.len());
            assert("group_id"@.len() != "u"@.len());
            assert("group_id"@.len() != "d"@.len());
            assert("group_id"@.len() != "transfer_enable"@.len());
            assert("group_id"@.len() != "device_limit"@.len());
            assert("group_id"@.len() != "banned"@.len());
            assert("group_id"@[0] != "is_admin"@[0]);
            assert("group_id"@[0] != "is_staff"@[0]);
            assert("group_id"@.len() != "last_login_at"@.len());
            assert("group_id"@.len() != "uuid"@.len());
            assert(user_field_parse(user_field_name(UserFilterField::GroupId)) == Some(UserFilterField::GroupId));
        },
        UserFilterField::PlanId => {
            assert("plan_id"@.len() != "id"@.len());
            assert("plan_id"@.len() != "email"@.len());
            assert("plan_id"@.len() != "telegram_id"@.len());
            assert("plan_id"@[0] != "balance"@[0]);
            assert("plan_id"@.len() != "discount"@.len());
            assert("plan_id"@.len() != "commission_type"@.len());
            assert("plan_id"@.len() != "commission_rate"@.len());
            assert("plan_id"@.len() != "commission_balance"@.len());
            assert("plan_id"@.len() != "t"@.len());
            assert("plan_id"@.len() != "u"@.len());
            assert("plan_id"@.len() != "d"@.len());
            assert("plan_id"@.len() != "transfer_enable"@.len());
            assert("plan_id"@.len() != "device_limit"@.len());
            assert("plan_id"@.len() != "banned"@.len());
            assert("plan_id"@.len() != "is_admin"@.len());
            assert("plan_id"@.len() != "is_staff"@.len());
            assert("plan_id"@.len() != "last_login_at"@.len());
            assert("plan_id"@.len() != "uuid"@.len());
            assert("plan_id"@.len() != "group_id"@.len());
            assert(user_field_parse(user_field_name(UserFilterField::PlanId)) == Some(UserFilterField::PlanId));
        },
        UserFilterField::SpeedLimit => {
            assert("speed_limit"@.len() != "id"@.len());
            assert("speed_limit"@.len() != "email"@.len());
            assert("speed_limit"@[0] != "telegram_id"@[0]);
            assert("speed_limit"@.len() != "balance"@.len());
            assert("speed_limit"@.len() != "discount"@.len());
            assert("speed_limit"@.len() != "commission_type"@.len());
            assert("speed_limit"@.len() != "commission_rate"@.len());
            assert("speed_limit"@.len() != "commission_balance"@.len());
            assert("speed_limit"@.len() != "t"@.len());
            assert("speed_limit"@.len() != "u"@.len());
            assert("speed_limit"@.len() != "d"@.len());
            assert("speed_limit"@.len() != "transfer_enable"@.len());
            assert("speed_limit"@.len() != "device_limit"@.len());
            assert("speed_limit"@.len() != "banned"@.len());
            assert("speed_limit"@.len() != "is_admin"@.len());
            assert("speed_limit"@.len() != "is_staff"@.len());
            assert("speed_limit"@.len() != "last_login_at"@.len());
            assert("speed_limit"@.len() != "uuid"@.len());
            assert("speed_limit"@.len() != "group_id"@.len());
            assert("speed_limit"@.len() != "plan_id"@.len());
            assert(user_field_parse(user_field_name(UserFilterField::SpeedLimit)) == Some(UserFilterField::SpeedLimit));
        },
        UserFilterField::Token => {
            assert("token"@.len() != "id"@.len());
            assert("token"@[0] != "email"@[0]);
            assert("token"@.len() != "telegram_id"@.len());
            assert("token"@.len() != "balance"@.len());
            assert("token"@.len() != "discount"@.len());
            assert("token"@.len() != "commission_type"@.len());
            assert("token"@.len() != "commission_rate"@.len());
            assert("token"@.len() != "commission_balance"@.len());
            assert("token"@.len() != "t"@.len());
            assert("token"@.len() != "u"@.len());
            assert("token"@.len() != "d"@.len());
            assert("token"@.len() != "transfer_enable"@.len());
            assert("token"@.len() != "device_limit"@.len());
            assert("token"@.len() != "banned"@.len());
            assert("token"@.len() != "is_admin"@.len());
            assert("token"@.len() != "is_staff"@.len());
            assert("token"@.len() != "last_login_at"@.len());
            assert("token"@.len() != "uuid"@.len());
            assert("token"@.len() != "group_id"@.len());
            assert("token"@.len() != "plan_id"@.len());
            assert("token"@.len() != "speed_limit"@.len());
            assert(user_field_parse(user_field_name(UserFilterField::Token)) == Some(UserFilterField::Token));
        },
        UserFilterField::ExpiredAt => {
            assert("expired_at"@.len() != "id"@.len());
            assert("expired_at"@.len() != "email"@.len());
            assert("expired_at"@.len() != "telegram_id"@.len());
            assert("expired_at"@.len() != "balance"@.len());
            assert("expired_at"@.len() != "discount"@.len());
            assert("expired_at"@.len() != "commission_type"@.len());
            assert("expired_at"@.len() != "commission_rate"@.len());
            assert("expired_at"@.len() != "commission_balance"@.len());
            assert("expired_at"@.len() != "t"@.len());
            assert("expired_at"@.len() != "u"@.len());
            assert("expired_at"@.len() != "d"@.len());
            assert("expired_at"@.len() != "transfer_enable"@.len());
            assert("expired_at"@.len() != "device_limit"@.len());
            assert("expired_at"@.len() != "banned"@.len());
            assert("expired_at"@.len() != "is_admin"@.len());
            assert("expired_at"@.len() != "is_staff"@.len());
            assert("expired_at"@.len() != "last_login_at"@.len());
            assert("expired_at"@.len() != "uuid"@.len());
            assert("expired_at"@.len() != "group_id"@.len());
            assert("expired_at"@.len() != "plan_id"@.len());
            assert("expired_at"@.len() != "speed_limit"@.len());
            assert("expired_at"@.len() != "token"@.len());
            assert(user_field_parse(user_field_name(UserFilterField::ExpiredAt)) == Some(UserFilterField::ExpiredAt));
        },
        UserFilterField::Remarks => {
            assert("remarks"@.len() != "id"@.len());
            assert("remarks"@.len() != "email"@.len());
            assert("remarks"@.len() != "telegram_id"@.len());
            assert("remarks"@[0] != "balance"@[0]);
            assert("remarks"@.len() != "discount"@.len());
            assert("remarks"@.len() != "commission_type"@.len());
            assert("remarks"@.len() != "commission_rate"@.len());
            assert("remarks"@.len() != "commission_balance"@.len());
            assert("remarks"@.len() != "t"@.len());
            assert("remarks"@.len() != "u"@.len());
            assert("remarks"@.len() != "d"@.len());
            assert("remarks"@.len() != "transfer_enable"@.len());
            assert("remarks"@.len() != "device_limit"@.len());
            assert("remarks"@.len() != "banned"@.len());
            assert("remarks"@.len() != "is_admin"@.len());
            assert("remarks"@.len() != "is_staff"@.len());
            assert("remarks"@.len() != "last_login_at"@.len());
            assert("remarks"@.len() != "uuid"@.len());
            assert("remarks"@.len() != "group_id"@.len());
            assert("remarks"@[0] != "plan_id"@[0]);
            assert("remarks"@.len() != "speed_limit"@.len());
            assert("remarks"@.len() != "token"@.len());
            assert("remarks"@.len() != "expired_at"@.len());
            assert(user_field_parse(user_field_name(UserFilterField::Remarks)) == Some(UserFilterField::Remarks));
        },
        UserFilterField::InviteUserId => {
            assert("invite_user_id"@.len() != "id"@.len());
            assert("invite_user_id"@.len() != "email"@.len());
            assert("invite_user_id"@.len() != "telegram_id"@.len());
            assert("invite_user_id"@.len() != "balance"@.len());
            assert("invite_user_id"@.len() != "discount"@.len());
            assert("invite_user_id"@.len() != "commission_type"@.len());
            assert("invite_user_id"@.len() != "commission_rate"@.len());
            assert("invite_user_id"@.len() != "commission_balance"@.len());
            assert("invite_user_id"@.len() != "t"@.len());
            assert("invite_user_id"@.len() != "u"@.len());
            assert("invite_user_id"@.len() != "d"@.len());
            assert("invite_user_id"@.len() != "transfer_enable"@.len());
            assert("invite_user_id"@.len() != "device_limit"@.len());
            assert("invite_user_id"@.len() != "banned"@.len());
            assert("invite_user_id"@.len() != "is_admin"@.len());
            assert("invite_user_id"@.len() != "is_staff"@.len());
            assert("invite_user_id"@.len() != "last_login_at"@.len());
            assert("invite_user_id"@.len() != "uuid"@.len());
            assert("invite_user_id"@.len() != "group_id"@.len());
            assert("invite_user_id"@.len() != "plan_id"@.len());
            assert("invite_user_id"@.len() != "speed_limit"@.len());
            assert("invite_user_id"@.len() != "token"@.len());
            assert("invite_user_id"@.len() != "expired_at"@.len());
            assert("invite_user_id"@.len() != "remarks"@.len());
            assert(user_field_parse(user_field_name(UserFilterField::InviteUserId)) == Some(UserFilterField::InviteUserId));
        },
        UserFilterField::CreatedAt => {
            assert("created_at"@.len() != "id"@.len());
            assert("created_at"@.len() != "email"@.len());
            assert("created_at"@.len() != "telegram_id"@.len());
            assert("created_at"@.len() != "balance"@.len());
            assert("created_at"@.len() != "discount"@.len());
            assert("created_at"@.len() != "commission_type"@.len());
            assert("created_at"@.len() != "commission_rate"@.len());
            assert("created_at"@.len() != "commission_balance"@.len());
            assert("created_at"@.len() != "t"@.len());
            assert("created_at"@.len() != "u"@.len());
            assert("created_at"@.len() != "d"@.len());
            assert("created_at"@.len() != "transfer_enable"@.len());
            assert("created_at"@.len() != "device_limit"@.len());
            assert("created_at"@.len() != "banned"@.len());
            assert("created_at"@.len() != "is_admin"@.len());
            assert("created_at"@.len() != "is_staff"@.len());
            assert("created_at"@.len() != "last_login_at"@.len());
            assert("created_at"@.len() != "uuid"@.len());
            assert("created_at"@.len() != "group_id"@.len());
            assert("created_at"@.len() != "plan_id"@.len());
            assert("created_at"@.len() != "speed_limit"@.len());
            assert("created_at"@.len() != "token"@.len());
            assert("created_at"@[0] != "expired_at"@[0]);
            assert("created_at"@.len() != "remarks"@.len());
            assert("created_at"@.len() != "invite_user_id"@.len());
            assert(user_field_parse(user_field_name(UserFilterField::CreatedAt)) == Some(UserFilterField::CreatedAt));
        },
        UserFilterField::UpdatedAt => {
            assert("updated_at"@.len() != "id"@.len());
            assert("updated_at"@.len() != "email"@.len());
            assert("updated_at"@.len() != "telegram_id"@.len());
            assert("updated_at"@.len() != "balance"@.len());
            assert("updated_at"@.len() != "discount"@.len());
            assert("updated_at"@.len() != "commission_type"@.len());
            assert("updated_at"@.len() != "commission_rate"@.len());
            assert("updated_at"@.len() != "commission_balance"@.len());
            assert("updated_at"@.len() != "t"@.len());
            assert("updated_at"@.len() != "u"@.len());
            assert("updated_at"@.len() != "d"@.len());
            assert("updated_at"@.len() != "transfer_enable"@.len());
            assert("updated_at"@.len() != "device_limit"@.len());
            assert("updated_at"@.len() != "banned"@.len());
            assert("updated_at"@.len() != "is_admin"@.len());
            assert("updated_at"@.len() != "is_staff"@.len());
            assert("updated_at"@.len() != "last_login_at"@.len());
            assert("updated_at"@.len() != "uuid"@.len());
            assert("updated_at"@.len() != "group_id"@.len());
            assert("updated_at"@.len() != "plan_id"@.len());
            assert("updated_at"@.len() != "speed_limit"@.len());
            assert("updated_at"@.len() != "token"@.len());
            assert("updated_at"@[0] != "expired_at"@[0]);
            assert("updated_at"@.len() != "remarks"@.len());
            assert("updated_at"@.len() != "invite_user_id"@.len());
            assert("updated_at"@[0] != "created_at"@[0]);
            assert(user_field_parse(user_field_name(UserFilterField::UpdatedAt)) == Some(UserFilterField::UpdatedAt));
        },
    }
}

/// A name parses only to the field that has that name, so `raw_sql` and
/// any other name outside the list parse to nothing.
pub proof fn law_filter_field_parses_only_its_name(name: Seq<char>)
    ensures
        user_field_parse(name) matches Some(f) ==> user_field_name(f) == name,
{
}

/// An equality filter against `true` or `false` is accepted on a user
/// field exactly when the field is one of the flag columns `banned`,
/// `is_admin` and `is_staff`.
pub proof fn law_boolean_filters_fit_flag_columns(field: UserFilterField, b: bool)
    ensures
        clause_ok(
            FilterClause { field, operator: UserFilterOperator::Eq, value: UserFilterValue::Boolean(b) },
        ) <==> (user_field_name(field) == "banned"@ || user_field_name(field) == "is_admin"@
            || user_field_name(field) == "is_staff"@),
{
    law_filter_field_name_parses_back(field);
    law_filter_field_name_parses_back(UserFilterField::Banned);
    law_filter_field_name_parses_back(UserFilterField::IsAdmin);
    law_filter_field_name_parses_back(UserFilterField::IsStaff);
}

/// Distinct fields have distinct names.
pub proof fn law_filter_field_names_are_distinct(f: UserFilterField, g: UserFilterField)
    ensures
        f != g ==> user_field_name(f) != user_field_name(g),
{
    law_filter_field_name_parses_back(f);
    law_filter_field_name_parses_back(g);
}

impl UserFilterField {
    pub fn kind(self) -> (r: UserColumnKind)
        ensures
            r == user_field_kind(self),
    {
        match self {
            Self::Email => ColumnKind::Email,
            Self::Banned | Self::IsAdmin | Self::IsStaff => ColumnKind::Boolean,
            Self::Uuid | Self::Token | Self::Remarks => ColumnKind::Text,
            Self::LastLoginAt | Self::ExpiredAt | Self::CreatedAt | Self::UpdatedAt => {
                ColumnKind::Timestamp
            },
            _ => ColumnKind::Integer,
        }
    }

    pub fn parse(value: &str) -> (r: Option<Self>)
        ensures
            r == user_field_parse(value@),
    {
        if str_eq(value, "id") {
            Some(Self::Id)
        } else if str_eq(value, "email") {
            Some(Self::Email)
        } else if str_eq(value, "telegram_id") {
            Some(Self::TelegramId)
        } else if str_eq(value, "balance") {
            Some(Self::Balance)
        } else if str_eq(value, "discount") {
            Some(Self::Discount)
        } else if str_eq(value, "commission_type") {
            Some(Self::CommissionType)
        } else if str_eq(value, "commission_rate") {
            Some(Self::CommissionRate)
        } else if str_eq(value, "commission_balance") {
            Some(Self::CommissionBalance)
        } else if str_eq(value, "t") {
            Some(Self::LastTrafficResetAt)
        } else if str_eq(value, "u") {
            Some(Self::Uploaded)
        } else if str_eq(value, "d") {
            Some(Self::Downloaded)
        } else if str_eq(value, "transfer_enable") {
            Some(Self::TransferEnable)
        } else if str_eq(value, "device_limit") {
            Some(Self::DeviceLimit)
        } else if str_eq(value, "banned") {
            Some(Self::Banned)
        } else if str_eq(value, "is_admin") {
            Some(Self::IsAdmin)
        } else if str_eq(value, "is_staff") {
            Some(Self::IsStaff)
        } else if str_eq(value, "last_login_at") {
            Some(Self::LastLoginAt)
        } else if str_eq(value, "uuid") {
            Some(Self::Uuid)
        } else if str_eq(value, "group_id") {
            Some(Self::GroupId)
        } else if str_eq(value, "plan_id") {
            Some(Self::PlanId)
        } else if str_eq(value, "speed_limit") {
            Some(Self::SpeedLimit)
        } else if str_eq(value, "token") {
            Some(Self::Token)
        } else if str_eq(value, "expired_at") {
            Some(Self::ExpiredAt)
        } else if str_eq(value, "remarks") {
            Some(Self::Remarks)
        } else if str_eq(value, "invite_user_id") {
            Some(Self::InviteUserId)
        } else if str_eq(value, "created_at") {
            Some(Self::CreatedAt)
        } else if str_eq(value, "updated_at") {
            Some(Self::UpdatedAt)
        } else {
            None
        }
    }

    pub fn name(self) -> (r: &'static str)
        ensures
            r@ == user_field_name(self),
    {
        match self {
            Self::Id => "id",
            Self::Email => "email",
            Self::TelegramId => "telegram_id",
            Self::Balance => "balance",
            Self::Discount => "discount",
            Self::CommissionType => "commission_type",
            Self::CommissionRate => "commission_rate",
            Self::CommissionBalance => "commission_balance",
            Self::LastTrafficResetAt => "t",
            Self::Uploaded => "u",
            Self::Downloaded => "d",
            Self::TransferEnable => "transfer_enable",
            Self::DeviceLimit => "device_limit",
            Self::Banned => "banned",
            Self::IsAdmin => "is_admin",
            Self::IsStaff => "is_staff",
            Self::LastLoginAt => "last_login_at",
            Self::Uuid => "uuid",
            Self::GroupId => "group_id",
            Self::PlanId => "plan_id",
            Self::SpeedLimit => "speed_limit",
            Self::Token => "token",
            Self::ExpiredAt => "expired_at",
            Self::Remarks => "remarks",
            Self::InviteUserId => "invite_user_id",
            Self::CreatedAt => "created_at",
            Self::UpdatedAt => "updated_at",
        }
    }
}

impl FilterField for UserFilterField {
    open spec fn spec_parse(name: Seq<char>) -> Option<Self> {
        user_field_parse(name)
    }

    open spec fn spec_name(self) -> Seq<char> {
        user_field_name(self)
    }

    open spec fn spec_kind(self) -> ColumnKind {
        user_field_kind(self)
    }

    fn parse(name: &str) -> (r: Option<Self>) {
        UserFilterField::parse(name)
    }

    fn name(self) -> (r: &'static str) {
        UserFilterField::name(self)
    }

    fn kind(self) -> (r: ColumnKind) {
        UserFilterField::kind(self)
    }
}

#[derive(Clone, Copy, Debug, Eq, PartialEq, Structural)]
pub enum UserSortField {
    Field(UserFilterField),
    TotalUsed,
}

impl UserSortField {
    pub open spec fn spec_parse(value: Seq<char>) -> Option<UserSortField> {
        if value == "total_used"@ {
            Some(UserSortField::TotalUsed)
        } else {
            match user_field_parse(value) {
                Some(f) => Some(UserSortField::Field(f)),
                None => None,
            }
        }
    }

    /// `total_used`, or any filterable column.
    pub fn parse(value: &str) -> (r: Option<Self>)
        ensures
            r == Self::spec_parse(value@),
    {
        if str_eq(value, "total_used") {
            Some(Self::TotalUsed)
        } else {
            match UserFilterField::parse(value) {
                Some(field) => Some(Self::Field(field)),
                None => None,
            }
        }
    }
}

#[derive(Clone, Copy, Debug, Eq, PartialEq, Structural)]
pub struct UserSort {
    pub field: UserSortField,
    pub descending: bool,
}

impl Default for UserSort {
    /// Newest users first.
    fn default() -> (r: Self)
        ensures
            r == (UserSort {
                field: UserSortField::Field(UserFilterField::CreatedAt),
                descending: true,
            }),
    {
        Self { field: UserSortField::Field(UserFilterField::CreatedAt), descending: true }
    }
}

#[derive(Clone, Debug, Eq, PartialEq)]
pub struct AdminUserListRequest {
    pub limit: i64,
    pub offset: i64,
    pub filters: Vec<UserFilterClause>,
    pub sort: UserSort,
}

#[derive(Clone, Debug, Eq, PartialEq)]
pub struct RepositoryUserPage {
    pub items: Vec<AdminUser>,
    pub total: i64,
}

#[derive(Clone, Debug, Default, Eq, PartialEq)]
pub struct AdminUserPatchInput {
    pub email: Option<String>,
    pub password: Option<String>,
    pub transfer_enable: Option<i64>,
    pub uploaded: Option<i64>,
    pub downloaded: Option<i64>,
    pub balance: Option<i64>,
    pub commission_balance: Option<i64>,
    pub commission_type: Option<i64>,
    pub banned: Option<bool>,
    pub is_admin: Option<bool>,
    pub is_staff: Option<bool>,
    pub admin_permissions: Option<Vec<String>>,
    pub device_limit: Option<Option<i64>>,
    pub commission_rate: Option<Option<i64>>,
    pub discount: Option<Option<i64>>,
    pub speed_limit: Option<Option<i64>>,
    pub plan_id: Option<Option<i64>>,
    pub remarks: Option<Option<String>>,
    pub expired_at: Option<Option<i64>>,
}

#[derive(Clone, Debug, Default, Eq, PartialEq)]
pub struct StaffUserPatchInput {
    pub email: Option<String>,
    pub password: Option<String>,
    pub transfer_enable: Option<i64>,
    pub uploaded: Option<i64>,
    pub downloaded: Option<i64>,
    pub balance: Option<i64>,
    pub commission_balance: Option<i64>,
    pub banned: Option<bool>,
    pub device_limit: Option<Option<i64>>,
    pub commission_rate: Option<Option<i64>>,
    pub discount: Option<Option<i64>>,
    pub plan_id: Option<Option<i64>>,
    pub expired_at: Option<Option<i64>>,
}

#[derive(Clone, Debug, Default, Eq, PartialEq)]
pub struct AdminUserChanges {
    pub email: Option<String>,
    pub password_hash: Option<String>,
    pub transfer_enable: Option<i64>,
    pub uploaded: Option<i64>,
    pub downloaded: Option<i64>,
    pub balance: Option<i32>,
    pub commission_balance: Option<i32>,
    pub commission_type: Option<i16>,
    pub banned: Option<bool>,
    pub is_admin: Option<bool>,
    pub is_staff: Option<bool>,
    pub admin_permissions: Option<Vec<String>>,
    pub device_limit: Option<Option<i32>>,
    pub commission_rate: Option<Option<i32>>,
    pub discount: Option<Option<i32>>,
    pub speed_limit: Option<Option<i32>>,
    pub plan_id: Option<Option<i32>>,
    pub remarks: Option<Option<String>>,
    pub expired_at: Option<Option<i64>>,
    pub revoke_sessions: bool,
    pub reset_traffic_epoch: bool,
    pub updated_at: i64,
}

#[derive(Clone, Debug, Default, Eq, PartialEq)]
pub struct StaffUserChanges {
    pub email: Option<String>,
    pub password_hash: Option<String>,
    pub transfer_enable: Option<i64>,
    pub uploaded: Option<i64>,
    pub downloaded: Option<i64>,
    pub balance: Option<i32>,
    pub commission_balance: Option<i32>,
    pub banned: Option<bool>,
    pub device_limit: Option<Option<i32>>,
    pub commission_rate: Option<Option<i32>>,
    pub discount: Option<Option<i32>>,
    pub plan_id: Option<Option<i32>>,
    pub expired_at: Option<Option<i64>>,
    pub revoke_sessions: bool,
    pub reset_traffic_epoch: bool,
    pub updated_at: i64,
}

#[derive(Clone, Copy, Debug, Eq, PartialEq, Structural)]
pub enum UserUpdateOutcome {
    Updated,
    UserNotFound,
    EmailAlreadyRegistered,
    PlanNotFound,
}

#[derive(Clone, Debug, Eq, PartialEq)]
pub struct UserGenerateInput {
    pub email_prefix: Option<String>,
    pub email_suffix: String,
    pub password: Option<String>,
    pub plan_id: Option<i64>,
    pub expired_at: Option<i64>,
    pub generate_count: Option<i64>,
}

#[derive(Clone, Debug, Eq, PartialEq)]
pub struct AccountCredential {
    pub email: String,
    pub password: String,
}

#[derive(Clone, Debug, Eq, PartialEq)]
pub struct PreparedAccount {
    pub email: String,
    pub password: String,
    pub password_hash: String,
    pub uuid: String,
    pub token: String,
}

#[derive(Clone, Debug, Eq, PartialEq)]
pub struct CreateUsersCommand {
    pub accounts: Vec<PreparedAccount>,
    pub plan_id: Option<i32>,
    pub expired_at: Option<i64>,
    pub created_at: i64,
}

#[derive(Clone, Debug, Eq, PartialEq)]
pub struct CreatedAccount {
    pub id: i64,
    pub token: String,
}

#[derive(Clone, Debug, Eq, PartialEq)]
pub enum CreateUsersOutcome {
    Created(Vec<CreatedAccount>),
    EmailAlreadyRegistered,
    PlanUnavailable,
}

#[derive(Clone, Debug, Eq, PartialEq)]
pub enum UserGenerateOutcome {
    Created { id: i64 },
    Csv { filename: String, body: String },
}

#[derive(Clone, Debug, Eq, PartialEq)]
pub struct UserSecret {
    pub token: String,
    pub uuid: String,
}

#[derive(Clone, Copy, Debug, Eq, PartialEq, Structural)]
pub enum SetInviterOutcome {
    Updated,
    UserNotFound,
    InviterNotFound,
}

#[derive(Clone, Debug, Eq, PartialEq)]
pub enum BanUsersOutcome {
    Banned(Vec<i64>),
    TooMany,
}

#[derive(Clone, Debug, Eq, PartialEq)]
pub enum DeleteUsersOutcome {
    Deleted(Vec<i64>),
    UserNotFound,
    PendingStripeOrder,
    TooMany,
}

#[derive(Clone, Debug, Eq, PartialEq)]
pub struct UserExportRow {
    pub id: i64,
    pub email: String,
    pub balance: i32,
    pub commission_balance: i32,
    pub transfer_enable: i64,
    pub uploaded: i64,
    pub downloaded: i64,
    pub device_limit: Option<i32>,
    pub expired_at: Option<i64>,
    pub plan_name: Option<String>,
    pub token: String,
}

#[derive(Clone, Debug, Eq, PartialEq)]
pub struct UserExportPage {
    pub items: Vec<UserExportRow>,
}

/// A failure of the user-management external adapter, kept as its text.
#[derive(Debug, Clone, Eq, PartialEq)]
pub struct AdminUserExternalError(String);

impl AdminUserExternalError {
    pub closed spec fn spec_text(&self) -> String {
        self.0
    }

    pub fn new<E: std::fmt::Display>(error: E) -> (r: Self)
        ensures
            vstd::string::to_string_from_display_ensures::<E>(&error, r.spec_text()),
    {
        Self(error.to_string())
    }

    pub fn text(&self) -> (r: &str)
        ensures
            r@ == self.spec_text()@,
    {
        self.0.as_str()
    }
}

pub struct AdminUserService<R, E> {
    repository: R,
    external: E,
}

impl<R, E> AdminUserService<R, E> {
    pub closed spec fn spec_parts(&self) -> (R, E) {
        (self.repository, self.external)
    }

    pub fn new(repository: R, external: E) -> (s: Self)
        ensures
            s.spec_parts() == (repository, external),
    {
        Self { repository, external }
    }

    pub fn repository(&self) -> (r: &R)
        ensures
            *r == self.spec_parts().0,
    {
        &self.repository
    }

    pub fn external(&self) -> (r: &E)
        ensures
            *r == self.spec_parts().1,
    {
        &self.external
    }
}

/// External adapter failures surface with their text.
pub fn external_error(error: AdminUserExternalError) -> (r: AdminUserError)
    ensures
        r matches AdminUserError::External(t) && t@ == error.spec_text()@,
{
    AdminUserError::External(to_owned(error.text()))
}

/// Pagination must be positive; then every filter clause must be legal.
pub fn validate_list_request(request: &AdminUserListRequest) -> (r: Result<(), AdminUserError>)
    ensures
        r is Ok <==> (request.limit > 0 && request.offset >= 0 && forall|i: int|
            0 <= i < request.filters@.len() ==> clause_ok(#[trigger] request.filters@[i])),
        (request.limit <= 0 || request.offset < 0) ==> (r matches Err(e) && e.is_validation(
            "page"@,
            "pagination bounds must be positive"@,
        )),
{
    if request.limit <= 0 || request.offset < 0 {
        return Err(AdminUserError::validation("page", "pagination bounds must be positive"));
    }
    validate_filters(request.filters.as_slice())
}

/// Validates the closed user-query vocabulary before any SQL adapter sees it.
pub fn validate_user_filters(filters: &[UserFilterClause]) -> (r: Result<(), UserFilterViolation>)
    ensures
        r is Ok <==> forall|i: int| 0 <= i < filters@.len() ==> clause_ok(#[trigger] filters@[i]),
        r matches Err(v) ==> exists|i: int|
            0 <= i < filters@.len() && !clause_ok(#[trigger] filters@[i]) && v.field@ == "filter"@
                && v.message@ == filter_dsl::invalid_combination_message(
                user_field_name(filters@[i].field),
            ),
{
    filter_dsl::validate_filters(filters)
}

/// The filter check with its violation reported as a validation error.
pub fn validate_filters(filters: &[UserFilterClause]) -> (r: Result<(), AdminUserError>)
    ensures
        r is Ok <==> forall|i: int| 0 <= i < filters@.len() ==> clause_ok(#[trigger] filters@[i]),
        r matches Err(e) ==> (e matches AdminUserError::Validation { field, .. } && field@
            == "filter"@),
{
    match validate_user_filters(filters) {
        Ok(()) => Ok(()),
        Err(violation) => Err(AdminUserError::validation(violation.field, violation.message.as_str())),
    }
}

/// Whether `name` is one of `registry`'s permission names.
pub open spec fn registered(registry: Seq<&str>, name: Seq<char>) -> bool {
    exists|i: int| 0 <= i < registry.len() && (#[trigger] registry[i])@ == name
}

pub fn is_registered(registry: &[&str], name: &str) -> (r: bool)
    ensures
        r == registered(registry@, name@),
{
    let mut i: usize = 0;
    while i < registry.len()
        invariant
            i <= registry@.len(),
            forall|j: int| 0 <= j < i ==> (#[trigger] registry@[j])@ != name@,
        decreases registry@.len() - i,
    {
        if str_eq(registry[i], name) {
            return true;
        }
        i = i + 1;
    }
    false
}

pub open spec fn out_of_percent(value: Option<Option<i64>>) -> bool {
    value matches Some(Some(v)) && !(0 <= v <= 100)
}

/// The first violation of an administrator's patch: a non-empty password
/// shorter than eight characters, a commission rate or discount outside
/// `0..=100`, or an unregistered permission (`Err(Some(i))` names the first
/// such permission by index; `Err(None)` stands for the others).
pub open spec fn admin_patch_violation(
    input: AdminUserPatchInput,
    registry: Seq<&str>,
) -> Option<(Seq<char>, Seq<char>)> {
    if input.password matches Some(p) && p@.len() > 0 && p@.len() < 8 {
        Some(("password"@, "密码长度最小8位"@))
    } else if out_of_percent(input.commission_rate) {
        Some(("commission_rate"@, "参数范围为0-100"@))
    } else if out_of_percent(input.discount) {
        Some(("discount"@, "参数范围为0-100"@))
    } else {
        match input.admin_permissions {
            Some(ps) => match first_unregistered(views(ps@), registry, 0) {
                Some(i) => Some(("admin_permissions"@, "未注册的权限项:"@ + ps@[i]@)),
                None => None,
            },
            None => None,
        }
    }
}

/// Index of the first name at or after `i` that the registry lacks.
pub open spec fn first_unregistered(names: Seq<Seq<char>>, registry: Seq<&str>, i: int) -> Option<int>
    decreases names.len() - i,
{
    if i < 0 || i >= names.len() {
        None
    } else if !registered(registry, names[i]) {
        Some(i)
    } else {
        first_unregistered(names, registry, i + 1)
    }
}

pub fn percent_ok(value: Option<Option<i64>>) -> (r: bool)
    ensures
        r == !out_of_percent(value),
{
    match value {
        Some(Some(v)) => 0 <= v && v <= 100,
        _ => true,
    }
}

/// Validates an administrator's user patch; `registry` is the list of
/// registered permission names.
pub fn validate_admin_patch(input: &AdminUserPatchInput, registry: &[&str]) -> (r: Result<
    (),
    AdminUserError,
>)
    ensures
        match admin_patch_violation(*input, registry@) {
            Some((f, m)) => r matches Err(e) && e.is_validation(f, m),
            None => r is Ok,
        },
{
    match &input.password {
        Some(password) => {
            let n = chars_of(password.as_str()).len();
            if n > 0 && n < 8 {
                return Err(AdminUserError::validation("password", "密码长度最小8位"));
            }
        },
        None => {},
    }
    if !percent_ok(input.commission_rate) {
        return Err(AdminUserError::validation("commission_rate", "参数范围为0-100"));
    }
    if !percent_ok(input.discount) {
        return Err(AdminUserError::validation("discount", "参数范围为0-100"));
    }
    match &input.admin_permissions {
        Some(permissions) => {
            let mut i: usize = 0;
            while i < permissions.len()
                invariant
                    i <= permissions@.len(),
                    input.admin_permissions == Some(*permissions),
                    admin_patch_violation(*input, registry@) == match first_unregistered(views(permissions@), registry@, 0) {
                        Some(k) => Some(("admin_permissions"@, "未注册的权限项:"@ + permissions@[k]@)),
                        None => None::<(Seq<char>, Seq<char>)>,
                    },
                    first_unregistered(views(permissions@), registry@, 0) == first_unregistered(
                        views(permissions@),
                        registry@,
                        i as int,
                    ),
                decreases permissions@.len() - i,
            {
                assert(views(permissions@)[i as int] == permissions@[i as int]@);
                if !is_registered(registry, permissions[i].as_str()) {
                    let mut message = to_owned("未注册的权限项:");
                    append_str_to(&mut message, permissions[i].as_str());
                    return Err(
                        AdminUserError::Validation {
                            field: to_owned("admin_permissions"),
                            message,
                        },
                    );
                }
                i = i + 1;
            }
        },
        None => {},
    }
    Ok(())
}

/// The first occurrence of each permission, in order.
pub open spec fn dedup(s: Seq<Seq<char>>) -> Seq<Seq<char>>
    decreases s.len(),
{
    if s.len() == 0 {
        s
    } else {
        let rest = dedup(s.drop_last());
        if rest.contains(s.last()) {
            rest
        } else {
            rest.push(s.last())
        }
    }
}

pub open spec fn views(v: Seq<String>) -> Seq<Seq<char>> {
    v.map_values(|s: String| s@)
}

/// Deduplication keeps every grant and adds none.
pub proof fn law_deduplication_keeps_every_grant(s: Seq<Seq<char>>, x: Seq<char>)
    ensures
        dedup(s).contains(x) <==> s.contains(x),
    decreases s.len(),
{
    if s.len() > 0 {
        law_deduplication_keeps_every_grant(s.drop_last(), x);
        if s.drop_last().contains(x) {
            let i = choose|i: int| 0 <= i < s.drop_last().len() && s.drop_last()[i] == x;
            assert(s[i] == x);
        }
        if s.contains(x) {
            let i = choose|i: int| 0 <= i < s.len() && s[i] == x;
            if i < s.len() - 1 {
                assert(s.drop_last()[i] == x);
            }
        }
        let rest = dedup(s.drop_last());
        if !rest.contains(s.last()) {
            if rest.push(s.last()).contains(x) {
                let i = choose|i: int| 0 <= i < rest.push(s.last()).len() && rest.push(s.last())[i] == x;
                if i < rest.len() {
                    assert(rest[i] == x);
                }
            }
            if rest.contains(x) {
                let i = choose|i: int| 0 <= i < rest.len() && rest[i] == x;
                assert(rest.push(s.last())[i] == x);
            }
            assert(rest.push(s.last())[rest.len() as int] == s.last());
        }
    }
}

/// Deduplicated grants hold no name twice.
pub proof fn lemma_dedup_no_duplicates(s: Seq<Seq<char>>)
    ensures
        dedup(s).no_duplicates(),
    decreases s.len(),
{
    if s.len() > 0 {
        lemma_dedup_no_duplicates(s.drop_last());
    }
}

/// Removing duplicates twice changes nothing more.
pub proof fn law_deduplication_is_idempotent(s: Seq<Seq<char>>)
    ensures
        dedup(dedup(s)) == dedup(s),
    decreases s.len(),
{
    lemma_dedup_no_duplicates(s);
    lemma_dedup_of_distinct(dedup(s));
}

pub proof fn lemma_dedup_of_distinct(s: Seq<Seq<char>>)
    requires
        s.no_duplicates(),
    ensures
        dedup(s) == s,
    decreases s.len(),
{
    if s.len() > 0 {
        assert(s.drop_last().no_duplicates());
        lemma_dedup_of_distinct(s.drop_last());
        if s.drop_last().contains(s.last()) {
            let i = choose|i: int| 0 <= i < s.drop_last().len() && s.drop_last()[i] == s.last();
            assert(s[i] == s[s.len() - 1]);
        }
        assert(s.drop_last().push(s.last()) =~= s);
    }
}

/// Keeps the first occurrence of every permission, preserving order.
pub fn deduplicate_permissions(permissions: Vec<String>) -> (r: Vec<String>)
    ensures
        views(r@) == dedup(views(permissions@)),
{
    let mut output: Vec<String> = Vec::new();
    let mut i: usize = 0;
    while i < permissions.len()
        invariant
            i <= permissions@.len(),
            views(output@) == dedup(views(permissions@.subrange(0, i as int))),
        decreases permissions@.len() - i,
    {
        let ghost prefix = views(permissions@.subrange(0, i as int));
        assert(views(permissions@.subrange(0, i + 1)).drop_last() =~= prefix);
        assert(views(permissions@.subrange(0, i + 1)).last() == permissions@[i as int]@);
        let mut found = false;
        let mut j: usize = 0;
        while j < output.len()
            invariant
                j <= output@.len(),
                found == exists|k: int| 0 <= k < j && output@[k]@ == permissions@[i as int]@,
                i < permissions@.len(),
            decreases output@.len() - j,
        {
            if str_eq(output[j].as_str(), permissions[i].as_str()) {
                found = true;
            }
            j = j + 1;
        }
        proof {
            let rest = views(output@);
            if found {
                let k = choose|k: int| 0 <= k < output@.len() && output@[k]@ == permissions@[i as int]@;
                assert(rest[k] == permissions@[i as int]@);
            } else {
                assert forall|k: int| 0 <= k < rest.len() implies rest[k] != permissions@[i as int]@ by {
                    assert(rest[k] == output@[k]@);
                }
            }
        }
        if !found {
            let p = permissions[i].clone();
            output.push(p);
            assert(views(output@) =~= views(output@.drop_last()).push(permissions@[i as int]@));
        }
        i = i + 1;
    }
    assert(permissions@.subrange(0, permissions@.len() as int) =~= permissions@);
    output
}

/// Integer types a wire `i64` is narrowed into.
pub trait NarrowFrom: Sized {
    spec fn spec_fits(value: i64) -> bool;

    spec fn spec_narrow(value: i64) -> Self;

    fn narrow(value: i64) -> (r: Option<Self>)
        ensures
            r matches Some(v) ==> Self::spec_fits(value) && v == Self::spec_narrow(value),
            r is None ==> !Self::spec_fits(value),
    ;
}

impl NarrowFrom for i32 {
    open spec fn spec_fits(value: i64) -> bool {
        i32::MIN <= value <= i32::MAX
    }

    open spec fn spec_narrow(value: i64) -> i32 {
        value as i32
    }

    fn narrow(value: i64) -> (r: Option<i32>) {
        if value < i32::MIN as i64 || value > i32::MAX as i64 {
            None
        } else {
            Some(value as i32)
        }
    }
}

impl NarrowFrom for i16 {
    open spec fn spec_fits(value: i64) -> bool {
        i16::MIN <= value <= i16::MAX
    }

    open spec fn spec_narrow(value: i64) -> i16 {
        value as i16
    }

    fn narrow(value: i64) -> (r: Option<i16>) {
        if value < i16::MIN as i64 || value > i16::MAX as i64 {
            None
        } else {
            Some(value as i16)
        }
    }
}

pub open spec fn narrowed<T: NarrowFrom>(value: Option<i64>) -> Option<T> {
    match value {
        Some(v) => Some(T::spec_narrow(v)),
        None => None,
    }
}

pub open spec fn narrowed_nullable<T: NarrowFrom>(value: Option<Option<i64>>) -> Option<Option<T>> {
    match value {
        Some(Some(v)) => Some(Some(T::spec_narrow(v))),
        Some(None) => Some(None),
        None => None,
    }
}

pub open spec fn fits_optional<T: NarrowFrom>(value: Option<i64>) -> bool {
    value matches Some(v) ==> T::spec_fits(v)
}

pub open spec fn fits_nullable<T: NarrowFrom>(value: Option<Option<i64>>) -> bool {
    value matches Some(Some(v)) ==> T::spec_fits(v)
}

/// Narrows an optional value; out of range is a validation error on `field`.
pub fn narrow_optional<T: NarrowFrom>(field: &str, value: Option<i64>) -> (r: Result<
    Option<T>,
    AdminUserError,
>)
    ensures
        fits_optional::<T>(value) ==> r == Ok::<Option<T>, AdminUserError>(narrowed::<T>(value)),
        !fits_optional::<T>(value) ==> (r matches Err(e) && e.is_validation(
            field@,
            "value is outside the supported range"@,
        )),
{
    match value {
        Some(v) => match T::narrow(v) {
            Some(n) => Ok(Some(n)),
            None => Err(AdminUserError::validation(field, "value is outside the supported range")),
        },
        None => Ok(None),
    }
}

/// Narrows a nullable update; out of range is a validation error on `field`.
pub fn narrow_nullable<T: NarrowFrom>(field: &str, value: Option<Option<i64>>) -> (r: Result<
    Option<Option<T>>,
    AdminUserError,
>)
    ensures
        fits_nullable::<T>(value) ==> r == Ok::<Option<Option<T>>, AdminUserError>(
            narrowed_nullable::<T>(value),
        ),
        !fits_nullable::<T>(value) ==> (r matches Err(e) && e.is_validation(
            field@,
            "value is outside the supported range"@,
        )),
{
    match value {
        Some(Some(v)) => match T::narrow(v) {
            Some(n) => Ok(Some(Some(n))),
            None => Err(AdminUserError::validation(field, "value is outside the supported range")),
        },
        Some(None) => Ok(Some(None)),
        None => Ok(None),
    }
}

/// Narrows an optional value; out of range is the business error `code`.
pub fn narrow_optional_code<T: NarrowFrom>(value: Option<i64>, code: AdminUserCode) -> (r: Result<
    Option<T>,
    AdminUserError,
>)
    ensures
        fits_optional::<T>(value) ==> r == Ok::<Option<T>, AdminUserError>(narrowed::<T>(value)),
        !fits_optional::<T>(value) ==> (r matches Err(e) && e.is_business(code)),
{
    match value {
        Some(v) => match T::narrow(v) {
            Some(n) => Ok(Some(n)),
            None => Err(AdminUserError::business(code)),
        },
        None => Ok(None),
    }
}

/// Narrows a nullable update; out of range is the business error `code`.
pub fn narrow_nullable_code<T: NarrowFrom>(value: Option<Option<i64>>, code: AdminUserCode) -> (r:
    Result<Option<Option<T>>, AdminUserError>)
    ensures
        fits_nullable::<T>(value) ==> r == Ok::<Option<Option<T>>, AdminUserError>(
            narrowed_nullable::<T>(value),
        ),
        !fits_nullable::<T>(value) ==> (r matches Err(e) && e.is_business(code)),
{
    match value {
        Some(Some(v)) => match T::narrow(v) {
            Some(n) => Ok(Some(Some(n))),
            None => Err(AdminUserError::business(code)),
        },
        Some(None) => Ok(Some(None)),
        None => Ok(None),
    }
}

pub open spec fn password_changed(password: Option<String>) -> bool {
    password matches Some(p) && p@.len() > 0
}

/// The change set of an administrator's patch once its (non-empty) password
/// has been hashed: values narrowed in field order, grants de-duplicated,
/// sessions revoked on a password change, a ban or a role change, and the
/// traffic epoch reset when usage counters are written.
pub fn admin_user_changes(
    input: AdminUserPatchInput,
    password_hash: Option<String>,
    now: i64,
) -> (r: Result<AdminUserChanges, AdminUserError>)
    ensures
        (fits_optional::<i32>(input.balance) && fits_optional::<i32>(input.commission_balance)
            && fits_optional::<i16>(input.commission_type) && fits_nullable::<i32>(
            input.device_limit,
        ) && fits_nullable::<i32>(input.commission_rate) && fits_nullable::<i32>(input.discount)
            && fits_nullable::<i32>(input.speed_limit) && fits_nullable::<i32>(input.plan_id))
            <==> r is Ok,
        r matches Ok(c) ==> {
            &&& c.email == input.email
            &&& c.password_hash == password_hash
            &&& c.balance == narrowed::<i32>(input.balance)
            &&& c.commission_balance == narrowed::<i32>(input.commission_balance)
            &&& c.commission_type == narrowed::<i16>(input.commission_type)
            &&& c.device_limit == narrowed_nullable::<i32>(input.device_limit)
            &&& c.commission_rate == narrowed_nullable::<i32>(input.commission_rate)
            &&& c.discount == narrowed_nullable::<i32>(input.discount)
            &&& c.speed_limit == narrowed_nullable::<i32>(input.speed_limit)
            &&& c.plan_id == narrowed_nullable::<i32>(input.plan_id)
            &&& c.transfer_enable == input.transfer_enable
            &&& c.uploaded == input.uploaded
            &&& c.downloaded == input.downloaded
            &&& c.banned == input.banned
            &&& c.is_admin == input.is_admin
            &&& c.is_staff == input.is_staff
            &&& c.remarks == input.remarks
            &&& c.expired_at == input.expired_at
            &&& (match input.admin_permissions {
                Some(ps) => c.admin_permissions matches Some(qs) && views(qs@) == dedup(views(ps@)),
                None => c.admin_permissions is None,
            })
            &&& c.revoke_sessions == (password_changed(input.password) || input.banned == Some(true)
                || input.is_admin is Some || input.is_staff is Some)
            &&& c.reset_traffic_epoch == (input.uploaded is Some || input.downloaded is Some)
            &&& c.updated_at == now
        },
        !fits_nullable::<i32>(input.plan_id) && r is Err ==> (fits_optional::<i32>(input.balance)
            && fits_optional::<i32>(input.commission_balance) && fits_optional::<i16>(
            input.commission_type,
        ) && fits_nullable::<i32>(input.device_limit) && fits_nullable::<i32>(
            input.commission_rate,
        ) && fits_nullable::<i32>(input.discount) && fits_nullable::<i32>(input.speed_limit)) ==> (r
            matches Err(e) && e.is_business(AdminUserCode::PlanNotFound)),
{
    let revoke = password_changed_exec(&input.password) || input.banned == Some(true)
        || input.is_admin.is_some() || input.is_staff.is_some();
    let reset = input.uploaded.is_some() || input.downloaded.is_some();
    let balance = narrow_optional::<i32>("balance", input.balance)?;
    let commission_balance = narrow_optional::<i32>("commission_balance", input.commission_balance)?;
    let commission_type = narrow_optional::<i16>("commission_type", input.commission_type)?;
    let device_limit = narrow_nullable::<i32>("device_limit", input.device_limit)?;
    let commission_rate = narrow_nullable::<i32>("commission_rate", input.commission_rate)?;
    let discount = narrow_nullable::<i32>("discount", input.discount)?;
    let speed_limit = narrow_nullable::<i32>("speed_limit", input.speed_limit)?;
    let plan_id = narrow_nullable_code::<i32>(input.plan_id, AdminUserCode::PlanNotFound)?;
    let admin_permissions = match input.admin_permissions {
        Some(ps) => Some(deduplicate_permissions(ps)),
        None => None,
    };
    Ok(
        AdminUserChanges {
            email: input.email,
            password_hash,
            transfer_enable: input.transfer_enable,
            uploaded: input.uploaded,
            downloaded: input.downloaded,
            balance,
            commission_balance,
            commission_type,
            banned: input.banned,
            is_admin: input.is_admin,
            is_staff: input.is_staff,
            admin_permissions,
            device_limit,
            commission_rate,
            discount,
            speed_limit,
            plan_id,
            remarks: input.remarks,
            expired_at: input.expired_at,
            revoke_sessions: revoke,
            reset_traffic_epoch: reset,
            updated_at: now,
        },
    )
}

pub fn password_changed_exec(password: &Option<String>) -> (r: bool)
    ensures
        r == password_changed(*password),
{
    match password {
        Some(p) => chars_of(p.as_str()).len() > 0,
        None => false,
    }
}

/// The change set of a staff member's patch: the staff-scoped subset, with
/// sessions revoked only on a password change or a ban.
pub fn staff_user_changes(
    input: StaffUserPatchInput,
    password_hash: Option<String>,
    now: i64,
) -> (r: Result<StaffUserChanges, AdminUserError>)
    ensures
        (fits_optional::<i32>(input.balance) && fits_optional::<i32>(input.commission_balance)
            && fits_nullable::<i32>(input.device_limit) && fits_nullable::<i32>(
            input.commission_rate,
        ) && fits_nullable::<i32>(input.discount) && fits_nullable::<i32>(input.plan_id)) <==> r is Ok,
        r matches Ok(c) ==> {
            &&& c.email == input.email
            &&& c.password_hash == password_hash
            &&& c.balance == narrowed::<i32>(input.balance)
            &&& c.commission_balance == narrowed::<i32>(input.commission_balance)
            &&& c.device_limit == narrowed_nullable::<i32>(input.device_limit)
            &&& c.commission_rate == narrowed_nullable::<i32>(input.commission_rate)
            &&& c.discount == narrowed_nullable::<i32>(input.discount)
            &&& c.plan_id == narrowed_nullable::<i32>(input.plan_id)
            &&& c.transfer_enable == input.transfer_enable
            &&& c.uploaded == input.uploaded
            &&& c.downloaded == input.downloaded
            &&& c.banned == input.banned
            &&& c.expired_at == input.expired_at
            &&& c.revoke_sessions == (password_changed(input.password) || input.banned == Some(true))
            &&& c.reset_traffic_epoch == (input.uploaded is Some || input.downloaded is Some)
            &&& c.updated_at == now
        },
{
    let revoke = password_changed_exec(&input.password) || input.banned == Some(true);
    let reset = input.uploaded.is_some() || input.downloaded.is_some();
    let balance = narrow_optional::<i32>("balance", input.balance)?;
    let commission_balance = narrow_optional::<i32>("commission_balance", input.commission_balance)?;
    let device_limit = narrow_nullable::<i32>("device_limit", input.device_limit)?;
    let commission_rate = narrow_nullable::<i32>("commission_rate", input.commission_rate)?;
    let discount = narrow_nullable::<i32>("discount", input.discount)?;
    let plan_id = narrow_nullable_code::<i32>(input.plan_id, AdminUserCode::PlanNotFound)?;
    Ok(
        StaffUserChanges {
            email: input.email,
            password_hash,
            transfer_enable: input.transfer_enable,
            uploaded: input.uploaded,
            downloaded: input.downloaded,
            balance,
            commission_balance,
            banned: input.banned,
            device_limit,
            commission_rate,
            discount,
            plan_id,
            expired_at: input.expired_at,
            revoke_sessions: revoke,
            reset_traffic_epoch: reset,
            updated_at: now,
        },
    )
}

/// The answer to a user update once the repository has applied it.
pub fn update_result(outcome: UserUpdateOutcome) -> (r: Result<(), AdminUserError>)
    ensures
        match outcome {
            UserUpdateOutcome::Updated => r is Ok,
            UserUpdateOutcome::UserNotFound => r matches Err(e) && e.is_business(
                AdminUserCode::UserNotFound,
            ),
            UserUpdateOutcome::EmailAlreadyRegistered => r matches Err(e) && e.is_business(
                AdminUserCode::EmailAlreadyRegistered,
            ),
            UserUpdateOutcome::PlanNotFound => r matches Err(e) && e.is_business(
                AdminUserCode::PlanNotFound,
            ),
        },
{
    match outcome {
        UserUpdateOutcome::Updated => Ok(()),
        UserUpdateOutcome::UserNotFound => Err(AdminUserError::business(AdminUserCode::UserNotFound)),
        UserUpdateOutcome::EmailAlreadyRegistered => Err(
            AdminUserError::business(AdminUserCode::EmailAlreadyRegistered),
        ),
        UserUpdateOutcome::PlanNotFound => Err(AdminUserError::business(AdminUserCode::PlanNotFound)),
    }
}

/// The answer to an inviter change once the repository has applied it.
pub fn set_inviter_result(outcome: SetInviterOutcome) -> (r: Result<(), AdminUserError>)
    ensures
        match outcome {
            SetInviterOutcome::Updated => r is Ok,
            SetInviterOutcome::UserNotFound => r matches Err(e) && e.is_business(
                AdminUserCode::UserNotFound,
            ),
            SetInviterOutcome::InviterNotFound => r matches Err(e) && e.is_validation(
                "invite_user_email"@,
                "邀请人不存在"@,
            ),
        },
{
    match outcome {
        SetInviterOutcome::Updated => Ok(()),
        SetInviterOutcome::UserNotFound => Err(AdminUserError::business(AdminUserCode::UserNotFound)),
        SetInviterOutcome::InviterNotFound => Err(
            AdminUserError::validation("invite_user_email", "邀请人不存在"),
        ),
    }
}

/// The inviter e-mail handed to the repository: trimmed, blank meaning none.
pub fn inviter_email(email: Option<String>) -> (r: Option<String>)
    ensures
        match email {
            Some(e) => if trim(e@).len() == 0 {
                r is None
            } else {
                r matches Some(t) && t@ == trim(e@)
            },
            None => r is None,
        },
{
    match email {
        Some(e) => {
            let t = trim_str(e.as_str());
            if chars_of(t.as_str()).len() == 0 {
                None
            } else {
                Some(t)
            }
        },
        None => None,
    }
}

/// How a generation request is served.
#[derive(Clone, Debug, Eq, PartialEq)]
pub enum GenerationPlan {
    /// One account with an explicit address.
    Single { credential: AccountCredential, plan_id: Option<i32> },
    /// A batch of `count` random addresses under `suffix`.
    Batch { count: usize, suffix: String, password: Option<String>, plan_id: Option<i32> },
}

pub open spec fn nonempty_password(password: Option<String>) -> Option<String> {
    match password {
        Some(p) => if p@.len() > 0 {
            Some(p)
        } else {
            None
        },
        None => None,
    }
}

/// Decides how to serve a user-generation request: the suffix must not be
/// blank; the plan id must fit `i32` (otherwise the plan is unavailable); a
/// non-blank prefix asks for one account `prefix@suffix` whose password
/// defaults to its address; otherwise the count must lie in `1..=500`.
pub fn plan_generation(input: UserGenerateInput) -> (r: Result<GenerationPlan, AdminUserError>)
    ensures
        trim(input.email_suffix@).len() == 0 ==> (r matches Err(e) && e.is_validation(
            "email_suffix"@,
            "邮箱后缀不能为空"@,
        )),
        trim(input.email_suffix@).len() > 0 && !fits_optional::<i32>(input.plan_id) ==> (r matches Err(
            e,
        ) && e.is_business(AdminUserCode::PlanUnavailable)),
        r matches Ok(GenerationPlan::Single { credential, plan_id }) ==> {
            &&& input.email_prefix matches Some(p) && trim(p@).len() > 0
            &&& credential.email@ == trim(input.email_prefix->0@) + "@"@ + trim(input.email_suffix@)
            &&& credential.password@ == (match nonempty_password(input.password) {
                Some(p) => p@,
                None => credential.email@,
            })
            &&& plan_id == narrowed::<i32>(input.plan_id)
        },
        r matches Ok(GenerationPlan::Batch { count, suffix, password, plan_id }) ==> {
            &&& !(input.email_prefix matches Some(p) && trim(p@).len() > 0)
            &&& input.generate_count matches Some(n) && n == count && 1 <= n <= 500
            &&& suffix@ == trim(input.email_suffix@)
            &&& password == nonempty_password(input.password)
            &&& plan_id == narrowed::<i32>(input.plan_id)
        },
        (trim(input.email_suffix@).len() > 0 && fits_optional::<i32>(input.plan_id) && (
        input.email_prefix matches Some(p) && trim(p@).len() > 0)) ==> r matches Ok(
            GenerationPlan::Single { .. },
        ),
        (trim(input.email_suffix@).len() > 0 && fits_optional::<i32>(input.plan_id) && !(
        input.email_prefix matches Some(p) && trim(p@).len() > 0)) ==> (match input.generate_count {
            Some(n) => if 1 <= n <= 500 {
                r is Ok
            } else if n > 500 {
                r matches Err(e) && e.is_validation("generate_count"@, "生成数量最大为500个"@)
            } else {
                r matches Err(e) && e.is_validation("generate_count"@, "生成数量必须为正整数"@)
            },
            None => r matches Err(e) && e.is_validation("generate_count"@, "生成数量必须为正整数"@),
        }),
{
    let suffix = trim_str(input.email_suffix.as_str());
    if chars_of(suffix.as_str()).len() == 0 {
        return Err(AdminUserError::validation("email_suffix", "邮箱后缀不能为空"));
    }
    let plan_id = narrow_optional_code::<i32>(input.plan_id, AdminUserCode::PlanUnavailable)?;
    let prefix = match &input.email_prefix {
        Some(p) => {
            let t = trim_str(p.as_str());
            if chars_of(t.as_str()).len() == 0 {
                None
            } else {
                Some(t)
            }
        },
        None => None,
    };
    match prefix {
        Some(prefix) => {
            let mut email = prefix;
            append_str_to(&mut email, "@");
            append_str_to(&mut email, suffix.as_str());
            let password = match input.password {
                Some(p) => if chars_of(p.as_str()).len() > 0 {
                    p
                } else {
                    email.clone()
                },
                None => email.clone(),
            };
            return Ok(
                GenerationPlan::Single {
                    credential: AccountCredential { email, password },
                    plan_id,
                },
            );
        },
        None => {},
    }
    let count = match input.generate_count {
        Some(n) => n,
        None => 0,
    };
    if count <= 0 {
        return Err(AdminUserError::validation("generate_count", "生成数量必须为正整数"));
    }
    if count > 500 {
        return Err(AdminUserError::validation("generate_count", "生成数量最大为500个"));
    }
    let password = match input.password {
        Some(p) => if chars_of(p.as_str()).len() > 0 {
            Some(p)
        } else {
            None
        },
        None => None,
    };
    Ok(GenerationPlan::Batch { count: count as usize, suffix, password, plan_id })
}

/// The answer to a single-account creation.
pub fn single_created(outcome: CreateUsersOutcome) -> (r: Result<UserGenerateOutcome, AdminUserError>)
    ensures
        match outcome {
            CreateUsersOutcome::Created(accounts) => if accounts@.len() == 1 {
                r == Ok::<UserGenerateOutcome, AdminUserError>(
                    UserGenerateOutcome::Created { id: accounts@[0].id },
                )
            } else {
                r matches Err(AdminUserError::External(_))
            },
            CreateUsersOutcome::EmailAlreadyRegistered => r matches Err(e) && e.is_business(
                AdminUserCode::EmailAlreadyRegistered,
            ),
            CreateUsersOutcome::PlanUnavailable => r matches Err(e) && e.is_business(
                AdminUserCode::PlanUnavailable,
            ),
        },
{
    match outcome {
        CreateUsersOutcome::Created(accounts) => {
            if accounts.len() == 1 {
                Ok(UserGenerateOutcome::Created { id: accounts[0].id })
            } else {
                Err(
                    AdminUserError::External(
                        to_owned("repository returned an invalid single-create cardinality"),
                    ),
                )
            }
        },
        CreateUsersOutcome::EmailAlreadyRegistered => Err(
            AdminUserError::business(AdminUserCode::EmailAlreadyRegistered),
        ),
        CreateUsersOutcome::PlanUnavailable => Err(
            AdminUserError::business(AdminUserCode::PlanUnavailable),
        ),
    }
}

/// How many random addresses a batch of `count` may draw, saturating.
pub fn email_attempt_budget(count: usize) -> (r: usize)
    ensures
        r == if count * GENERATED_EMAIL_ATTEMPT_FACTOR > usize::MAX {
            usize::MAX as int
        } else {
            count * GENERATED_EMAIL_ATTEMPT_FACTOR
        },
{
    if count > usize::MAX / GENERATED_EMAIL_ATTEMPT_FACTOR {
        usize::MAX
    } else {
        count * GENERATED_EMAIL_ATTEMPT_FACTOR
    }
}

/// Adds a drawn address to the batch, kept sorted and free of repeats.
pub fn add_generated_email(emails: Vec<String>, email: &String) -> (r: Vec<String>)
    requires
        names_sorted(emails@),
    ensures
        names_sorted(r@),
        forall|x: Seq<char>| #[trigger] has_name(r@, x) <==> (has_name(emails@, x) || x == email@),
{
    insert_name(emails, email)
}

/// A batch that could not draw `count` distinct addresses fails.
pub fn check_generated_batch(drawn: usize, count: usize) -> (r: Result<(), AdminUserError>)
    ensures
        drawn == count ==> r is Ok,
        drawn != count ==> (r matches Err(AdminUserError::External(m)) && m@
            == "random email adapter could not produce a unique batch"@),
{
    if drawn != count {
        Err(AdminUserError::External(to_owned("random email adapter could not produce a unique batch")))
    } else {
        Ok(())
    }
}

/// The credentials of a generated batch, one per address in order; the
/// configured password, or else the address itself, is each password.
pub fn batch_credentials(emails: &Vec<String>, password: &Option<String>) -> (r: Vec<
    AccountCredential,
>)
    ensures
        r@.len() == emails@.len(),
        forall|i: int|
            0 <= i < emails@.len() ==> (#[trigger] r@[i]).email == emails@[i] && r@[i].password
                == match *password {
                Some(p) => p,
                None => emails@[i],
            },
{
    let mut out: Vec<AccountCredential> = Vec::new();
    let mut i: usize = 0;
    while i < emails.len()
        invariant
            i <= emails@.len(),
            out@.len() == i,
            forall|j: int|
                0 <= j < i ==> (#[trigger] out@[j]).email == emails@[j] && out@[j].password
                    == match *password {
                    Some(p) => p,
                    None => emails@[j],
                },
        decreases emails@.len() - i,
    {
        let email = emails[i].clone();
        let pw = match password {
            Some(p) => p.clone(),
            None => email.clone(),
        };
        out.push(AccountCredential { email, password: pw });
        i = i + 1;
    }
    out
}

/// The hashing adapter must prepare exactly one account per credential.
pub fn check_prepared_batch(prepared: usize, count: usize) -> (r: Result<(), AdminUserError>)
    ensures
        prepared == count ==> r is Ok,
        prepared != count ==> (r matches Err(AdminUserError::External(m)) && m@
            == "password adapter changed generated account cardinality"@),
{
    if prepared != count {
        Err(
            AdminUserError::External(
                to_owned("password adapter changed generated account cardinality"),
            ),
        )
    } else {
        Ok(())
    }
}

/// The accounts a batch creation inserted, or its business failure.
pub fn created_batch(outcome: CreateUsersOutcome) -> (r: Result<Vec<CreatedAccount>, AdminUserError>)
    ensures
        match outcome {
            CreateUsersOutcome::Created(accounts) => r matches Ok(a) && a@ == accounts@,
            CreateUsersOutcome::EmailAlreadyRegistered => r matches Err(e) && e.is_business(
                AdminUserCode::EmailAlreadyRegistered,
            ),
            CreateUsersOutcome::PlanUnavailable => r matches Err(e) && e.is_business(
                AdminUserCode::PlanUnavailable,
            ),
        },
{
    match outcome {
        CreateUsersOutcome::Created(accounts) => Ok(accounts),
        CreateUsersOutcome::EmailAlreadyRegistered => Err(
            AdminUserError::business(AdminUserCode::EmailAlreadyRegistered),
        ),
        CreateUsersOutcome::PlanUnavailable => Err(
            AdminUserError::business(AdminUserCode::PlanUnavailable),
        ),
    }
}

/// The id inserted for `token`: the last created account carrying it.
pub open spec fn last_id_for(created: Seq<CreatedAccount>, token: Seq<char>) -> Option<i64>
    decreases created.len(),
{
    if created.len() == 0 {
        None
    } else if created.last().token@ == token {
        Some(created.last().id)
    } else {
        last_id_for(created.drop_last(), token)
    }
}

/// Looks up the inserted id of a prepared account by its token; a token
/// the insert did not report fails.
pub fn created_id(created: &Vec<CreatedAccount>, token: &str) -> (r: Result<i64, AdminUserError>)
    ensures
        match last_id_for(created@, token@) {
            Some(id) => r matches Ok(v) && v == id,
            None => r matches Err(AdminUserError::External(m)) && m@
                == "created user is missing its inserted id"@,
        },
{
    let mut i: usize = created.len();
    assert(created@.take(i as int) == created@);
    while i > 0
        invariant
            i <= created@.len(),
            last_id_for(created@, token@) == last_id_for(created@.take(i as int), token@),
        decreases i,
    {
        proof {
            assert(created@.take(i as int).drop_last() == created@.take(i - 1));
        }
        if str_eq(created[i - 1].token.as_str(), token) {
            return Ok(created[i - 1].id);
        }
        i = i - 1;
    }
    Err(AdminUserError::External(to_owned("created user is missing its inserted id")))
}

/// The answer to a bulk ban: the ids whose sessions are revoked.
pub fn ban_result(outcome: BanUsersOutcome) -> (r: Result<Vec<i64>, AdminUserError>)
    ensures
        match outcome {
            BanUsersOutcome::Banned(ids) => r == Ok::<Vec<i64>, AdminUserError>(ids),
            BanUsersOutcome::TooMany => r matches Err(AdminUserError::Business { code, .. })
                && code == AdminUserCode::InvalidParameter,
        },
{
    match outcome {
        BanUsersOutcome::Banned(ids) => Ok(ids),
        BanUsersOutcome::TooMany => Err(
            AdminUserError::business_detail(
                AdminUserCode::InvalidParameter,
                "单次最多批量操作 10000 个用户，请缩小筛选范围",
            ),
        ),
    }
}

/// The answer to a bulk delete: the ids whose sessions are revoked.
pub fn delete_result(outcome: DeleteUsersOutcome) -> (r: Result<Vec<i64>, AdminUserError>)
    ensures
        match outcome {
            DeleteUsersOutcome::Deleted(ids) => r == Ok::<Vec<i64>, AdminUserError>(ids),
            DeleteUsersOutcome::UserNotFound => r matches Err(e) && e.is_business(
                AdminUserCode::UserNotFound,
            ),
            DeleteUsersOutcome::PendingStripeOrder | DeleteUsersOutcome::TooMany => r matches Err(
                AdminUserError::Business { code, .. },
            ) && code == AdminUserCode::InvalidParameter,
        },
{
    match outcome {
        DeleteUsersOutcome::Deleted(ids) => Ok(ids),
        DeleteUsersOutcome::PendingStripeOrder => Err(
            AdminUserError::business_detail(
                AdminUserCode::InvalidParameter,
                "所选用户仍有待支付的 Stripe 订单，请先取消订单",
            ),
        ),
        DeleteUsersOutcome::TooMany => Err(
            AdminUserError::business_detail(
                AdminUserCode::InvalidParameter,
                "单次最多批量操作 10000 个用户，请缩小筛选范围",
            ),
        ),
        DeleteUsersOutcome::UserNotFound => Err(AdminUserError::business(AdminUserCode::UserNotFound)),
    }
}

/// The answer to a single-user delete.
pub fn delete_one_result(outcome: DeleteUsersOutcome) -> (r: Result<Vec<i64>, AdminUserError>)
    ensures
        match outcome {
            DeleteUsersOutcome::Deleted(ids) => r == Ok::<Vec<i64>, AdminUserError>(ids),
            DeleteUsersOutcome::UserNotFound => r matches Err(e) && e.is_business(
                AdminUserCode::UserNotFound,
            ),
            DeleteUsersOutcome::PendingStripeOrder => r matches Err(
                AdminUserError::Business { code, .. },
            ) && code == AdminUserCode::InvalidParameter,
            DeleteUsersOutcome::TooMany => r matches Err(AdminUserError::External(_)),
        },
{
    match outcome {
        DeleteUsersOutcome::Deleted(ids) => Ok(ids),
        DeleteUsersOutcome::PendingStripeOrder => Err(
            AdminUserError::business_detail(
                AdminUserCode::InvalidParameter,
                "该用户仍有待支付的 Stripe 订单，请先取消订单",
            ),
        ),
        DeleteUsersOutcome::UserNotFound => Err(AdminUserError::business(AdminUserCode::UserNotFound)),
        DeleteUsersOutcome::TooMany => Err(
            AdminUserError::External(to_owned("single-user delete returned a bulk-limit outcome")),
        ),
    }
}

/// Export paging: the running total after one more page, or the error that
/// stops an export beyond 50 000 rows.
pub fn export_progress(exported: usize, page_len: usize) -> (r: Result<usize, AdminUserError>)
    ensures
        exported + page_len <= USER_CSV_MAX_ROWS ==> r == Ok::<usize, AdminUserError>(
            (exported + page_len) as usize,
        ),
        exported + page_len > usize::MAX ==> (r matches Err(AdminUserError::Business { code, detail: Some(d) })
            && code == AdminUserCode::InvalidParameter && d@ == "导出用户数量超出支持范围，请缩小筛选范围"@),
        USER_CSV_MAX_ROWS < exported + page_len <= usize::MAX ==> (r matches Err(AdminUserError::Business { code, detail: Some(d) })
            && code == AdminUserCode::InvalidParameter && d@ == "单次最多导出 50000 个用户，请缩小筛选范围"@),
{
    match exported.checked_add(page_len) {
        Some(total) => if total > USER_CSV_MAX_ROWS {
            Err(
                AdminUserError::business_detail(
                    AdminUserCode::InvalidParameter,
                    "单次最多导出 50000 个用户，请缩小筛选范围",
                ),
            )
        } else {
            Ok(total)
        },
        None => Err(
            AdminUserError::business_detail(
                AdminUserCode::InvalidParameter,
                "导出用户数量超出支持范围，请缩小筛选范围",
            ),
        ),
    }
}

} // verus!
