//! Authentication and session rules: input validation, e-mail policy,
//! trial-plan arithmetic, session lifetimes and the decisions the
//! registration and login use cases take between their outbound ports.
//! Persistence, caches, hashing, TOTP, reCAPTCHA and mail are adapters.
use vstd::prelude::*;

use crate::text::{
    all_digits, all_digits_exec, append_str_to, byte_len, chars_of, contains_char, contains_exec,
    ends_with, ends_with_exec, find, find_exec, find_from, has_ws, has_ws_exec, is_byte_truncation, lower_seq,
    push_char, string_from, to_ascii_lowercase, to_owned, trim, trim_start_char, trim_str,
    char_start_exec,
};
use crate::RepositoryError;

verus! {

pub type RepositoryResult<T> = Result<T, RepositoryError>;

pub const MAX_EMAIL_CHARS: usize = 254;

pub const MAX_PASSWORD_CHARS: usize = 128;

pub const MAX_INVITE_CODE_BYTES: usize = 255;

pub const MAX_EMAIL_CODE_BYTES: usize = 64;

pub const MAX_RECAPTCHA_DATA_BYTES: usize = 4_096;

#[derive(Clone, Copy, Debug, Eq, PartialEq, Structural)]
pub enum AuthCode {
    AccountSuspended,
    EmailAlreadyRegistered,
    EmailNotRegistered,
    EmailSendRateLimited,
    EmailSuffixNotAllowed,
    GmailAliasNotSupported,
    InvalidCredentials,
    InvalidEmailCode,
    InvalidInviteCode,
    InvalidParameter,
    InvalidToken,
    MailInvalid,
    MailSendFailed,
    MailSenderNotConfigured,
    MfaAlreadyEnabled,
    MfaCodeInvalid,
    MfaCodeRequired,
    MfaNotEnabled,
    MfaSetupMissing,
    OldPasswordIncorrect,
    PasswordAttemptsRateLimited,
    PasswordResetFailed,
    RecaptchaFailed,
    RegisterIpRateLimited,
    RegistrationClosed,
    UserNotRegistered,
}

impl AuthCode {
    /// The code's variant name, as `{:?}` prints it.
    pub open spec fn spec_debug_name(self) -> Seq<char> {
        match self {
            AuthCode::AccountSuspended => "AccountSuspended"@,
            AuthCode::EmailAlreadyRegistered => "EmailAlreadyRegistered"@,
            AuthCode::EmailNotRegistered => "EmailNotRegistered"@,
            AuthCode::EmailSendRateLimited => "EmailSendRateLimited"@,
            AuthCode::EmailSuffixNotAllowed => "EmailSuffixNotAllowed"@,
            AuthCode::GmailAliasNotSupported => "GmailAliasNotSupported"@,
            AuthCode::InvalidCredentials => "InvalidCredentials"@,
            AuthCode::InvalidEmailCode => "InvalidEmailCode"@,
            AuthCode::InvalidInviteCode => "InvalidInviteCode"@,
            AuthCode::InvalidParameter => "InvalidParameter"@,
            AuthCode::InvalidToken => "InvalidToken"@,
            AuthCode::MailInvalid => "MailInvalid"@,
            AuthCode::MailSendFailed => "MailSendFailed"@,
            AuthCode::MailSenderNotConfigured => "MailSenderNotConfigured"@,
            AuthCode::MfaAlreadyEnabled => "MfaAlreadyEnabled"@,
            AuthCode::MfaCodeInvalid => "MfaCodeInvalid"@,
            AuthCode::MfaCodeRequired => "MfaCodeRequired"@,
            AuthCode::MfaNotEnabled => "MfaNotEnabled"@,
            AuthCode::MfaSetupMissing => "MfaSetupMissing"@,
            AuthCode::OldPasswordIncorrect => "OldPasswordIncorrect"@,
            AuthCode::PasswordAttemptsRateLimited => "PasswordAttemptsRateLimited"@,
            AuthCode::PasswordResetFailed => "PasswordResetFailed"@,
            AuthCode::RecaptchaFailed => "RecaptchaFailed"@,
            AuthCode::RegisterIpRateLimited => "RegisterIpRateLimited"@,
            AuthCode::RegistrationClosed => "RegistrationClosed"@,
            AuthCode::UserNotRegistered => "UserNotRegistered"@,
        }
    }

    /// The code's variant name, as `{:?}` prints it.
    pub fn debug_name(self) -> (r: &'static str)
        ensures
            r@ == self.spec_debug_name(),
    {
        match self {
            AuthCode::AccountSuspended => "AccountSuspended",
            AuthCode::EmailAlreadyRegistered => "EmailAlreadyRegistered",
            AuthCode::EmailNotRegistered => "EmailNotRegistered",
            AuthCode::EmailSendRateLimited => "EmailSendRateLimited",
            AuthCode::EmailSuffixNotAllowed => "EmailSuffixNotAllowed",
            AuthCode::GmailAliasNotSupported => "GmailAliasNotSupported",
            AuthCode::InvalidCredentials => "InvalidCredentials",
            AuthCode::InvalidEmailCode => "InvalidEmailCode",
            AuthCode::InvalidInviteCode => "InvalidInviteCode",
            AuthCode::InvalidParameter => "InvalidParameter",
            AuthCode::InvalidToken => "InvalidToken",
            AuthCode::MailInvalid => "MailInvalid",
            AuthCode::MailSendFailed => "MailSendFailed",
            AuthCode::MailSenderNotConfigured => "MailSenderNotConfigured",
            AuthCode::MfaAlreadyEnabled => "MfaAlreadyEnabled",
            AuthCode::MfaCodeInvalid => "MfaCodeInvalid",
            AuthCode::MfaCodeRequired => "MfaCodeRequired",
            AuthCode::MfaNotEnabled => "MfaNotEnabled",
            AuthCode::MfaSetupMissing => "MfaSetupMissing",
            AuthCode::OldPasswordIncorrect => "OldPasswordIncorrect",
            AuthCode::PasswordAttemptsRateLimited => "PasswordAttemptsRateLimited",
            AuthCode::PasswordResetFailed => "PasswordResetFailed",
            AuthCode::RecaptchaFailed => "RecaptchaFailed",
            AuthCode::RegisterIpRateLimited => "RegisterIpRateLimited",
            AuthCode::RegistrationClosed => "RegistrationClosed",
            AuthCode::UserNotRegistered => "UserNotRegistered",
        }
    }
}

#[derive(Debug)]
pub enum AuthError {
    Validation { field: &'static str, message: &'static str },
    Business { code: AuthCode, detail: Option<String> },
    Unauthorized,
    Internal(String),
    Repository(RepositoryError),
}

impl AuthError {
    /// The error as text; a repository failure renders as itself.
    pub open spec fn spec_rendered(self) -> Seq<char> {
        match self {
            AuthError::Validation { field, message } => "validation failed for "@ + field@ + ": "@
                + message@,
            AuthError::Business { code, .. } => "authentication business error: "@
                + code.spec_debug_name(),
            AuthError::Unauthorized => "session is not authorized"@,
            AuthError::Internal(m) => "authentication internal error: "@ + m@,
            AuthError::Repository(e) => e.spec_operation()@ + " failed: "@ + e.spec_message(),
        }
    }

    /// The error as text: what the error reports to a client.
    pub fn rendered(&self) -> (r: String)
        ensures
            r@ == self.spec_rendered(),
    {
        match self {
            AuthError::Validation { field, message } => {
                let mut text = to_owned("validation failed for ");
                append_str_to(&mut text, field);
                append_str_to(&mut text, ": ");
                append_str_to(&mut text, message);
                text
            },
            AuthError::Business { code, .. } => {
                let mut text = to_owned("authentication business error: ");
                append_str_to(&mut text, code.debug_name());
                text
            },
            AuthError::Unauthorized => to_owned("session is not authorized"),
            AuthError::Internal(m) => {
                let mut text = to_owned("authentication internal error: ");
                append_str_to(&mut text, m.as_str());
                text
            },
            AuthError::Repository(e) => e.rendered(),
        }
    }

    pub open spec fn is_validation(self, field: Seq<char>, message: Seq<char>) -> bool {
        self matches AuthError::Validation { field: f, message: m } && f@ == field && m@ == message
    }

    pub open spec fn has_code(self, code: AuthCode) -> bool {
        self matches AuthError::Business { code: c, .. } && c == code
    }

    pub open spec fn is_business(self, code: AuthCode) -> bool {
        self matches AuthError::Business { code: c, detail: None } && c == code
    }

    pub open spec fn is_business_detail(self, code: AuthCode, detail: Seq<char>) -> bool {
        self matches AuthError::Business { code: c, detail: Some(d) } && c == code && d@ == detail
    }

    pub fn business(code: AuthCode) -> (r: Self)
        ensures
            r.is_business(code),
    {
        Self::Business { code, detail: None }
    }

    pub fn business_detail(code: AuthCode, detail: &str) -> (r: Self)
        ensures
            r.is_business_detail(code, detail@),
    {
        Self::Business { code, detail: Some(to_owned(detail)) }
    }

    pub fn validation(field: &'static str, message: &'static str) -> (r: Self)
        ensures
            r == (AuthError::Validation { field, message }),
    {
        Self::Validation { field, message }
    }

    /// Whether this is the business error `expected`.
    pub fn is_code(&self, expected: AuthCode) -> (r: bool)
        ensures
            r == self.has_code(expected),
    {
        match self {
            Self::Business { code, .. } => *code == expected,
            _ => false,
        }
    }
}

#[derive(Clone, Copy, Debug, Eq, PartialEq, Structural)]
pub enum TrialDuration {
    Seconds(i64),
    Negative,
    OutOfRange,
}

#[derive(Clone, Debug)]
pub struct AuthPolicy {
    pub app_name: String,
    pub app_url: Option<String>,
    pub password_limit_enable: bool,
    pub password_limit_count: i64,
    pub password_limit_expire_minutes: i64,
    pub password_limit_ttl_seconds: u64,
    pub register_limit_by_ip_enable: bool,
    pub register_limit_count: i64,
    pub register_limit_expire_minutes: i64,
    pub register_limit_ttl_seconds: u64,
    pub stop_register: bool,
    pub invite_force: bool,
    pub invite_never_expire: bool,
    pub email_verify: bool,
    pub email_whitelist_enable: bool,
    pub email_whitelist_suffix: Vec<String>,
    pub email_gmail_limit_enable: bool,
    pub recaptcha_enable: bool,
    pub trial_plan_id: i32,
    pub trial_duration: TrialDuration,
    pub auth_session_ttl_seconds: u64,
    pub privileged_auth_session_ttl_seconds: u64,
    pub auth_session_max_per_user: i64,
    pub privileged_step_up_max_attempts: i64,
    pub privileged_step_up_attempt_window_seconds: u64,
    pub privileged_step_up_ttl_seconds: u64,
}

#[derive(Clone, Debug, Eq, PartialEq)]
pub struct AuthData {
    pub is_admin: bool,
    pub auth_data: String,
}

#[derive(Clone, Debug, Eq, PartialEq)]
pub struct AuthUser {
    pub id: i64,
    pub email: String,
    pub is_admin: i16,
    pub is_staff: i16,
    pub admin_permissions: Vec<String>,
    pub session_id: String,
    pub authenticated_at: i64,
    pub password_authenticated: bool,
}

#[derive(Clone, Debug, Eq, PartialEq)]
pub struct UserSession {
    pub session_id: String,
    pub ip: String,
    pub ua: String,
    pub login_at: i64,
    pub current: bool,
}

#[derive(Clone, Debug, Eq, PartialEq)]
pub struct AuthAccount {
    pub id: i64,
    pub email: String,
    pub password_hash: String,
    pub password_algo: Option<String>,
    pub password_salt: Option<String>,
    pub session_epoch: i64,
    pub banned: bool,
    pub is_admin: i16,
    pub is_staff: i16,
    pub admin_permissions: Vec<String>,
}

#[derive(Clone, Debug, Eq, PartialEq)]
pub struct SessionIdentity {
    pub user_id: i64,
    pub session_id: String,
    pub session_epoch: i64,
}

#[derive(Clone, Debug, Eq, PartialEq)]
pub struct SessionMetadata {
    pub ip: Option<String>,
    pub login_at: i64,
    pub user_agent: Option<String>,
    pub expires_at: Option<i64>,
    pub password_authenticated: bool,
}

#[derive(Clone, Debug, Eq, PartialEq)]
pub struct StoredSession {
    pub session_id: String,
    pub metadata: SessionMetadata,
}

#[derive(Clone, Debug, Eq, PartialEq)]
pub struct MfaRecord {
    pub secret_nonce: Vec<u8>,
    pub secret_ciphertext: Vec<u8>,
    pub secret_tag: Vec<u8>,
    pub enabled_at: Option<i64>,
    pub last_step: i64,
}

#[derive(Clone, Debug, Eq, PartialEq)]
pub struct SealedMfaSecret {
    pub secret_nonce: Vec<u8>,
    pub secret_ciphertext: Vec<u8>,
    pub secret_tag: Vec<u8>,
    pub public_secret: String,
    pub otpauth_url: String,
}

#[derive(Clone, Copy, Debug, Eq, PartialEq, Structural)]
pub struct MfaStatus {
    pub totp_enabled: bool,
    pub totp_enabled_at: Option<i64>,
    pub totp_required: bool,
}

#[derive(Clone, Debug, Eq, PartialEq)]
pub struct TotpProvisioning {
    pub secret: String,
    pub otpauth_url: String,
}

#[derive(Clone, Debug, Eq, PartialEq)]
pub struct RegisterInput {
    pub email: String,
    pub password: String,
    pub invite_code: Option<String>,
    pub email_code: Option<String>,
    pub recaptcha_data: Option<String>,
}

#[derive(Clone, Debug, Eq, PartialEq)]
pub struct ForgetInput {
    pub email: String,
    pub email_code: String,
    pub password: String,
}

#[derive(Clone, Debug, Eq, PartialEq)]
pub struct EmailVerifyInput {
    pub email: String,
    pub is_forget: Option<bool>,
    pub recaptcha_data: Option<String>,
}

#[derive(Clone, Copy, Debug, Eq, PartialEq, Structural)]
pub enum EmailCodeScope {
    Registration,
    PasswordReset,
}

#[derive(Clone, Copy, Debug, Eq, PartialEq, Structural)]
pub enum LimitedEmailCodeResult {
    Consumed,
    Incorrect,
    Limited,
}

#[derive(Clone, Debug, Eq, PartialEq)]
pub struct RegistrationReservation {
    pub client_ip: String,
    pub token: String,
}

#[derive(Clone, Copy, Debug, Eq, PartialEq, Structural)]
pub struct InviteCodeRecord {
    pub id: i32,
    pub user_id: i64,
}

#[derive(Clone, Copy, Debug, Eq, PartialEq, Structural)]
pub struct TrialPlanRecord {
    pub id: i32,
    pub group_id: i32,
    pub transfer_gib: i64,
    pub device_limit: Option<i32>,
    pub speed_limit: Option<i32>,
}

#[derive(Clone, Debug, Eq, PartialEq)]
pub struct NewAuthAccount {
    pub invite_user_id: Option<i64>,
    pub email: String,
    pub password_hash: String,
    pub uuid: String,
    pub token: String,
    pub transfer_enable: i64,
    pub device_limit: Option<i32>,
    pub group_id: Option<i32>,
    pub plan_id: Option<i32>,
    pub speed_limit: Option<i32>,
    pub expired_at: Option<i64>,
    pub created_at: i64,
}

#[derive(Clone, Copy, Debug, Eq, PartialEq, Structural)]
pub enum InsertAuthAccountOutcome {
    Inserted(i64),
    EmailAlreadyRegistered,
}

#[derive(Clone, Debug, Eq, PartialEq)]
pub enum MailDeliveryError {
    SenderNotConfigured { detail: Option<String> },
    InvalidSender,
    InvalidRecipient,
    BuildFailed(String),
    TimedOut,
    SendFailed(String),
    Infrastructure(RepositoryError),
}

/// The authentication use cases over their repository, cache and external
/// ports, governed by one policy.
pub struct AuthService<R, C, E> {
    repository: R,
    cache: C,
    external: E,
    policy: AuthPolicy,
}

/// The login link: `{app_url}/login?verify={token}&redirect={redirect}`,
/// where a blank redirect means `dashboard` and an empty or absent
/// application URL leaves the path relative.
pub open spec fn redirect_url(app_url: Option<String>, token: Seq<char>, redirect: Option<Seq<char>>) -> Seq<char> {
    let target = match redirect {
        Some(r) => if trim(r).len() > 0 {
            trim(r)
        } else {
            "dashboard"@
        },
        None => "dashboard"@,
    };
    let path = "/login?verify="@ + token + "&redirect="@ + target;
    match app_url {
        Some(u) => if u@.len() > 0 {
            u@ + path
        } else {
            path
        },
        None => path,
    }
}

impl<R, C, E> AuthService<R, C, E> {
    pub closed spec fn spec_policy(&self) -> AuthPolicy {
        self.policy
    }

    pub closed spec fn spec_ports(&self) -> (R, C, E) {
        (self.repository, self.cache, self.external)
    }

    pub fn new(repository: R, cache: C, external: E, policy: AuthPolicy) -> (s: Self)
        ensures
            s.spec_policy() == policy,
            s.spec_ports() == (repository, cache, external),
    {
        Self { repository, cache, external, policy }
    }

    pub fn policy(&self) -> (r: &AuthPolicy)
        ensures
            *r == self.spec_policy(),
    {
        &self.policy
    }

    pub fn repository(&self) -> (r: &R)
        ensures
            *r == self.spec_ports().0,
    {
        &self.repository
    }

    pub fn cache(&self) -> (r: &C)
        ensures
            *r == self.spec_ports().1,
    {
        &self.cache
    }

    pub fn external(&self) -> (r: &E)
        ensures
            *r == self.spec_ports().2,
    {
        &self.external
    }

    /// The one-time login link for `token`.
    pub fn login_redirect_url(&self, token: &str, redirect: Option<&str>) -> (r: String)
        ensures
            r@ == redirect_url(
                self.spec_policy().app_url,
                token@,
                match redirect {
                    Some(x) => Some(x@),
                    None => None,
                },
            ),
    {
        let target = match redirect {
            Some(x) => {
                let t = trim_str(x);
                if chars_of(t.as_str()).len() > 0 {
                    t
                } else {
                    to_owned("dashboard")
                }
            },
            None => to_owned("dashboard"),
        };
        let mut path = to_owned("/login?verify=");
        append_str_to(&mut path, token);
        append_str_to(&mut path, "&redirect=");
        append_str_to(&mut path, target.as_str());
        match &self.policy.app_url {
            Some(u) => if chars_of(u.as_str()).len() > 0 {
                let mut url = u.clone();
                append_str_to(&mut url, path.as_str());
                url
            } else {
                path
            },
            None => path,
        }
    }

    /// Registration e-mail policy: see [`check_register_email`].
    pub fn validate_register_email(&self, email: &str) -> (r: Result<(), AuthError>)
        ensures
            match register_email_violation(self.spec_policy(), email@) {
                Some(code) => r matches Err(e) && e.is_business(code),
                None => r is Ok,
            },
    {
        check_register_email(&self.policy, email)
    }
}

/// Registration e-mail policy: the optional suffix whitelist, then the
/// optional rejection of Gmail-style aliases (`.` or `+` before `@`).
pub fn check_register_email(policy: &AuthPolicy, email: &str) -> (r: Result<(), AuthError>)
    ensures
        match register_email_violation(*policy, email@) {
            Some(code) => r matches Err(e) && e.is_business(code),
            None => r is Ok,
        },
{
    if policy.email_whitelist_enable {
        let lowered = to_ascii_lowercase(email);
        let lv = chars_of(lowered.as_str());
        let mut allowed = false;
        let mut i: usize = 0;
        while i < policy.email_whitelist_suffix.len()
            invariant
                i <= policy.email_whitelist_suffix@.len(),
                lv@ == lower_seq(email@),
                allowed == exists|j: int|
                    0 <= j < i && suffix_allows(
                        policy.email_whitelist_suffix@[j]@,
                        email@,
                    ),
            decreases policy.email_whitelist_suffix@.len() - i,
        {
            let suffix = whitelist_suffix(policy.email_whitelist_suffix[i].as_str());
            let sv = chars_of(suffix.as_str());
            let mut this_allows = false;
            if sv.len() > 0 {
                let mut pattern = to_owned("@");
                append_str_to(&mut pattern, suffix.as_str());
                let pv = chars_of(pattern.as_str());
                if ends_with_exec(&lv, &pv) {
                    this_allows = true;
                }
            }
            assert(this_allows == suffix_allows(policy.email_whitelist_suffix@[i as int]@, email@));
            allowed = allowed || this_allows;
            i = i + 1;
        }
        if !allowed {
            return Err(AuthError::business(AuthCode::EmailSuffixNotAllowed));
        }
    }
    if policy.email_gmail_limit_enable {
        let v = chars_of(email);
        proof {
            crate::text::lemma_find_from(v@, 0, '@');
        }
        let end = match find_exec(&v, 0, '@') {
            Some(k) => k,
            None => v.len(),
        };
        let prefix = string_from(&v, 0, end);
        let pv = chars_of(prefix.as_str());
        assert(v@.subrange(0, v@.len() as int) =~= v@);
        assert(pv@ == local_part(email@));
        if contains_exec(&pv, '.') || contains_exec(&pv, '+') {
            return Err(AuthError::business(AuthCode::GmailAliasNotSupported));
        }
    }
    Ok(())
}

/// A whitelist entry as compared: trimmed, leading `@`s removed, lowered.
pub open spec fn normalized_suffix(suffix: Seq<char>) -> Seq<char> {
    lower_seq(trim_start_char(trim(suffix), '@'))
}

pub open spec fn suffix_allows(suffix: Seq<char>, email: Seq<char>) -> bool {
    normalized_suffix(suffix).len() > 0 && crate::text::ends_with(
        lower_seq(email),
        "@"@ + normalized_suffix(suffix),
    )
}

/// The part of an address before its first `@` (all of it when absent).
pub open spec fn local_part(email: Seq<char>) -> Seq<char> {
    match find(email, '@') {
        Some(i) => email.subrange(0, i),
        None => email,
    }
}

pub open spec fn register_email_violation(policy: AuthPolicy, email: Seq<char>) -> Option<AuthCode> {
    if policy.email_whitelist_enable && !(exists|j: int|
        0 <= j < policy.email_whitelist_suffix@.len() && suffix_allows(
            policy.email_whitelist_suffix@[j]@,
            email,
        )) {
        Some(AuthCode::EmailSuffixNotAllowed)
    } else if policy.email_gmail_limit_enable && (contains_char(local_part(email), '.')
        || contains_char(local_part(email), '+')) {
        Some(AuthCode::GmailAliasNotSupported)
    } else {
        None
    }
}

/// Normalizes one whitelist entry.
pub fn whitelist_suffix(suffix: &str) -> (r: String)
    ensures
        r@ == normalized_suffix(suffix@),
{
    let t = trim_str(suffix);
    let v = chars_of(t.as_str());
    let a = char_start_exec(&v, '@');
    let stripped = string_from(&v, a, v.len());
    to_ascii_lowercase(stripped.as_str())
}

/// `local@host` with both parts non-empty, no second `@`, no whitespace.
pub open spec fn valid_email_shape(email: Seq<char>) -> bool {
    !has_ws(email) && match find(email, '@') {
        Some(i) => i > 0 && i + 1 < email.len() && !contains_char(
            email.subrange(i + 1, email.len() as int),
            '@',
        ),
        None => false,
    }
}

pub fn is_valid_email(email: &str) -> (r: bool)
    ensures
        r == valid_email_shape(email@),
{
    let v = chars_of(email);
    if has_ws_exec(&v) {
        return false;
    }
    match find_exec(&v, 0, '@') {
        Some(i) => {
            proof {
                crate::text::lemma_find_from(v@, 0, '@');
                assert(find_from(v@, 0, '@') == Some(i as int));
            }
            assert(i < v.len());
            if i == 0 || i + 1 >= v.len() {
                return false;
            }
            let host = string_from(&v, i + 1, v.len());
            let hv = chars_of(host.as_str());
            !contains_exec(&hv, '@')
        },
        None => false,
    }
}

pub open spec fn email_violation(email: Seq<char>) -> Option<AuthError> {
    if trim(email).len() == 0 {
        Some(AuthError::Validation { field: "email", message: "Email can not be empty" })
    } else if !valid_email_shape(trim(email)) || trim(email).len() > MAX_EMAIL_CHARS {
        Some(AuthError::Validation { field: "email", message: "Email format is incorrect" })
    } else {
        None
    }
}

/// An address is accepted only when, trimmed, it holds exactly one `@`
/// with characters on both sides of it; one that begins with `@` has no
/// local part and is refused as malformed.
pub proof fn law_accepted_email_has_local_part_and_host(email: Seq<char>)
    ensures
        email_violation(email) is None ==> {
            let t = trim(email);
            &&& t.len() > 0
            &&& t[0] != '@'
            &&& t[t.len() - 1] != '@'
            &&& exists|i: int|
                0 < i < t.len() - 1 && t[i] == '@' && forall|j: int|
                    0 <= j < t.len() && j != i ==> #[trigger] t[j] != '@'
        },
        trim(email).len() > 0 && trim(email)[0] == '@' ==> email_violation(email) == Some(
            AuthError::Validation { field: "email", message: "Email format is incorrect" },
        ),
{
    let t = trim(email);
    crate::text::lemma_find_from(t, 0, '@');
    if email_violation(email) is None {
        let i = find(t, '@')->0;
        assert forall|j: int| 0 <= j < t.len() && j != i implies #[trigger] t[j] != '@' by {
            if j > i {
                assert(t.subrange(i + 1, t.len() as int)[j - i - 1] == t[j]);
            }
        }
        assert(t[i] == '@');
    }
}

/// A trimmed, non-empty, well-shaped address of at most 254 characters.
pub fn validate_email(email: &str) -> (r: Result<(), AuthError>)
    ensures
        match email_violation(email@) {
            Some(e) => r == Err::<(), AuthError>(e),
            None => r is Ok,
        },
{
    let t = trim_str(email);
    let n = chars_of(t.as_str()).len();
    if n == 0 {
        return Err(AuthError::validation("email", "Email can not be empty"));
    }
    if !is_valid_email(t.as_str()) || n > MAX_EMAIL_CHARS {
        return Err(AuthError::validation("email", "Email format is incorrect"));
    }
    Ok(())
}

/// Trimmed and ASCII-lowercased.
pub fn normalize_email(email: &str) -> (r: String)
    ensures
        r@ == lower_seq(trim(email@)),
{
    let t = trim_str(email);
    to_ascii_lowercase(t.as_str())
}

pub open spec fn password_violation(password: Seq<char>) -> Option<AuthError> {
    if password.len() == 0 {
        Some(AuthError::Validation { field: "password", message: "Password can not be empty" })
    } else if !(8 <= password.len() <= MAX_PASSWORD_CHARS) {
        Some(
            AuthError::Validation {
                field: "password",
                message: "Password must be greater than 8 digits",
            },
        )
    } else {
        None
    }
}

/// A password of 8 to 128 characters.
pub fn validate_password(password: &str) -> (r: Result<(), AuthError>)
    ensures
        match password_violation(password@) {
            Some(e) => r == Err::<(), AuthError>(e),
            None => r is Ok,
        },
{
    let n = chars_of(password).len();
    if n == 0 {
        return Err(AuthError::validation("password", "Password can not be empty"));
    }
    if !(8 <= n && n <= MAX_PASSWORD_CHARS) {
        return Err(AuthError::validation("password", "Password must be greater than 8 digits"));
    }
    Ok(())
}

pub open spec fn forget_violation(email: Seq<char>, password: Seq<char>, code: Seq<char>) -> Option<
    AuthError,
> {
    if email_violation(email) is Some {
        email_violation(email)
    } else if password_violation(password) is Some {
        password_violation(password)
    } else if password.len() > 64 {
        Some(
            AuthError::Validation {
                field: "password",
                message: "Password must be greater than 8 digits",
            },
        )
    } else if trim(code).len() == 0 {
        Some(
            AuthError::Validation {
                field: "email_code",
                message: "Email verification code cannot be empty",
            },
        )
    } else if code.len() != 6 || !all_digits(code) {
        Some(
            AuthError::Validation {
                field: "email_code",
                message: "Incorrect email verification code",
            },
        )
    } else {
        None
    }
}

/// Password reset input: a valid address, a password of 8 to 64
/// characters, and a six-digit e-mail code, checked in that order.
pub fn validate_forget(email: &str, password: &str, email_code: &str) -> (r: Result<(), AuthError>)
    ensures
        match forget_violation(email@, password@, email_code@) {
            Some(e) => r == Err::<(), AuthError>(e),
            None => r is Ok,
        },
{
    validate_email(email)?;
    validate_password(password)?;
    if chars_of(password).len() > 64 {
        return Err(AuthError::validation("password", "Password must be greater than 8 digits"));
    }
    let t = trim_str(email_code);
    if chars_of(t.as_str()).len() == 0 {
        return Err(AuthError::validation("email_code", "Email verification code cannot be empty"));
    }
    let v = chars_of(email_code);
    if v.len() != 6 || !all_digits_exec(&v, 0, v.len()) {
        proof {
            assert(v@.subrange(0, v@.len() as int) =~= v@);
        }
        return Err(AuthError::validation("email_code", "Incorrect email verification code"));
    }
    proof {
        assert(v@.subrange(0, v@.len() as int) =~= v@);
    }
    Ok(())
}

pub open spec fn change_password_violation(old: Seq<char>, new: Seq<char>) -> Option<AuthError> {
    if old.len() == 0 {
        Some(AuthError::Validation { field: "old_password", message: "Old password cannot be empty" })
    } else if old.len() > MAX_PASSWORD_CHARS {
        Some(AuthError::Validation { field: "old_password", message: "The old password is wrong" })
    } else if new.len() == 0 {
        Some(AuthError::Validation { field: "new_password", message: "New password cannot be empty" })
    } else if !(8 <= new.len() <= MAX_PASSWORD_CHARS) {
        Some(
            AuthError::Validation {
                field: "new_password",
                message: "Password must be greater than 8 digits",
            },
        )
    } else {
        None
    }
}

/// Both passwords present; the old one at most 128 characters, the new one
/// 8 to 128.
pub fn validate_change_password(old_password: &str, new_password: &str) -> (r: Result<(), AuthError>)
    ensures
        match change_password_violation(old_password@, new_password@) {
            Some(e) => r == Err::<(), AuthError>(e),
            None => r is Ok,
        },
{
    let old_len = chars_of(old_password).len();
    if old_len == 0 {
        return Err(AuthError::validation("old_password", "Old password cannot be empty"));
    }
    if old_len > MAX_PASSWORD_CHARS {
        return Err(AuthError::validation("old_password", "The old password is wrong"));
    }
    let new_len = chars_of(new_password).len();
    if new_len == 0 {
        return Err(AuthError::validation("new_password", "New password cannot be empty"));
    }
    if !(8 <= new_len && new_len <= MAX_PASSWORD_CHARS) {
        return Err(AuthError::validation("new_password", "Password must be greater than 8 digits"));
    }
    Ok(())
}

pub open spec fn longer_than(value: Option<String>, bytes: int) -> bool {
    value matches Some(v) && byte_len(v@) > bytes
}

pub open spec fn auxiliary_violation(input: RegisterInput) -> Option<AuthError> {
    if longer_than(input.invite_code, MAX_INVITE_CODE_BYTES as int) {
        Some(AuthError::Validation { field: "invite_code", message: "Invalid invitation code" })
    } else if longer_than(input.email_code, MAX_EMAIL_CODE_BYTES as int) {
        Some(
            AuthError::Validation {
                field: "email_code",
                message: "Incorrect email verification code",
            },
        )
    } else if longer_than(input.recaptcha_data, MAX_RECAPTCHA_DATA_BYTES as int) {
        Some(
            AuthError::Validation {
                field: "recaptcha_data",
                message: "Invalid code is incorrect",
            },
        )
    } else {
        None
    }
}

pub fn exceeds_bytes(value: &Option<String>, bytes: usize) -> (r: bool)
    ensures
        r == longer_than(*value, bytes as int),
{
    match value {
        Some(v) => crate::text::byte_len_exceeds(v.as_str(), bytes),
        None => false,
    }
}

/// Byte bounds on the optional registration inputs (invite code 255,
/// e-mail code 64, reCAPTCHA token 4096), checked before any expensive work.
pub fn validate_registration_auxiliary_inputs(input: &RegisterInput) -> (r: Result<(), AuthError>)
    ensures
        match auxiliary_violation(*input) {
            Some(e) => r == Err::<(), AuthError>(e),
            None => r is Ok,
        },
{
    if exceeds_bytes(&input.invite_code, MAX_INVITE_CODE_BYTES) {
        return Err(AuthError::validation("invite_code", "Invalid invitation code"));
    }
    if exceeds_bytes(&input.email_code, MAX_EMAIL_CODE_BYTES) {
        return Err(AuthError::validation("email_code", "Incorrect email verification code"));
    }
    if exceeds_bytes(&input.recaptcha_data, MAX_RECAPTCHA_DATA_BYTES) {
        return Err(AuthError::validation("recaptcha_data", "Invalid code is incorrect"));
    }
    Ok(())
}

pub const GIB_BYTES: i64 = 1_073_741_824;

/// Trial allowance in bytes: `transfer_gib` GiB, rejected when negative or
/// beyond `i64`.
pub fn checked_trial_transfer_bytes(transfer_gib: i64) -> (r: Result<i64, AuthError>)
    ensures
        transfer_gib < 0 ==> (r matches Err(e) && e.is_business_detail(
            AuthCode::InvalidParameter,
            "Trial plan traffic allowance must not be negative"@,
        )),
        transfer_gib >= 0 && transfer_gib * GIB_BYTES <= i64::MAX ==> r == Ok::<i64, AuthError>(
            (transfer_gib * GIB_BYTES) as i64,
        ),
        transfer_gib >= 0 && transfer_gib * GIB_BYTES > i64::MAX ==> (r matches Err(e)
            && e.is_business_detail(
            AuthCode::InvalidParameter,
            "Trial plan traffic allowance exceeds the supported range"@,
        )),
{
    if transfer_gib < 0 {
        return Err(
            AuthError::business_detail(
                AuthCode::InvalidParameter,
                "Trial plan traffic allowance must not be negative",
            ),
        );
    }
    match transfer_gib.checked_mul(GIB_BYTES) {
        Some(bytes) => Ok(bytes),
        None => Err(
            AuthError::business_detail(
                AuthCode::InvalidParameter,
                "Trial plan traffic allowance exceeds the supported range",
            ),
        ),
    }
}

/// Truncates to at most `maximum_bytes` bytes on a character boundary.
pub fn truncate_utf8(value: String, maximum_bytes: usize) -> (r: String)
    ensures
        is_byte_truncation(r@, value@, maximum_bytes as int),
{
    crate::text::truncate_utf8(value, maximum_bytes)
}

/// Operators (administrators and staff) get the privileged lifetime.
pub fn session_ttl_seconds(ordinary: u64, privileged: u64, is_admin: i16, is_staff: i16) -> (r: u64)
    ensures
        r == if is_admin != 0 || is_staff != 0 {
            privileged
        } else {
            ordinary
        },
{
    if is_admin != 0 || is_staff != 0 {
        privileged
    } else {
        ordinary
    }
}

/// What a trial plan grants a new account.
#[derive(Clone, Debug, Default, Eq, PartialEq)]
pub struct TrialPlanBinding {
    pub transfer_enable: i64,
    pub device_limit: Option<i32>,
    pub group_id: Option<i32>,
    pub plan_id: Option<i32>,
    pub speed_limit: Option<i32>,
    pub expired_at: Option<i64>,
}

impl TrialPlanBinding {
    pub open spec fn is_empty(self) -> bool {
        self.transfer_enable == 0 && self.device_limit is None && self.group_id is None
            && self.plan_id is None && self.speed_limit is None && self.expired_at is None
    }

    pub fn none() -> (r: Self)
        ensures
            r.is_empty(),
    {
        Self {
            transfer_enable: 0,
            device_limit: None,
            group_id: None,
            plan_id: None,
            speed_limit: None,
            expired_at: None,
        }
    }
}

/// The trial a new account receives once the configured plan was looked up
/// (`None` when it does not exist): nothing without a plan, otherwise its
/// group, limits and traffic, expiring `duration` seconds from `now`.
pub fn trial_binding(
    plan: Option<TrialPlanRecord>,
    duration: TrialDuration,
    now: i64,
) -> (r: Result<TrialPlanBinding, AuthError>)
    ensures
        plan is None ==> (r matches Ok(b) && b.is_empty()),
        plan matches Some(p) ==> {
            &&& p.transfer_gib < 0 ==> (r matches Err(e) && e.has_code(AuthCode::InvalidParameter))
            &&& p.transfer_gib * GIB_BYTES > i64::MAX ==> (r matches Err(e) && e.has_code(AuthCode::InvalidParameter))
            &&& !(duration is Seconds) ==> (r matches Err(e) && e.has_code(AuthCode::InvalidParameter))
            &&& (duration is Seconds && !(i64::MIN <= now + duration->0 <= i64::MAX)) ==> (r matches Err(e) && e.has_code(AuthCode::InvalidParameter))
            &&& (0 <= p.transfer_gib && p.transfer_gib * GIB_BYTES <= i64::MAX
                && duration is Seconds && i64::MIN <= now + duration->0 <= i64::MAX) ==> r
                == Ok::<TrialPlanBinding, AuthError>(
                TrialPlanBinding {
                    transfer_enable: (p.transfer_gib * GIB_BYTES) as i64,
                    device_limit: p.device_limit,
                    group_id: Some(p.group_id),
                    plan_id: Some(p.id),
                    speed_limit: p.speed_limit,
                    expired_at: Some((now + duration->0) as i64),
                },
            )
        },
{
    let plan = match plan {
        Some(p) => p,
        None => return Ok(TrialPlanBinding::none()),
    };
    let transfer_enable = checked_trial_transfer_bytes(plan.transfer_gib)?;
    let seconds = match duration {
        TrialDuration::Seconds(seconds) => seconds,
        TrialDuration::Negative => {
            return Err(
                AuthError::business_detail(
                    AuthCode::InvalidParameter,
                    "Trial plan duration must not be negative",
                ),
            );
        },
        TrialDuration::OutOfRange => {
            return Err(
                AuthError::business_detail(
                    AuthCode::InvalidParameter,
                    "Trial plan duration exceeds the supported range",
                ),
            );
        },
    };
    let expired_at = match now.checked_add(seconds) {
        Some(t) => t,
        None => {
            return Err(
                AuthError::business_detail(
                    AuthCode::InvalidParameter,
                    "Trial plan expiry exceeds the supported range",
                ),
            );
        },
    };
    Ok(
        TrialPlanBinding {
            transfer_enable,
            device_limit: plan.device_limit,
            group_id: Some(plan.group_id),
            plan_id: Some(plan.id),
            speed_limit: plan.speed_limit,
            expired_at: Some(expired_at),
        },
    )
}

/// The invite code a registration uses: trimmed, blank meaning none; when
/// invitations are forced, a registration without one is refused.
pub fn registration_invite_code(invite_code: &Option<String>, invite_force: bool) -> (r: Result<
    Option<String>,
    AuthError,
>)
    ensures
        match *invite_code {
            Some(c) if trim(c@).len() > 0 => r matches Ok(Some(t)) && t@ == trim(c@),
            _ => if invite_force {
                r matches Err(e) && e.is_business_detail(
                    AuthCode::InvalidInviteCode,
                    "You must use the invitation code to register"@,
                )
            } else {
                r matches Ok(None)
            },
        },
{
    let code = match invite_code {
        Some(c) => {
            let t = trim_str(c.as_str());
            if chars_of(t.as_str()).len() > 0 {
                Some(t)
            } else {
                None
            }
        },
        None => None,
    };
    if invite_force && code.is_none() {
        return Err(
            AuthError::business_detail(
                AuthCode::InvalidInviteCode,
                "You must use the invitation code to register",
            ),
        );
    }
    Ok(code)
}

/// The e-mail code a verified registration presents: trimmed, exactly six
/// ASCII digits.
pub fn registration_email_code(email_code: &Option<String>) -> (r: Result<String, AuthError>)
    ensures
        match *email_code {
            Some(c) if trim(c@).len() == 6 && all_digits(trim(c@)) => r matches Ok(t) && t@ == trim(
                c@,
            ),
            _ => r matches Err(e) && e.is_business(AuthCode::InvalidEmailCode),
        },
{
    match email_code {
        Some(c) => {
            let t = trim_str(c.as_str());
            let v = chars_of(t.as_str());
            if v.len() == 6 && all_digits_exec(&v, 0, 6) {
                assert(v@.subrange(0, 6) =~= v@);
                Ok(t)
            } else {
                assert(v@.len() == 6 ==> v@.subrange(0, 6) =~= v@);
                Err(AuthError::business(AuthCode::InvalidEmailCode))
            }
        },
        None => Err(AuthError::business(AuthCode::InvalidEmailCode)),
    }
}

/// The answer of the e-mail code limiter: an exhausted code is reported as
/// `limited`.
pub fn email_code_result(result: LimitedEmailCodeResult, limited: AuthCode) -> (r: Result<(), AuthError>)
    ensures
        match result {
            LimitedEmailCodeResult::Consumed => r is Ok,
            LimitedEmailCodeResult::Incorrect => r matches Err(e) && e.is_business(
                AuthCode::InvalidEmailCode,
            ),
            LimitedEmailCodeResult::Limited => r matches Err(e) && e.is_business(limited),
        },
{
    match result {
        LimitedEmailCodeResult::Consumed => Ok(()),
        LimitedEmailCodeResult::Incorrect => Err(AuthError::business(AuthCode::InvalidEmailCode)),
        LimitedEmailCodeResult::Limited => Err(AuthError::business(limited)),
    }
}

/// The reCAPTCHA token to verify, if any: oversized tokens fail first; with
/// reCAPTCHA disabled nothing is verified; otherwise the trimmed token must
/// not be blank.
pub fn recaptcha_token(token: Option<&str>, recaptcha_enable: bool) -> (r: Result<
    Option<String>,
    AuthError,
>)
    ensures
        (token matches Some(t) && byte_len(t@) > MAX_RECAPTCHA_DATA_BYTES) ==> (r matches Err(e)
            && e.is_business(AuthCode::RecaptchaFailed)),
        !(token matches Some(t) && byte_len(t@) > MAX_RECAPTCHA_DATA_BYTES) ==> if !recaptcha_enable {
            r matches Ok(None)
        } else {
            match token {
                Some(t) if trim(t@).len() > 0 => r matches Ok(Some(v)) && v@ == trim(t@),
                _ => r matches Err(e) && e.is_business(AuthCode::RecaptchaFailed),
            }
        },
{
    match token {
        Some(t) => {
            if crate::text::byte_len_exceeds(t, MAX_RECAPTCHA_DATA_BYTES) {
                return Err(AuthError::business(AuthCode::RecaptchaFailed));
            }
        },
        None => {},
    }
    if !recaptcha_enable {
        return Ok(None);
    }
    match token {
        Some(t) => {
            let v = trim_str(t);
            if chars_of(v.as_str()).len() > 0 {
                Ok(Some(v))
            } else {
                Err(AuthError::business(AuthCode::RecaptchaFailed))
            }
        },
        None => Err(AuthError::business(AuthCode::RecaptchaFailed)),
    }
}

/// The answer of the reCAPTCHA adapter: anything but a confirmed pass fails.
pub fn recaptcha_result(verified: Result<bool, RepositoryError>) -> (r: Result<(), AuthError>)
    ensures
        verified == Ok::<bool, RepositoryError>(true) ==> r is Ok,
        verified != Ok::<bool, RepositoryError>(true) ==> (r matches Err(e) && e.is_business(
            AuthCode::RecaptchaFailed,
        )),
{
    match verified {
        Ok(true) => Ok(()),
        _ => Err(AuthError::business(AuthCode::RecaptchaFailed)),
    }
}

/// The answer a mail failure is reported as.
pub open spec fn reports_mail_failure(error: MailDeliveryError, r: AuthError) -> bool {
    match error {
        MailDeliveryError::SenderNotConfigured { detail: Some(d) } => r.is_business_detail(
            AuthCode::MailSenderNotConfigured,
            d@,
        ),
        MailDeliveryError::SenderNotConfigured { detail: None } => r.is_business(
            AuthCode::MailSenderNotConfigured,
        ),
        MailDeliveryError::InvalidSender => r.is_business_detail(
            AuthCode::MailInvalid,
            "Invalid email sender"@,
        ),
        MailDeliveryError::InvalidRecipient => r.is_business_detail(
            AuthCode::MailInvalid,
            "Invalid recipient email"@,
        ),
        MailDeliveryError::BuildFailed(m) => r.is_business_detail(
            AuthCode::MailSendFailed,
            "Build mail failed: "@ + m@,
        ),
        MailDeliveryError::TimedOut => r.is_business_detail(
            AuthCode::MailSendFailed,
            "Send mail timed out"@,
        ),
        MailDeliveryError::SendFailed(m) => r.is_business_detail(
            AuthCode::MailSendFailed,
            "Send mail failed: "@ + m@,
        ),
        MailDeliveryError::Infrastructure(e) => r == AuthError::Repository(e),
    }
}

/// Mail delivery failures as the registration and reset flows report them.
pub fn mail_delivery_error(error: MailDeliveryError) -> (r: AuthError)
    ensures
        reports_mail_failure(error, r),
{
    match error {
        MailDeliveryError::SenderNotConfigured { detail: Some(detail) } => AuthError::Business {
            code: AuthCode::MailSenderNotConfigured,
            detail: Some(detail),
        },
        MailDeliveryError::SenderNotConfigured { detail: None } => AuthError::business(
            AuthCode::MailSenderNotConfigured,
        ),
        MailDeliveryError::InvalidSender => AuthError::business_detail(
            AuthCode::MailInvalid,
            "Invalid email sender",
        ),
        MailDeliveryError::InvalidRecipient => AuthError::business_detail(
            AuthCode::MailInvalid,
            "Invalid recipient email",
        ),
        MailDeliveryError::BuildFailed(error) => {
            let mut detail = to_owned("Build mail failed: ");
            append_str_to(&mut detail, error.as_str());
            AuthError::Business { code: AuthCode::MailSendFailed, detail: Some(detail) }
        },
        MailDeliveryError::TimedOut => AuthError::business_detail(
            AuthCode::MailSendFailed,
            "Send mail timed out",
        ),
        MailDeliveryError::SendFailed(error) => {
            let mut detail = to_owned("Send mail failed: ");
            append_str_to(&mut detail, error.as_str());
            AuthError::Business { code: AuthCode::MailSendFailed, detail: Some(detail) }
        },
        MailDeliveryError::Infrastructure(error) => AuthError::Repository(error),
    }
}

/// Whether a session's recorded expiry has passed at `now`.
pub open spec fn session_expired(expires_at: Option<i64>, now: i64) -> bool {
    expires_at matches Some(t) && t <= now
}

/// The live session an identity resolves to: the account must exist, be
/// unbanned and still on the same session epoch, and the metadata must
/// exist and not have expired.
pub fn session_user(
    identity: SessionIdentity,
    account: Option<AuthAccount>,
    metadata: Option<SessionMetadata>,
    now: i64,
) -> (r: Result<AuthUser, AuthError>)
    ensures
        r is Ok <==> (account is Some && !account->0.banned && account->0.session_epoch
            == identity.session_epoch && metadata is Some && !session_expired(
            metadata->0.expires_at,
            now,
        )),
        r is Err ==> r matches Err(AuthError::Unauthorized),
        r matches Ok(u) ==> u.id == account->0.id && u.email == account->0.email && u.is_admin
            == account->0.is_admin && u.is_staff == account->0.is_staff && u.admin_permissions
            == account->0.admin_permissions && u.session_id == identity.session_id
            && u.authenticated_at == metadata->0.login_at && u.password_authenticated
            == metadata->0.password_authenticated,
{
    let account = match account {
        Some(a) => a,
        None => return Err(AuthError::Unauthorized),
    };
    if account.banned || account.session_epoch != identity.session_epoch {
        return Err(AuthError::Unauthorized);
    }
    let metadata = match metadata {
        Some(m) => m,
        None => return Err(AuthError::Unauthorized),
    };
    match metadata.expires_at {
        Some(t) => if t <= now {
            return Err(AuthError::Unauthorized);
        },
        None => {},
    }
    Ok(
        AuthUser {
            id: account.id,
            email: account.email,
            is_admin: account.is_admin,
            is_staff: account.is_staff,
            admin_permissions: account.admin_permissions,
            session_id: identity.session_id,
            authenticated_at: metadata.login_at,
            password_authenticated: metadata.password_authenticated,
        },
    )
}

/// A bearer token worth looking up: non-empty and at most 4096 bytes.
pub fn plausible_bearer(bearer: &str) -> (r: bool)
    ensures
        r == (bearer@.len() > 0 && byte_len(bearer@) <= 4096),
{
    chars_of(bearer).len() > 0 && !crate::text::byte_len_exceeds(bearer, 4096)
}

pub open spec fn saturating(v: int) -> int {
    if v > i64::MAX {
        i64::MAX as int
    } else if v < i64::MIN {
        i64::MIN as int
    } else {
        v
    }
}

/// `i64::saturating_add`.
pub fn saturating_add_i64(a: i64, b: i64) -> (r: i64)
    ensures
        r == saturating(a + b),
{
    let sum = a as i128 + b as i128;
    if sum > i64::MAX as i128 {
        i64::MAX
    } else if sum < i64::MIN as i128 {
        i64::MIN
    } else {
        sum as i64
    }
}

/// Metadata recorded for a new session: address truncated to 64 bytes,
/// user agent to 512, expiring `ttl_seconds` (read as an `i64`) after
/// `now`, saturating at the bounds of `i64`.
pub fn new_session_metadata(
    client_ip: Option<String>,
    user_agent: Option<String>,
    now: i64,
    ttl_seconds: u64,
    password_authenticated: bool,
) -> (r: SessionMetadata)
    ensures
        match client_ip {
            Some(ip) => r.ip matches Some(t) && is_byte_truncation(t@, ip@, 64),
            None => r.ip is None,
        },
        match user_agent {
            Some(ua) => r.user_agent matches Some(t) && is_byte_truncation(t@, ua@, 512),
            None => r.user_agent is None,
        },
        r.login_at == now,
        r.password_authenticated == password_authenticated,
        r.expires_at matches Some(t) && t == saturating(now + (ttl_seconds as i64)),
{
    let ip = match client_ip {
        Some(v) => Some(truncate_utf8(v, 64)),
        None => None,
    };
    let ua = match user_agent {
        Some(v) => Some(truncate_utf8(v, 512)),
        None => None,
    };
    let ttl = ttl_seconds as i64;
    let expires_at = saturating_add_i64(now, ttl);
    SessionMetadata {
        ip,
        login_at: now,
        user_agent: ua,
        expires_at: Some(expires_at),
        password_authenticated,
    }
}

} // verus!
