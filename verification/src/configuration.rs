//! Administrative configuration and operator messaging: the per-key patch
//! rules, secret redaction, the exact decimal bounds, and the decisions of
//! the patch and bulk-mail use cases between their ports.
use vstd::prelude::*;

use crate::admin_user::{UserFilterClause, validate_user_filters};
use crate::filter_dsl::clause_ok;
use crate::keyed_map::{KeyedMap, kept};
use crate::text::{
    in_list, in_list_exec,
    all_digits, all_digits_exec, append_str_to, char_end_exec, char_start_exec, chars_of,
    find, find_exec, find_sub_exec, find_sub_from, has_ws, has_ws_exec, is_alnum, is_alpha,
    lex_lt, lex_lt_exec, lemma_find_from, lemma_find_sub_from, starts_with, str_eq, string_from,
    to_owned, trim, trim_char, trim_end_char, trim_start_char, trim_str, char_start, char_end,
};

verus! {

pub const REDACTED_SECRET: &'static str = "********";

pub const BULK_MAIL_MAX_RECIPIENTS: usize = 50_000;

pub const SECRET_KEYS: [&'static str; 4] = [
    "server_token",
    "email_password",
    "telegram_bot_token",
    "recaptcha_key",
];

#[derive(Clone, Debug, PartialEq)]
pub enum ConfigurationValue {
    Null,
    Bool(bool),
    Integer(i64),
    Number(String),
    String(String),
    StringList(Vec<String>),
}

impl ConfigurationValue {
    pub open spec fn spec_string(self) -> Option<Seq<char>> {
        match self {
            ConfigurationValue::String(s) => Some(s@),
            _ => None,
        }
    }

    pub fn string(&self) -> (r: Option<&str>)
        ensures
            match self.spec_string() {
                Some(s) => r matches Some(t) && t@ == s,
                None => r is None,
            },
    {
        match self {
            Self::String(value) => Some(value.as_str()),
            _ => None,
        }
    }
}

pub type ConfigurationMap = KeyedMap<ConfigurationValue>;

pub type ConfigurationGroups = KeyedMap<ConfigurationMap>;

#[derive(Clone, Copy, Debug, Eq, PartialEq, Structural)]
pub enum ConfigurationCode {
    ConfigRevisionConflict,
    ConfigValidationFailed,
    InvalidParameter,
    MailIdempotencyConflict,
    MailInvalid,
    MailSendFailed,
    MailSenderNotConfigured,
    TelegramRequestFailed,
    TelegramTokenInvalid,
    TelegramWebhookFailed,
}

impl ConfigurationCode {
    /// The code's variant name, as `{:?}` prints it.
    pub open spec fn spec_debug_name(self) -> Seq<char> {
        match self {
            ConfigurationCode::ConfigRevisionConflict => "ConfigRevisionConflict"@,
            ConfigurationCode::ConfigValidationFailed => "ConfigValidationFailed"@,
            ConfigurationCode::InvalidParameter => "InvalidParameter"@,
            ConfigurationCode::MailIdempotencyConflict => "MailIdempotencyConflict"@,
            ConfigurationCode::MailInvalid => "MailInvalid"@,
            ConfigurationCode::MailSendFailed => "MailSendFailed"@,
            ConfigurationCode::MailSenderNotConfigured => "MailSenderNotConfigured"@,
            ConfigurationCode::TelegramRequestFailed => "TelegramRequestFailed"@,
            ConfigurationCode::TelegramTokenInvalid => "TelegramTokenInvalid"@,
            ConfigurationCode::TelegramWebhookFailed => "TelegramWebhookFailed"@,
        }
    }

    /// The code's variant name, as `{:?}` prints it.
    pub fn debug_name(self) -> (r: &'static str)
        ensures
            r@ == self.spec_debug_name(),
    {
        match self {
            ConfigurationCode::ConfigRevisionConflict => "ConfigRevisionConflict",
            ConfigurationCode::ConfigValidationFailed => "ConfigValidationFailed",
            ConfigurationCode::InvalidParameter => "InvalidParameter",
            ConfigurationCode::MailIdempotencyConflict => "MailIdempotencyConflict",
            ConfigurationCode::MailInvalid => "MailInvalid",
            ConfigurationCode::MailSendFailed => "MailSendFailed",
            ConfigurationCode::MailSenderNotConfigured => "MailSenderNotConfigured",
            ConfigurationCode::TelegramRequestFailed => "TelegramRequestFailed",
            ConfigurationCode::TelegramTokenInvalid => "TelegramTokenInvalid",
            ConfigurationCode::TelegramWebhookFailed => "TelegramWebhookFailed",
        }
    }
}

#[derive(Debug)]
pub enum ConfigurationError {
    Validation { field: String, message: String },
    Business { code: ConfigurationCode, detail: Option<String> },
    Internal(String),
}

impl ConfigurationError {
    /// The error as text.
    pub open spec fn spec_rendered(self) -> Seq<char> {
        match self {
            ConfigurationError::Validation { field, message } => "validation failed for "@
                + field@ + ": "@ + message@,
            ConfigurationError::Business { code, .. } => "configuration business error: "@
                + code.spec_debug_name(),
            ConfigurationError::Internal(m) => "configuration internal error: "@ + m@,
        }
    }

    /// The error as text: what the error reports to an operator.
    pub fn rendered(&self) -> (r: String)
        ensures
            r@ == self.spec_rendered(),
    {
        match self {
            ConfigurationError::Validation { field, message } => {
                let mut text = to_owned("validation failed for ");
                append_str_to(&mut text, field.as_str());
                append_str_to(&mut text, ": ");
                append_str_to(&mut text, message.as_str());
                text
            },
            ConfigurationError::Business { code, .. } => {
                let mut text = to_owned("configuration business error: ");
                append_str_to(&mut text, code.debug_name());
                text
            },
            ConfigurationError::Internal(m) => {
                let mut text = to_owned("configuration internal error: ");
                append_str_to(&mut text, m.as_str());
                text
            },
        }
    }

    pub open spec fn is_validation(self, field: Seq<char>, message: Seq<char>) -> bool {
        self matches ConfigurationError::Validation { field: f, message: m } && f@ == field && m@
            == message
    }

    pub open spec fn has_code(self, code: ConfigurationCode) -> bool {
        self matches ConfigurationError::Business { code: c, .. } && c == code
    }

    pub fn business(code: ConfigurationCode) -> (r: Self)
        ensures
            r matches ConfigurationError::Business { code: c, detail: None } && c == code,
    {
        Self::Business { code, detail: None }
    }

    pub fn business_detail(code: ConfigurationCode, detail: &str) -> (r: Self)
        ensures
            r matches ConfigurationError::Business { code: c, detail: Some(d) } && c == code && d@
                == detail@,
    {
        Self::Business { code, detail: Some(to_owned(detail)) }
    }

    pub fn validation(field: &str, message: &str) -> (r: Self)
        ensures
            r.is_validation(field@, message@),
    {
        Self::Validation { field: to_owned(field), message: to_owned(message) }
    }
}

pub struct ConfigurationSnapshot {
    pub revision: i64,
    pub groups: ConfigurationGroups,
}

pub struct ActiveConfiguration {
    pub revision: i64,
    pub values: ConfigurationMap,
    pub effective_admin_path: String,
}

pub struct MaterializedConfiguration<A> {
    pub values: ConfigurationMap,
    pub activation: A,
}

#[derive(Debug)]
pub enum ConfigurationPortError {
    Conflict,
    Validation { detail: String, security: bool },
    FieldValidation { field: String, message: String },
    Business { code: ConfigurationCode, detail: Option<String> },
    Internal(String),
}

/// `From<ConfigurationPortError>`: adapter failures as the use case
/// reports them.
pub fn from_port_error(error: ConfigurationPortError) -> (r: ConfigurationError)
    ensures
        match error {
            ConfigurationPortError::Conflict => r matches ConfigurationError::Business {
                code: ConfigurationCode::ConfigRevisionConflict,
                detail: None,
            },
            ConfigurationPortError::Validation { detail, security } => r
                matches ConfigurationError::Business { code, detail: Some(d) } && code
                == ConfigurationCode::ConfigValidationFailed && d@ == (if security {
                "配置安全校验失败"@
            } else {
                "配置校验失败"@
            }) + ": "@ + detail@,
            ConfigurationPortError::FieldValidation { field, message } => r
                == ConfigurationError::Validation { field, message },
            ConfigurationPortError::Business { code, detail } => r == ConfigurationError::Business {
                code,
                detail,
            },
            ConfigurationPortError::Internal(d) => r == ConfigurationError::Internal(d),
        },
{
    match error {
        ConfigurationPortError::Conflict => ConfigurationError::business(
            ConfigurationCode::ConfigRevisionConflict,
        ),
        ConfigurationPortError::Validation { detail, security } => {
            let mut text = if security {
                to_owned("配置安全校验失败")
            } else {
                to_owned("配置校验失败")
            };
            append_str_to(&mut text, ": ");
            append_str_to(&mut text, detail.as_str());
            ConfigurationError::Business {
                code: ConfigurationCode::ConfigValidationFailed,
                detail: Some(text),
            }
        },
        ConfigurationPortError::FieldValidation { field, message } => {
            ConfigurationError::Validation { field, message }
        },
        ConfigurationPortError::Business { code, detail } => ConfigurationError::Business {
            code,
            detail,
        },
        ConfigurationPortError::Internal(detail) => ConfigurationError::Internal(detail),
    }
}

/// The synchronous half of the configuration authority: the snapshot the
/// operator views.
pub trait ConfigurationSnapshotSource {
    fn current_snapshot(&self) -> Result<ConfigurationSnapshot, ConfigurationPortError>;
}

#[derive(Clone, Copy, Debug, Eq, PartialEq, Structural)]
pub enum MailAudience {
    Admin,
    Staff,
}

#[derive(Clone, Debug, PartialEq)]
pub struct BulkMailInput {
    pub subject: String,
    pub content: String,
    pub filter: Option<Vec<UserFilterClause>>,
}

pub struct BulkMailCommand<'a> {
    pub audience: MailAudience,
    pub actor: &'a str,
    pub idempotency_key: &'a str,
    pub subject: &'a str,
    pub content: &'a str,
    pub filter: Option<&'a [UserFilterClause]>,
    pub maximum_recipients: usize,
}

#[derive(Debug)]
pub enum ConfigurationPatchOutcome<A> {
    Unchanged,
    Committed { activation: A, revision: i64 },
}

pub struct ConfigurationService<R, E, M> {
    repository: R,
    external: E,
    bulk_mail: M,
}

impl<R, E, M> ConfigurationService<R, E, M> {
    pub closed spec fn spec_parts(&self) -> (R, E, M) {
        (self.repository, self.external, self.bulk_mail)
    }

    pub fn new(repository: R, external: E, bulk_mail: M) -> (s: Self)
        ensures
            s.spec_parts() == (repository, external, bulk_mail),
    {
        Self { repository, external, bulk_mail }
    }

    pub fn repository(&self) -> (r: &R)
        ensures
            *r == self.spec_parts().0,
    {
        &self.repository
    }

    pub fn external(&self) -> (r: &E)
        ensures
            *r == self.spec_parts().1,
    {
        &self.external
    }

    pub fn bulk_mail(&self) -> (r: &M)
        ensures
            *r == self.spec_parts().2,
    {
        &self.bulk_mail
    }

    /// The only mail template offered.
    pub fn email_templates(&self) -> (r: Vec<String>)
        ensures
            r@.len() == 1,
            r@[0]@ == "default"@,
    {
        let mut v = Vec::new();
        v.push(to_owned("default"));
        v
    }
}

impl<R: ConfigurationSnapshotSource, E, M> ConfigurationService<R, E, M> {
    /// The operator's view of the current snapshot: see [`view_of`]. The
    /// snapshot source decides which snapshot that is.
    pub fn view(&self, group: Option<&str>) -> (r: Result<ConfigurationSnapshot, ConfigurationError>)
        ensures
            r matches Ok(s) ==> s.revision > 0 && s.groups.wf() && hides_secrets(s.groups),
            r matches Ok(s) ==> exists|snapshot: ConfigurationSnapshot|
                #[trigger] shows_view(snapshot, group, s),
    {
        match self.repository.current_snapshot() {
            Ok(snapshot) => {
                let ghost current = snapshot;
                let r = view_of(snapshot, group);
                proof {
                    if r is Ok {
                        assert(shows_view(current, group, r->Ok_0));
                    }
                }
                r
            },
            Err(error) => Err(from_port_error(error)),
        }
    }
}

pub open spec fn is_secret_key(key: Seq<char>) -> bool {
    exists|i: int| 0 <= i < 4 && (#[trigger] SECRET_KEYS@[i])@ == key
}

pub fn is_secret_key_exec(key: &str) -> (r: bool)
    ensures
        r == is_secret_key(key@),
{
    let keys = SECRET_KEYS;
    let mut i: usize = 0;
    while i < 4
        invariant
            i <= 4,
            keys@ == SECRET_KEYS@,
            forall|j: int| 0 <= j < i ==> (#[trigger] SECRET_KEYS@[j])@ != key@,
        decreases 4 - i,
    {
        if str_eq(keys[i], key) {
            return true;
        }
        i = i + 1;
    }
    false
}

pub open spec fn is_mask(value: ConfigurationValue) -> bool {
    value.spec_string() == Some(REDACTED_SECRET@)
}

/// Whether a stored value is a secret that operators only see masked.
pub open spec fn masked_secret(key: Seq<char>, value: ConfigurationValue) -> bool {
    is_secret_key(key) && match value.spec_string() {
        Some(s) => s.len() > 0,
        None => false,
    }
}

/// Entry by entry, `after` is `before` with every non-empty secret string
/// masked and every other value as it was.
pub open spec fn redacted(
    before: Seq<(String, ConfigurationValue)>,
    after: Seq<(String, ConfigurationValue)>,
) -> bool {
    &&& after.len() == before.len()
    &&& forall|i: int|
        0 <= i < before.len() ==> (#[trigger] after[i]).0 == before[i].0 && (masked_secret(
            before[i].0@,
            before[i].1,
        ) ==> is_mask(after[i].1)) && (!masked_secret(before[i].0@, before[i].1) ==> after[i].1
            == before[i].1)
}

/// Masks every non-empty secret string of one group, in place.
pub fn redact_group(group: &mut ConfigurationMap)
    requires
        old(group).wf(),
    ensures
        final(group).wf(),
        final(group).spec_entries().len() == old(group).spec_entries().len(),
        forall|i: int|
            0 <= i < old(group).spec_entries().len() ==> (#[trigger] final(group).spec_entries()[i]).0
                == old(group).spec_entries()[i].0 && (masked_secret(
                old(group).spec_entries()[i].0@,
                old(group).spec_entries()[i].1,
            ) ==> is_mask(final(group).spec_entries()[i].1)) && (!masked_secret(
                old(group).spec_entries()[i].0@,
                old(group).spec_entries()[i].1,
            ) ==> final(group).spec_entries()[i].1 == old(group).spec_entries()[i].1),
{
    let ghost before = group.spec_entries();
    let n = group.len();
    let mut i: usize = 0;
    while i < n
        invariant
            n == before.len(),
            i <= n,
            group.wf(),
            group.spec_entries().len() == n,
            forall|j: int|
                0 <= j < n ==> (#[trigger] group.spec_entries()[j]).0 == before[j].0,
            forall|j: int|
                i <= j < n ==> (#[trigger] group.spec_entries()[j]).1 == before[j].1,
            forall|j: int|
                0 <= j < i ==> (masked_secret(before[j].0@, before[j].1) ==> is_mask(
                    #[trigger] group.spec_entries()[j].1,
                )) && (!masked_secret(before[j].0@, before[j].1) ==> group.spec_entries()[j].1
                    == before[j].1),
        decreases n - i,
    {
        let entries = group.entries();
        let secret = is_secret_key_exec(entries[i].0.as_str());
        let nonempty = match &entries[i].1 {
            ConfigurationValue::String(s) => chars_of(s.as_str()).len() > 0,
            _ => false,
        };
        if secret && nonempty {
            group.set_value(i, ConfigurationValue::String(to_owned(REDACTED_SECRET)));
        }
        i = i + 1;
    }
}

/// Masks the secrets of every group.
pub fn redact_groups(groups: &mut ConfigurationGroups)
    requires
        old(groups).wf(),
        forall|g: int| 0 <= g < old(groups).spec_entries().len() ==> (#[trigger] old(groups).spec_entries()[g]).1.wf(),
    ensures
        final(groups).wf(),
        final(groups).spec_entries().len() == old(groups).spec_entries().len(),
        forall|g: int|
            0 <= g < old(groups).spec_entries().len() ==> (#[trigger] final(groups).spec_entries()[g]).0
                == old(groups).spec_entries()[g].0 && final(groups).spec_entries()[g].1.wf()
                && redacted(
                old(groups).spec_entries()[g].1.spec_entries(),
                final(groups).spec_entries()[g].1.spec_entries(),
            ),
{
    let ghost before = groups.spec_entries();
    let n = groups.len();
    let mut g: usize = 0;
    while g < n
        invariant
            n == before.len(),
            g <= n,
            groups.wf(),
            groups.spec_entries().len() == n,
            forall|j: int| 0 <= j < n ==> (#[trigger] groups.spec_entries()[j]).0 == before[j].0,
            forall|j: int| 0 <= j < n ==> (#[trigger] groups.spec_entries()[j]).1.wf(),
            forall|j: int|
                0 <= j < g ==> redacted(
                    before[j].1.spec_entries(),
                    (#[trigger] groups.spec_entries()[j]).1.spec_entries(),
                ),
            forall|j: int| g <= j < n ==> (#[trigger] groups.spec_entries()[j]).1 == before[j].1,
        decreases n - g,
    {
        let group = groups.value_at_mut(g);
        redact_group(group);
        g = g + 1;
    }
}

/// The operator's view of a snapshot: an inactive authority (revision not
/// positive) is an internal error; otherwise secrets are masked and, when
/// `group` names an existing group, only that group is kept.
pub fn view_of(snapshot: ConfigurationSnapshot, group: Option<&str>) -> (r: Result<
    ConfigurationSnapshot,
    ConfigurationError,
>)
    ensures
        snapshot.revision <= 0 ==> r matches Err(ConfigurationError::Internal(_)),
        snapshot.revision > 0 && !snapshot.groups.wf() ==> r matches Err(ConfigurationError::Internal(_)),
        snapshot.revision > 0 && snapshot.groups.wf() && (forall|g: int| 0 <= g < snapshot.groups.spec_entries().len() ==> (#[trigger] snapshot.groups.spec_entries()[g]).1.wf()) ==> (r matches Ok(s) && s.revision
            == snapshot.revision && s.groups.wf() && match group {
            Some(name) => if snapshot.groups.spec_get(name@) is Some {
                s.groups.spec_entries().len() == 1 && s.groups.spec_entries()[0].0@ == name@
            } else {
                s.groups.spec_entries().len() == snapshot.groups.spec_entries().len()
            },
            None => s.groups.spec_entries().len() == snapshot.groups.spec_entries().len(),
        }),
        r matches Ok(s) ==> s.revision > 0 && s.groups.wf() && hides_secrets(s.groups)
            && shows_view(snapshot, group, s),
{
    let ghost original = snapshot;
    let mut snapshot = snapshot;
    if snapshot.revision <= 0 {
        return Err(
            ConfigurationError::Internal(to_owned("operator configuration authority is not active")),
        );
    }
    if !groups_wf(&snapshot.groups) {
        return Err(ConfigurationError::Internal(to_owned("configuration groups are malformed")));
    }
    let ghost before = snapshot.groups.spec_entries();
    redact_groups(&mut snapshot.groups);
    proof {
        lemma_redacted_hides(before, snapshot.groups.spec_entries());
    }
    match group {
        Some(name) => {
            proof {
                assert forall|j: int| 0 <= j < before.len() implies (#[trigger] before[j]).0
                    == snapshot.groups.spec_entries()[j].0 by {
                    assert(snapshot.groups.spec_entries()[j].0 == before[j].0);
                }
                crate::keyed_map::lemma_index_of_same_keys(
                    before,
                    snapshot.groups.spec_entries(),
                    name@,
                    0,
                );
            }
            if snapshot.groups.contains_key(name) {
                let n = snapshot.groups.len();
                let mut drop: Vec<bool> = Vec::new();
                let mut i: usize = 0;
                while i < n
                    invariant
                        i <= n,
                        n == snapshot.groups.spec_entries().len(),
                        drop@.len() == i,
                        forall|j: int| 0 <= j < i ==> drop@[j] == (snapshot.groups.spec_entries()[j].0@ != name@),
                    decreases n - i,
                {
                    let entries = snapshot.groups.entries();
                    let keep = str_eq(entries[i].0.as_str(), name);
                    drop.push(!keep);
                    i = i + 1;
                }
                let ghost redacted_groups = snapshot.groups.spec_entries();
                proof {
                    crate::keyed_map::lemma_index_of_from(snapshot.groups.spec_entries(), name@, 0);
                    lemma_kept_single(snapshot.groups.spec_entries(), drop@, name@);
                    lemma_kept_hides(snapshot.groups.spec_entries(), drop@);
                    crate::keyed_map::lemma_kept_subset(snapshot.groups.spec_entries(), drop@);
                }
                snapshot.groups.retain_where(&drop);
                proof {
                    let k = snapshot.groups.spec_entries();
                    let i = crate::keyed_map::index_of(before, name@)->0;
                    let j = choose|j: int|
                        0 <= j < redacted_groups.len() && !drop@[j] && redacted_groups[j]
                            == #[trigger] kept(redacted_groups, drop@)[0];
                    if j != i {
                        if j < i {
                            assert(redacted_groups[j].0@ != redacted_groups[i].0@);
                        } else {
                            assert(redacted_groups[i].0@ != redacted_groups[j].0@);
                        }
                    }
                    assert(k[0] == redacted_groups[i]);
                    assert(redacted(before[i].1.spec_entries(), redacted_groups[i].1.spec_entries()));
                }
            } else {
                proof {
                    crate::keyed_map::lemma_index_of_from(snapshot.groups.spec_entries(), name@, 0);
                }
            }
        },
        None => {},
    }
    proof {
        assert(before == original.groups.spec_entries());
    }
    Ok(snapshot)
}

/// What the operator is shown of `snapshot` for `group`: the same
/// revision and, when `group` names an existing group, that group alone,
/// otherwise every group in order; each shown group keeps its name and has
/// its entries redacted.
pub open spec fn shows_view(
    snapshot: ConfigurationSnapshot,
    group: Option<&str>,
    s: ConfigurationSnapshot,
) -> bool {
    let e = snapshot.groups.spec_entries();
    let v = s.groups.spec_entries();
    let selected = match group {
        Some(name) => crate::keyed_map::index_of(e, name@),
        None => None,
    };
    &&& s.revision == snapshot.revision
    &&& match selected {
        Some(i) => v.len() == 1 && v[0].0 == e[i].0 && redacted(
            e[i].1.spec_entries(),
            v[0].1.spec_entries(),
        ),
        None => v.len() == e.len() && forall|g: int|
            0 <= g < e.len() ==> (#[trigger] v[g]).0 == e[g].0 && redacted(
                e[g].1.spec_entries(),
                v[g].1.spec_entries(),
            ),
    }
}

/// An entry that shows no secret: a non-empty secret string is masked.
pub open spec fn shows_no_secret(e: (String, ConfigurationValue)) -> bool {
    masked_secret(e.0@, e.1) ==> is_mask(e.1)
}

pub open spec fn entries_hide_secrets(e: Seq<(String, ConfigurationMap)>) -> bool {
    forall|g: int, i: int|
        0 <= g < e.len() && 0 <= i < e[g].1.spec_entries().len() ==> shows_no_secret(
            #[trigger] e[g].1.spec_entries()[i],
        )
}

/// No group of `groups` shows an unmasked secret.
pub open spec fn hides_secrets(groups: ConfigurationGroups) -> bool {
    entries_hide_secrets(groups.spec_entries())
}

/// Redacted groups hide their secrets.
pub proof fn lemma_redacted_hides(
    before: Seq<(String, ConfigurationMap)>,
    after: Seq<(String, ConfigurationMap)>,
)
    requires
        after.len() == before.len(),
        forall|g: int|
            0 <= g < before.len() ==> redacted(
                before[g].1.spec_entries(),
                (#[trigger] after[g]).1.spec_entries(),
            ),
    ensures
        entries_hide_secrets(after),
{
    assert forall|g: int, i: int|
        0 <= g < after.len() && 0 <= i < after[g].1.spec_entries().len() implies shows_no_secret(
        #[trigger] after[g].1.spec_entries()[i],
    ) by {
        let b = before[g].1.spec_entries();
        let a = after[g].1.spec_entries();
        assert(redacted(b, a));
        assert(a[i].0 == b[i].0);
        if masked_secret(b[i].0@, b[i].1) {
            assert(is_mask(a[i].1));
        } else {
            assert(a[i].1 == b[i].1);
        }
    }
}

/// Keeping some groups keeps their secrets hidden.
pub proof fn lemma_kept_hides(e: Seq<(String, ConfigurationMap)>, drop: Seq<bool>)
    requires
        drop.len() == e.len(),
        entries_hide_secrets(e),
    ensures
        entries_hide_secrets(kept(e, drop)),
{
    crate::keyed_map::lemma_kept_subset(e, drop);
    let k = kept(e, drop);
    assert forall|g: int, i: int|
        0 <= g < k.len() && 0 <= i < k[g].1.spec_entries().len() implies shows_no_secret(
        #[trigger] k[g].1.spec_entries()[i],
    ) by {
        let j = choose|j: int| 0 <= j < e.len() && !drop[j] && e[j] == #[trigger] kept(e, drop)[g];
        assert(shows_no_secret(e[j].1.spec_entries()[i]));
    }
}

/// Keeping the entries named `name` of a map with unique keys keeps one.
pub proof fn lemma_kept_single<V>(e: Seq<(String, V)>, drop: Seq<bool>, name: Seq<char>)
    requires
        crate::keyed_map::keys_unique(e),
        drop.len() == e.len(),
        forall|j: int| 0 <= j < e.len() ==> drop[j] == (e[j].0@ != name),
        exists|j: int| 0 <= j < e.len() && e[j].0@ == name,
    ensures
        kept(e, drop).len() == 1,
        kept(e, drop)[0].0@ == name,
    decreases e.len(),
{
    let last = e.len() - 1;
    assert(crate::keyed_map::keys_unique(e.drop_last()));
    if e[last].0@ == name {
        assert forall|j: int| 0 <= j < e.drop_last().len() implies (#[trigger] drop.drop_last()[j]) by {
            assert(e[j].0@ != e[last].0@);
        }
        lemma_kept_none(e.drop_last(), drop.drop_last());
    } else {
        let j = choose|j: int| 0 <= j < e.len() && e[j].0@ == name;
        assert(e.drop_last()[j].0@ == name);
        lemma_kept_single(e.drop_last(), drop.drop_last(), name);
    }
}

pub proof fn lemma_kept_none<V>(e: Seq<(String, V)>, drop: Seq<bool>)
    requires
        drop.len() == e.len(),
        forall|j: int| 0 <= j < e.len() ==> #[trigger] drop[j],
    ensures
        kept(e, drop).len() == 0,
    decreases e.len(),
{
    if e.len() > 0 {
        lemma_kept_none(e.drop_last(), drop.drop_last());
    }
}

/// Checks that the group names, and the keys of every group, are unique.
pub fn groups_wf(groups: &ConfigurationGroups) -> (r: bool)
    ensures
        r == (groups.wf() && forall|g: int| 0 <= g < groups.spec_entries().len() ==> (#[trigger] groups.spec_entries()[g]).1.wf()),
{
    if !groups.keys_ascend() {
        return false;
    }
    let entries = groups.entries();
    let n = entries.len();
    let mut i: usize = 0;
    while i < n
        invariant
            n == entries@.len(),
            entries@ == groups.spec_entries(),
            i <= n,
            forall|g: int| 0 <= g < i ==> (#[trigger] entries@[g]).1.wf(),
        decreases n - i,
    {
        if !entries[i].1.keys_ascend() {
            return false;
        }
        i = i + 1;
    }
    true
}

/// Drops every secret that comes back as the mask, so a round-tripped view
/// never overwrites a stored secret.
pub fn strip_redacted_secrets(changes: &mut ConfigurationMap)
    requires
        old(changes).wf(),
    ensures
        final(changes).wf(),
        exists|drop: Seq<bool>|
            drop.len() == old(changes).spec_entries().len() && (forall|j: int|
                0 <= j < drop.len() ==> #[trigger] drop[j] == (is_secret_key(
                    old(changes).spec_entries()[j].0@,
                ) && is_mask(old(changes).spec_entries()[j].1))) && final(changes).spec_entries()
                == kept(old(changes).spec_entries(), drop),
{
    let n = changes.len();
    let mut drop: Vec<bool> = Vec::new();
    let mut i: usize = 0;
    while i < n
        invariant
            i <= n,
            n == changes.spec_entries().len(),
            drop@.len() == i,
            forall|j: int|
                0 <= j < i ==> #[trigger] drop@[j] == (is_secret_key(changes.spec_entries()[j].0@)
                    && is_mask(changes.spec_entries()[j].1)),
        decreases n - i,
    {
        let entries = changes.entries();
        let secret = is_secret_key_exec(entries[i].0.as_str());
        let mask = match &entries[i].1 {
            ConfigurationValue::String(s) => str_eq(s.as_str(), REDACTED_SECRET),
            _ => false,
        };
        drop.push(secret && mask);
        i = i + 1;
    }
    changes.retain_where(&drop);
}

/// A `secure_path` equal (once its slashes are trimmed) to the effective
/// admin path is not a change and is dropped.
pub fn drop_unchanged_effective_secure_path(changes: &mut ConfigurationMap, effective: &str)
    requires
        old(changes).wf(),
    ensures
        final(changes).wf(),
        (old(changes).spec_get("secure_path"@) matches Some(v) && v.spec_string() matches Some(p) && trim_char(p, '/') == effective@) ==> final(changes).spec_entries() == old(changes).spec_entries().remove(crate::keyed_map::index_of(old(changes).spec_entries(), "secure_path"@)->0),
        !(old(changes).spec_get("secure_path"@) matches Some(v) && v.spec_string() matches Some(p) && trim_char(p, '/') == effective@) ==> final(changes).spec_entries() == old(changes).spec_entries(),
{
    let matches_effective = match changes.get("secure_path") {
        Some(ConfigurationValue::String(path)) => {
            let v = chars_of(path.as_str());
            let a = char_start_exec(&v, '/');
            let b = char_end_exec(&v, '/');
            let trimmed = if a < b {
                string_from(&v, a, b)
            } else {
                String::new()
            };
            str_eq(trimmed.as_str(), effective)
        },
        _ => false,
    };
    if matches_effective {
        changes.remove("secure_path");
    }
}

pub const CONFIG_KEYS: [&'static str; 83] = [
    "deposit_bounus",
    "ticket_status",
    "invite_force",
    "invite_commission",
    "invite_gen_limit",
    "invite_never_expire",
    "commission_first_time_enable",
    "commission_auto_check_enable",
    "commission_withdraw_limit",
    "commission_withdraw_method",
    "withdraw_close_enable",
    "commission_distribution_enable",
    "commission_distribution_l1",
    "commission_distribution_l2",
    "commission_distribution_l3",
    "logo",
    "force_https",
    "stop_register",
    "app_name",
    "app_description",
    "app_url",
    "legacy_hash_redirect_enable",
    "subscribe_url",
    "subscribe_path",
    "try_out_enable",
    "try_out_plan_id",
    "try_out_hour",
    "tos_url",
    "currency",
    "currency_symbol",
    "plan_change_enable",
    "reset_traffic_method",
    "surplus_enable",
    "allow_new_period",
    "new_order_event_id",
    "renew_order_event_id",
    "change_order_event_id",
    "show_info_to_server_enable",
    "show_subscribe_method",
    "show_subscribe_expire",
    "server_api_url",
    "server_token",
    "server_pull_interval",
    "server_push_interval",
    "device_limit_mode",
    "server_node_report_min_traffic",
    "server_device_online_min_traffic",
    "frontend_theme_color",
    "frontend_background_url",
    "email_template",
    "email_host",
    "email_port",
    "email_username",
    "email_password",
    "email_encryption",
    "email_from_address",
    "telegram_bot_enable",
    "telegram_bot_token",
    "telegram_discuss_id",
    "telegram_channel_id",
    "telegram_discuss_link",
    "windows_version",
    "windows_download_url",
    "macos_version",
    "macos_download_url",
    "android_version",
    "android_download_url",
    "email_whitelist_enable",
    "email_whitelist_suffix",
    "email_gmail_limit_enable",
    "recaptcha_enable",
    "recaptcha_key",
    "recaptcha_site_key",
    "email_verify",
    "safe_mode_enable",
    "admin_mfa_force",
    "register_limit_by_ip_enable",
    "register_limit_count",
    "register_limit_expire",
    "secure_path",
    "password_limit_enable",
    "password_limit_count",
    "password_limit_expire",
];

pub const FLAGS: [&'static str; 27] = [
    "invite_force",
    "invite_never_expire",
    "commission_first_time_enable",
    "commission_auto_check_enable",
    "withdraw_close_enable",
    "commission_distribution_enable",
    "force_https",
    "stop_register",
    "try_out_enable",
    "plan_change_enable",
    "surplus_enable",
    "allow_new_period",
    "new_order_event_id",
    "renew_order_event_id",
    "change_order_event_id",
    "show_info_to_server_enable",
    "device_limit_mode",
    "telegram_bot_enable",
    "email_whitelist_enable",
    "email_gmail_limit_enable",
    "recaptcha_enable",
    "email_verify",
    "legacy_hash_redirect_enable",
    "safe_mode_enable",
    "admin_mfa_force",
    "register_limit_by_ip_enable",
    "password_limit_enable",
];

pub const STRING_ARRAYS: [&'static str; 3] = [
    "deposit_bounus",
    "commission_withdraw_method",
    "email_whitelist_suffix",
];

pub const INTEGERS: [&'static str; 12] = [
    "invite_commission",
    "invite_gen_limit",
    "try_out_plan_id",
    "show_subscribe_expire",
    "server_pull_interval",
    "server_push_interval",
    "server_node_report_min_traffic",
    "server_device_online_min_traffic",
    "register_limit_count",
    "register_limit_expire",
    "password_limit_count",
    "password_limit_expire",
];

pub const NUMBERS: [&'static str; 4] = [
    "try_out_hour",
    "commission_distribution_l1",
    "commission_distribution_l2",
    "commission_distribution_l3",
];

pub const TRY_OUT_HOUR_MAXIMUM: &'static str = "2562047788015215.5019444444";

pub const NUMERIC_MAXIMUM: &'static str = "79228162514264337593543950335";

pub const WITHDRAW_LIMIT_MAXIMUM: &'static str = "92233720368547758.07";

/// `is_unsigned_decimal`: digits, optionally `.` and more digits.
pub open spec fn unsigned_decimal(s: Seq<char>) -> bool {
    match find(s, '.') {
        Some(i) => i > 0 && all_digits(s.subrange(0, i)) && i + 1 < s.len() && all_digits(
            s.subrange(i + 1, s.len() as int),
        ),
        None => s.len() > 0 && all_digits(s),
    }
}

pub fn is_unsigned_decimal(value: &str) -> (r: bool)
    ensures
        r == unsigned_decimal(value@),
{
    let v = chars_of(value);
    proof {
        lemma_find_from(v@, 0, '.');
    }
    match find_exec(&v, 0, '.') {
        Some(i) => i > 0 && all_digits_exec(&v, 0, i) && i < v.len() - 1 && all_digits_exec(
            &v,
            i + 1,
            v.len(),
        ),
        None => {
            let r = v.len() > 0 && all_digits_exec(&v, 0, v.len());
            assert(v@.subrange(0, v@.len() as int) =~= v@);
            r
        },
    }
}

/// A bonus tier `amount:bonus` with both sides unsigned decimals.
pub open spec fn deposit_bonus_tier(s: Seq<char>) -> bool {
    match find(s, ':') {
        Some(i) => unsigned_decimal(s.subrange(0, i)) && unsigned_decimal(
            s.subrange(i + 1, s.len() as int),
        ),
        None => false,
    }
}

pub fn is_deposit_bonus_tier(value: &str) -> (r: bool)
    ensures
        r == deposit_bonus_tier(value@),
{
    let v = chars_of(value);
    proof {
        lemma_find_from(v@, 0, ':');
    }
    match find_exec(&v, 0, ':') {
        Some(i) => {
            let amount = string_from(&v, 0, i);
            let bonus = string_from(&v, i + 1, v.len());
            is_unsigned_decimal(amount.as_str()) && is_unsigned_decimal(bonus.as_str())
        },
        None => false,
    }
}

/// Whole part without leading zeros, fraction without trailing zeros.
pub open spec fn decimal_parts(s: Seq<char>) -> (Seq<char>, Seq<char>) {
    match find(s, '.') {
        Some(i) => (
            trim_start_char(s.subrange(0, i), '0'),
            trim_end_char(s.subrange(i + 1, s.len() as int), '0'),
        ),
        None => (trim_start_char(s, '0'), Seq::empty()),
    }
}

pub fn decimal_parts_exec(value: &str) -> (r: (Vec<char>, Vec<char>))
    ensures
        (r.0@, r.1@) == decimal_parts(value@),
{
    let v = chars_of(value);
    proof {
        lemma_find_from(v@, 0, '.');
    }
    match find_exec(&v, 0, '.') {
        Some(i) => {
            let n = v.len();
            let whole = string_from(&v, 0, i);
            let frac = string_from(&v, i + 1, n);
            let wv = chars_of(whole.as_str());
            let fv = chars_of(frac.as_str());
            let a = char_start_exec(&wv, '0');
            let b = char_end_exec(&fv, '0');
            let w = chars_of(string_from(&wv, a, wv.len()).as_str());
            let f = chars_of(string_from(&fv, 0, b).as_str());
            (w, f)
        },
        None => {
            let a = char_start_exec(&v, '0');
            let w = chars_of(string_from(&v, a, v.len()).as_str());
            (w, Vec::new())
        },
    }
}

/// `s` right-padded with `'0'` to `width` characters.
pub open spec fn pad_zeros(s: Seq<char>, width: int) -> Seq<char> {
    s + Seq::new((if width > s.len() { width - s.len() } else { 0 }) as nat, |i: int| '0')
}

/// `decimal_leq`: the value is at most the maximum, compared on the digits
/// as written (whole parts by length then digit order, fractions after
/// padding with zeros).
pub open spec fn decimal_at_most(value: Seq<char>, maximum: Seq<char>) -> bool {
    let (w, f) = decimal_parts(value);
    let (mw, mf) = decimal_parts(maximum);
    if w.len() < mw.len() {
        true
    } else if w.len() > mw.len() {
        false
    } else if lex_lt(w, mw) {
        true
    } else if lex_lt(mw, w) {
        false
    } else {
        let width = if f.len() > mf.len() {
            f.len() as int
        } else {
            mf.len() as int
        };
        !lex_lt(pad_zeros(mf, width), pad_zeros(f, width))
    }
}

pub fn pad_zeros_exec(v: &Vec<char>, width: usize) -> (r: Vec<char>)
    ensures
        r@ == pad_zeros(v@, width as int),
{
    let mut out = v.clone();
    let mut i = v.len();
    while i < width
        invariant
            v.len() <= i <= width || (i == v.len() && width < v.len()),
            out@ == v@ + Seq::new((i - v@.len()) as nat, |k: int| '0'),
        decreases width - i,
    {
        out.push('0');
        assert(out@ =~= v@ + Seq::new((i + 1 - v@.len()) as nat, |k: int| '0'));
        i = i + 1;
    }
    assert(out@ =~= pad_zeros(v@, width as int));
    out
}

pub fn decimal_leq(value: &str, maximum: &str) -> (r: bool)
    ensures
        r == decimal_at_most(value@, maximum@),
{
    let (w, f) = decimal_parts_exec(value);
    let (mw, mf) = decimal_parts_exec(maximum);
    if w.len() < mw.len() {
        true
    } else if w.len() > mw.len() {
        false
    } else if lex_lt_exec(&w, &mw) {
        true
    } else if lex_lt_exec(&mw, &w) {
        false
    } else {
        let width = if f.len() > mf.len() {
            f.len()
        } else {
            mf.len()
        };
        let left = pad_zeros_exec(&f, width);
        let right = pad_zeros_exec(&mf, width);
        !lex_lt_exec(&right, &left)
    }
}

/// Index of the first `/`, `?` or `#` at or after `i` (or the length).
pub open spec fn authority_end(s: Seq<char>, i: int) -> int
    decreases s.len() - i,
{
    if i < 0 || i >= s.len() {
        s.len() as int
    } else if s[i] == '/' || s[i] == '?' || s[i] == '#' {
        i
    } else {
        authority_end(s, i + 1)
    }
}

pub open spec fn scheme_char(c: char) -> bool {
    is_alnum(c) || c == '+' || c == '-' || c == '.'
}

/// An alphabetic-led URI scheme, `://`, and an authority that is non-empty
/// (and, when `no_ws`, free of whitespace).
pub open spec fn url_shape(s: Seq<char>, no_ws: bool) -> bool {
    match find_sub_from(s, "://"@, 0) {
        Some(i) => {
            let scheme = s.subrange(0, i);
            let rest = s.subrange(i + 3, s.len() as int);
            let host = rest.subrange(0, authority_end(rest, 0));
            &&& scheme.len() > 0
            &&& is_alpha(scheme[0])
            &&& forall|k: int| 0 <= k < scheme.len() ==> scheme_char(#[trigger] scheme[k])
            &&& host.len() > 0
            &&& (no_ws ==> !has_ws(host))
        },
        None => false,
    }
}

#[verifier::loop_isolation(false)]
pub fn url_shape_exec(value: &str, no_ws: bool) -> (r: bool)
    ensures
        r == url_shape(value@, no_ws),
{
    let v = chars_of(value);
    let sep = chars_of("://");
    proof {
        reveal_strlit("://");
    }
    let n = v.len();
    match find_sub_exec(&v, &sep, 0) {
        Some(i) => {
            let scheme = string_from(&v, 0, i);
            let sv = chars_of(scheme.as_str());
            if sv.len() == 0 {
                return false;
            }
            let c0 = sv[0];
            if !(('A' <= c0 && c0 <= 'Z') || ('a' <= c0 && c0 <= 'z')) {
                return false;
            }
            let mut k: usize = 0;
            while k < sv.len()
                invariant
                    k <= sv@.len(),
                    forall|j: int| 0 <= j < k ==> scheme_char(#[trigger] sv@[j]),
                decreases sv@.len() - k,
            {
                let c = sv[k];
                if !(('A' <= c && c <= 'Z') || ('a' <= c && c <= 'z') || ('0' <= c && c <= '9')
                    || c == '+' || c == '-' || c == '.') {
                    return false;
                }
                k = k + 1;
            }
            let rest = string_from(&v, i + 3, n);
            let rv = chars_of(rest.as_str());
            let mut e: usize = 0;
            while e < rv.len() && !(rv[e] == '/' || rv[e] == '?' || rv[e] == '#')
                invariant
                    e <= rv@.len(),
                    authority_end(rv@, 0) == authority_end(rv@, e as int),
                decreases rv@.len() - e,
            {
                e = e + 1;
            }
            let host = string_from(&rv, 0, e);
            let hv = chars_of(host.as_str());
            if hv.len() == 0 {
                return false;
            }
            if no_ws && has_ws_exec(&hv) {
                return false;
            }
            true
        },
        None => false,
    }
}

pub fn is_valid_url(value: &str) -> (r: bool)
    ensures
        r == url_shape(value@, true),
{
    url_shape_exec(value, true)
}

/// The inclusive bounds of each integer setting.
pub open spec fn integer_bounds(key: Seq<char>) -> (int, int) {
    if key == "show_subscribe_expire"@ || key == "register_limit_expire"@ || key
        == "password_limit_expire"@ {
        (1, 525_600)
    } else if key == "server_pull_interval"@ || key == "server_push_interval"@ {
        (1, i32::MAX as int)
    } else if key == "register_limit_count"@ || key == "password_limit_count"@ {
        (1, i64::MAX as int)
    } else if key == "invite_commission"@ || key == "try_out_plan_id"@ || key
        == "server_node_report_min_traffic"@ || key == "server_device_online_min_traffic"@ {
        (0, i32::MAX as int)
    } else if key == "invite_gen_limit"@ {
        (0, i64::MAX as int)
    } else {
        (i64::MIN as int, i64::MAX as int)
    }
}

pub fn integer_bounds_exec(key: &str) -> (r: (i64, i64))
    ensures
        (r.0 as int, r.1 as int) == integer_bounds(key@),
{
    if str_eq(key, "show_subscribe_expire") || str_eq(key, "register_limit_expire") || str_eq(
        key,
        "password_limit_expire",
    ) {
        (1, 525_600)
    } else if str_eq(key, "server_pull_interval") || str_eq(key, "server_push_interval") {
        (1, i32::MAX as i64)
    } else if str_eq(key, "register_limit_count") || str_eq(key, "password_limit_count") {
        (1, i64::MAX)
    } else if str_eq(key, "invite_commission") || str_eq(key, "try_out_plan_id") || str_eq(
        key,
        "server_node_report_min_traffic",
    ) || str_eq(key, "server_device_online_min_traffic") {
        (0, i32::MAX as i64)
    } else if str_eq(key, "invite_gen_limit") {
        (0, i64::MAX)
    } else {
        (i64::MIN, i64::MAX)
    }
}

/// Whether some trimmed, non-empty bonus item is not a valid tier.
pub open spec fn bad_bonus(items: Seq<String>) -> bool {
    exists|i: int|
        0 <= i < items.len() && trim((#[trigger] items[i])@).len() > 0 && !deposit_bonus_tier(
            trim(items[i]@),
        )
}

pub fn bad_bonus_exec(items: &Vec<String>) -> (r: bool)
    ensures
        r == bad_bonus(items@),
{
    let mut i: usize = 0;
    while i < items.len()
        invariant
            i <= items@.len(),
            forall|j: int|
                0 <= j < i ==> !(trim((#[trigger] items@[j])@).len() > 0 && !deposit_bonus_tier(
                    trim(items@[j]@),
                )),
        decreases items@.len() - i,
    {
        let t = trim_str(items[i].as_str());
        if chars_of(t.as_str()).len() > 0 && !is_deposit_bonus_tier(t.as_str()) {
            return true;
        }
        i = i + 1;
    }
    false
}

pub open spec fn path_char(c: char) -> bool {
    is_alnum(c) || c == '_' || c == '-'
}

pub open spec fn url_key_message(key: Seq<char>) -> Seq<char> {
    if key == "logo"@ {
        "LOGO URL格式不正确，必须携带https(s)://"@
    } else if key == "app_url"@ {
        "站点URL格式不正确，必须携带http(s)://"@
    } else if key == "tos_url"@ {
        "服务条款URL格式不正确，必须携带http(s)://"@
    } else if key == "telegram_discuss_link"@ {
        "Telegram群组地址必须为URL格式，必须携带http(s)://"@
    } else {
        "参数格式有误"@
    }
}

/// The rule of the keys outside the typed groups.
pub open spec fn other_violation(key: Seq<char>, value: ConfigurationValue) -> Option<Seq<char>> {
    if key == "ticket_status"@ || key == "show_subscribe_method"@ {
        if value matches ConfigurationValue::Integer(v) && 0 <= v <= 2 {
            None
        } else {
            Some("参数格式有误"@)
        }
    } else if key == "reset_traffic_method"@ {
        if value matches ConfigurationValue::Integer(v) && 0 <= v <= 4 {
            None
        } else {
            Some("参数格式有误"@)
        }
    } else if key == "email_port"@ {
        if value matches ConfigurationValue::Integer(v) && 1 <= v <= 65535 {
            None
        } else {
            Some("端口必须在1到65535之间"@)
        }
    } else if key == "commission_withdraw_limit"@ {
        match value.spec_string() {
            Some(s) => {
                let raw = trim(s);
                if raw.len() > 0 && !unsigned_decimal(raw) {
                    Some("参数格式有误"@)
                } else if raw.len() > 0 && !decimal_at_most(raw, WITHDRAW_LIMIT_MAXIMUM@) {
                    Some("参数超出支持范围"@)
                } else {
                    None
                }
            },
            None => Some("参数格式有误"@),
        }
    } else if key == "frontend_theme_color"@ {
        match value.spec_string() {
            Some(s) => {
                let c = trim(s);
                if c.len() > 0 && !(c == "default"@ || c == "darkblue"@ || c == "black"@ || c
                    == "green"@) {
                    Some("参数格式有误"@)
                } else {
                    None
                }
            },
            None => Some("参数格式有误"@),
        }
    } else if key == "logo"@ || key == "app_url"@ || key == "tos_url"@ || key
        == "telegram_discuss_link"@ || key == "frontend_background_url"@ {
        match value.spec_string() {
            Some(s) => {
                let u = trim(s);
                if u.len() > 0 && !url_shape(u, true) {
                    Some(url_key_message(key))
                } else {
                    None
                }
            },
            None => Some("参数格式有误"@),
        }
    } else if key == "subscribe_path"@ {
        match value.spec_string() {
            Some(s) => {
                let p = trim(s);
                if p.len() > 0 && !starts_with(p, "/"@) {
                    Some("订阅路径必须以/开头"@)
                } else {
                    None
                }
            },
            None => Some("订阅路径必须以/开头"@),
        }
    } else if key == "server_token"@ {
        match value.spec_string() {
            Some(s) => {
                let t = trim(s);
                if t.len() > 0 && t.len() < 16 {
                    Some("通讯密钥长度必须大于16位"@)
                } else {
                    None
                }
            },
            None => Some("通讯密钥长度必须大于16位"@),
        }
    } else if value.spec_string() is None {
        Some("参数格式有误"@)
    } else {
        None
    }
}

/// `subscribe_path` is a supported key outside the flag, array, integer
/// and number lists, and none of the keys checked before it.
proof fn lemma_subscribe_path_key()
    ensures
        in_list(CONFIG_KEYS@, "subscribe_path"@),
        !in_list(FLAGS@, "subscribe_path"@),
        !in_list(STRING_ARRAYS@, "subscribe_path"@),
        !in_list(INTEGERS@, "subscribe_path"@),
        !in_list(NUMBERS@, "subscribe_path"@),
        "subscribe_path"@ != "secure_path"@,
        "subscribe_path"@ != "ticket_status"@,
        "subscribe_path"@ != "show_subscribe_method"@,
        "subscribe_path"@ != "reset_traffic_method"@,
        "subscribe_path"@ != "email_port"@,
        "subscribe_path"@ != "commission_withdraw_limit"@,
        "subscribe_path"@ != "frontend_theme_color"@,
        "subscribe_path"@ != "logo"@,
        "subscribe_path"@ != "app_url"@,
        "subscribe_path"@ != "tos_url"@,
        "subscribe_path"@ != "telegram_discuss_link"@,
        "subscribe_path"@ != "frontend_background_url"@,
{
    reveal_strlit("subscribe_path");
    assert(CONFIG_KEYS@[23]@ == "subscribe_path"@);
    assert forall|i: int| 0 <= i < FLAGS@.len() implies (#[trigger] FLAGS@[i])@ != "subscribe_path"@ by {
        if i == 0 {
            reveal_strlit("invite_force");
            assert("subscribe_path"@.len() != "invite_force"@.len());
        } else if i == 1 {
            reveal_strlit("invite_never_expire");
            assert("subscribe_path"@.len() != "invite_never_expire"@.len());
        } else if i == 2 {
            reveal_strlit("commission_first_time_enable");
            assert("subscribe_path"@.len() != "commission_first_time_enable"@.len());
        } else if i == 3 {
            reveal_strlit("commission_auto_check_enable");
            assert("subscribe_path"@.len() != "commission_auto_check_enable"@.len());
        } else if i == 4 {
            reveal_strlit("withdraw_close_enable");
            assert("subscribe_path"@.len() != "withdraw_close_enable"@.len());
        } else if i == 5 {
            reveal_strlit("commission_distribution_enable");
            assert("subscribe_path"@.len() != "commission_distribution_enable"@.len());
        } else if i == 6 {
            reveal_strlit("force_https");
            assert("subscribe_path"@.len() != "force_https"@.len());
        } else if i == 7 {
            reveal_strlit("stop_register");
            assert("subscribe_path"@.len() != "stop_register"@.len());
        } else if i == 8 {
            reveal_strlit("try_out_enable");
            assert("subscribe_path"@[0] != "try_out_enable"@[0]);
        } else if i == 9 {
            reveal_strlit("plan_change_enable");
            assert("subscribe_path"@.len() != "plan_change_enable"@.len());
        } else if i == 10 {
            reveal_strlit("surplus_enable");
            assert("subscribe_path"@[2] != "surplus_enable"@[2]);
        } else if i == 11 {
            reveal_strlit("allow_new_period");
            assert("subscribe_path"@.len() != "allow_new_period"@.len());
        } else if i == 12 {
            reveal_strlit("new_order_event_id");
            assert("subscribe_path"@.len() != "new_order_event_id"@.len());
        } else if i == 13 {
            reveal_strlit("renew_order_event_id");
            assert("subscribe_path"@.len() != "renew_order_event_id"@.len());
        } else if i == 14 {
            reveal_strlit("change_order_event_id");
            assert("subscribe_path"@.len() != "change_order_event_id"@.len());
        } else if i == 15 {
            reveal_strlit("show_info_to_server_enable");
            assert("subscribe_path"@.len() != "show_info_to_server_enable"@.len());
        } else if i == 16 {
            reveal_strlit("device_limit_mode");
            assert("subscribe_path"@.len() != "device_limit_mode"@.len());
        } else if i == 17 {
            reveal_strlit("telegram_bot_enable");
            assert("subscribe_path"@.len() != "telegram_bot_enable"@.len());
        } else if i == 18 {
            reveal_strlit("email_whitelist_enable");
            assert("subscribe_path"@.len() != "email_whitelist_enable"@.len());
        } else if i == 19 {
            reveal_strlit("email_gmail_limit_enable");
            assert("subscribe_path"@.len() != "email_gmail_limit_enable"@.len());
        } else if i == 20 {
            reveal_strlit("recaptcha_enable");
            assert("subscribe_path"@.len() != "recaptcha_enable"@.len());
        } else if i == 21 {
            reveal_strlit("email_verify");
            assert("subscribe_path"@.len() != "email_verify"@.len());
        } else if i == 22 {
            reveal_strlit("legacy_hash_redirect_enable");
            assert("subscribe_path"@.len() != "legacy_hash_redirect_enable"@.len());
        } else if i == 23 {
            reveal_strlit("safe_mode_enable");
            assert("subscribe_path"@.len() != "safe_mode_enable"@.len());
        } else if i == 24 {
            reveal_strlit("admin_mfa_force");
            assert("subscribe_path"@.len() != "admin_mfa_force"@.len());
        } else if i == 25 {
            reveal_strlit("register_limit_by_ip_enable");
            assert("subscribe_path"@.len() != "register_limit_by_ip_enable"@.len());
        } else if i == 26 {
            reveal_strlit("password_limit_enable");
            assert("subscribe_path"@.len() != "password_limit_enable"@.len());
        }
    }
    assert forall|i: int| 0 <= i < STRING_ARRAYS@.len() implies (#[trigger] STRING_ARRAYS@[i])@ != "subscribe_path"@ by {
        if i == 0 {
            reveal_strlit("deposit_bounus");
            assert("subscribe_path"@[0] != "deposit_bounus"@[0]);
        } else if i == 1 {
            reveal_strlit("commission_withdraw_method");
            assert("subscribe_path"@.len() != "commission_withdraw_method"@.len());
        } else if i == 2 {
            reveal_strlit("email_whitelist_suffix");
            assert("subscribe_path"@.len() != "email_whitelist_suffix"@.len());
        }
    }
    assert forall|i: int| 0 <= i < INTEGERS@.len() implies (#[trigger] INTEGERS@[i])@ != "subscribe_path"@ by {
        if i == 0 {
            reveal_strlit("invite_commission");
            assert("subscribe_path"@.len() != "invite_commission"@.len());
        } else if i == 1 {
            reveal_strlit("invite_gen_limit");
            assert("subscribe_path"@.len() != "invite_gen_limit"@.len());
        } else if i == 2 {
            reveal_strlit("try_out_plan_id");
            assert("subscribe_path"@.len() != "try_out_plan_id"@.len());
        } else if i == 3 {
            reveal_strlit("show_subscribe_expire");
            assert("subscribe_path"@.len() != "show_subscribe_expire"@.len());
        } else if i == 4 {
            reveal_strlit("server_pull_interval");
            assert("subscribe_path"@.len() != "server_pull_interval"@.len());
        } else if i == 5 {
            reveal_strlit("server_push_interval");
            assert("subscribe_path"@.len() != "server_push_interval"@.len());
        } else if i == 6 {
            reveal_strlit("server_node_report_min_traffic");
            assert("subscribe_path"@.len() != "server_node_report_min_traffic"@.len());
        } else if i == 7 {
            reveal_strlit("server_device_online_min_traffic");
            assert("subscribe_path"@.len() != "server_device_online_min_traffic"@.len());
        } else if i == 8 {
            reveal_strlit("register_limit_count");
            assert("subscribe_path"@.len() != "register_limit_count"@.len());
        } else if i == 9 {
            reveal_strlit("register_limit_expire");
            assert("subscribe_path"@.len() != "register_limit_expire"@.len());
        } else if i == 10 {
            reveal_strlit("password_limit_count");
            assert("subscribe_path"@.len() != "password_limit_count"@.len());
        } else if i == 11 {
            reveal_strlit("password_limit_expire");
            assert("subscribe_path"@.len() != "password_limit_expire"@.len());
        }
    }
    assert forall|i: int| 0 <= i < NUMBERS@.len() implies (#[trigger] NUMBERS@[i])@ != "subscribe_path"@ by {
        if i == 0 {
            reveal_strlit("try_out_hour");
            assert("subscribe_path"@.len() != "try_out_hour"@.len());
        } else if i == 1 {
            reveal_strlit("commission_distribution_l1");
            assert("subscribe_path"@.len() != "commission_distribution_l1"@.len());
        } else if i == 2 {
            reveal_strlit("commission_distribution_l2");
            assert("subscribe_path"@.len() != "commission_distribution_l2"@.len());
        } else if i == 3 {
            reveal_strlit("commission_distribution_l3");
            assert("subscribe_path"@.len() != "commission_distribution_l3"@.len());
        }
    }
    reveal_strlit("secure_path");
    assert("subscribe_path"@.len() != "secure_path"@.len());
    reveal_strlit("ticket_status");
    assert("subscribe_path"@.len() != "ticket_status"@.len());
    reveal_strlit("show_subscribe_method");
    assert("subscribe_path"@.len() != "show_subscribe_method"@.len());
    reveal_strlit("reset_traffic_method");
    assert("subscribe_path"@.len() != "reset_traffic_method"@.len());
    reveal_strlit("email_port");
    assert("subscribe_path"@.len() != "email_port"@.len());
    reveal_strlit("commission_withdraw_limit");
    assert("subscribe_path"@.len() != "commission_withdraw_limit"@.len());
    reveal_strlit("frontend_theme_color");
    assert("subscribe_path"@.len() != "frontend_theme_color"@.len());
    reveal_strlit("logo");
    assert("subscribe_path"@.len() != "logo"@.len());
    reveal_strlit("app_url");
    assert("subscribe_path"@.len() != "app_url"@.len());
    reveal_strlit("tos_url");
    assert("subscribe_path"@.len() != "tos_url"@.len());
    reveal_strlit("telegram_discuss_link");
    assert("subscribe_path"@.len() != "telegram_discuss_link"@.len());
    reveal_strlit("frontend_background_url");
    assert("subscribe_path"@.len() != "frontend_background_url"@.len());
}

/// A subscription path, once trimmed, is either empty or starts with `/`;
/// any other path is refused with the path message.
pub proof fn law_subscribe_path_starts_with_slash(path: String)
    ensures
        trim(path@).len() > 0 && trim(path@)[0] != '/' ==> entry_violation(
            "subscribe_path"@,
            ConfigurationValue::String(path),
        ) == Some("订阅路径必须以/开头"@),
        trim(path@).len() == 0 || trim(path@)[0] == '/' ==> entry_violation(
            "subscribe_path"@,
            ConfigurationValue::String(path),
        ) is None,
{
    lemma_subscribe_path_key();
    reveal_strlit("/");
    let v = ConfigurationValue::String(path);
    let p = trim(path@);
    if p.len() > 0 {
        assert("/"@.len() == 1 && "/"@[0] == '/');
        assert("/"@ =~= seq!['/']);
        assert(p.subrange(0, 1) =~= seq![p[0]]);
        assert(starts_with(p, "/"@) <==> p[0] == '/');
    }
    assert(entry_violation("subscribe_path"@, v) == other_violation("subscribe_path"@, v));
}

/// A well-formed patch that sets the subscription path to a non-empty
/// trimmed value without a leading `/` is refused.
pub proof fn law_patch_refuses_relative_subscribe_path(changes: ConfigurationMap, j: int)
    requires
        changes.wf(),
        0 <= j < changes.spec_entries().len(),
        changes.spec_entries()[j].0@ == "subscribe_path"@,
        changes.spec_entries()[j].1 matches ConfigurationValue::String(p) && trim(p@).len() > 0
            && trim(p@)[0] != '/',
    ensures
        first_violation(changes.spec_entries(), 0) is Some,
{
    let e = changes.spec_entries();
    law_subscribe_path_starts_with_slash(e[j].1->String_0);
    lemma_first_violation_at_most(e, 0, j);
}

/// The validation message of one patch entry, or `None` when it is valid.
pub open spec fn entry_violation(key: Seq<char>, value: ConfigurationValue) -> Option<Seq<char>> {
    if !in_list(CONFIG_KEYS@, key) {
        Some("不支持的配置项"@)
    } else if key == "secure_path"@ {
        match value.spec_string() {
            Some(s) => {
                let p = trim(s);
                if p.len() == 0 {
                    Some("后台路径不能为空"@)
                } else if p.len() < 8 {
                    Some("后台路径长度最小为8位"@)
                } else if !(forall|k: int| 0 <= k < p.len() ==> path_char(#[trigger] p[k])) {
                    Some("后台路径只能为字母或数字"@)
                } else {
                    None
                }
            },
            None => Some("后台路径不能为空"@),
        }
    } else if value is Null {
        None
    } else if in_list(FLAGS@, key) {
        if value is Bool {
            None
        } else {
            Some("参数格式有误"@)
        }
    } else if in_list(STRING_ARRAYS@, key) {
        match value {
            ConfigurationValue::StringList(items) => if key == "deposit_bounus"@ && bad_bonus(
                items@,
            ) {
                Some("充值奖励格式不正确，必须为充值金额:奖励金额"@)
            } else {
                None
            },
            _ => Some("数组参数格式有误"@),
        }
    } else if in_list(INTEGERS@, key) {
        match value {
            ConfigurationValue::Integer(v) => if integer_bounds(key).0 <= v <= integer_bounds(
                key,
            ).1 {
                None
            } else {
                Some("参数超出支持范围"@)
            },
            _ => Some("参数格式有误"@),
        }
    } else if in_list(NUMBERS@, key) {
        match value {
            ConfigurationValue::Number(raw) => if starts_with(raw@, "-"@) {
                Some("参数不能为负数"@)
            } else if !unsigned_decimal(raw@) || !decimal_at_most(
                raw@,
                if key == "try_out_hour"@ {
                    TRY_OUT_HOUR_MAXIMUM@
                } else {
                    NUMERIC_MAXIMUM@
                },
            ) {
                Some("参数超出支持范围"@)
            } else {
                None
            },
            _ => Some("参数格式有误"@),
        }
    } else {
        other_violation(key, value)
    }
}

/// Checks one trimmed string against a character class.
pub fn all_path_chars(v: &Vec<char>) -> (r: bool)
    ensures
        r == forall|k: int| 0 <= k < v@.len() ==> path_char(#[trigger] v@[k]),
{
    let mut k: usize = 0;
    while k < v.len()
        invariant
            k <= v@.len(),
            forall|j: int| 0 <= j < k ==> path_char(#[trigger] v@[j]),
        decreases v@.len() - k,
    {
        let c = v[k];
        if !(('A' <= c && c <= 'Z') || ('a' <= c && c <= 'z') || ('0' <= c && c <= '9') || c
            == '_' || c == '-') {
            return false;
        }
        k = k + 1;
    }
    true
}

pub fn starts_with_dash(raw: &str) -> (r: bool)
    ensures
        r == starts_with(raw@, "-"@),
{
    proof {
        reveal_strlit("-");
    }
    let v = chars_of(raw);
    if v.len() == 0 {
        return false;
    }
    let r = v[0] == '-';
    proof {
        if r {
            assert(v@.subrange(0, 1) =~= "-"@);
        } else {
            assert(v@.subrange(0, 1)[0] != "-"@[0]);
        }
    }
    r
}

pub fn starts_with_slash(p: &Vec<char>) -> (r: bool)
    ensures
        r == starts_with(p@, "/"@),
{
    proof {
        reveal_strlit("/");
    }
    if p.len() == 0 {
        return false;
    }
    let r = p[0] == '/';
    proof {
        if r {
            assert(p@.subrange(0, 1) =~= "/"@);
        } else {
            assert(p@.subrange(0, 1)[0] != "/"@[0]);
        }
    }
    r
}

pub fn other_violation_exec(key: &str, value: &ConfigurationValue) -> (r: Option<&'static str>)
    ensures
        match other_violation(key@, *value) {
            Some(m) => r matches Some(t) && t@ == m,
            None => r is None,
        },
{
    if str_eq(key, "ticket_status") || str_eq(key, "show_subscribe_method") {
        match value {
            ConfigurationValue::Integer(v) => if 0 <= *v && *v <= 2 {
                None
            } else {
                Some("参数格式有误")
            },
            _ => Some("参数格式有误"),
        }
    } else if str_eq(key, "reset_traffic_method") {
        match value {
            ConfigurationValue::Integer(v) => if 0 <= *v && *v <= 4 {
                None
            } else {
                Some("参数格式有误")
            },
            _ => Some("参数格式有误"),
        }
    } else if str_eq(key, "email_port") {
        match value {
            ConfigurationValue::Integer(v) => if 1 <= *v && *v <= 65535 {
                None
            } else {
                Some("端口必须在1到65535之间")
            },
            _ => Some("端口必须在1到65535之间"),
        }
    } else if str_eq(key, "commission_withdraw_limit") {
        match value.string() {
            Some(s) => {
                let raw = trim_str(s);
                let n = chars_of(raw.as_str()).len();
                if n > 0 && !is_unsigned_decimal(raw.as_str()) {
                    Some("参数格式有误")
                } else if n > 0 && !decimal_leq(raw.as_str(), WITHDRAW_LIMIT_MAXIMUM) {
                    Some("参数超出支持范围")
                } else {
                    None
                }
            },
            None => Some("参数格式有误"),
        }
    } else if str_eq(key, "frontend_theme_color") {
        match value.string() {
            Some(s) => {
                let c = trim_str(s);
                let n = chars_of(c.as_str()).len();
                if n > 0 && !(str_eq(c.as_str(), "default") || str_eq(c.as_str(), "darkblue")
                    || str_eq(c.as_str(), "black") || str_eq(c.as_str(), "green")) {
                    Some("参数格式有误")
                } else {
                    None
                }
            },
            None => Some("参数格式有误"),
        }
    } else if str_eq(key, "logo") || str_eq(key, "app_url") || str_eq(key, "tos_url") || str_eq(
        key,
        "telegram_discuss_link",
    ) || str_eq(key, "frontend_background_url") {
        match value.string() {
            Some(s) => {
                let u = trim_str(s);
                let n = chars_of(u.as_str()).len();
                if n > 0 && !is_valid_url(u.as_str()) {
                    if str_eq(key, "logo") {
                        Some("LOGO URL格式不正确，必须携带https(s)://")
                    } else if str_eq(key, "app_url") {
                        Some("站点URL格式不正确，必须携带http(s)://")
                    } else if str_eq(key, "tos_url") {
                        Some("服务条款URL格式不正确，必须携带http(s)://")
                    } else if str_eq(key, "telegram_discuss_link") {
                        Some("Telegram群组地址必须为URL格式，必须携带http(s)://")
                    } else {
                        Some("参数格式有误")
                    }
                } else {
                    None
                }
            },
            None => Some("参数格式有误"),
        }
    } else if str_eq(key, "subscribe_path") {
        match value.string() {
            Some(s) => {
                let p = trim_str(s);
                let pv = chars_of(p.as_str());
                if pv.len() > 0 && !starts_with_slash(&pv) {
                    Some("订阅路径必须以/开头")
                } else {
                    None
                }
            },
            None => Some("订阅路径必须以/开头"),
        }
    } else if str_eq(key, "server_token") {
        match value.string() {
            Some(s) => {
                let t = trim_str(s);
                let n = chars_of(t.as_str()).len();
                if n > 0 && n < 16 {
                    Some("通讯密钥长度必须大于16位")
                } else {
                    None
                }
            },
            None => Some("通讯密钥长度必须大于16位"),
        }
    } else if value.string().is_none() {
        Some("参数格式有误")
    } else {
        None
    }
}

/// The rule of one patch entry.
pub fn entry_violation_exec(key: &str, value: &ConfigurationValue) -> (r: Option<&'static str>)
    ensures
        match entry_violation(key@, *value) {
            Some(m) => r matches Some(t) && t@ == m,
            None => r is None,
        },
{
    let config_keys = CONFIG_KEYS;
    let flags = FLAGS;
    let arrays = STRING_ARRAYS;
    let integers = INTEGERS;
    let numbers = NUMBERS;
    if !in_list_exec(&config_keys, key) {
        return Some("不支持的配置项");
    }
    if str_eq(key, "secure_path") {
        return match value.string() {
            Some(s) => {
                let p = trim_str(s);
                let pv = chars_of(p.as_str());
                if pv.len() == 0 {
                    Some("后台路径不能为空")
                } else if pv.len() < 8 {
                    Some("后台路径长度最小为8位")
                } else if !all_path_chars(&pv) {
                    Some("后台路径只能为字母或数字")
                } else {
                    None
                }
            },
            None => Some("后台路径不能为空"),
        };
    }
    if matches!(value, ConfigurationValue::Null) {
        return None;
    }
    if in_list_exec(&flags, key) {
        return if matches!(value, ConfigurationValue::Bool(_)) {
            None
        } else {
            Some("参数格式有误")
        };
    }
    if in_list_exec(&arrays, key) {
        return match value {
            ConfigurationValue::StringList(items) => {
                if str_eq(key, "deposit_bounus") && bad_bonus_exec(items) {
                    Some("充值奖励格式不正确，必须为充值金额:奖励金额")
                } else {
                    None
                }
            },
            _ => Some("数组参数格式有误"),
        };
    }
    if in_list_exec(&integers, key) {
        return match value {
            ConfigurationValue::Integer(v) => {
                let (minimum, maximum) = integer_bounds_exec(key);
                if minimum <= *v && *v <= maximum {
                    None
                } else {
                    Some("参数超出支持范围")
                }
            },
            _ => Some("参数格式有误"),
        };
    }
    if in_list_exec(&numbers, key) {
        return match value {
            ConfigurationValue::Number(raw) => {
                if starts_with_dash(raw.as_str()) {
                    Some("参数不能为负数")
                } else {
                    let maximum = if str_eq(key, "try_out_hour") {
                        TRY_OUT_HOUR_MAXIMUM
                    } else {
                        NUMERIC_MAXIMUM
                    };
                    if !is_unsigned_decimal(raw.as_str()) || !decimal_leq(raw.as_str(), maximum) {
                        Some("参数超出支持范围")
                    } else {
                        None
                    }
                }
            },
            _ => Some("参数格式有误"),
        };
    }
    other_violation_exec(key, value)
}

/// Index of the first invalid entry at or after `i`.
pub open spec fn first_violation(e: Seq<(String, ConfigurationValue)>, i: int) -> Option<int>
    decreases e.len() - i,
{
    if i < 0 || i >= e.len() {
        None
    } else if entry_violation(e[i].0@, e[i].1) is Some {
        Some(i)
    } else {
        first_violation(e, i + 1)
    }
}

/// The first invalid entry at or after `k` comes no later than any invalid
/// entry `j` at or after `k`.
pub proof fn lemma_first_violation_at_most(e: Seq<(String, ConfigurationValue)>, k: int, j: int)
    requires
        0 <= k <= j < e.len(),
        entry_violation(e[j].0@, e[j].1) is Some,
    ensures
        first_violation(e, k) matches Some(i) && k <= i <= j && entry_violation(e[i].0@, e[i].1)
            is Some,
    decreases j - k,
{
    if entry_violation(e[k].0@, e[k].1) is None {
        lemma_first_violation_at_most(e, k + 1, j);
    }
}

/// The entry a patch is refused for has the smallest key among its invalid
/// entries: a well-formed map keeps its keys in ascending order.
pub proof fn law_patch_reports_smallest_invalid_key(changes: ConfigurationMap, j: int)
    requires
        changes.wf(),
        0 <= j < changes.spec_entries().len(),
        entry_violation(changes.spec_entries()[j].0@, changes.spec_entries()[j].1) is Some,
    ensures
        first_violation(changes.spec_entries(), 0) matches Some(i) && (i == j || lex_lt(
            changes.spec_entries()[i].0@,
            changes.spec_entries()[j].0@,
        )),
{
    lemma_first_violation_at_most(changes.spec_entries(), 0, j);
}

/// Validates a configuration patch entry by entry, in key order: the first
/// invalid entry is reported as a validation error on its key.
pub fn validate_patch(changes: &ConfigurationMap) -> (r: Result<(), ConfigurationError>)
    ensures
        match first_violation(changes.spec_entries(), 0) {
            Some(i) => r matches Err(e) && e.is_validation(
                changes.spec_entries()[i].0@,
                entry_violation(changes.spec_entries()[i].0@, changes.spec_entries()[i].1)->0,
            ),
            None => r is Ok,
        },
{
    let entries = changes.entries();
    let mut i: usize = 0;
    while i < entries.len()
        invariant
            i <= entries@.len(),
            entries@ == changes.spec_entries(),
            first_violation(entries@, 0) == first_violation(entries@, i as int),
        decreases entries@.len() - i,
    {
        match entry_violation_exec(entries[i].0.as_str(), &entries[i].1) {
            Some(message) => {
                return Err(ConfigurationError::validation(entries[i].0.as_str(), message));
            },
            None => {},
        }
        i = i + 1;
    }
    Ok(())
}

/// Before the active configuration is loaded: the expected revision must be
/// positive.
pub fn check_expected_revision(expected_revision: i64) -> (r: Result<(), ConfigurationError>)
    ensures
        expected_revision > 0 <==> r is Ok,
        expected_revision <= 0 ==> (r matches Err(e) && e.has_code(
            ConfigurationCode::ConfigValidationFailed,
        )),
{
    if expected_revision <= 0 {
        return Err(
            ConfigurationError::business_detail(
                ConfigurationCode::ConfigValidationFailed,
                "expected_revision must be a positive integer",
            ),
        );
    }
    Ok(())
}

/// After the active configuration is loaded: a stale revision conflicts.
pub fn check_active_revision(active_revision: i64, expected_revision: i64) -> (r: Result<
    (),
    ConfigurationError,
>)
    ensures
        active_revision == expected_revision <==> r is Ok,
        active_revision != expected_revision ==> (r matches Err(e) && e.has_code(
            ConfigurationCode::ConfigRevisionConflict,
        )),
{
    if active_revision != expected_revision {
        return Err(ConfigurationError::business(ConfigurationCode::ConfigRevisionConflict));
    }
    Ok(())
}

/// The actor recorded with a commit: `admin:` and the trimmed e-mail.
pub fn patch_actor(admin_email: &str) -> (r: String)
    ensures
        r@ == "admin:"@ + trim(admin_email@),
{
    let mut actor = to_owned("admin:");
    let t = trim_str(admin_email);
    append_str_to(&mut actor, t.as_str());
    actor
}

/// A commit that reports no positive revision is an internal fault.
pub fn committed_revision(revision: i64) -> (r: Result<i64, ConfigurationError>)
    ensures
        revision > 0 ==> r == Ok::<i64, ConfigurationError>(revision),
        revision <= 0 ==> r matches Err(ConfigurationError::Internal(_)),
{
    if revision <= 0 {
        return Err(
            ConfigurationError::Internal(
                to_owned("committed operator configuration revision is missing"),
            ),
        );
    }
    Ok(revision)
}

/// A bulk mail needs a non-blank subject and content and legal filters.
pub fn validate_bulk_mail(input: &BulkMailInput) -> (r: Result<(), ConfigurationError>)
    ensures
        trim(input.subject@).len() == 0 ==> (r matches Err(e) && e.is_validation(
            "subject"@,
            "邮件主题不能为空"@,
        )),
        trim(input.subject@).len() > 0 && trim(input.content@).len() == 0 ==> (r matches Err(e)
            && e.is_validation("content"@, "邮件内容不能为空"@)),
        r is Ok <==> (trim(input.subject@).len() > 0 && trim(input.content@).len() > 0 && match input.filter {
            Some(fs) => forall|i: int| 0 <= i < fs@.len() ==> clause_ok(#[trigger] fs@[i]),
            None => true,
        }),
{
    if crate::text::is_blank(input.subject.as_str()) {
        return Err(ConfigurationError::validation("subject", "邮件主题不能为空"));
    }
    if crate::text::is_blank(input.content.as_str()) {
        return Err(ConfigurationError::validation("content", "邮件内容不能为空"));
    }
    match &input.filter {
        Some(filters) => match validate_user_filters(filters.as_slice()) {
            Ok(()) => {},
            Err(violation) => {
                return Err(
                    ConfigurationError::validation(violation.field, violation.message.as_str()),
                );
            },
        },
        None => {},
    }
    Ok(())
}

/// The actor recorded with a bulk mail: `admin:` or `staff:` and the e-mail.
pub fn bulk_mail_actor(audience: MailAudience, actor_email: &str) -> (r: String)
    ensures
        r@ == (match audience {
            MailAudience::Admin => "admin"@,
            MailAudience::Staff => "staff"@,
        }) + ":"@ + actor_email@,
{
    let mut actor = match audience {
        MailAudience::Admin => to_owned("admin"),
        MailAudience::Staff => to_owned("staff"),
    };
    append_str_to(&mut actor, ":");
    append_str_to(&mut actor, actor_email);
    actor
}

} // verus!
