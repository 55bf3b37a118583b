//! Payment methods: input rules, the exact fee window, sort order, and the
//! operator view of a stored method.
use vstd::prelude::*;

use crate::RepositoryError;
use crate::configuration::{url_shape, url_shape_exec};
use crate::keyed_map::KeyedMap;
use crate::text::{lemma_lex_asymmetric, lemma_lex_irreflexive, 
    all_digits, all_digits_exec, append_str_to, chars_of, char_end_exec, char_start_exec,
    ends_with, find, find_exec, is_blank, lemma_find_from, lex_lt, lex_lt_exec, parse_integer,
    parsed_in_range, str_eq, string_from, to_owned, trim, trim_end_char, trim_start_char,
};

verus! {

pub type ProviderConfig = KeyedMap<String>;

pub type ProviderForm = KeyedMap<ProviderFormField>;

#[derive(Clone, Debug, Eq, PartialEq)]
pub struct ProviderFormField {
    pub label: String,
    pub description: String,
    pub kind: String,
    pub value: Option<String>,
}

#[derive(Clone, Debug, PartialEq)]
pub struct PaymentMethodRecord {
    pub id: i32,
    pub name: String,
    pub provider: String,
    pub icon: Option<String>,
    pub handling_fee_fixed: Option<i32>,
    /// Exact NUMERIC spelling of the percentage fee.
    pub handling_fee_percent: Option<String>,
    pub uuid: String,
    /// The sealed provider configuration; only the security adapter opens it.
    pub sealed_config: String,
    pub notify_domain: Option<String>,
    pub enable: bool,
    pub sort: Option<i32>,
    pub created_at: i64,
    pub updated_at: i64,
}

#[derive(Debug)]
pub struct PaymentMethod {
    pub id: i32,
    pub name: String,
    pub provider: String,
    pub icon: Option<String>,
    pub handling_fee_fixed: Option<i32>,
    pub handling_fee_percent: Option<String>,
    pub uuid: String,
    pub config: ProviderConfig,
    pub notify_domain: Option<String>,
    pub notify_url: String,
    pub enable: bool,
    pub sort: Option<i32>,
    pub created_at: i64,
    pub updated_at: i64,
    pub legacy_md5_signature: bool,
    pub security_warning: Option<String>,
}

#[derive(Debug)]
pub struct PaymentCreateInput {
    pub name: String,
    pub provider: String,
    pub config: ProviderConfig,
    pub icon: Option<String>,
    pub notify_domain: Option<String>,
    pub handling_fee_fixed: Option<i64>,
    pub handling_fee_percent: Option<String>,
}

#[derive(Clone, Debug, Default, PartialEq)]
pub struct PaymentPatchInput {
    pub name: Option<String>,
    pub icon: Option<Option<String>>,
    pub notify_domain: Option<Option<String>>,
    pub handling_fee_fixed: Option<Option<i64>>,
    pub handling_fee_percent: Option<Option<String>>,
    pub enable: Option<bool>,
}

#[derive(Clone, Debug, PartialEq)]
pub struct NewPaymentMethod {
    pub name: String,
    pub provider: String,
    pub config: String,
    pub uuid: String,
    pub icon: Option<String>,
    pub notify_domain: Option<String>,
    pub handling_fee_fixed: Option<i32>,
    pub handling_fee_percent: Option<String>,
    pub created_at: i64,
    pub updated_at: i64,
}

#[derive(Clone, Debug, Default, PartialEq)]
pub struct PaymentChanges {
    pub name: Option<String>,
    pub icon: Option<Option<String>>,
    pub notify_domain: Option<Option<String>>,
    pub handling_fee_fixed: Option<Option<i32>>,
    pub handling_fee_percent: Option<Option<String>>,
    pub enable: Option<bool>,
    pub updated_at: i64,
}

#[derive(Clone, Copy, Debug, Eq, PartialEq, Structural)]
pub enum ChangePaymentOutcome {
    Updated,
    NotFound,
}

#[derive(Clone, Copy, Debug, Eq, PartialEq, Structural)]
pub enum ArchivePaymentOutcome {
    Archived,
    NotFound,
}

#[derive(Clone, Copy, Debug, Eq, PartialEq, Structural)]
pub enum SortPaymentsOutcome {
    Sorted,
    PaymentSetChanged,
}

#[derive(Clone, Copy, Debug, Eq, PartialEq, Structural)]
pub enum PaymentInputViolation {
    EmptyName,
    EmptyProvider,
    UnknownProvider,
    EmptyConfig,
    InvalidNotifyDomain,
    FixedFeeOutOfRange,
    PercentFeeOutOfRange,
    SortIdOutOfRange,
    DuplicateSortId,
}

/// A failure of the payment security adapter, with the operation it was
/// doing.
#[derive(Debug, Clone, Eq, PartialEq)]
pub struct PaymentSecurityError {
    operation: &'static str,
    message: String,
}

impl PaymentSecurityError {
    pub closed spec fn spec_operation(&self) -> &'static str {
        self.operation
    }

    pub closed spec fn spec_message(&self) -> String {
        self.message
    }

    pub fn new<M: std::fmt::Display>(operation: &'static str, message: M) -> (r: Self)
        ensures
            r.spec_operation() == operation,
            vstd::string::to_string_from_display_ensures::<M>(&message, r.spec_message()),
    {
        Self { operation, message: message.to_string() }
    }

    /// The message the failure was recorded with.
    pub fn message(&self) -> (r: &str)
        ensures
            r@ == self.spec_message()@,
    {
        self.message.as_str()
    }

    /// The failure as text: `"payment security adapter failed during {operation}: {message}"`.
    pub fn rendered(&self) -> (r: String)
        ensures
            r@ == "payment security adapter failed during "@ + self.spec_operation()@ + ": "@ + self.spec_message()@,
    {
        let mut text = to_owned("payment security adapter failed during ");
        append_str_to(&mut text, self.operation);
        append_str_to(&mut text, ": ");
        append_str_to(&mut text, self.message.as_str());
        text
    }
}

#[derive(Debug)]
pub enum PaymentError {
    AppUrlNotConfigured,
    InvalidInput(PaymentInputViolation),
    NotFound,
    UpdateConflict,
    Security(PaymentSecurityError),
    Repository(RepositoryError),
}

/// Cryptography and provider-manifest adapter: local work over an opaque
/// sealed envelope.
pub trait PaymentSecurity {
    /// The provider codes of the adapter's manifest.
    spec fn spec_provider_codes(&self) -> Seq<String>;

    /// The providers in the adapter's manifest.
    fn provider_codes(&self) -> (r: Vec<String>)
        ensures
            r@ == self.spec_provider_codes(),
    ;

    fn new_uuid(&self) -> String;

    fn seal(&self, provider: &str, uuid: &str, config: &ProviderConfig) -> Result<
        String,
        PaymentSecurityError,
    >;

    /// The configuration, with its secrets masked, that a sealed envelope
    /// opens to; `None` when it does not open.
    spec fn spec_redacted(
        &self,
        provider: Seq<char>,
        uuid: Seq<char>,
        sealed_config: Seq<char>,
    ) -> Option<ProviderConfig>;

    /// Whether `provider` signs its notifications with legacy MD5.
    spec fn spec_uses_legacy_md5(&self, provider: Seq<char>) -> bool;

    /// The security warning shown for `provider`, if any.
    spec fn spec_security_warning(&self, provider: Seq<char>) -> Option<Seq<char>>;

    /// Opens a sealed envelope and masks its secrets.
    fn redact(&self, provider: &str, uuid: &str, sealed_config: &str) -> (r: Result<
        ProviderConfig,
        PaymentSecurityError,
    >)
        ensures
            match r {
                Ok(c) => self.spec_redacted(provider@, uuid@, sealed_config@) == Some(c),
                Err(_) => self.spec_redacted(provider@, uuid@, sealed_config@) is None,
            },
    ;

    fn provider_form(&self, provider: &str, config: Option<&ProviderConfig>) -> ProviderForm;

    fn uses_legacy_md5(&self, provider: &str) -> (r: bool)
        ensures
            r == self.spec_uses_legacy_md5(provider@),
    ;

    fn security_warning(&self, provider: &str) -> (r: Option<String>)
        ensures
            match r {
                Some(w) => self.spec_security_warning(provider@) == Some(w@),
                None => self.spec_security_warning(provider@) is None,
            },
    ;
}

pub struct PaymentService<R, S> {
    repository: R,
    security: S,
    app_url: Option<String>,
}

/// The callback path of a provider's payment notifications.
pub open spec fn notify_path(provider: Seq<char>, uuid: Seq<char>) -> Seq<char> {
    "/api/v1/guest/payment/notify/"@ + provider + "/"@ + uuid
}

pub open spec fn non_empty(o: Option<String>) -> Option<Seq<char>> {
    match o {
        Some(v) => if v@.len() > 0 {
            Some(v@)
        } else {
            None
        },
        None => None,
    }
}

/// The notification URL of a method: its own domain, else the application
/// URL, without trailing slashes, before the callback path.
pub open spec fn notify_url(
    notify_domain: Option<String>,
    app_url: Option<String>,
    provider: Seq<char>,
    uuid: Seq<char>,
) -> Seq<char> {
    let base = match non_empty(notify_domain) {
        Some(d) => Some(d),
        None => non_empty(app_url),
    };
    match base {
        Some(b) => trim_end_char(b, '/') + notify_path(provider, uuid),
        None => notify_path(provider, uuid),
    }
}

impl<R, S> PaymentService<R, S> {
    pub closed spec fn spec_parts(&self) -> (R, S, Option<String>) {
        (self.repository, self.security, self.app_url)
    }

    pub fn new(repository: R, security: S, app_url: Option<String>) -> (s: Self)
        ensures
            s.spec_parts() == (repository, security, app_url),
    {
        Self { repository, security, app_url }
    }

    pub fn repository(&self) -> (r: &R)
        ensures
            *r == self.spec_parts().0,
    {
        &self.repository
    }

    pub fn security(&self) -> (r: &S)
        ensures
            *r == self.spec_parts().1,
    {
        &self.security
    }

    /// Writes need a configured, non-empty application URL.
    pub fn require_app_url(&self) -> (r: Result<(), PaymentError>)
        ensures
            r is Ok <==> non_empty(self.spec_parts().2) is Some,
            r is Err ==> r matches Err(PaymentError::AppUrlNotConfigured),
    {
        match &self.app_url {
            Some(url) => if chars_of(url.as_str()).len() > 0 {
                Ok(())
            } else {
                Err(PaymentError::AppUrlNotConfigured)
            },
            None => Err(PaymentError::AppUrlNotConfigured),
        }
    }

    /// The notification URL of a stored method.
    pub fn notify_url_for(&self, notify_domain: &Option<String>, provider: &str, uuid: &str) -> (r:
        String)
        ensures
            r@ == notify_url(*notify_domain, self.spec_parts().2, provider@, uuid@),
    {
        let mut path = to_owned("/api/v1/guest/payment/notify/");
        append_str_to(&mut path, provider);
        append_str_to(&mut path, "/");
        append_str_to(&mut path, uuid);
        let domain: Option<&str> = match notify_domain {
            Some(d) => if chars_of(d.as_str()).len() > 0 {
                Some(d.as_str())
            } else {
                None
            },
            None => None,
        };
        let base: Option<&str> = match domain {
            Some(d) => Some(d),
            None => match &self.app_url {
                Some(u) => if chars_of(u.as_str()).len() > 0 {
                    Some(u.as_str())
                } else {
                    None
                },
                None => None,
            },
        };
        match base {
            Some(b) => {
                let v = chars_of(b);
                let end = char_end_exec(&v, '/');
                let mut url = string_from(&v, 0, end);
                append_str_to(&mut url, path.as_str());
                proof {
                    assert(v@.subrange(0, end as int) == trim_end_char(b@, '/'));
                }
                url
            },
            None => path,
        }
    }
}

impl<R, S: PaymentSecurity> PaymentService<R, S> {
    /// The providers the security adapter knows.
    pub fn provider_codes(&self) -> (r: Vec<String>)
        ensures
            r@ == self.spec_parts().1.spec_provider_codes(),
    {
        self.security.provider_codes()
    }

    /// The operator view of a stored method: the configuration redacted by
    /// the security adapter, and the notification URL.
    pub fn payment(&self, row: PaymentMethodRecord) -> (r: Result<PaymentMethod, PaymentError>)
        ensures
            r is Err ==> r matches Err(PaymentError::Security(_)),
            r matches Ok(p) ==> p.id == row.id && p.name == row.name && p.provider == row.provider
                && p.icon == row.icon && p.handling_fee_fixed == row.handling_fee_fixed
                && p.handling_fee_percent == row.handling_fee_percent && p.uuid == row.uuid
                && p.notify_domain == row.notify_domain && p.notify_url@ == notify_url(
                row.notify_domain,
                self.spec_parts().2,
                row.provider@,
                row.uuid@,
            ) && p.enable == row.enable && p.sort == row.sort && p.created_at == row.created_at
                && p.updated_at == row.updated_at,
            match self.spec_parts().1.spec_redacted(row.provider@, row.uuid@, row.sealed_config@) {
                Some(c) => r matches Ok(p) && p.config == c && p.legacy_md5_signature
                    == self.spec_parts().1.spec_uses_legacy_md5(row.provider@) && match p.security_warning {
                    Some(w) => self.spec_parts().1.spec_security_warning(row.provider@) == Some(w@),
                    None => self.spec_parts().1.spec_security_warning(row.provider@) is None,
                },
                None => r is Err,
            },
    {
        let config = match self.security.redact(
            row.provider.as_str(),
            row.uuid.as_str(),
            row.sealed_config.as_str(),
        ) {
            Ok(c) => c,
            Err(e) => {
                return Err(PaymentError::Security(e));
            },
        };
        let notify_url = self.notify_url_for(&row.notify_domain, row.provider.as_str(), row.uuid.as_str());
        let legacy_md5_signature = self.security.uses_legacy_md5(row.provider.as_str());
        let security_warning = self.security.security_warning(row.provider.as_str());
        Ok(
            PaymentMethod {
                id: row.id,
                name: row.name,
                provider: row.provider,
                icon: row.icon,
                handling_fee_fixed: row.handling_fee_fixed,
                handling_fee_percent: row.handling_fee_percent,
                uuid: row.uuid,
                config,
                notify_domain: row.notify_domain,
                notify_url,
                enable: row.enable,
                sort: row.sort,
                created_at: row.created_at,
                updated_at: row.updated_at,
                legacy_md5_signature,
                security_warning,
            },
        )
    }
}

/// `valid_url_shape`: an alphabetic-led URI scheme, `://` and a non-empty
/// authority.
pub fn valid_url_shape(value: &str) -> (r: bool)
    ensures
        r == url_shape(value@, false),
{
    url_shape_exec(value, false)
}

/// A fixed fee is a non-negative `i32`.
pub open spec fn fixed_fee_ok(value: i64) -> bool {
    0 <= value <= i32::MAX
}

pub open spec fn contains_code(codes: Seq<String>, provider: Seq<char>) -> bool {
    exists|i: int| 0 <= i < codes.len() && (#[trigger] codes[i])@ == provider
}

/// The first rule a new method breaks, in the order they are checked.
pub open spec fn create_violation(input: PaymentCreateInput, codes: Seq<String>) -> Option<
    PaymentInputViolation,
> {
    if trim(input.name@).len() == 0 {
        Some(PaymentInputViolation::EmptyName)
    } else if trim(input.provider@).len() == 0 {
        Some(PaymentInputViolation::EmptyProvider)
    } else if !contains_code(codes, input.provider@) {
        Some(PaymentInputViolation::UnknownProvider)
    } else if input.config.spec_entries().len() == 0 {
        Some(PaymentInputViolation::EmptyConfig)
    } else if input.notify_domain is Some && !url_shape(input.notify_domain->0@, false) {
        Some(PaymentInputViolation::InvalidNotifyDomain)
    } else if input.handling_fee_fixed is Some && !fixed_fee_ok(input.handling_fee_fixed->0) {
        Some(PaymentInputViolation::FixedFeeOutOfRange)
    } else if input.handling_fee_percent is Some && !fee_percent_ok(
        input.handling_fee_percent->0@,
    ) {
        Some(PaymentInputViolation::PercentFeeOutOfRange)
    } else {
        None
    }
}

/// The rules of a new method; `provider_codes` are the providers the
/// security adapter knows.
pub fn validate_create(input: &PaymentCreateInput, provider_codes: &[String]) -> (r: Result<
    (),
    PaymentError,
>)
    ensures
        match create_violation(*input, provider_codes@) {
            Some(v) => r matches Err(PaymentError::InvalidInput(x)) && x == v,
            None => r is Ok,
        },
{
    if is_blank(input.name.as_str()) {
        return Err(PaymentError::InvalidInput(PaymentInputViolation::EmptyName));
    }
    if is_blank(input.provider.as_str()) {
        return Err(PaymentError::InvalidInput(PaymentInputViolation::EmptyProvider));
    }
    let mut known = false;
    let mut i: usize = 0;
    while i < provider_codes.len()
        invariant
            i <= provider_codes@.len(),
            known == exists|j: int| 0 <= j < i && (#[trigger] provider_codes@[j])@ == input.provider@,
        decreases provider_codes@.len() - i,
    {
        if str_eq(provider_codes[i].as_str(), input.provider.as_str()) {
            known = true;
        }
        i = i + 1;
    }
    if !known {
        return Err(PaymentError::InvalidInput(PaymentInputViolation::UnknownProvider));
    }
    if input.config.is_empty() {
        return Err(PaymentError::InvalidInput(PaymentInputViolation::EmptyConfig));
    }
    match &input.notify_domain {
        Some(domain) => if !valid_url_shape(domain.as_str()) {
            return Err(PaymentError::InvalidInput(PaymentInputViolation::InvalidNotifyDomain));
        },
        None => {},
    }
    match input.handling_fee_fixed {
        Some(value) => if value < 0 || value > i32::MAX as i64 {
            return Err(PaymentError::InvalidInput(PaymentInputViolation::FixedFeeOutOfRange));
        },
        None => {},
    }
    let percent = match &input.handling_fee_percent {
        Some(p) => Some(p.as_str()),
        None => None,
    };
    validate_percent_update(percent)
}

/// The first rule a patch breaks, in the order they are checked.
pub open spec fn patch_violation(input: PaymentPatchInput) -> Option<PaymentInputViolation> {
    if input.name is Some && trim(input.name->0@).len() == 0 {
        Some(PaymentInputViolation::EmptyName)
    } else if input.notify_domain matches Some(Some(d)) && !url_shape(d@, false) {
        Some(PaymentInputViolation::InvalidNotifyDomain)
    } else if input.handling_fee_fixed matches Some(Some(v)) && !fixed_fee_ok(v) {
        Some(PaymentInputViolation::FixedFeeOutOfRange)
    } else if input.handling_fee_percent matches Some(Some(p)) && !fee_percent_ok(p@) {
        Some(PaymentInputViolation::PercentFeeOutOfRange)
    } else {
        None
    }
}

pub fn validate_patch(input: &PaymentPatchInput) -> (r: Result<(), PaymentError>)
    ensures
        match patch_violation(*input) {
            Some(v) => r matches Err(PaymentError::InvalidInput(x)) && x == v,
            None => r is Ok,
        },
{
    match &input.name {
        Some(name) => if is_blank(name.as_str()) {
            return Err(PaymentError::InvalidInput(PaymentInputViolation::EmptyName));
        },
        None => {},
    }
    match &input.notify_domain {
        Some(Some(domain)) => if !valid_url_shape(domain.as_str()) {
            return Err(PaymentError::InvalidInput(PaymentInputViolation::InvalidNotifyDomain));
        },
        _ => {},
    }
    match input.handling_fee_fixed {
        Some(Some(value)) => if value < 0 || value > i32::MAX as i64 {
            return Err(PaymentError::InvalidInput(PaymentInputViolation::FixedFeeOutOfRange));
        },
        _ => {},
    }
    match &input.handling_fee_percent {
        Some(Some(value)) => validate_percent_update(Some(value.as_str())),
        _ => Ok(()),
    }
}

/// A percentage fee lies in the closed window 0.1 to 100.
pub open spec fn fee_percent_ok(value: Seq<char>) -> bool {
    decimal_within(value, "0.1"@, "100"@)
}

pub fn validate_percent_update(value: Option<&str>) -> (r: Result<(), PaymentError>)
    ensures
        match value {
            Some(v) => if fee_percent_ok(v@) {
                r is Ok
            } else {
                r matches Err(PaymentError::InvalidInput(PaymentInputViolation::PercentFeeOutOfRange))
            },
            None => r is Ok,
        },
{
    match value {
        Some(v) => if !decimal_in_closed_range(v, "0.1", "100") {
            return Err(PaymentError::InvalidInput(PaymentInputViolation::PercentFeeOutOfRange));
        },
        None => {},
    }
    Ok(())
}

/// The stored fixed fee of a new method.
pub fn fixed_fee(value: Option<i64>) -> (r: Result<Option<i32>, PaymentError>)
    ensures
        match value {
            Some(v) => if fixed_fee_ok(v) {
                r == Ok::<Option<i32>, PaymentError>(Some(v as i32))
            } else {
                r matches Err(PaymentError::InvalidInput(PaymentInputViolation::FixedFeeOutOfRange))
            },
            None => r == Ok::<Option<i32>, PaymentError>(None),
        },
{
    match value {
        Some(v) => if 0 <= v && v <= i32::MAX as i64 {
            Ok(Some(v as i32))
        } else {
            Err(PaymentError::InvalidInput(PaymentInputViolation::FixedFeeOutOfRange))
        },
        None => Ok(None),
    }
}

/// The stored fixed-fee change of a patch.
pub fn fixed_fee_update(value: Option<Option<i64>>) -> (r: Result<Option<Option<i32>>, PaymentError>)
    ensures
        match value {
            Some(Some(v)) => if fixed_fee_ok(v) {
                r == Ok::<Option<Option<i32>>, PaymentError>(Some(Some(v as i32)))
            } else {
                r matches Err(PaymentError::InvalidInput(PaymentInputViolation::FixedFeeOutOfRange))
            },
            Some(None) => r == Ok::<Option<Option<i32>>, PaymentError>(Some(None)),
            None => r == Ok::<Option<Option<i32>>, PaymentError>(None),
        },
{
    match value {
        Some(update) => match fixed_fee(update) {
            Ok(v) => Ok(Some(v)),
            Err(e) => Err(e),
        },
        None => Ok(None),
    }
}

/// The answer to a change or archive of a method from the store.
pub fn change_result(found: bool) -> (r: Result<(), PaymentError>)
    ensures
        found ==> r is Ok,
        !found ==> r matches Err(PaymentError::NotFound),
{
    if found {
        Ok(())
    } else {
        Err(PaymentError::NotFound)
    }
}

/// The answer to an exact reordering from the store.
pub fn sort_result(outcome: SortPaymentsOutcome) -> (r: Result<(), PaymentError>)
    ensures
        outcome == SortPaymentsOutcome::Sorted ==> r is Ok,
        outcome == SortPaymentsOutcome::PaymentSetChanged ==> r matches Err(
            PaymentError::UpdateConflict,
        ),
{
    match outcome {
        SortPaymentsOutcome::Sorted => Ok(()),
        SortPaymentsOutcome::PaymentSetChanged => Err(PaymentError::UpdateConflict),
    }
}

pub open spec fn sort_id_ok(id: i64) -> bool {
    1 <= id <= i32::MAX
}

/// The first problem of a sort list at or after `i`, scanning in order: an
/// id that is not a positive `i32`, or one already seen.
pub open spec fn sort_problem(ids: Seq<i64>, i: int) -> Option<PaymentInputViolation>
    decreases ids.len() - i,
{
    if i < 0 || i >= ids.len() {
        None
    } else if !sort_id_ok(ids[i]) {
        Some(PaymentInputViolation::SortIdOutOfRange)
    } else if ids.take(i).contains(ids[i]) {
        Some(PaymentInputViolation::DuplicateSortId)
    } else {
        sort_problem(ids, i + 1)
    }
}

/// `normalize_sort_ids`: the ids as stored, in the order given; each must
/// be a positive `i32` and appear once.
pub fn normalize_sort_ids(ids: &[i64]) -> (r: Result<Vec<i32>, PaymentInputViolation>)
    ensures
        match sort_problem(ids@, 0) {
            Some(v) => r == Err::<Vec<i32>, PaymentInputViolation>(v),
            None => r matches Ok(out) && out@.len() == ids@.len() && forall|k: int|
                0 <= k < ids@.len() ==> out@[k] as i64 == #[trigger] ids@[k],
        },
{
    let mut out: Vec<i32> = Vec::new();
    let mut i: usize = 0;
    while i < ids.len()
        invariant
            i <= ids@.len(),
            out@.len() == i,
            forall|k: int| 0 <= k < i ==> out@[k] as i64 == #[trigger] ids@[k],
            sort_problem(ids@, 0) == sort_problem(ids@, i as int),
        decreases ids@.len() - i,
    {
        let id = ids[i];
        if !(1 <= id && id <= i32::MAX as i64) {
            return Err(PaymentInputViolation::SortIdOutOfRange);
        }
        let value = id as i32;
        let mut j: usize = 0;
        while j < i
            invariant
                j <= i,
                i < ids@.len(),
                out@.len() == i,
                forall|k: int| 0 <= k < i ==> out@[k] as i64 == #[trigger] ids@[k],
                forall|k: int| 0 <= k < j ==> ids@[k] != id,
                id == ids@[i as int],
                1 <= id <= i32::MAX,
                value == id as i32,
                sort_problem(ids@, 0) == sort_problem(ids@, i as int),
            decreases i - j,
        {
            if out[j] == value {
                proof {
                    assert(out@[j as int] as i64 == ids@[j as int]);
                    assert(ids@.take(i as int)[j as int] == ids@[j as int]);
                    assert(ids@.take(i as int).contains(ids@[i as int]));
                }
                return Err(PaymentInputViolation::DuplicateSortId);
            }
            j = j + 1;
        }
        proof {
            assert forall|k: int| 0 <= k < ids@.take(i as int).len() implies ids@.take(i as int)[k]
                != ids@[i as int] by {
                assert(ids@.take(i as int)[k] == ids@[k]);
            }
        }
        out.push(value);
        i = i + 1;
    }
    Ok(out)
}

/// Index of the first `e` or `E`.
pub open spec fn exponent_mark(s: Seq<char>, i: int) -> Option<int>
    decreases s.len() - i,
{
    if i < 0 || i >= s.len() {
        None
    } else if s[i] == 'e' || s[i] == 'E' {
        Some(i)
    } else {
        exponent_mark(s, i + 1)
    }
}

/// A decimal read as its significant digits (no leading zeros, `"0"` for
/// zero) and a power-of-ten scale: the value is `digits` times ten to the
/// power `-scale`.
pub struct DecimalDigits {
    pub digits: Vec<char>,
    pub scale: i32,
}

pub open spec fn strip_leading_zeros(s: Seq<char>) -> Seq<char> {
    let t = trim_start_char(s, '0');
    if t.len() == 0 {
        seq!['0']
    } else {
        t
    }
}

/// What `DecimalDigits::parse` reads: plain or exponent spelling, no sign,
/// a non-empty whole part, and a scale within a thousand.
pub open spec fn decimal_reading(value: Seq<char>) -> Option<(Seq<char>, int)> {
    let (mantissa, exponent) = match exponent_mark(value, 0) {
        Some(i) => (value.take(i), parsed_in_range(value.skip(i + 1), i32::MIN as int, i32::MAX as int)),
        None => (value, Some(0int)),
    };
    match exponent {
        None => None,
        Some(exp) => {
            if mantissa.len() > 0 && (mantissa[0] == '-' || mantissa[0] == '+') {
                None
            } else {
                let (whole, fraction, extra) = match find(mantissa, '.') {
                    Some(d) => {
                        let after = mantissa.skip(d + 1);
                        (mantissa.take(d), after, find(after, '.') is Some)
                    },
                    None => (mantissa, Seq::<char>::empty(), false),
                };
                if extra || whole.len() == 0 || !all_digits(whole) || !all_digits(fraction) || (
                fraction.len() == 0 && ends_with(mantissa, "."@)) {
                    None
                } else if fraction.len() > i32::MAX {
                    None
                } else {
                    let scale = fraction.len() - exp;
                    if scale < i32::MIN || scale > i32::MAX || scale < -1000 || scale > 1000 {
                        None
                    } else {
                        Some((strip_leading_zeros(whole + fraction), scale))
                    }
                }
            }
        },
    }
}

pub open spec fn zeros(n: int) -> Seq<char> {
    Seq::new(
        if n > 0 {
            n as nat
        } else {
            0
        },
        |i: int| '0',
    )
}

/// The digits scaled to `common`: zero stays `"0"`, others get trailing
/// zeros.
pub open spec fn expanded_digits(digits: Seq<char>, scale: int, common: int) -> Seq<char> {
    if digits == seq!['0'] {
        seq!['0']
    } else {
        digits + zeros(common - scale)
    }
}

/// The order of two readings.
#[derive(Clone, Copy, Debug, Eq, PartialEq, Structural)]
pub enum DecimalOrder {
    Less,
    Equal,
    Greater,
}

/// Two readings compared at a common scale, by length and then digit by
/// digit.
pub open spec fn decimal_order(a: (Seq<char>, int), b: (Seq<char>, int)) -> DecimalOrder {
    let common = if a.1 > b.1 {
        a.1
    } else {
        b.1
    };
    let common = if common > 0 {
        common
    } else {
        0
    };
    let l = expanded_digits(a.0, a.1, common);
    let r = expanded_digits(b.0, b.1, common);
    if l.len() < r.len() {
        DecimalOrder::Less
    } else if l.len() > r.len() {
        DecimalOrder::Greater
    } else if lex_lt(l, r) {
        DecimalOrder::Less
    } else if lex_lt(r, l) {
        DecimalOrder::Greater
    } else {
        DecimalOrder::Equal
    }
}

/// `decimal_in_closed_range`: all three read and `minimum <= value <=
/// maximum`.
pub open spec fn decimal_within(value: Seq<char>, minimum: Seq<char>, maximum: Seq<char>) -> bool {
    match (decimal_reading(value), decimal_reading(minimum), decimal_reading(maximum)) {
        (Some(v), Some(lo), Some(hi)) => decimal_order(v, lo) != DecimalOrder::Less
            && decimal_order(v, hi) != DecimalOrder::Greater,
        _ => false,
    }
}

impl DecimalDigits {
    pub open spec fn reading(&self) -> (Seq<char>, int) {
        (self.digits@, self.scale as int)
    }

    pub fn parse(value: &str) -> (r: Option<DecimalDigits>)
        ensures
            match decimal_reading(value@) {
                Some(d) => r matches Some(x) && x.reading() == d,
                None => r is None,
            },
    {
        let v = chars_of(value);
        let n = v.len();
        let mut mark: usize = 0;
        while mark < n && !(v[mark] == 'e' || v[mark] == 'E')
            invariant
                mark <= n,
                n == v@.len(),
                exponent_mark(v@, 0) == exponent_mark(v@, mark as int),
            decreases n - mark,
        {
            mark = mark + 1;
        }
        let (mantissa, exponent): (Vec<char>, i32) = if mark < n {
            let exponent_text = string_from(&v, mark + 1, n);
            let exponent = match parse_integer(exponent_text.as_str(), i32::MIN as i64, i32::MAX as i64) {
                Some(e) => e as i32,
                None => {
                    return None;
                },
            };
            (chars_of(string_from(&v, 0, mark).as_str()), exponent)
        } else {
            proof {
                assert(v@.take(n as int) =~= v@);
            }
            (v, 0)
        };
        let m = mantissa.len();
        if m > 0 && (mantissa[0] == '-' || mantissa[0] == '+') {
            return None;
        }
        proof {
            lemma_find_from(mantissa@, 0, '.');
        }
        let (whole, fraction, extra): (Vec<char>, Vec<char>, bool) = match find_exec(&mantissa, 0, '.') {
            Some(d) => {
                let after = chars_of(string_from(&mantissa, d + 1, m).as_str());
                proof {
                    lemma_find_from(after@, 0, '.');
                    assert(after@ =~= mantissa@.skip(d + 1));
                }
                let extra = find_exec(&after, 0, '.').is_some();
                (chars_of(string_from(&mantissa, 0, d).as_str()), after, extra)
            },
            None => (mantissa.clone(), Vec::new(), false),
        };
        proof {
            assert(whole@.subrange(0, whole@.len() as int) =~= whole@);
            assert(fraction@.subrange(0, fraction@.len() as int) =~= fraction@);
        }
        let ends_with_dot = m > 0 && mantissa[m - 1] == '.';
        proof {
            reveal_strlit(".");
            if m > 0 {
                if mantissa@[m - 1] == '.' {
                    assert(mantissa@.subrange(m - 1, m as int) =~= "."@);
                } else {
                    assert(mantissa@.subrange(m - 1, m as int)[0] != "."@[0]);
                }
            }
        }
        if extra || whole.len() == 0 || !all_digits_exec(&whole, 0, whole.len())
            || !all_digits_exec(&fraction, 0, fraction.len()) || (fraction.len() == 0
            && ends_with_dot) {
            return None;
        }
        if fraction.len() > i32::MAX as usize {
            return None;
        }
        let scale: i64 = fraction.len() as i64 - exponent as i64;
        if scale < -1000 || scale > 1000 {
            return None;
        }
        let mut raw = whole.clone();
        let mut k: usize = 0;
        while k < fraction.len()
            invariant
                k <= fraction@.len(),
                raw@ == whole@ + fraction@.take(k as int),
            decreases fraction@.len() - k,
        {
            raw.push(fraction[k]);
            proof {
                assert(fraction@.take(k + 1) =~= fraction@.take(k as int).push(fraction@[k as int]));
            }
            k = k + 1;
        }
        proof {
            assert(fraction@.take(fraction@.len() as int) =~= fraction@);
        }
        let start = char_start_exec(&raw, '0');
        let digits = if start == raw.len() {
            let mut zero = Vec::new();
            zero.push('0');
            proof {
                assert(zero@ =~= seq!['0']);
            }
            zero
        } else {
            chars_of(string_from(&raw, start, raw.len()).as_str())
        };
        Some(DecimalDigits { digits, scale: scale as i32 })
    }

    /// The digits scaled to `common`.
    pub fn expanded(&self, common: i32) -> (r: Vec<char>)
        requires
            self.scale >= -1000,
            common <= 1000,
        ensures
            r@ == expanded_digits(self.digits@, self.scale as int, common as int),
    {
        let is_zero = self.digits.len() == 1 && self.digits[0] == '0';
        proof {
            if self.digits@.len() == 1 && self.digits@[0] == '0' {
                assert(self.digits@ =~= seq!['0']);
            }
        }
        if is_zero {
            let mut zero = Vec::new();
            zero.push('0');
            proof {
                assert(zero@ =~= seq!['0']);
            }
            return zero;
        }
        let gap: i64 = common as i64 - self.scale as i64;
        let mut out = self.digits.clone();
        let mut added: i64 = 0;
        while added < gap
            invariant
                0 <= added,
                gap > 0 ==> added <= gap,
                gap <= 0 ==> added == 0,
                gap <= 2000,
                out@ == self.digits@ + zeros(added as int),
            decreases gap - added,
        {
            out.push('0');
            proof {
                assert(out@ =~= self.digits@ + zeros(added + 1));
            }
            added = added + 1;
        }
        proof {
            if gap <= 0 {
                assert(added == 0);
            } else {
                assert(added == gap);
            }
            assert(zeros(added as int) =~= zeros(common - self.scale));
        }
        out
    }

    /// Compares two readings.
    pub fn compare(&self, other: &DecimalDigits) -> (r: DecimalOrder)
        requires
            -1000 <= self.scale <= 1000,
            -1000 <= other.scale <= 1000,
        ensures
            r == decimal_order(self.reading(), other.reading()),
    {
        let common = if self.scale > other.scale {
            self.scale
        } else {
            other.scale
        };
        let common = if common > 0 {
            common
        } else {
            0
        };
        let left = self.expanded(common);
        let right = other.expanded(common);
        if left.len() < right.len() {
            DecimalOrder::Less
        } else if left.len() > right.len() {
            DecimalOrder::Greater
        } else if lex_lt_exec(&left, &right) {
            DecimalOrder::Less
        } else if lex_lt_exec(&right, &left) {
            DecimalOrder::Greater
        } else {
            DecimalOrder::Equal
        }
    }
}

/// Decimal comparison that never rounds through binary floating point; the
/// exponent spelling of a JSON number is accepted.
pub fn decimal_in_closed_range(value: &str, minimum: &str, maximum: &str) -> (r: bool)
    ensures
        r == decimal_within(value@, minimum@, maximum@),
{
    let value = match DecimalDigits::parse(value) {
        Some(v) => v,
        None => {
            return false;
        },
    };
    let minimum = match DecimalDigits::parse(minimum) {
        Some(v) => v,
        None => {
            return false;
        },
    };
    let maximum = match DecimalDigits::parse(maximum) {
        Some(v) => v,
        None => {
            return false;
        },
    };
    value.compare(&minimum) != DecimalOrder::Less && value.compare(&maximum)
        != DecimalOrder::Greater
}

/// Every reading equals itself.
pub proof fn law_decimal_order_is_reflexive(a: (Seq<char>, int))
    ensures
        decimal_order(a, a) == DecimalOrder::Equal,
{
    let common = if a.1 > 0 {
        a.1
    } else {
        0
    };
    lemma_lex_irreflexive(expanded_digits(a.0, a.1, common));
}

/// Comparing the other way round gives the opposite answer.
pub proof fn law_decimal_order_is_antisymmetric(a: (Seq<char>, int), b: (Seq<char>, int))
    ensures
        decimal_order(a, b) == DecimalOrder::Less <==> decimal_order(b, a) == DecimalOrder::Greater,
        decimal_order(a, b) == DecimalOrder::Equal <==> decimal_order(b, a) == DecimalOrder::Equal,
{
    let c = if a.1 > b.1 {
        a.1
    } else {
        b.1
    };
    let common = if c > 0 {
        c
    } else {
        0
    };
    let l = expanded_digits(a.0, a.1, common);
    let r = expanded_digits(b.0, b.1, common);
    if lex_lt(l, r) {
        lemma_lex_asymmetric(l, r);
    }
    if lex_lt(r, l) {
        lemma_lex_asymmetric(r, l);
    }
}

/// The fee window reads values, not spellings: two spellings of one
/// decimal (such as `1.5` and `15e-1`) are in or out of a window together.
pub proof fn law_fee_window_reads_values(a: Seq<char>, b: Seq<char>, minimum: Seq<char>, maximum: Seq<
    char,
>)
    requires
        decimal_reading(a) == decimal_reading(b),
    ensures
        decimal_within(a, minimum, maximum) == decimal_within(b, minimum, maximum),
{
}

} // verus!
