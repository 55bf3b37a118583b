use v2board_application::payment::decimal_in_closed_range;

#[test]
fn fee_window_is_decimal_exact_and_accepts_exponent_spelling() {
    for value in ["0.1", "1e-1", "100", "1e2", "12.345"] {
        assert!(decimal_in_closed_range(value, "0.1", "100"), "{value}");
    }
    for value in ["0", "0.099999999999", "100.0001", "-1", "NaN", "1e1001"] {
        assert!(!decimal_in_closed_range(value, "0.1", "100"), "{value}");
    }
}

#[test]
fn equal_values_in_other_spellings_sit_on_the_same_bounds() {
    assert!(decimal_in_closed_range("10.0", "10", "10"));
    assert!(decimal_in_closed_range("1E1", "10", "10"));
    assert!(decimal_in_closed_range("0010", "10", "10"));
    assert!(!decimal_in_closed_range("10.", "0", "100"));
    assert!(!decimal_in_closed_range("+1", "0", "100"));
}

struct ManifestSecurity;

impl v2board_application::payment::PaymentSecurity for ManifestSecurity {
    fn spec_provider_codes(&self) -> vstd::seq::Seq<String> {
        unreachable!("a specification is never run")
    }

    fn spec_redacted(
        &self,
        _provider: vstd::seq::Seq<char>,
        _uuid: vstd::seq::Seq<char>,
        _sealed_config: vstd::seq::Seq<char>,
    ) -> Option<v2board_application::payment::ProviderConfig> {
        unreachable!("a specification is never run")
    }

    fn spec_uses_legacy_md5(&self, _provider: vstd::seq::Seq<char>) -> bool {
        unreachable!("a specification is never run")
    }

    fn spec_security_warning(
        &self,
        _provider: vstd::seq::Seq<char>,
    ) -> Option<vstd::seq::Seq<char>> {
        unreachable!("a specification is never run")
    }

    fn provider_codes(&self) -> Vec<String> {
        vec!["StripeCheckout".to_string()]
    }

    fn new_uuid(&self) -> String {
        "fixed-uuid".to_string()
    }

    fn seal(
        &self,
        _provider: &str,
        _uuid: &str,
        _config: &v2board_application::payment::ProviderConfig,
    ) -> Result<String, v2board_application::payment::PaymentSecurityError> {
        Ok("sealed".to_string())
    }

    fn redact(
        &self,
        _provider: &str,
        _uuid: &str,
        _sealed_config: &str,
    ) -> Result<v2board_application::payment::ProviderConfig, v2board_application::payment::PaymentSecurityError>
    {
        Ok(v2board_application::keyed_map::KeyedMap::new())
    }

    fn provider_form(
        &self,
        _provider: &str,
        _config: Option<&v2board_application::payment::ProviderConfig>,
    ) -> v2board_application::payment::ProviderForm {
        v2board_application::keyed_map::KeyedMap::new()
    }

    fn uses_legacy_md5(&self, _provider: &str) -> bool {
        false
    }

    fn security_warning(&self, _provider: &str) -> Option<String> {
        None
    }
}

#[test]
fn provider_codes_are_the_security_manifest() {
    let service = v2board_application::payment::PaymentService::new((), ManifestSecurity, None);
    assert_eq!(service.provider_codes(), vec!["StripeCheckout".to_string()]);
}
