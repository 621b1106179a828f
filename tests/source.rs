use tu_planner::locale::Locale;
use tu_planner::source::{ConfigError, ConfigField, RawTiss, TissConfig, DEFAULT_ENDPOINT};

const TOKEN: u128 = 0x67e5504410b1426f9247bb680e5fe0c8;
const TOKEN_TEXT: &str = "67e55044-10b1-426f-9247-bb680e5fe0c8";

fn components(locale: Locale) -> TissConfig {
    TissConfig::Components { endpoint: DEFAULT_ENDPOINT.to_string(), locale, token: TOKEN }
}

#[test]
fn locale_codes_round_trip() {
    assert_eq!(Locale::from_str("de"), Ok(Locale::de));
    assert_eq!(Locale::from_str("en"), Ok(Locale::en));
    assert_eq!(Locale::de.to_string(), "de");
    assert_eq!(Locale::en.as_str(), "en");
    assert!(Locale::from_str("fr").is_err());
    assert!(Locale::from_str("EN").is_err());
    assert!(Locale::from_str("").is_err());
}

#[test]
fn components_resolve_to_stored_locale() {
    assert_eq!(components(Locale::de).locale(), Ok(Locale::de));
    assert_eq!(components(Locale::en).locale(), Ok(Locale::en));
}

#[test]
fn components_link_appends_locale_then_token() {
    let url = components(Locale::en).link().unwrap();
    assert_eq!(
        url,
        format!("https://tiss.tuwien.ac.at/events/rest/calendar/personal?locale=en&token={TOKEN_TEXT}")
    );
}

#[test]
fn components_link_extends_existing_query() {
    let c = TissConfig::Components {
        endpoint: "https://example.org/feed?x=1".to_string(),
        locale: Locale::de,
        token: TOKEN,
    };
    assert_eq!(c.link().unwrap(), format!("https://example.org/feed?x=1&locale=de&token={TOKEN_TEXT}"));
}

#[test]
fn components_link_is_stable() {
    let c = components(Locale::de);
    assert_eq!(c.link().unwrap(), c.link().unwrap());
}

#[test]
fn components_link_with_bad_endpoint_fails() {
    let c = TissConfig::Components { endpoint: "not a url".to_string(), locale: Locale::de, token: TOKEN };
    assert_eq!(c.link(), Err(ConfigError::InvalidField(ConfigField::Endpoint)));
}

#[test]
fn link_is_returned_unchanged() {
    let text = "https://example.org/cal?locale=en&token=abc";
    assert_eq!(TissConfig::Link(text.to_string()).link().unwrap(), text);
}

#[test]
fn link_locale_from_query() {
    let c = TissConfig::Link("https://example.org/cal?token=abc&locale=en&x=y".to_string());
    assert_eq!(c.locale(), Ok(Locale::en));
    let c = TissConfig::Link("https://example.org/cal?locale=de".to_string());
    assert_eq!(c.locale(), Ok(Locale::de));
}

#[test]
fn link_locale_first_parameter_wins() {
    let c = TissConfig::Link("https://example.org/cal?locale=en&locale=de".to_string());
    assert_eq!(c.locale(), Ok(Locale::en));
}

#[test]
fn link_without_locale_fails() {
    let c = TissConfig::Link("https://example.org/cal?token=abc".to_string());
    assert_eq!(c.locale(), Err(ConfigError::MissingLocaleParameter));
    let c = TissConfig::Link("https://example.org/cal".to_string());
    assert_eq!(c.locale(), Err(ConfigError::MissingLocaleParameter));
}

#[test]
fn link_with_unknown_locale_fails() {
    let c = TissConfig::Link("https://example.org/cal?locale=fr".to_string());
    assert_eq!(c.locale(), Err(ConfigError::UnrecognizedLocale));
}

#[test]
fn link_that_is_no_url_fails() {
    let c = TissConfig::Link("no url at all".to_string());
    assert_eq!(c.locale(), Err(ConfigError::InvalidField(ConfigField::Link)));
}

fn table(endpoint: Option<&str>, locale: Option<&str>, token: Option<&str>) -> RawTiss {
    RawTiss::Table {
        endpoint: endpoint.map(String::from),
        locale: locale.map(String::from),
        token: token.map(String::from),
    }
}

#[test]
fn raw_table_reads_components_with_default_endpoint() {
    let c = TissConfig::from_raw(&table(None, Some("en"), Some(TOKEN_TEXT))).unwrap();
    assert_eq!(c, components(Locale::en));
}

#[test]
fn raw_table_reads_given_endpoint() {
    let c = TissConfig::from_raw(&table(Some("https://example.org/feed"), Some("de"), Some(TOKEN_TEXT)))
        .unwrap();
    assert_eq!(
        c,
        TissConfig::Components { endpoint: "https://example.org/feed".to_string(), locale: Locale::de, token: TOKEN }
    );
}

#[test]
fn raw_table_missing_token_names_field() {
    let r = TissConfig::from_raw(&table(None, Some("en"), None));
    assert_eq!(r, Err(ConfigError::MissingField(ConfigField::Token)));
}

#[test]
fn raw_table_missing_locale_names_field() {
    let r = TissConfig::from_raw(&table(None, None, Some(TOKEN_TEXT)));
    assert_eq!(r, Err(ConfigError::MissingField(ConfigField::Locale)));
}

#[test]
fn raw_table_bad_values_name_field() {
    assert_eq!(
        TissConfig::from_raw(&table(None, Some("fr"), Some(TOKEN_TEXT))),
        Err(ConfigError::InvalidField(ConfigField::Locale))
    );
    assert_eq!(
        TissConfig::from_raw(&table(None, Some("en"), Some("not-a-uuid"))),
        Err(ConfigError::InvalidField(ConfigField::Token))
    );
    assert_eq!(
        TissConfig::from_raw(&table(Some("::"), Some("en"), Some(TOKEN_TEXT))),
        Err(ConfigError::InvalidField(ConfigField::Endpoint))
    );
}

#[test]
fn raw_text_reads_link() {
    let c = TissConfig::from_raw(&RawTiss::Text("https://example.org/cal?locale=en".to_string())).unwrap();
    assert_eq!(c, TissConfig::Link("https://example.org/cal?locale=en".to_string()));
    assert_eq!(c.locale(), Ok(Locale::en));
    assert_eq!(
        TissConfig::from_raw(&RawTiss::Text("nonsense".to_string())),
        Err(ConfigError::InvalidField(ConfigField::Link))
    );
}

#[test]
fn raw_text_is_normalised() {
    let c = TissConfig::from_raw(&RawTiss::Text("HTTPS://Example.org".to_string())).unwrap();
    assert_eq!(c, TissConfig::Link("https://example.org/".to_string()));
}

#[test]
fn assembled_link_resolves_to_same_locale() {
    for locale in [Locale::de, Locale::en] {
        let c = components(locale);
        let link = TissConfig::Link(c.link().unwrap());
        assert_eq!(link.locale(), c.locale());
    }
}

#[test]
fn link_key_must_match_exactly() {
    let c = TissConfig::Link("https://example.org/cal?Locale=en&xlocale=de".to_string());
    assert_eq!(c.locale(), Err(ConfigError::MissingLocaleParameter));
}
