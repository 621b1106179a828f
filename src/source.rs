use vstd::prelude::*;
use crate::locale::{Locale, locale_code, locale_of};

verus! {

/// The feed endpoint used when the configuration names none.
pub const DEFAULT_ENDPOINT: &'static str = "https://tiss.tuwien.ac.at/events/rest/calendar/personal";

/// What `url::Url::parse` followed by serialisation gives for a text, or `None`
/// where the text is no URL.
pub uninterp spec fn url_parse(s: Seq<char>) -> Option<Seq<char>>;

/// The serialisation of a URL after one query pair is appended, or `None` where
/// the text is no URL.
pub uninterp spec fn url_with_pair(url: Seq<char>, key: Seq<char>, value: Seq<char>) -> Option<Seq<char>>;

/// The decoded query pairs of a URL, in order, or `None` where the text is no URL.
pub uninterp spec fn url_query_pairs(url: Seq<char>) -> Option<Seq<(Seq<char>, Seq<char>)>>;

/// The 128-bit value of a UUID written in any form that `uuid::Uuid::parse_str`
/// takes, or `None`.
pub uninterp spec fn uuid_parse(s: Seq<char>) -> Option<u128>;

pub open spec fn string_opt_view(o: Option<String>) -> Option<Seq<char>> {
    match o {
        Some(s) => Some(s@),
        None => None,
    }
}

pub open spec fn pairs_view(s: Seq<(String, String)>) -> Seq<(Seq<char>, Seq<char>)> {
    s.map_values(|p: (String, String)| (p.0@, p.1@))
}

/// Lower-case hexadecimal digit of a value below 16.
pub open spec fn hex_char(d: nat) -> char {
    "0123456789abcdef"@[d as int]
}

/// The last `n` hexadecimal digits of `v`, most significant first.
pub open spec fn hex_digits(v: nat, n: nat) -> Seq<char>
    decreases n,
{
    if n == 0 {
        Seq::empty()
    } else {
        hex_digits(v / 16, (n - 1) as nat).push(hex_char(v % 16))
    }
}

/// The hyphenated lower-case form of a UUID: 32 hex digits grouped 8-4-4-4-12.
pub open spec fn token_text(t: u128) -> Seq<char> {
    let h = hex_digits(t as nat, 32);
    h.subrange(0, 8) + "-"@ + h.subrange(8, 12) + "-"@ + h.subrange(12, 16) + "-"@
        + h.subrange(16, 20) + "-"@ + h.subrange(20, 32)
}

/// Relies on `url::Url::parse` and the `From<Url> for String` conversion: the
/// normalised text of a URL.
#[verifier::external_body]
fn parse_url(s: &str) -> (r: Option<String>)
    ensures
        string_opt_view(r) == url_parse(s@),
{
    url::Url::parse(s).ok().map(String::from)
}

/// Relies on `url::Url::parse` and `url::Url::query_pairs_mut().append_pair`:
/// the URL with `key=value` appended to its query. It succeeds whenever the URL
/// parses; the result is a URL again, and its decoded pairs are the old ones
/// followed by `(key, value)`.
#[verifier::external_body]
fn append_query_pair(url: &str, key: &str, value: &str) -> (r: Option<String>)
    ensures
        string_opt_view(r) == url_with_pair(url@, key@, value@),
        url_parse(url@) is Some ==> r is Some,
        r matches Some(s) ==> {
            &&& url_parse(s@) is Some
            &&& url_query_pairs(url@) is Some
            &&& url_query_pairs(s@) == Some(url_query_pairs(url@)->0.push((key@, value@)))
        },
{
    let mut parsed = url::Url::parse(url).ok()?;
    parsed.query_pairs_mut().append_pair(key, value);
    Some(String::from(parsed))
}

/// Relies on `url::Url::parse` and `url::Url::query_pairs`: the decoded query
/// pairs of a URL, in order.
#[verifier::external_body]
fn query_pairs(url: &str) -> (r: Option<Vec<(String, String)>>)
    ensures
        match r {
            Some(v) => url_query_pairs(url@) == Some(pairs_view(v@)),
            None => url_query_pairs(url@) is None,
        },
{
    let parsed = url::Url::parse(url).ok()?;
    Some(parsed.query_pairs().map(|(k, v)| (k.into_owned(), v.into_owned())).collect())
}

/// Relies on `uuid::Uuid::parse_str` and `uuid::Uuid::as_u128`: the value of a
/// UUID text.
#[verifier::external_body]
fn parse_token(s: &str) -> (r: Option<u128>)
    ensures
        r == uuid_parse(s@),
{
    uuid::Uuid::parse_str(s).ok().map(|u| u.as_u128())
}

/// Relies on `uuid::Uuid::from_u128` (big-endian bytes) and its hyphenated,
/// lower-case `Display` form.
#[verifier::external_body]
fn token_to_string(t: u128) -> (r: String)
    ensures
        r@ == token_text(t),
{
    uuid::Uuid::from_u128(t).hyphenated().to_string()
}

/// A field of the calendar-source configuration.
#[derive(Debug, Clone, Copy, PartialEq, Eq, Structural)]
pub enum ConfigField {
    Endpoint,
    Locale,
    Token,
    Link,
}

/// Why a calendar source could not be read or resolved.
#[derive(Debug, Clone, Copy, PartialEq, Eq, Structural)]
pub enum ConfigError {
    /// A required field is absent.
    MissingField(ConfigField),
    /// A field holds a value of the wrong form.
    InvalidField(ConfigField),
    /// The link has no `locale` query parameter.
    MissingLocaleParameter,
    /// The link's `locale` query parameter names no known locale.
    UnrecognizedLocale,
}

/// Where the personal calendar is fetched from.
#[derive(Debug, Clone, PartialEq, Eq)]
pub enum TissConfig {
    /// A feed endpoint, a locale and an access token, to be assembled into a link.
    Components {
        /// The normalised text of the endpoint URL.
        endpoint: String,
        locale: Locale,
        /// The token's 128-bit UUID value.
        token: u128,
    },
    /// A complete feed link that carries its own `locale` query parameter.
    Link(String),
}

/// The mathematical value of a `TissConfig`.
pub enum SourceView {
    Components { endpoint: Seq<char>, locale: Locale, token: u128 },
    Link(Seq<char>),
}

impl View for TissConfig {
    type V = SourceView;

    open spec fn view(&self) -> SourceView {
        match self {
            TissConfig::Components { endpoint, locale, token } => SourceView::Components {
                endpoint: endpoint@,
                locale: *locale,
                token: *token,
            },
            TissConfig::Link(link) => SourceView::Link(link@),
        }
    }
}

/// The fetch URL that a source resolves to.
pub open spec fn resolved_url(c: SourceView) -> Option<Seq<char>> {
    match c {
        SourceView::Link(link) => Some(link),
        SourceView::Components { endpoint, locale, token } => match url_with_pair(
            endpoint,
            "locale"@,
            locale_code(locale),
        ) {
            Some(with_locale) => url_with_pair(with_locale, "token"@, token_text(token)),
            None => None,
        },
    }
}

/// The query pairs of the link that a components source assembles: the
/// endpoint's own, then `locale`, then `token`.
pub open spec fn assembled_pairs(c: SourceView) -> Option<Seq<(Seq<char>, Seq<char>)>> {
    match c {
        SourceView::Components { endpoint, locale, token } => match url_query_pairs(endpoint) {
            Some(p) => Some(p + seq![("locale"@, locale_code(locale)), ("token"@, token_text(token))]),
            None => None,
        },
        SourceView::Link(_) => None,
    }
}

/// The value of the first pair at index `i` or later whose key is `key`.
pub open spec fn first_value_from(pairs: Seq<(Seq<char>, Seq<char>)>, key: Seq<char>, i: int) -> Option<Seq<char>>
    decreases pairs.len() - i,
{
    if i < 0 || i >= pairs.len() {
        None
    } else if pairs[i].0 == key {
        Some(pairs[i].1)
    } else {
        first_value_from(pairs, key, i + 1)
    }
}

/// The locale that a source resolves to.
pub open spec fn resolved_locale(c: SourceView) -> Result<Locale, ConfigError> {
    match c {
        SourceView::Components { locale, .. } => Ok(locale),
        SourceView::Link(link) => match url_query_pairs(link) {
            None => Err(ConfigError::InvalidField(ConfigField::Link)),
            Some(pairs) => match first_value_from(pairs, "locale"@, 0) {
                None => Err(ConfigError::MissingLocaleParameter),
                Some(v) => match locale_of(v) {
                    Some(l) => Ok(l),
                    None => Err(ConfigError::UnrecognizedLocale),
                },
            },
        },
    }
}

impl TissConfig {
    /// The URL to fetch the calendar from: the link itself, or the endpoint with
    /// `locale` and then `token` appended as query parameters.
    pub fn link(&self) -> (r: Result<String, ConfigError>)
        ensures
            self@ matches SourceView::Components { endpoint, .. } && url_parse(endpoint) is Some
                ==> r is Ok,
            self@ is Components && r is Ok ==> assembled_pairs(self@) is Some && url_query_pairs(
                r->Ok_0@,
            ) == assembled_pairs(self@),
            match r {
                Ok(u) => resolved_url(self@) == Some(u@),
                Err(e) => resolved_url(self@) is None && e == ConfigError::InvalidField(
                    ConfigField::Endpoint,
                ),
            },
    {
        match self {
            TissConfig::Link(link) => Ok(link.clone()),
            TissConfig::Components { endpoint, locale, token } => {
                let token_str = token_to_string(*token);
                match append_query_pair(endpoint.as_str(), "locale", locale.as_str()) {
                    Some(with_locale) => match append_query_pair(
                        with_locale.as_str(),
                        "token",
                        token_str.as_str(),
                    ) {
                        Some(full) => {
                            proof {
                                let p = url_query_pairs(endpoint@)->0;
                                assert(url_query_pairs(with_locale@) == Some(
                                    p.push(("locale"@, locale_code(*locale))),
                                ));
                                assert(url_query_pairs(full@) == Some(
                                    p.push(("locale"@, locale_code(*locale))).push(
                                        ("token"@, token_text(*token)),
                                    ),
                                ));
                                assert(p.push(("locale"@, locale_code(*locale))).push(
                                    ("token"@, token_text(*token)),
                                ) =~= p + seq![
                                    ("locale"@, locale_code(*locale)),
                                    ("token"@, token_text(*token)),
                                ]);
                            }
                            Ok(full)
                        },
                        None => Err(ConfigError::InvalidField(ConfigField::Endpoint)),
                    },
                    None => Err(ConfigError::InvalidField(ConfigField::Endpoint)),
                }
            },
        }
    }

    /// The locale of the calendar: the stored one, or the value of the link's
    /// first `locale` query parameter.
    pub fn locale(&self) -> (r: Result<Locale, ConfigError>)
        ensures
            r == resolved_locale(self@),
    {
        match self {
            TissConfig::Components { locale, .. } => Ok(*locale),
            TissConfig::Link(link) => {
                let pairs = match query_pairs(link.as_str()) {
                    Some(p) => p,
                    None => return Err(ConfigError::InvalidField(ConfigField::Link)),
                };
                let key = "locale".to_owned();
                let ghost pv = pairs_view(pairs@);
                let mut i: usize = 0;
                while i < pairs.len()
                    invariant
                        i <= pairs.len(),
                        pv == pairs_view(pairs@),
                        key@ == "locale"@,
                        self@ == SourceView::Link(link@),
                        url_query_pairs(link@) == Some(pv),
                        first_value_from(pv, "locale"@, 0) == first_value_from(pv, "locale"@, i as int),
                    decreases pairs.len() - i,
                {
                    assert(pv[i as int] == (pairs@[i as int].0@, pairs@[i as int].1@));
                    if pairs[i].0 == key {
                        return match Locale::from_str(pairs[i].1.as_str()) {
                            Ok(l) => Ok(l),
                            Err(_) => Err(ConfigError::UnrecognizedLocale),
                        };
                    }
                    i = i + 1;
                }
                Err(ConfigError::MissingLocaleParameter)
            },
        }
    }
}

/// The calendar source as the configuration writes it, before it is checked:
/// either a table of fields or a bare link text.
#[derive(Debug, Clone, PartialEq, Eq)]
pub enum RawTiss {
    Table { endpoint: Option<String>, locale: Option<String>, token: Option<String> },
    Text(String),
}

/// What reading a raw calendar source gives.
pub open spec fn parse_source(raw: RawTiss) -> Result<SourceView, ConfigError> {
    match raw {
        RawTiss::Table { endpoint, locale, token } => {
            if locale is None {
                Err(ConfigError::MissingField(ConfigField::Locale))
            } else if token is None {
                Err(ConfigError::MissingField(ConfigField::Token))
            } else {
                let endpoint_text = match endpoint {
                    Some(e) => url_parse(e@),
                    None => Some(DEFAULT_ENDPOINT@),
                };
                if endpoint_text is None {
                    Err(ConfigError::InvalidField(ConfigField::Endpoint))
                } else if locale_of(locale->0@) is None {
                    Err(ConfigError::InvalidField(ConfigField::Locale))
                } else if uuid_parse(token->0@) is None {
                    Err(ConfigError::InvalidField(ConfigField::Token))
                } else {
                    Ok(
                        SourceView::Components {
                            endpoint: endpoint_text->0,
                            locale: locale_of(locale->0@)->0,
                            token: uuid_parse(token->0@)->0,
                        },
                    )
                }
            }
        },
        RawTiss::Text(text) => match url_parse(text@) {
            Some(link) => Ok(SourceView::Link(link)),
            None => Err(ConfigError::InvalidField(ConfigField::Link)),
        },
    }
}

impl TissConfig {
    /// Reads a calendar source: a table with `locale` and `token` (and an
    /// optional `endpoint`) gives the components form, a bare URL text the link
    /// form. Each failure names the field at fault.
    pub fn from_raw(raw: &RawTiss) -> (r: Result<TissConfig, ConfigError>)
        ensures
            match r {
                Ok(c) => parse_source(*raw) == Ok::<SourceView, ConfigError>(c@),
                Err(e) => parse_source(*raw) == Err::<SourceView, ConfigError>(e),
            },
    {
        match raw {
            RawTiss::Table { endpoint, locale, token } => {
                let locale_text = match locale {
                    Some(l) => l,
                    None => return Err(ConfigError::MissingField(ConfigField::Locale)),
                };
                let token_text = match token {
                    Some(t) => t,
                    None => return Err(ConfigError::MissingField(ConfigField::Token)),
                };
                let endpoint_text = match endpoint {
                    Some(e) => parse_url(e.as_str()),
                    None => Some(DEFAULT_ENDPOINT.to_owned()),
                };
                let endpoint_text = match endpoint_text {
                    Some(e) => e,
                    None => return Err(ConfigError::InvalidField(ConfigField::Endpoint)),
                };
                let locale = match Locale::from_str(locale_text.as_str()) {
                    Ok(l) => l,
                    Err(_) => return Err(ConfigError::InvalidField(ConfigField::Locale)),
                };
                let token = match parse_token(token_text.as_str()) {
                    Some(t) => t,
                    None => return Err(ConfigError::InvalidField(ConfigField::Token)),
                };
                Ok(TissConfig::Components { endpoint: endpoint_text, locale, token })
            },
            RawTiss::Text(text) => match parse_url(text.as_str()) {
                Some(link) => Ok(TissConfig::Link(link)),
                None => Err(ConfigError::InvalidField(ConfigField::Link)),
            },
        }
    }
}

/// A components source resolves to its own locale, and to its endpoint with the
/// `locale` pair appended first and the `token` pair after it.
pub proof fn lemma_components_resolution(endpoint: Seq<char>, locale: Locale, token: u128)
    ensures
        resolved_locale(SourceView::Components { endpoint, locale, token }) == Ok::<Locale, ConfigError>(locale),
        resolved_url(SourceView::Components { endpoint, locale, token }) == match url_with_pair(
            endpoint,
            "locale"@,
            locale_code(locale),
        ) {
            Some(with_locale) => url_with_pair(with_locale, "token"@, token_text(token)),
            None => None,
        },
{
}

/// The first pair with the key, found by walking from `i`.
proof fn lemma_first_value_found(pairs: Seq<(Seq<char>, Seq<char>)>, key: Seq<char>, i: int, k: int)
    requires
        0 <= i <= k < pairs.len(),
        pairs[k].0 == key,
        forall|j: int| i <= j < k ==> pairs[j].0 != key,
    ensures
        first_value_from(pairs, key, i) == Some(pairs[k].1),
    decreases k - i,
{
    if i < k {
        lemma_first_value_found(pairs, key, i + 1, k);
    }
}

/// No pair from `i` on has the key.
proof fn lemma_first_value_absent(pairs: Seq<(Seq<char>, Seq<char>)>, key: Seq<char>, i: int)
    requires
        0 <= i,
        forall|j: int| i <= j < pairs.len() ==> pairs[j].0 != key,
    ensures
        first_value_from(pairs, key, i) is None,
    decreases pairs.len() - i,
{
    if i < pairs.len() {
        lemma_first_value_absent(pairs, key, i + 1);
    }
}

/// Where no value is found from `i` on, no pair from `i` on has the key.
proof fn lemma_first_value_none(pairs: Seq<(Seq<char>, Seq<char>)>, key: Seq<char>, i: int)
    requires
        0 <= i,
        first_value_from(pairs, key, i) is None,
    ensures
        forall|j: int| i <= j < pairs.len() ==> pairs[j].0 != key,
    decreases pairs.len() - i,
{
    if i < pairs.len() {
        lemma_first_value_none(pairs, key, i + 1);
    }
}

/// A link whose first `locale` query parameter is `en` resolves to English; a
/// link fails with `MissingLocaleParameter` exactly when none of its query
/// pairs has the key `locale`.
pub proof fn lemma_link_locale(link: Seq<char>, pairs: Seq<(Seq<char>, Seq<char>)>, k: int)
    requires
        url_query_pairs(link) == Some(pairs),
    ensures
        (0 <= k < pairs.len() && pairs[k] == ("locale"@, "en"@) && forall|j: int|
            0 <= j < k ==> pairs[j].0 != "locale"@) ==> resolved_locale(SourceView::Link(link))
            == Ok::<Locale, ConfigError>(Locale::en),
        (forall|j: int| 0 <= j < pairs.len() ==> pairs[j].0 != "locale"@) <==> resolved_locale(
            SourceView::Link(link),
        ) == Err::<Locale, ConfigError>(ConfigError::MissingLocaleParameter),
{
    if first_value_from(pairs, "locale"@, 0) is None {
        lemma_first_value_none(pairs, "locale"@, 0);
    }
    if 0 <= k < pairs.len() && pairs[k] == ("locale"@, "en"@) && forall|j: int|
        0 <= j < k ==> pairs[j].0 != "locale"@ {
        lemma_first_value_found(pairs, "locale"@, 0, k);
        reveal_strlit("de");
        reveal_strlit("en");
        assert("en"@[0] != "de"@[0]);
    }
    if forall|j: int| 0 <= j < pairs.len() ==> pairs[j].0 != "locale"@ {
        lemma_first_value_absent(pairs, "locale"@, 0);
    }
}

/// A components source and the link it assembles mean the same locale: where
/// the endpoint's own query has no `locale` pair, the link resolves to the
/// locale that the components resolve to.
pub proof fn lemma_assembled_link_locale(c: SourceView, link: Seq<char>)
    requires
        c is Components,
        assembled_pairs(c) is Some,
        url_query_pairs(link) == assembled_pairs(c),
        forall|j: int|
            0 <= j < url_query_pairs(c->endpoint)->0.len() ==> (#[trigger] url_query_pairs(
                c->endpoint,
            )->0[j]).0 != "locale"@,
    ensures
        resolved_locale(SourceView::Link(link)) == resolved_locale(c),
{
    let endpoint_pairs = url_query_pairs(c->endpoint)->0;
    let pairs = assembled_pairs(c)->0;
    let k = endpoint_pairs.len() as int;
    assert(pairs[k] == ("locale"@, locale_code(c->locale)));
    assert forall|j: int| 0 <= j < k implies pairs[j].0 != "locale"@ by {
        assert(pairs[j] == endpoint_pairs[j]);
    }
    lemma_first_value_found(pairs, "locale"@, 0, k);
    crate::locale::lemma_locale_code_round_trip(c->locale);
}

/// The resolved URL depends on the source alone: resolving one source twice
/// gives the same text.
pub proof fn lemma_resolved_url_stable(a: SourceView, b: SourceView)
    requires
        a == b,
    ensures
        resolved_url(a) == resolved_url(b),
{
}

} // verus!
