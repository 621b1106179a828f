use vstd::prelude::*;

verus! {

/// The language of the calendar feed.
#[allow(non_camel_case_types)]
#[derive(Debug, Clone, Copy, PartialEq, Eq, Structural)]
pub enum Locale {
    /// German
    de,
    /// English
    en,
}

/// The two-letter code of a locale.
pub open spec fn locale_code(l: Locale) -> Seq<char> {
    match l {
        Locale::de => "de"@,
        Locale::en => "en"@,
    }
}

/// The locale whose code is `s`, if any.
pub open spec fn locale_of(s: Seq<char>) -> Option<Locale> {
    if s == "de"@ {
        Some(Locale::de)
    } else if s == "en"@ {
        Some(Locale::en)
    } else {
        None
    }
}

/// A text that names no locale.
#[derive(Debug, Clone, PartialEq, Eq)]
pub struct LocaleParseError {
    pub text: String,
}

impl Locale {
    /// The locale's two-letter code.
    pub fn as_str(&self) -> (r: &'static str)
        ensures
            r@ == locale_code(*self),
    {
        match self {
            Locale::de => "de",
            Locale::en => "en",
        }
    }

    /// The locale's two-letter code, owned.
    pub fn to_string(&self) -> (r: String)
        ensures
            r@ == locale_code(*self),
    {
        self.as_str().to_owned()
    }

    /// Reads a locale from its two-letter code; any other text is an error.
    pub fn from_str(s: &str) -> (r: Result<Locale, LocaleParseError>)
        ensures
            match r {
                Ok(l) => locale_of(s@) == Some(l),
                Err(e) => locale_of(s@) is None && e.text@ == s@,
            },
    {
        proof {
            reveal_strlit("de");
            reveal_strlit("en");
        }
        let text = s.to_owned();
        if text == "de".to_owned() {
            Ok(Locale::de)
        } else if text == "en".to_owned() {
            Ok(Locale::en)
        } else {
            Err(LocaleParseError { text })
        }
    }
}

/// Reading the code of a locale gives the locale back.
pub proof fn lemma_locale_code_round_trip(l: Locale)
    ensures
        locale_of(locale_code(l)) == Some(l),
{
    reveal_strlit("de");
    reveal_strlit("en");
    assert("de"@[0] != "en"@[0]);
}

} // verus!
