use vstd::prelude::*;

verus! {

/// The locales for which message catalogs exist.
#[derive(Clone, Copy, Debug, PartialEq, Eq, Structural)]
pub enum AvailableLocales {
    AmericanEnglish,
    EuropeanSpanish,
    French,
    Dutch,
}

/// The locale used whenever a requested tag is not recognized, and whose
/// catalog supplies messages missing from another locale's catalog.
pub open spec fn default_locale() -> AvailableLocales {
    AvailableLocales::AmericanEnglish
}

/// The tag that names each locale.
pub open spec fn tag_of(l: AvailableLocales) -> Seq<char> {
    match l {
        AvailableLocales::AmericanEnglish => "en-US"@,
        AvailableLocales::EuropeanSpanish => "es-ES"@,
        AvailableLocales::French => "fr"@,
        AvailableLocales::Dutch => "nl"@,
    }
}

/// The locale a tag names, if any: tags are matched exactly.
pub open spec fn locale_of_tag(s: Seq<char>) -> Option<AvailableLocales> {
    if s == tag_of(AvailableLocales::AmericanEnglish) {
        Some(AvailableLocales::AmericanEnglish)
    } else if s == tag_of(AvailableLocales::EuropeanSpanish) {
        Some(AvailableLocales::EuropeanSpanish)
    } else if s == tag_of(AvailableLocales::French) {
        Some(AvailableLocales::French)
    } else if s == tag_of(AvailableLocales::Dutch) {
        Some(AvailableLocales::Dutch)
    } else {
        None
    }
}

/// The locale a request for `s` is served in: the named one, else the default.
pub open spec fn resolved_locale(s: Seq<char>) -> AvailableLocales {
    match locale_of_tag(s) {
        Some(l) => l,
        None => default_locale(),
    }
}

impl AvailableLocales {
    /// The tag of this locale, such as `en-US`.
    pub fn tag(&self) -> (r: &'static str)
        ensures
            r@ == tag_of(*self),
    {
        match self {
            AvailableLocales::AmericanEnglish => "en-US",
            AvailableLocales::EuropeanSpanish => "es-ES",
            AvailableLocales::French => "fr",
            AvailableLocales::Dutch => "nl",
        }
    }

    /// Parses a locale tag; `None` when no supported locale has that tag.
    pub fn from_str(s: &str) -> (r: Option<AvailableLocales>)
        ensures
            r == locale_of_tag(s@),
    {
        let given: String = s.to_owned();
        if given == "en-US".to_owned() {
            Some(AvailableLocales::AmericanEnglish)
        } else if given == "es-ES".to_owned() {
            Some(AvailableLocales::EuropeanSpanish)
        } else if given == "fr".to_owned() {
            Some(AvailableLocales::French)
        } else if given == "nl".to_owned() {
            Some(AvailableLocales::Dutch)
        } else {
            None
        }
    }
}

/// The locale a request for tag `s` is served in: the one `s` names, or the
/// default locale when `s` names none. An unknown tag is not an error.
pub fn resolve_locale(s: &str) -> (r: AvailableLocales)
    ensures
        r == resolved_locale(s@),
        locale_of_tag(s@).is_none() ==> r == default_locale(),
{
    match AvailableLocales::from_str(s) {
        Some(l) => l,
        None => AvailableLocales::AmericanEnglish,
    }
}

/// Every supported locale is found again from its own tag.
pub proof fn lemma_tag_round_trip(l: AvailableLocales)
    ensures
        locale_of_tag(tag_of(l)) == Some(l),
        resolved_locale(tag_of(l)) == l,
{
    reveal_strlit("en-US");
    reveal_strlit("es-ES");
    reveal_strlit("fr");
    reveal_strlit("nl");
    assert("en-US"@[1] != "es-ES"@[1]);
    assert("en-US"@.len() != "fr"@.len());
    assert("en-US"@.len() != "nl"@.len());
    assert("es-ES"@.len() != "fr"@.len());
    assert("es-ES"@.len() != "nl"@.len());
    assert("fr"@[0] != "nl"@[0]);
}

/// A tag that names no supported locale is served in the default locale.
pub proof fn lemma_unknown_tag_falls_back(s: Seq<char>)
    requires
        locale_of_tag(s).is_none(),
    ensures
        resolved_locale(s) == default_locale(),
{
}

} // verus!
