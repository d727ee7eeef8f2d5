use vstd::prelude::*;
use crate::catalog::{catalog_of, find_catalog, message_of, Catalog};
use crate::locale::{
    default_locale, lemma_tag_round_trip, locale_of_tag, resolve_locale, resolved_locale, tag_of,
    AvailableLocales,
};
use crate::message::{
    arg_text, formatted, lemma_missing_argument_fails, Arg, FormatError, Message, Segment,
};

verus! {

/// Why a translator could not be built.
#[derive(Clone, Copy, Debug, PartialEq, Eq, Structural)]
pub enum ConstructionError {
    /// No catalog is given for this locale.
    MissingCatalog(AvailableLocales),
}

/// Why a translator could not produce a message.
#[derive(Debug)]
pub enum TranslateError {
    /// Neither the translator's catalog nor the default one has the key.
    UnknownKey(String),
    /// The message has a placeholder of this name and no such argument is given.
    MissingArgument(String),
}

/// What a translation failure says, as values.
pub enum Failure {
    UnknownKey(Seq<char>),
    MissingArgument(Seq<char>),
}

impl View for TranslateError {
    type V = Failure;

    open spec fn view(&self) -> Failure {
        match self {
            TranslateError::UnknownKey(k) => Failure::UnknownKey(k@),
            TranslateError::MissingArgument(n) => Failure::MissingArgument(n@),
        }
    }
}

/// The single error that a translation request reports, with a readable cause.
#[derive(Debug)]
pub struct RuntimeFailure {
    pub message: String,
}

/// The description of a construction failure.
pub open spec fn construction_text(e: ConstructionError) -> Seq<char> {
    match e {
        ConstructionError::MissingCatalog(l) => "no catalog for locale "@ + tag_of(l),
    }
}

/// The description of a translation failure.
pub open spec fn failure_text(f: Failure) -> Seq<char> {
    match f {
        Failure::UnknownKey(k) => "unknown message key: "@ + k,
        Failure::MissingArgument(n) => "missing argument: "@ + n,
    }
}

/// Why a translator for locale `l` cannot be built from `cs`, if it cannot:
/// a catalog is needed for `l` and for the default locale.
pub open spec fn construction_failure(cs: Seq<Catalog>, l: AvailableLocales) -> Option<ConstructionError> {
    if catalog_of(cs, l) is None {
        Some(ConstructionError::MissingCatalog(l))
    } else if catalog_of(cs, default_locale()) is None {
        Some(ConstructionError::MissingCatalog(default_locale()))
    } else {
        None
    }
}

/// The message used for `key`: the one of `primary`, else the one of `fallback`.
pub open spec fn chosen_message(primary: Catalog, fallback: Catalog, key: Seq<char>) -> Option<Message> {
    match message_of(primary, key) {
        Some(m) => Some(m),
        None => message_of(fallback, key),
    }
}

/// The translation of `key` with `args`, from `primary` with `fallback` behind it.
pub open spec fn translation(primary: Catalog, fallback: Catalog, key: Seq<char>, args: Seq<Arg>) -> Result<Seq<char>, Failure> {
    match chosen_message(primary, fallback, key) {
        None => Err(Failure::UnknownKey(key)),
        Some(m) => match formatted(m, args) {
            Ok(t) => Ok(t),
            Err(n) => Err(Failure::MissingArgument(n)),
        },
    }
}

/// What a request to translate `key` for locale tag `tag` with `args` gives:
/// the formatted text, or the message of the failure reported.
pub open spec fn translate_outcome(cs: Seq<Catalog>, tag: Seq<char>, key: Seq<char>, args: Seq<Arg>) -> Result<Seq<char>, Seq<char>> {
    let l = resolved_locale(tag);
    match construction_failure(cs, l) {
        Some(e) => Err("Failed to create translator: "@ + construction_text(e)),
        None => match translation(catalog_of(cs, l).unwrap(), catalog_of(cs, default_locale()).unwrap(), key, args) {
            Ok(t) => Ok(t),
            Err(f) => Err("Failed to translate: "@ + failure_text(f)),
        },
    }
}

/// Whether `r` is what a request to translate `key` for `tag` with `args` gives.
pub open spec fn answers(r: Result<String, RuntimeFailure>, cs: Seq<Catalog>, tag: Seq<char>, key: Seq<char>, args: Seq<Arg>) -> bool {
    match r {
        Ok(t) => translate_outcome(cs, tag, key, args) == Ok::<Seq<char>, Seq<char>>(t@),
        Err(f) => translate_outcome(cs, tag, key, args) == Err::<Seq<char>, Seq<char>>(f.message@),
    }
}

/// What a request gives when `m` is the message used for its key.
pub open spec fn message_outcome(m: Message, args: Seq<Arg>) -> Result<Seq<char>, Seq<char>> {
    match formatted(m, args) {
        Ok(t) => Ok(t),
        Err(n) => Err("Failed to translate: "@ + ("missing argument: "@ + n)),
    }
}

/// Whether two answers to a request are the same: both the same text, or both
/// failures with the same message.
pub open spec fn same_answer(r1: Result<String, RuntimeFailure>, r2: Result<String, RuntimeFailure>) -> bool {
    match (r1, r2) {
        (Ok(a), Ok(b)) => a@ == b@,
        (Err(a), Err(b)) => a.message@ == b.message@,
        _ => false,
    }
}

/// A request for a tag that names no supported locale gets the same answer as
/// the same request for the default locale's tag: it is not an error.
pub proof fn lemma_unknown_tag_served_as_default(cs: Seq<Catalog>, tag: Seq<char>, key: Seq<char>, args: Seq<Arg>)
    requires
        locale_of_tag(tag) is None,
    ensures
        resolved_locale(tag) == default_locale(),
        translate_outcome(cs, tag, key, args) == translate_outcome(cs, tag_of(default_locale()), key, args),
{
    lemma_tag_round_trip(default_locale());
}

/// Translation is repeatable: any two answers to one request over the same
/// catalogs are the same.
pub proof fn lemma_translate_repeatable(
    r1: Result<String, RuntimeFailure>,
    r2: Result<String, RuntimeFailure>,
    cs: Seq<Catalog>,
    tag: Seq<char>,
    key: Seq<char>,
    args: Seq<Arg>,
)
    requires
        answers(r1, cs, tag, key, args),
        answers(r2, cs, tag, key, args),
    ensures
        same_answer(r1, r2),
{
}

/// Where a translator can be built, the key's message in the requested
/// locale's catalog is used; where that catalog lacks the key, the default
/// locale's message is used; where both lack it, the request fails.
pub proof fn lemma_key_fallback(cs: Seq<Catalog>, tag: Seq<char>, key: Seq<char>, args: Seq<Arg>)
    requires
        construction_failure(cs, resolved_locale(tag)) is None,
    ensures
        ({
            let primary = catalog_of(cs, resolved_locale(tag)).unwrap();
            let fallback = catalog_of(cs, default_locale()).unwrap();
            &&& message_of(primary, key) matches Some(m) ==> translate_outcome(cs, tag, key, args)
                == message_outcome(m, args)
            &&& message_of(primary, key) is None ==> (message_of(fallback, key) matches Some(m)
                ==> translate_outcome(cs, tag, key, args) == message_outcome(m, args))
            &&& (message_of(primary, key) is None && message_of(fallback, key) is None)
                ==> translate_outcome(cs, tag, key, args) == Err::<Seq<char>, Seq<char>>(
                "Failed to translate: "@ + ("unknown message key: "@ + key),
            )
        }),
{
}

/// A request whose message has a placeholder for which no argument is given
/// fails with a translation failure that names the missing argument.
pub proof fn lemma_missing_argument_reported(
    cs: Seq<Catalog>,
    tag: Seq<char>,
    key: Seq<char>,
    args: Seq<Arg>,
    m: Message,
    i: int,
)
    requires
        construction_failure(cs, resolved_locale(tag)) is None,
        chosen_message(
            catalog_of(cs, resolved_locale(tag)).unwrap(),
            catalog_of(cs, default_locale()).unwrap(),
            key,
        ) == Some(m),
        0 <= i < m.segments@.len(),
        m.segments@[i] matches Segment::Var(name) && arg_text(args, name@) is None,
    ensures
        formatted(m, args) matches Err(n) && translate_outcome(cs, tag, key, args)
            == Err::<Seq<char>, Seq<char>>("Failed to translate: "@ + ("missing argument: "@ + n)),
{
    lemma_missing_argument_fails(m, args, i);
}

impl ConstructionError {
    /// A readable description of this failure.
    pub fn describe(&self) -> (r: String)
        ensures
            r@ == construction_text(*self),
    {
        match self {
            ConstructionError::MissingCatalog(l) => {
                let mut r = "no catalog for locale ".to_owned();
                r.append(l.tag());
                r
            },
        }
    }
}

impl TranslateError {
    /// A readable description of this failure.
    pub fn describe(&self) -> (r: String)
        ensures
            r@ == failure_text(self@),
    {
        match self {
            TranslateError::UnknownKey(k) => {
                let mut r = "unknown message key: ".to_owned();
                r.append(k.as_str());
                r
            },
            TranslateError::MissingArgument(n) => {
                let mut r = "missing argument: ".to_owned();
                r.append(n.as_str());
                r
            },
        }
    }
}

/// Formats messages of one locale, taking those it lacks from the default locale.
pub struct Translator<'a> {
    pub locale: AvailableLocales,
    pub catalog: &'a Catalog,
    pub fallback: &'a Catalog,
}

impl<'a> Translator<'a> {
    /// A translator for `locale` over the catalogs `cs`. Fails when `cs` holds
    /// no catalog for `locale`, or none for the default locale.
    pub fn new(locale: AvailableLocales, cs: &'a Vec<Catalog>) -> (r: Result<Translator<'a>, ConstructionError>)
        ensures
            r is Ok <==> construction_failure(cs@, locale) is None,
            r matches Ok(t) ==> t.locale == locale && catalog_of(cs@, locale) == Some(*t.catalog)
                && catalog_of(cs@, default_locale()) == Some(*t.fallback),
            r matches Err(e) ==> construction_failure(cs@, locale) == Some(e),
    {
        match find_catalog(cs, locale) {
            None => Err(ConstructionError::MissingCatalog(locale)),
            Some(p) => match find_catalog(cs, AvailableLocales::AmericanEnglish) {
                None => Err(ConstructionError::MissingCatalog(AvailableLocales::AmericanEnglish)),
                Some(q) => Ok(Translator { locale, catalog: &cs[p], fallback: &cs[q] }),
            },
        }
    }

    /// The message keyed `key`, formatted with `args`. The message is taken
    /// from this translator's catalog, else from the default locale's.
    pub fn translate(&self, key: &str, args: &Vec<Arg>) -> (r: Result<String, TranslateError>)
        ensures
            r matches Ok(t) ==> translation(*self.catalog, *self.fallback, key@, args@) == Ok::<Seq<char>, Failure>(t@),
            r matches Err(e) ==> translation(*self.catalog, *self.fallback, key@, args@) == Err::<Seq<char>, Failure>(e@),
    {
        let k: String = key.to_owned();
        let catalog: &Catalog = match self.catalog.find(&k) {
            Some(_) => self.catalog,
            None => self.fallback,
        };
        match catalog.find(&k) {
            None => Err(TranslateError::UnknownKey(k)),
            Some(p) => match catalog.entries[p].message.format(args) {
                Ok(t) => Ok(t),
                Err(FormatError::MissingArgument(n)) => Err(TranslateError::MissingArgument(n)),
            },
        }
    }
}

/// Translates `key` for the locale tagged `locale` with `args`, over the
/// catalogs `cs`. An unknown tag is served in the default locale. A translator
/// that cannot be built, an unknown key and a missing argument are all
/// reported as a `RuntimeFailure` whose message gives the cause.
pub fn translate(cs: &Vec<Catalog>, locale: &str, key: &str, args: &Vec<Arg>) -> (r: Result<String, RuntimeFailure>)
    ensures
        answers(r, cs@, locale@, key@, args@),
{
    let l = resolve_locale(locale);
    let translator = match Translator::new(l, cs) {
        Ok(t) => t,
        Err(e) => {
            let mut message = "Failed to create translator: ".to_owned();
            let cause = e.describe();
            message.append(cause.as_str());
            return Err(RuntimeFailure { message });
        },
    };
    match translator.translate(key, args) {
        Ok(t) => Ok(t),
        Err(e) => {
            let mut message = "Failed to translate: ".to_owned();
            let cause = e.describe();
            message.append(cause.as_str());
            Err(RuntimeFailure { message })
        },
    }
}

} // verus!
