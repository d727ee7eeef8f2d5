use charbot_rust::catalog::{find_catalog, Catalog, Entry};
use charbot_rust::locale::{resolve_locale, AvailableLocales};
use charbot_rust::message::{find_arg, Arg, ArgValue, FormatError, Message, Segment};
use charbot_rust::text::append_int;
use charbot_rust::translator::{translate, ConstructionError, TranslateError, Translator};

fn text(s: &str) -> Segment {
    Segment::Text(s.to_string())
}

fn var(s: &str) -> Segment {
    Segment::Var(s.to_string())
}

fn entry(key: &str, segments: Vec<Segment>) -> Entry {
    Entry { key: key.to_string(), message: Message { segments } }
}

fn arg(name: &str, value: ArgValue) -> Arg {
    Arg { name: name.to_string(), value }
}

fn catalogs() -> Vec<Catalog> {
    vec![
        Catalog {
            locale: AvailableLocales::AmericanEnglish,
            entries: vec![
                entry("greeting", vec![text("Hello, "), var("name"), text("!")]),
                entry("farewell", vec![text("Goodbye, "), var("name"), text(".")]),
                entry("count", vec![text("You have "), var("n"), text(" messages")]),
            ],
        },
        Catalog {
            locale: AvailableLocales::French,
            entries: vec![entry("greeting", vec![text("Bonjour, "), var("name"), text(" !")])],
        },
        Catalog {
            locale: AvailableLocales::EuropeanSpanish,
            entries: vec![entry("greeting", vec![text("Hola, "), var("name"), text("!")])],
        },
    ]
}

fn ava() -> Vec<Arg> {
    vec![arg("name", ArgValue::Text("Ava".to_string()))]
}

#[test]
fn resolves_every_supported_tag() {
    assert_eq!(AvailableLocales::from_str("en-US"), Some(AvailableLocales::AmericanEnglish));
    assert_eq!(AvailableLocales::from_str("es-ES"), Some(AvailableLocales::EuropeanSpanish));
    assert_eq!(AvailableLocales::from_str("fr"), Some(AvailableLocales::French));
    assert_eq!(AvailableLocales::from_str("nl"), Some(AvailableLocales::Dutch));
    for l in [
        AvailableLocales::AmericanEnglish,
        AvailableLocales::EuropeanSpanish,
        AvailableLocales::French,
        AvailableLocales::Dutch,
    ] {
        assert_eq!(AvailableLocales::from_str(l.tag()), Some(l));
        assert_eq!(resolve_locale(l.tag()), l);
    }
}

#[test]
fn unknown_tags_are_not_found_and_fall_back() {
    for tag in ["xx-ZZ", "", "EN-US", "en", "fr-FR", "en-US "] {
        assert_eq!(AvailableLocales::from_str(tag), None);
        assert_eq!(resolve_locale(tag), AvailableLocales::AmericanEnglish);
    }
}

#[test]
fn greeting_in_american_english() {
    let cs = catalogs();
    assert_eq!(translate(&cs, "en-US", "greeting", &ava()).unwrap(), "Hello, Ava!");
}

#[test]
fn unknown_locale_uses_american_english() {
    let cs = catalogs();
    let r = translate(&cs, "xx-ZZ", "greeting", &ava()).unwrap();
    assert_eq!(r, "Hello, Ava!");
    assert_eq!(r, translate(&cs, "en-US", "greeting", &ava()).unwrap());
}

#[test]
fn missing_key_everywhere_fails_to_translate() {
    let cs = catalogs();
    let e = translate(&cs, "fr", "nonexistent_key", &vec![]).unwrap_err();
    assert!(e.message.contains("Failed to translate"));
    assert_eq!(e.message, "Failed to translate: unknown message key: nonexistent_key");
}

#[test]
fn own_catalog_is_preferred() {
    let cs = catalogs();
    assert_eq!(translate(&cs, "fr", "greeting", &ava()).unwrap(), "Bonjour, Ava !");
    assert_eq!(translate(&cs, "es-ES", "greeting", &ava()).unwrap(), "Hola, Ava!");
}

#[test]
fn missing_key_falls_back_to_default_catalog() {
    let cs = catalogs();
    assert_eq!(translate(&cs, "fr", "farewell", &ava()).unwrap(), "Goodbye, Ava.");
}

#[test]
fn mismatched_argument_names_fail() {
    let cs = catalogs();
    let args = vec![arg("nom", ArgValue::Text("Ava".to_string()))];
    let e = translate(&cs, "en-US", "greeting", &args).unwrap_err();
    assert_eq!(e.message, "Failed to translate: missing argument: name");
    let e = translate(&cs, "fr", "greeting", &vec![]).unwrap_err();
    assert_eq!(e.message, "Failed to translate: missing argument: name");
}

#[test]
fn extra_arguments_are_ignored() {
    let cs = catalogs();
    let args = vec![
        arg("other", ArgValue::Int(3)),
        arg("name", ArgValue::Text("Ava".to_string())),
    ];
    assert_eq!(translate(&cs, "en-US", "greeting", &args).unwrap(), "Hello, Ava!");
}

#[test]
fn repeated_requests_agree() {
    let cs = catalogs();
    let a = translate(&cs, "fr", "farewell", &ava());
    let b = translate(&cs, "fr", "farewell", &ava());
    assert_eq!(a.unwrap(), b.unwrap());
    let a = translate(&cs, "nl", "missing", &ava()).unwrap_err();
    let b = translate(&cs, "nl", "missing", &ava()).unwrap_err();
    assert_eq!(a.message, b.message);
}

#[test]
fn missing_catalog_fails_to_create_translator() {
    let cs = catalogs();
    let e = translate(&cs, "nl", "greeting", &ava()).unwrap_err();
    assert_eq!(e.message, "Failed to create translator: no catalog for locale nl");
    let only_french: Vec<Catalog> = catalogs().into_iter().filter(|c| c.locale == AvailableLocales::French).collect();
    let e = translate(&only_french, "fr", "greeting", &ava()).unwrap_err();
    assert_eq!(e.message, "Failed to create translator: no catalog for locale en-US");
    let e = translate(&vec![], "xx-ZZ", "greeting", &ava()).unwrap_err();
    assert_eq!(e.message, "Failed to create translator: no catalog for locale en-US");
}

#[test]
fn integer_arguments_are_written_in_decimal() {
    let cs = catalogs();
    let cases: [(i64, &str); 6] = [
        (0, "You have 0 messages"),
        (7, "You have 7 messages"),
        (1234, "You have 1234 messages"),
        (-5, "You have -5 messages"),
        (i64::MAX, "You have 9223372036854775807 messages"),
        (i64::MIN, "You have -9223372036854775808 messages"),
    ];
    for (n, want) in cases {
        let args = vec![arg("n", ArgValue::Int(n))];
        assert_eq!(translate(&cs, "fr", "count", &args).unwrap(), want);
    }
}

#[test]
fn append_int_extends_the_text() {
    let mut s = "n=".to_string();
    append_int(&mut s, -120);
    assert_eq!(s, "n=-120");
    let mut s = String::new();
    append_int(&mut s, 10);
    assert_eq!(s, "10");
}

#[test]
fn translator_reports_its_failures() {
    let cs = catalogs();
    match Translator::new(AvailableLocales::Dutch, &cs) {
        Err(e) => {
            assert_eq!(e, ConstructionError::MissingCatalog(AvailableLocales::Dutch));
            assert_eq!(e.describe(), "no catalog for locale nl");
        }
        Ok(_) => panic!("no Dutch catalog was given"),
    }
    let t = Translator::new(AvailableLocales::French, &cs).unwrap();
    assert_eq!(t.locale, AvailableLocales::French);
    match t.translate("nope", &ava()) {
        Err(TranslateError::UnknownKey(k)) => assert_eq!(k, "nope"),
        other => panic!("unexpected {:?}", other),
    }
    match t.translate("greeting", &vec![]) {
        Err(e) => {
            assert_eq!(e.describe(), "missing argument: name");
            assert!(matches!(e, TranslateError::MissingArgument(ref n) if n == "name"));
        }
        Ok(t) => panic!("unexpected {}", t),
    }
}

#[test]
fn format_and_lookups() {
    let m = Message { segments: vec![var("a"), text("+"), var("b"), var("a")] };
    let args = vec![arg("b", ArgValue::Int(2)), arg("a", ArgValue::Text("x".to_string()))];
    assert_eq!(m.format(&args).unwrap(), "x+2x");
    match m.format(&vec![arg("a", ArgValue::Int(1))]) {
        Err(FormatError::MissingArgument(n)) => assert_eq!(n, "b"),
        Ok(t) => panic!("unexpected {}", t),
    }
    assert_eq!(Message { segments: vec![] }.format(&vec![]).unwrap(), "");
    let dup = vec![arg("a", ArgValue::Int(1)), arg("a", ArgValue::Int(2))];
    assert_eq!(find_arg(&dup, &"a".to_string()), Some(0));
    assert_eq!(find_arg(&dup, &"z".to_string()), None);
    let cs = catalogs();
    assert_eq!(find_catalog(&cs, AvailableLocales::EuropeanSpanish), Some(2));
    assert_eq!(find_catalog(&cs, AvailableLocales::Dutch), None);
    assert_eq!(cs[0].find(&"count".to_string()), Some(2));
    assert_eq!(cs[1].find(&"count".to_string()), None);
}
