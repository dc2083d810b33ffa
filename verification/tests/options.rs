use better_debug::options::{
    is_enabled, recognize, Conflict, FieldOptions, Key, OptionError, Problem,
};
use better_debug::record::{Annotation, Value};

fn entry(name: &str, value: Option<Value>) -> Annotation {
    Annotation { name: name.to_string(), value }
}

fn string(value: &str) -> Option<Value> {
    Some(Value::Text(value.to_string()))
}

fn options(
    ignore: Option<bool>,
    rename_to: Option<&str>,
    secret: Option<bool>,
    cust_formatter: Option<&str>,
    cust_formatter_skip_if_none: Option<bool>,
) -> FieldOptions {
    FieldOptions {
        ignore,
        rename_to: rename_to.map(str::to_string),
        secret,
        cust_formatter: cust_formatter.map(str::to_string),
        cust_formatter_skip_if_none,
    }
}

#[test]
fn no_entries_set_no_option() {
    assert_eq!(FieldOptions::from_annotations(&vec![]), Ok(FieldOptions::default()));
    assert_eq!(FieldOptions::default(), options(None, None, None, None, None));
}

#[test]
fn every_option_can_be_set() {
    let entries = vec![
        entry("cust_formatter_skip_if_none", None),
        entry("cust_formatter", string("foo")),
        entry("secret", Some(Value::Flag(false))),
        entry("rename_to", string("new_name")),
        entry("ignore", Some(Value::Flag(true))),
    ];
    assert_eq!(
        FieldOptions::from_annotations(&entries),
        Ok(options(Some(true), Some("new_name"), Some(false), Some("foo"), Some(true)))
    );
}

#[test]
fn the_order_of_entries_is_irrelevant() {
    let a = entry("rename_to", string("x"));
    let b = entry("secret", None);
    let c = entry("cust_formatter_skip_if_none", Some(Value::Flag(false)));
    let expected = Ok(options(None, Some("x"), Some(true), None, Some(false)));
    for order in [[0, 1, 2], [0, 2, 1], [1, 0, 2], [1, 2, 0], [2, 0, 1], [2, 1, 0]] {
        let all = [a.clone(), b.clone(), c.clone()];
        let entries: Vec<Annotation> = order.iter().map(|&i| all[i].clone()).collect();
        assert_eq!(FieldOptions::from_annotations(&entries), expected);
    }
}

#[test]
fn a_boolean_option_is_true_where_it_stands_alone() {
    assert_eq!(
        FieldOptions::from_annotations(&vec![entry("secret", None)]),
        Ok(options(None, None, Some(true), None, None))
    );
    assert_eq!(
        FieldOptions::from_annotations(&vec![entry("ignore", Some(Value::Flag(false)))]),
        Ok(options(Some(false), None, None, None, None))
    );
}

#[test]
fn an_unknown_option_is_refused() {
    let entries = vec![entry("secret", None), entry("Secret", None)];
    assert_eq!(
        FieldOptions::from_annotations(&entries),
        Err(OptionError { entry: 1, problem: Problem::UnknownOption })
    );
    assert_eq!(
        FieldOptions::from_annotations(&vec![entry("", Some(Value::Unsupported))]),
        Err(OptionError { entry: 0, problem: Problem::UnknownOption })
    );
}

#[test]
fn a_value_of_the_wrong_kind_is_refused() {
    let malformed = |entries: Vec<Annotation>, at: usize| {
        assert_eq!(
            FieldOptions::from_annotations(&entries),
            Err(OptionError { entry: at, problem: Problem::MalformedValue })
        );
    };
    malformed(vec![entry("ignore", string("true"))], 0);
    malformed(vec![entry("secret", Some(Value::Unsupported))], 0);
    malformed(vec![entry("cust_formatter_skip_if_none", string("yes"))], 0);
    malformed(vec![entry("rename_to", None)], 0);
    malformed(vec![entry("rename_to", Some(Value::Flag(true)))], 0);
    malformed(vec![entry("secret", None), entry("cust_formatter", None)], 1);
    malformed(vec![entry("cust_formatter", Some(Value::Unsupported))], 0);
}

#[test]
fn an_option_set_twice_is_refused() {
    let entries = vec![
        entry("rename_to", string("a")),
        entry("secret", None),
        entry("rename_to", string("b")),
    ];
    assert_eq!(
        FieldOptions::from_annotations(&entries),
        Err(OptionError { entry: 2, problem: Problem::DuplicateOption })
    );
    let flags = vec![entry("ignore", Some(Value::Flag(false))), entry("ignore", None)];
    assert_eq!(
        FieldOptions::from_annotations(&flags),
        Err(OptionError { entry: 1, problem: Problem::DuplicateOption })
    );
    // A second entry for an option is refused before its value is looked at.
    let both = vec![entry("secret", None), entry("secret", string("x"))];
    assert_eq!(
        FieldOptions::from_annotations(&both),
        Err(OptionError { entry: 1, problem: Problem::DuplicateOption })
    );
}

#[test]
fn the_five_names_are_recognized() {
    assert_eq!(recognize(&"ignore".to_string()), Some(Key::Ignore));
    assert_eq!(recognize(&"rename_to".to_string()), Some(Key::RenameTo));
    assert_eq!(recognize(&"secret".to_string()), Some(Key::Secret));
    assert_eq!(recognize(&"cust_formatter".to_string()), Some(Key::CustFormatter));
    assert_eq!(
        recognize(&"cust_formatter_skip_if_none".to_string()),
        Some(Key::CustFormatterSkipIfNone)
    );
    assert_eq!(recognize(&"custom_formatter".to_string()), None);
    assert_eq!(recognize(&"ignore ".to_string()), None);
    assert_eq!(recognize(&"".to_string()), None);
}

#[test]
fn an_absent_flag_is_off() {
    assert!(is_enabled(&Some(true)));
    assert!(!is_enabled(&Some(false)));
    assert!(!is_enabled(&None));
}

#[test]
fn valid_combinations() {
    for valid in [
        options(None, None, None, None, None),
        options(Some(true), None, None, None, None),
        options(Some(true), None, Some(false), None, Some(false)),
        options(Some(false), Some("x"), Some(true), None, None),
        options(None, Some("x"), None, Some("foo"), Some(true)),
        options(None, None, Some(false), Some("foo"), None),
        options(None, None, Some(true), None, Some(false)),
    ] {
        assert!(!valid.is_invalid(), "{:?}", valid);
        assert_eq!(valid.conflict(), None);
    }
}

#[test]
fn invalid_combinations() {
    let ignored = Some(Conflict::IgnoredWithOptions);
    assert_eq!(options(Some(true), Some("x"), None, None, None).conflict(), ignored);
    assert_eq!(options(Some(true), None, Some(true), None, None).conflict(), ignored);
    assert_eq!(options(Some(true), None, None, Some("foo"), None).conflict(), ignored);
    assert_eq!(options(Some(true), None, None, None, Some(true)).conflict(), ignored);
    assert_eq!(
        options(None, None, None, None, Some(true)).conflict(),
        Some(Conflict::SkipWithoutFormatter)
    );
    assert_eq!(
        options(None, None, Some(true), Some("foo"), None).conflict(),
        Some(Conflict::SecretWithFormatter)
    );
    for invalid in [
        options(Some(true), Some("x"), None, None, None),
        options(Some(true), None, Some(true), None, None),
        options(Some(true), None, None, Some("foo"), None),
        options(None, None, None, None, Some(true)),
        options(None, None, Some(true), Some("foo"), None),
    ] {
        assert!(invalid.is_invalid(), "{:?}", invalid);
    }
}

#[test]
fn the_first_broken_rule_is_reported() {
    // All three rules are broken at once.
    assert_eq!(
        options(Some(true), None, Some(true), Some("foo"), Some(true)).conflict(),
        Some(Conflict::IgnoredWithOptions)
    );
    // The second and the third cannot both be broken; the second comes
    // before the third.
    assert_eq!(
        options(None, None, Some(true), None, Some(true)).conflict(),
        Some(Conflict::SkipWithoutFormatter)
    );
}

#[test]
fn each_rule_has_its_message() {
    assert_eq!(Conflict::IgnoredWithOptions.message(), "incompatible options");
    assert_eq!(
        Conflict::SkipWithoutFormatter.message(),
        "skip-if-none requires a custom formatter"
    );
    assert_eq!(
        Conflict::SecretWithFormatter.message(),
        "secret and custom formatter are mutually exclusive"
    );
}
