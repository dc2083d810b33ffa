use better_debug::directive::{resolve, FieldDirective, FieldError, Strategy};
use better_debug::options::{Conflict, FieldOptions, OptionError, Problem};
use better_debug::record::{Annotation, Field, Shape, TypeDescription, Value};
use better_debug::routine::{compile, ExpandError, GeneratedRoutine};

fn flag(name: &str) -> Annotation {
    Annotation { name: name.to_string(), value: None }
}

fn string_entry(name: &str, value: &str) -> Annotation {
    Annotation { name: name.to_string(), value: Some(Value::Text(value.to_string())) }
}

fn a_field(ident: &str, annotations: Vec<Annotation>) -> Field {
    Field { ident: Some(ident.to_string()), annotations }
}

fn directive(label: &str, field: &str, strategy: Strategy) -> FieldDirective {
    FieldDirective { label: label.to_string(), field: field.to_string(), strategy }
}

fn resolved(ident: &str, annotations: Vec<Annotation>) -> Option<FieldDirective> {
    resolve(&a_field(ident, annotations)).unwrap()
}

#[test]
fn a_field_without_options_is_plain() {
    assert_eq!(resolved("bar", vec![]), Some(directive("bar", "bar", Strategy::Plain)));
}

#[test]
fn a_renamed_field_keeps_its_identifier() {
    assert_eq!(
        resolved("bar", vec![string_entry("rename_to", "Nice Bar!")]),
        Some(directive("Nice Bar!", "bar", Strategy::Plain))
    );
    assert_eq!(
        resolved("other", vec![string_entry("rename_to", "Nice Bar!")]),
        Some(directive("Nice Bar!", "other", Strategy::Plain))
    );
}

#[test]
fn a_secret_field_is_secret() {
    assert_eq!(
        resolved("bar", vec![flag("secret")]),
        Some(directive("bar", "bar", Strategy::Secret))
    );
    assert_eq!(
        resolved("bar", vec![flag("secret"), string_entry("rename_to", "x")]),
        Some(directive("x", "bar", Strategy::Secret))
    );
}

#[test]
fn a_flag_that_is_off_counts_as_absent() {
    let off = |name: &str| Annotation { name: name.to_string(), value: Some(Value::Flag(false)) };
    assert_eq!(
        resolved("bar", vec![off("secret"), off("ignore"), off("cust_formatter_skip_if_none")]),
        Some(directive("bar", "bar", Strategy::Plain))
    );
    assert_eq!(
        resolved("bar", vec![off("ignore"), flag("secret")]),
        Some(directive("bar", "bar", Strategy::Secret))
    );
}

#[test]
fn an_ignored_field_has_no_directive() {
    assert_eq!(resolved("bar", vec![flag("ignore")]), None);
}

#[test]
fn a_formatter_falls_back_unless_told_to_skip() {
    assert_eq!(
        resolved("bar", vec![string_entry("cust_formatter", "foo")]),
        Some(directive(
            "bar",
            "bar",
            Strategy::CustomWithFallback { formatter: "foo".to_string() }
        ))
    );
    assert_eq!(
        resolved(
            "bar",
            vec![flag("cust_formatter_skip_if_none"), string_entry("cust_formatter", "foo")]
        ),
        Some(directive("bar", "bar", Strategy::CustomNoFallback { formatter: "foo".to_string() }))
    );
}

// The directive holds the formatter as the parser read it, not as it was
// written.
#[test]
fn a_formatter_is_kept_as_parsed() {
    assert_eq!(
        resolved("bar", vec![string_entry("cust_formatter", "  foo /* mine */ ")]),
        Some(directive(
            "bar",
            "bar",
            Strategy::CustomWithFallback { formatter: "foo".to_string() }
        ))
    );
}

#[test]
fn a_formatter_must_be_an_expression() {
    for source in ["", "foo bar", "fn", "foo(", "\"open", "a +"] {
        let r = resolve(&a_field("bar", vec![string_entry("cust_formatter", source)]));
        assert!(matches!(r, Err(FieldError::FormatterSyntax(_))), "{:?}: {:?}", source, r);
    }
}

#[test]
fn the_error_on_a_formatter_is_that_of_the_parser() {
    let expected = syn::parse_str::<syn::Expr>("foo(").unwrap_err().to_string();
    match resolve(&a_field("bar", vec![string_entry("cust_formatter", "foo(")])) {
        Err(FieldError::FormatterSyntax(error)) => assert_eq!(error.to_string(), expected),
        other => panic!("{:?}", other),
    }
}

#[test]
fn the_checks_come_in_order() {
    // Entries are read before the rules are checked.
    let r = resolve(&a_field("bar", vec![flag("ignore"), flag("secret"), flag("sekret")]));
    assert!(matches!(
        r,
        Err(FieldError::Annotation(OptionError { entry: 2, problem: Problem::UnknownOption }))
    ));
    // The rules are checked before the identifier.
    let r = resolve(&Field { ident: None, annotations: vec![flag("ignore"), flag("secret")] });
    assert!(matches!(r, Err(FieldError::Conflict(Conflict::IgnoredWithOptions))));
    // The identifier is checked before the formatter.
    let r = resolve(&Field { ident: None, annotations: vec![string_entry("cust_formatter", "(")] });
    assert!(matches!(r, Err(FieldError::MissingIdentifier)));
    // A formatter that breaks a rule is never parsed.
    let r = resolve(&a_field("bar", vec![flag("secret"), string_entry("cust_formatter", "(")]));
    assert!(matches!(r, Err(FieldError::Conflict(Conflict::SecretWithFormatter))));
}

#[test]
fn a_field_without_identifier_has_no_directive() {
    let r = resolve(&Field { ident: None, annotations: vec![] });
    assert!(matches!(r, Err(FieldError::MissingIdentifier)));
    let r = resolve(&Field { ident: None, annotations: vec![flag("ignore")] });
    assert!(matches!(r, Err(FieldError::MissingIdentifier)));
}

#[test]
fn the_directive_of_given_options() {
    let options = FieldOptions {
        rename_to: Some("shown".to_string()),
        cust_formatter_skip_if_none: Some(true),
        ..FieldOptions::default()
    };
    assert_eq!(
        options.directive("bar", Some("fmt_bar".to_string())),
        Some(directive(
            "shown",
            "bar",
            Strategy::CustomNoFallback { formatter: "fmt_bar".to_string() }
        ))
    );
    assert_eq!(options.directive("bar", None), Some(directive("shown", "bar", Strategy::Plain)));
    let ignored = FieldOptions { ignore: Some(true), ..FieldOptions::default() };
    assert_eq!(ignored.directive("bar", None), None);
    let secret = FieldOptions { secret: Some(true), ..FieldOptions::default() };
    assert_eq!(secret.directive("bar", None), Some(directive("bar", "bar", Strategy::Secret)));
}

fn record(fields: Vec<Field>) -> TypeDescription {
    TypeDescription { name: "Foo".to_string(), shape: Shape::NamedFields, fields }
}

#[test]
fn the_routine_keeps_the_declaration_order() {
    let input = record(vec![
        a_field("a", vec![flag("secret")]),
        a_field("b", vec![flag("ignore")]),
        a_field("c", vec![]),
        a_field("d", vec![flag("ignore")]),
        a_field("e", vec![string_entry("rename_to", "E"), string_entry("cust_formatter", "f")]),
    ]);
    assert_eq!(
        compile(&input).unwrap(),
        GeneratedRoutine {
            name: "Foo".to_string(),
            directives: vec![
                directive("a", "a", Strategy::Secret),
                directive("c", "c", Strategy::Plain),
                directive("E", "e", Strategy::CustomWithFallback { formatter: "f".to_string() }),
            ],
        }
    );
}

#[test]
fn an_ignored_field_changes_nothing_else() {
    let with = record(vec![
        a_field("a", vec![]),
        a_field("b", vec![flag("ignore")]),
        a_field("c", vec![flag("secret")]),
    ]);
    let without = record(vec![a_field("a", vec![]), a_field("c", vec![flag("secret")])]);
    assert_eq!(compile(&with).unwrap(), compile(&without).unwrap());
}

#[test]
fn all_fields_ignored_leave_an_empty_routine() {
    let input = record(vec![a_field("a", vec![flag("ignore")]), a_field("b", vec![flag("ignore")])]);
    assert_eq!(
        compile(&input).unwrap(),
        GeneratedRoutine { name: "Foo".to_string(), directives: vec![] }
    );
}

#[test]
fn compiling_stops_at_the_first_error() {
    let input = record(vec![
        a_field("a", vec![]),
        a_field("b", vec![flag("cust_formatter_skip_if_none")]),
        a_field("c", vec![flag("unknown")]),
    ]);
    assert!(matches!(
        compile(&input),
        Err(ExpandError::Field {
            index: 1,
            error: FieldError::Conflict(Conflict::SkipWithoutFormatter)
        })
    ));
}

#[test]
fn only_structs_with_named_fields_compile() {
    let mut input = record(vec![Field { ident: None, annotations: vec![flag("unknown")] }]);
    input.shape = Shape::PositionalFields;
    assert!(matches!(compile(&input), Err(ExpandError::NotARecord)));
    input.shape = Shape::TaggedUnion;
    assert!(matches!(compile(&input), Err(ExpandError::NotARecord)));
    input.shape = Shape::Union;
    assert!(matches!(compile(&input), Err(ExpandError::NotARecord)));
    input.shape = Shape::Unit;
    assert!(matches!(compile(&input), Err(ExpandError::NotARecord)));
}
