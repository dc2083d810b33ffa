//! Laws on the directive of one field.
//!
//! The host's answer on the field's formatter is a parameter of each law:
//! the law holds whatever the host says.

use vstd::prelude::*;
use crate::directive::{answer_in, Answer, FieldDirectiveView, FieldErrorView, StrategyView};
use crate::emit::{append_source, instruction_source};
use crate::laws::entries::{
    law_entries_set_options, law_option_names, law_order_of_entries_is_irrelevant,
    law_unnamed_option_stays_unset,
};
use crate::options::{enabled, flag_of, text_of, Conflict, FieldOptionsView, Key, OptionErrorView};
use crate::output::{secret_marker, EntryView, ReadingView};
use crate::record::{AnnotationView, FieldView, ValueView};

verus! {

/// The options that a field's entries set.
pub open spec fn options_of(field: FieldView) -> Result<FieldOptionsView, OptionErrorView> {
    FieldOptionsView::read(field.annotations)
}

/// A field resolves alike however its entries are arranged: to the same
/// directive, or to an error either way; only the position of an entry that
/// cannot be read depends on the arrangement.
pub proof fn law_rearranged_field_resolves_alike(
    field: FieldView,
    other: FieldView,
    answer: Answer,
)
    requires
        field.ident == other.ident,
        field.annotations.to_multiset() == other.annotations.to_multiset(),
    ensures
        options_of(field) is Ok ==> field.resolve(answer) == other.resolve(answer),
        options_of(field) is Err ==> field.resolve(answer) is Err && other.resolve(answer) is Err,
{
    law_order_of_entries_is_irrelevant(field.annotations, other.annotations);
}

/// The combinations of options that make no sense are invalid: `ignore`
/// with any other option, `secret` with `cust_formatter`, and
/// `cust_formatter_skip_if_none` without `cust_formatter`. The invalid
/// options are those that break a rule, and the rule reported is the first
/// of the three that is broken.
pub proof fn law_invalid_combinations(options: FieldOptionsView)
    ensures
        enabled(options.ignore) && options.rename_to is Some ==> options.is_invalid(),
        enabled(options.ignore) && enabled(options.secret) ==> options.is_invalid(),
        enabled(options.ignore) && options.cust_formatter is Some ==> options.is_invalid(),
        enabled(options.ignore) && enabled(options.cust_formatter_skip_if_none)
            ==> options.is_invalid(),
        enabled(options.secret) && options.cust_formatter is Some ==> options.is_invalid(),
        enabled(options.cust_formatter_skip_if_none) && options.cust_formatter is None
            ==> options.is_invalid(),
        options.is_invalid() <==> options.conflict() is Some,
        options.conflict() == Some(Conflict::SkipWithoutFormatter) ==> !enabled(options.ignore),
        options.conflict() == Some(Conflict::SecretWithFormatter) ==> !enabled(options.ignore),
{
}

/// Whether an entry turns a boolean option on: it has the option's name,
/// alone or with `true`.
pub open spec fn turns_on(entry: AnnotationView, option: Seq<char>) -> bool {
    entry.name == option && flag_of(entry.value) == Some(true)
}

/// Whether an entry gives a string option a value.
pub open spec fn gives(entry: AnnotationView, option: Seq<char>) -> bool {
    entry.name == option && text_of(entry.value) is Some
}

/// Two entries that exclude each other leave the field without a
/// directive: `ignore` beside `rename_to`, `secret`, `cust_formatter` or
/// `cust_formatter_skip_if_none`, and `secret` beside `cust_formatter`.
pub proof fn law_conflicting_entries_abort(
    field: FieldView,
    first: int,
    second: int,
    answer: Answer,
)
    requires
        0 <= first < field.annotations.len(),
        0 <= second < field.annotations.len(),
        ({
            ||| turns_on(field.annotations[first], "ignore"@) && gives(
                field.annotations[second],
                "rename_to"@,
            )
            ||| turns_on(field.annotations[first], "ignore"@) && turns_on(
                field.annotations[second],
                "secret"@,
            )
            ||| turns_on(field.annotations[first], "ignore"@) && gives(
                field.annotations[second],
                "cust_formatter"@,
            )
            ||| turns_on(field.annotations[first], "ignore"@) && turns_on(
                field.annotations[second],
                "cust_formatter_skip_if_none"@,
            )
            ||| turns_on(field.annotations[first], "secret"@) && gives(
                field.annotations[second],
                "cust_formatter"@,
            )
        }),
    ensures
        field.resolve(answer) is Err,
{
    if options_of(field) is Ok {
        law_entries_set_options(field.annotations, first);
        law_entries_set_options(field.annotations, second);
        law_option_names();
        assert(options_of(field)->Ok_0.is_invalid());
    }
}

/// `cust_formatter_skip_if_none` on a field that no entry gives a
/// formatter leaves the field without a directive.
pub proof fn law_skip_without_formatter_aborts(
    field: FieldView,
    at: int,
    answer: Answer,
)
    requires
        0 <= at < field.annotations.len(),
        turns_on(field.annotations[at], "cust_formatter_skip_if_none"@),
        forall|j: int|
            0 <= j < field.annotations.len() ==> (#[trigger] field.annotations[j]).name
                != "cust_formatter"@,
    ensures
        field.resolve(answer) is Err,
{
    if options_of(field) is Ok {
        law_entries_set_options(field.annotations, at);
        law_option_names();
        law_unnamed_option_stays_unset(
            FieldOptionsView::empty(),
            field.annotations,
            0,
            Key::CustFormatter,
        );
        assert(options_of(field)->Ok_0.is_invalid());
    }
}

/// The host's answer counts only where the host is asked: for a field with
/// a formatter that is otherwise in order. There the field has no
/// directive where the host reads no expression, and its error is the
/// host's; else it has the directive with the formatter as the host read
/// it.
pub proof fn law_answer_counts_where_asked(field: FieldView, answer: Answer, other: Answer)
    ensures
        field.asks() is None ==> field.resolve(answer) == field.resolve(other),
        field.asks() is Some && answer is Err ==> field.resolve(answer) == Err::<
            Option<FieldDirectiveView>,
            FieldErrorView,
        >(FieldErrorView::FormatterSyntax(answer->Err_0)),
        field.asks() is Some ==> answer_in(field.resolve(answer)) == answer,
{
}

/// A field resolves to no directive exactly where its entries can be read,
/// `ignore` is the only option in force, and it has an identifier.
pub proof fn law_ignored_fields(field: FieldView, answer: Answer)
    ensures
        field.resolve(answer) == Ok::<Option<FieldDirectiveView>, FieldErrorView>(None) <==> (
        options_of(field) is Ok && enabled(options_of(field)->Ok_0.ignore) && !options_of(
            field,
        )->Ok_0.is_invalid() && field.ident is Some),
{
}

/// A secret field without a formatter is printed under its label with the
/// marker in place of its value, whatever its value is.
pub proof fn law_secret_field_shows_marker(
    field: FieldView,
    answer: Answer,
    reading: ReadingView,
)
    requires
        options_of(field) is Ok,
        enabled(options_of(field)->Ok_0.secret),
        options_of(field)->Ok_0.cust_formatter is None,
        !options_of(field)->Ok_0.is_invalid(),
        field.ident is Some,
    ensures
        field.resolve(answer) == Ok::<Option<FieldDirectiveView>, FieldErrorView>(
            Some(
                FieldDirectiveView {
                    label: options_of(field)->Ok_0.label(field.ident->0),
                    field: field.ident->0,
                    strategy: StrategyView::Secret,
                },
            ),
        ),
        field.resolve(answer)->Ok_0->0.shown(reading) == Some(
            EntryView {
                label: options_of(field)->Ok_0.label(field.ident->0),
                value: secret_marker(),
            },
        ),
{
}

/// A field with `rename_to = "X"` is printed under the label `X`, whatever
/// its identifier is: `at` is the position of that entry among the field's
/// entries.
pub proof fn law_renamed_field_has_label(
    field: FieldView,
    at: int,
    label: Seq<char>,
    answer: Answer,
    reading: ReadingView,
)
    requires
        0 <= at < field.annotations.len(),
        field.annotations[at].name == "rename_to"@,
        field.annotations[at].value == Some(ValueView::Text(label)),
    ensures
        (match field.resolve(answer) {
            Ok(Some(directive)) => directive.label == label && (match directive.shown(reading) {
                Some(entry) => entry.label == label,
                None => true,
            }),
            Ok(None) => false,
            Err(_) => true,
        }),
{
    if field.resolve(answer) is Ok {
        law_entries_set_options(field.annotations, at);
        law_option_names();
    }
}

/// A field with a formatter and without `cust_formatter_skip_if_none`:
/// where the formatter returns a value, that value is printed; where it
/// returns none, the field's own value is printed. This holds where the
/// host reads the formatter as an expression; where it does not, the field
/// has no directive.
pub proof fn law_formatter_with_fallback(
    field: FieldView,
    answer: Answer,
    reading: ReadingView,
)
    requires
        options_of(field) is Ok,
        options_of(field)->Ok_0.cust_formatter is Some,
        !enabled(options_of(field)->Ok_0.cust_formatter_skip_if_none),
        !options_of(field)->Ok_0.is_invalid(),
        field.ident is Some,
    ensures
        (match answer {
            Ok(formatter) => field.resolve(answer) == Ok::<
                Option<FieldDirectiveView>,
                FieldErrorView,
            >(
                Some(
                    FieldDirectiveView {
                        label: options_of(field)->Ok_0.label(field.ident->0),
                        field: field.ident->0,
                        strategy: StrategyView::CustomWithFallback { formatter },
                    },
                ),
            ) && field.resolve(answer)->Ok_0->0.shown(reading) == Some(
                EntryView {
                    label: options_of(field)->Ok_0.label(field.ident->0),
                    value: match reading.formatted {
                        Some(value) => value,
                        None => reading.actual,
                    },
                },
            ),
            Err(error) => field.resolve(answer) == Err::<Option<FieldDirectiveView>, FieldErrorView>(
                FieldErrorView::FormatterSyntax(error),
            ),
        }),
{
}

/// A field with a formatter and with `cust_formatter_skip_if_none`: where
/// the formatter returns a value, that value is printed; where it returns
/// none, nothing is printed for the field. This holds where the host reads
/// the formatter as an expression; where it does not, the field has no
/// directive.
pub proof fn law_formatter_without_fallback(
    field: FieldView,
    answer: Answer,
    reading: ReadingView,
)
    requires
        options_of(field) is Ok,
        options_of(field)->Ok_0.cust_formatter is Some,
        enabled(options_of(field)->Ok_0.cust_formatter_skip_if_none),
        !options_of(field)->Ok_0.is_invalid(),
        field.ident is Some,
    ensures
        (match answer {
            Ok(formatter) => field.resolve(answer) == Ok::<
                Option<FieldDirectiveView>,
                FieldErrorView,
            >(
                Some(
                    FieldDirectiveView {
                        label: options_of(field)->Ok_0.label(field.ident->0),
                        field: field.ident->0,
                        strategy: StrategyView::CustomNoFallback { formatter },
                    },
                ),
            ) && field.resolve(answer)->Ok_0->0.shown(reading) == (match reading.formatted {
                Some(value) => Some(
                    EntryView {
                        label: options_of(field)->Ok_0.label(field.ident->0),
                        value,
                    },
                ),
                None => None,
            }),
            Err(error) => field.resolve(answer) == Err::<Option<FieldDirectiveView>, FieldErrorView>(
                FieldErrorView::FormatterSyntax(error),
            ),
        }),
{
}

/// The instruction of a secret field appends the marker, written as a
/// string literal, and does not mention the field: the field's value is
/// never read. Nor does the instruction of a formatter without fallback
/// mention it.
pub proof fn law_secret_instruction_never_reads_the_field(
    label_literal: Seq<char>,
    field: Seq<char>,
    other: Seq<char>,
    formatter: Seq<char>,
)
    ensures
        instruction_source(label_literal, field, StrategyView::Secret) == append_source(
            label_literal,
            seq!['"'] + secret_marker() + seq!['"'],
        ),
        instruction_source(label_literal, field, StrategyView::Secret) == instruction_source(
            label_literal,
            other,
            StrategyView::Secret,
        ),
        instruction_source(label_literal, field, StrategyView::CustomNoFallback { formatter })
            == instruction_source(
            label_literal,
            other,
            StrategyView::CustomNoFallback { formatter },
        ),
{
    reveal_strlit("\"<SECRET>\"");
    reveal_strlit("<SECRET>");
    assert("\"<SECRET>\""@ == seq!['"'] + secret_marker() + seq!['"']);
}

} // verus!
