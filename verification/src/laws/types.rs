//! Laws on the routine of a whole type.
//!
//! The host's answers on the formatters of the fields are a parameter of
//! each law, one answer for each field: the law holds whatever the host
//! says.

use vstd::prelude::*;
use crate::directive::{Answer, FieldDirectiveView, FieldErrorView, StrategyView};
use crate::laws::fields::options_of;
use crate::options::{FieldOptionsView, OptionErrorView};
use crate::output::{entries_shown, EntryView, OutputView, ReadingView};
use crate::record::{FieldView, Shape, TypeDescriptionView};
use crate::routine::{
    lemma_answers_for_fields, resolve_all, Answers, ExpandErrorView, GeneratedRoutineView,
};

verus! {

/// The directive of a field with the host's answer, where it has one;
/// `None` for an ignored field.
pub open spec fn directive_of(asked: (FieldView, Answer)) -> Option<FieldDirectiveView> {
    match asked.0.resolve(asked.1) {
        Ok(directive) => directive,
        Err(_) => None,
    }
}

/// Each field with the host's answer for it.
pub open spec fn asked(fields: Seq<FieldView>, answers: Answers) -> Seq<(FieldView, Answer)> {
    Seq::new(fields.len(), |j: int| (fields[j], answers[j]))
}

/// Fields that all resolve give the directives of those that are not
/// ignored.
proof fn lemma_all_resolved(fields: Seq<FieldView>, answers: Answers)
    requires
        forall|j: int| 0 <= j < fields.len() ==> (#[trigger] fields[j]).resolve(answers[j]) is Ok,
    ensures
        resolve_all(fields, answers) == Ok::<Seq<FieldDirectiveView>, ExpandErrorView>(
            asked(fields, answers).filter_map(|a: (FieldView, Answer)| directive_of(a)),
        ),
    decreases fields.len(),
{
    if fields.len() > 0 {
        lemma_all_resolved(fields.drop_last(), answers);
        assert(asked(fields, answers).drop_last() == asked(fields.drop_last(), answers));
        let before = asked(fields.drop_last(), answers).filter_map(
            |a: (FieldView, Answer)| directive_of(a),
        );
        match fields.last().resolve(answers[fields.len() - 1]) {
            Ok(Some(directive)) => {
                assert(before.push(directive) == before + seq![directive]);
            },
            _ => {},
        }
    }
}

/// Where every field resolves, the routine holds the directives of the
/// fields that are not ignored, in declaration order, under the type's
/// name.
pub proof fn law_routine_follows_declaration_order(input: TypeDescriptionView, answers: Answers)
    requires
        input.shape == Shape::NamedFields,
        forall|j: int|
            0 <= j < input.fields.len() ==> (#[trigger] input.fields[j]).resolve(answers[j])
                is Ok,
    ensures
        input.compile(answers) == Ok::<GeneratedRoutineView, ExpandErrorView>(
            GeneratedRoutineView {
                name: input.name,
                directives: asked(input.fields, answers).filter_map(
                    |a: (FieldView, Answer)| directive_of(a),
                ),
            },
        ),
{
    lemma_all_resolved(input.fields, answers);
}

/// The first field that does not resolve is the error of all fields.
proof fn lemma_first_error(fields: Seq<FieldView>, answers: Answers, at: int)
    requires
        0 <= at < fields.len(),
        fields[at].resolve(answers[at]) is Err,
        forall|j: int| 0 <= j < at ==> (#[trigger] fields[j]).resolve(answers[j]) is Ok,
    ensures
        resolve_all(fields, answers) == Err::<Seq<FieldDirectiveView>, ExpandErrorView>(
            ExpandErrorView::Field { index: at, error: fields[at].resolve(answers[at])->Err_0 },
        ),
    decreases fields.len(),
{
    if at == fields.len() - 1 {
        lemma_all_resolved(fields.drop_last(), answers);
    } else {
        lemma_first_error(fields.drop_last(), answers, at);
    }
}

/// Generation stops at the first field, in declaration order, that does
/// not resolve, and reports that field: nothing is generated, whatever the
/// later fields hold.
pub proof fn law_first_invalid_field_aborts(
    input: TypeDescriptionView,
    answers: Answers,
    read: Option<Seq<char>>,
    at: int,
)
    requires
        input.shape == Shape::NamedFields,
        0 <= at < input.fields.len(),
        input.fields[at].resolve(answers[at]) is Err,
        forall|j: int| 0 <= j < at ==> (#[trigger] input.fields[j]).resolve(answers[j]) is Ok,
    ensures
        input.compile(answers) == Err::<GeneratedRoutineView, ExpandErrorView>(
            ExpandErrorView::Field {
                index: at,
                error: input.fields[at].resolve(answers[at])->Err_0,
            },
        ),
        input.expand(answers, read) == Err::<Seq<char>, ExpandErrorView>(
            ExpandErrorView::Field {
                index: at,
                error: input.fields[at].resolve(answers[at])->Err_0,
            },
        ),
{
    lemma_first_error(input.fields, answers, at);
}

/// A field that does not resolve leaves all fields without directives.
proof fn lemma_some_error(fields: Seq<FieldView>, answers: Answers, at: int)
    requires
        0 <= at < fields.len(),
        fields[at].resolve(answers[at]) is Err,
    ensures
        resolve_all(fields, answers) is Err,
    decreases fields.len(),
{
    if at < fields.len() - 1 {
        lemma_some_error(fields.drop_last(), answers, at);
    }
}

/// A field with an invalid combination of options aborts the generation:
/// the field resolves to the rule that it breaks, and nothing is generated
/// for the type.
pub proof fn law_invalid_options_abort(
    input: TypeDescriptionView,
    answers: Answers,
    read: Option<Seq<char>>,
    at: int,
)
    requires
        0 <= at < input.fields.len(),
        options_of(input.fields[at]) is Ok,
        options_of(input.fields[at])->Ok_0.is_invalid(),
    ensures
        input.fields[at].resolve(answers[at]) == Err::<
            Option<FieldDirectiveView>,
            FieldErrorView,
        >(FieldErrorView::Conflict(options_of(input.fields[at])->Ok_0.conflict()->0)),
        input.compile(answers) is Err,
        input.expand(answers, read) is Err,
{
    lemma_some_error(input.fields, answers, at);
}

/// Generation is all or nothing: tokens are generated exactly where a
/// routine is compiled and the host reads its source, and they are the
/// tokens that the host reads. A routine is compiled only for a struct with
/// named fields.
pub proof fn law_tokens_need_a_routine(
    input: TypeDescriptionView,
    answers: Answers,
    read: Option<Seq<char>>,
)
    ensures
        input.expand(answers, read) is Ok <==> input.compile(answers) is Ok && read is Some,
        input.compile(answers) is Ok ==> input.shape == Shape::NamedFields,
        input.expand(answers, read) is Ok ==> input.expand(answers, read) == Ok::<
            Seq<char>,
            ExpandErrorView,
        >(read->0),
{
}

/// A routine is compiled only where every field resolves.
pub proof fn law_routine_needs_every_field(input: TypeDescriptionView, answers: Answers, at: int)
    requires
        0 <= at < input.fields.len(),
        input.compile(answers) is Ok,
    ensures
        input.fields[at].resolve(answers[at]) is Ok,
{
    if input.fields[at].resolve(answers[at]) is Err {
        lemma_some_error(input.fields, answers, at);
    }
}

/// The directive that prints a field under its identifier with its value.
pub open spec fn plain(ident: Seq<char>) -> FieldDirectiveView {
    FieldDirectiveView { label: ident, field: ident, strategy: StrategyView::Plain }
}

/// Fields without options resolve to plain directives.
proof fn lemma_plain_fields(fields: Seq<FieldView>, answers: Answers)
    requires
        forall|j: int|
            0 <= j < fields.len() ==> (#[trigger] fields[j]).ident is Some
                && fields[j].annotations.len() == 0,
    ensures
        resolve_all(fields, answers) == Ok::<Seq<FieldDirectiveView>, ExpandErrorView>(
            Seq::new(fields.len(), |j: int| plain(fields[j].ident->0)),
        ),
    decreases fields.len(),
{
    let plains = Seq::new(fields.len(), |j: int| plain(fields[j].ident->0));
    if fields.len() > 0 {
        let last = fields.last();
        lemma_plain_fields(fields.drop_last(), answers);
        let before = Seq::new(
            fields.drop_last().len(),
            |j: int| plain(fields.drop_last()[j].ident->0),
        );
        assert(last == fields[fields.len() - 1]);
        assert(FieldOptionsView::read(last.annotations) == Ok::<FieldOptionsView, OptionErrorView>(
            FieldOptionsView::empty(),
        ));
        assert(last.resolve(answers[fields.len() - 1]) == Ok::<
            Option<FieldDirectiveView>,
            FieldErrorView,
        >(Some(plain(last.ident->0))));
        assert(before.push(plain(last.ident->0)) == plains);
    } else {
        assert(plains == Seq::<FieldDirectiveView>::empty());
    }
}

/// Where every directive appends an entry, the entries are those of the
/// directives, one for one.
proof fn lemma_all_shown(directives: Seq<FieldDirectiveView>, readings: Seq<ReadingView>)
    requires
        directives.len() <= readings.len(),
        forall|j: int|
            0 <= j < directives.len() ==> (#[trigger] directives[j]).shown(readings[j]) is Some,
    ensures
        entries_shown(directives, readings) == Seq::new(
            directives.len(),
            |j: int| directives[j].shown(readings[j])->0,
        ),
    decreases directives.len(),
{
    if directives.len() > 0 {
        lemma_all_shown(directives.drop_last(), readings);
        assert(directives.last() == directives[directives.len() - 1]);
    }
}

/// A type whose fields carry no options is printed as it is declared: every
/// field, in declaration order, under its identifier and with its value,
/// and all of it under the type's name.
pub proof fn law_unannotated_fields_print_as_declared(
    input: TypeDescriptionView,
    answers: Answers,
    readings: Seq<ReadingView>,
)
    requires
        input.shape == Shape::NamedFields,
        forall|j: int|
            0 <= j < input.fields.len() ==> (#[trigger] input.fields[j]).ident is Some
                && input.fields[j].annotations.len() == 0,
        readings.len() == input.fields.len(),
    ensures
        input.compile(answers) == Ok::<GeneratedRoutineView, ExpandErrorView>(
            GeneratedRoutineView {
                name: input.name,
                directives: Seq::new(input.fields.len(), |j: int| plain(input.fields[j].ident->0)),
            },
        ),
        input.compile(answers)->Ok_0.run(readings) == Some(
            OutputView {
                label: input.name,
                entries: Seq::new(
                    input.fields.len(),
                    |j: int|
                        EntryView { label: input.fields[j].ident->0, value: readings[j].actual },
                ),
            },
        ),
{
    lemma_plain_fields(input.fields, answers);
    let directives = Seq::new(input.fields.len(), |j: int| plain(input.fields[j].ident->0));
    lemma_all_shown(directives, readings);
    assert(entries_shown(directives, readings) == Seq::new(
        input.fields.len(),
        |j: int| EntryView { label: input.fields[j].ident->0, value: readings[j].actual },
    ));
}

/// The type declared without one of its fields.
pub open spec fn without(input: TypeDescriptionView, at: int) -> TypeDescriptionView {
    TypeDescriptionView { fields: input.fields.remove(at), ..input }
}

/// Leaving a field out changes nothing where the field resolves to no
/// directive.
proof fn lemma_without_ignored(fields: Seq<FieldView>, answers: Answers, at: int)
    requires
        0 <= at < fields.len() <= answers.len(),
        fields[at].resolve(answers[at]) == Ok::<Option<FieldDirectiveView>, FieldErrorView>(None),
    ensures
        resolve_all(fields, answers) is Ok ==> resolve_all(fields.remove(at), answers.remove(at))
            == resolve_all(fields, answers),
        resolve_all(fields, answers) is Err ==> resolve_all(
            fields.remove(at),
            answers.remove(at),
        ) is Err,
    decreases fields.len(),
{
    if at == fields.len() - 1 {
        assert(fields.remove(at) == fields.drop_last());
        lemma_answers_for_fields(fields.drop_last(), answers, answers.remove(at));
    } else {
        lemma_without_ignored(fields.drop_last(), answers, at);
        assert(fields.remove(at).drop_last() == fields.drop_last().remove(at));
        assert(fields.remove(at).last() == fields.last());
        assert(answers.remove(at)[fields.remove(at).len() - 1] == answers[fields.len() - 1]);
    }
}

/// An ignored field is left out and nothing else is: the routine of the
/// type is that of the same type declared without the field, so the other
/// fields are printed as before and in the same order.
pub proof fn law_ignored_field_is_left_out(input: TypeDescriptionView, answers: Answers, at: int)
    requires
        0 <= at < input.fields.len() <= answers.len(),
        input.fields[at].resolve(answers[at]) == Ok::<Option<FieldDirectiveView>, FieldErrorView>(
            None,
        ),
    ensures
        input.compile(answers) is Ok ==> without(input, at).compile(answers.remove(at))
            == input.compile(answers),
        input.compile(answers) is Err ==> without(input, at).compile(answers.remove(at)) is Err,
{
    lemma_without_ignored(input.fields, answers, at);
}

} // verus!
