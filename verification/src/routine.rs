//! The directive compiler: from a type's description to the routine that
//! prints it, one directive for each field that is not ignored.

use vstd::prelude::*;
use crate::directive::{
    answer_in, resolve, resolved_view, Answer, FieldDirective, FieldDirectiveView, FieldError,
    FieldErrorView,
};
use crate::record::{FieldView, Shape, TypeDescription, TypeDescriptionView};

verus! {

/// The generated `fmt` routine: it opens a struct builder under the type's
/// name, lets each directive append to it in turn, and finishes it.
#[derive(Clone, Debug, PartialEq, Eq)]
pub struct GeneratedRoutine {
    /// The name of the type, which is also the label it is printed under.
    pub name: String,
    /// The directives in the declaration order of their fields.
    pub directives: Vec<FieldDirective>,
}

/// The mathematical value of a [`GeneratedRoutine`].
pub struct GeneratedRoutineView {
    pub name: Seq<char>,
    pub directives: Seq<FieldDirectiveView>,
}

impl View for GeneratedRoutine {
    type V = GeneratedRoutineView;

    open spec fn view(&self) -> GeneratedRoutineView {
        GeneratedRoutineView {
            name: self.name@,
            directives: self.directives@.map_values(|d: FieldDirective| d@),
        }
    }
}

/// Why nothing was generated.
#[derive(Debug)]
pub enum ExpandError {
    /// The type is not a struct with named fields.
    NotARecord,
    /// A field has no directive. `index` is its position among the fields.
    Field { index: usize, error: FieldError },
    /// The generated source does not read as tokens.
    Unlexable,
}

/// The mathematical value of an [`ExpandError`].
pub enum ExpandErrorView {
    NotARecord,
    Field { index: int, error: FieldErrorView },
    Unlexable,
}

impl View for ExpandError {
    type V = ExpandErrorView;

    open spec fn view(&self) -> ExpandErrorView {
        match self {
            ExpandError::NotARecord => ExpandErrorView::NotARecord,
            ExpandError::Field { index, error } => ExpandErrorView::Field {
                index: *index as int,
                error: error@,
            },
            ExpandError::Unlexable => ExpandErrorView::Unlexable,
        }
    }
}

/// What the host makes of the formatters of fields: one answer for each
/// field, in declaration order.
pub type Answers = Seq<Answer>;

/// The directives of the fields, in their order, without the ignored
/// fields; or the first field that has none, with what is wrong with it.
/// `answers` holds the answer of the host for each field, at its position.
pub open spec fn resolve_all(fields: Seq<FieldView>, answers: Answers) -> Result<
    Seq<FieldDirectiveView>,
    ExpandErrorView,
>
    decreases fields.len(),
{
    if fields.len() == 0 {
        Ok(Seq::empty())
    } else {
        match resolve_all(fields.drop_last(), answers) {
            Err(error) => Err(error),
            Ok(directives) => match fields.last().resolve(answers[fields.len() - 1]) {
                Err(error) => Err(ExpandErrorView::Field { index: fields.len() - 1, error }),
                Ok(None) => Ok(directives),
                Ok(Some(directive)) => Ok(directives.push(directive)),
            },
        }
    }
}

impl TypeDescriptionView {
    /// The routine generated for the type. Anything but a struct with named
    /// fields is refused before any field is looked at; otherwise the first
    /// field in declaration order that has no directive ends it. `answers`
    /// holds the answer of the host for each field, at its position.
    pub open spec fn compile(self, answers: Answers) -> Result<
        GeneratedRoutineView,
        ExpandErrorView,
    > {
        if self.shape != Shape::NamedFields {
            Err(ExpandErrorView::NotARecord)
        } else {
            match resolve_all(self.fields, answers) {
                Err(error) => Err(error),
                Ok(directives) => Ok(GeneratedRoutineView { name: self.name, directives }),
            }
        }
    }

    /// How many fields have been looked at when compiling ends so: all of
    /// them where a routine is compiled, those up to the one at fault where
    /// a field is, and none before the type is known to be a struct with
    /// named fields.
    pub open spec fn looked_at(self, result: Result<GeneratedRoutineView, ExpandErrorView>) -> int {
        match result {
            Ok(_) => self.fields.len() as int,
            Err(ExpandErrorView::Field { index, .. }) => index + 1,
            Err(_) => 0,
        }
    }

    /// Whether the answers are such as the host gives on the fields: one
    /// for each field, and each of those that compiling with them looks at
    /// is what the host makes of the field's formatter, where the host is
    /// asked.
    pub open spec fn answered(self, answers: Answers) -> bool {
        &&& answers.len() == self.fields.len()
        &&& forall|j: int|
            0 <= j < self.looked_at(self.compile(answers)) && j < self.fields.len() ==> (
            #[trigger] self.fields[j]).hears(answers[j])
    }

    /// Whether a routine is what the type compiles to, for some answers of
    /// the host.
    pub open spec fn compiles_to(
        self,
        result: Result<GeneratedRoutineView, ExpandErrorView>,
    ) -> bool {
        exists|answers: Answers|
            self.answered(answers) && #[trigger] self.compile(answers) == result
    }
}

/// The view of what the compiler returns.
pub open spec fn compiled_view(r: Result<GeneratedRoutine, ExpandError>) -> Result<
    GeneratedRoutineView,
    ExpandErrorView,
> {
    match r {
        Ok(routine) => Ok(routine@),
        Err(error) => Err(error@),
    }
}

/// The directives of fields depend on the answers for those fields only.
pub(crate) proof fn lemma_answers_for_fields(fields: Seq<FieldView>, answers: Answers, others: Answers)
    requires
        forall|j: int| 0 <= j < fields.len() ==> answers[j] == others[j],
    ensures
        resolve_all(fields, answers) == resolve_all(fields, others),
    decreases fields.len(),
{
    if fields.len() > 0 {
        lemma_answers_for_fields(fields.drop_last(), answers, others);
    }
}

/// An error among the first `n` fields is the error of the whole list.
proof fn lemma_error_stays(fields: Seq<FieldView>, answers: Answers, n: int)
    requires
        0 <= n <= fields.len(),
        resolve_all(fields.take(n), answers) is Err,
    ensures
        resolve_all(fields, answers) == resolve_all(fields.take(n), answers),
    decreases fields.len() - n,
{
    if n < fields.len() {
        assert(fields.take(n + 1).drop_last() == fields.take(n));
        lemma_error_stays(fields, answers, n + 1);
    } else {
        assert(fields.take(n) == fields);
    }
}

/// Compiles a type's description into the routine that prints it. Either
/// the whole routine is returned, or the first error in declaration order.
///
/// The host is asked about the formatter of each field that has one and is
/// otherwise in order, until a field fails. The result is the one that the
/// host's answers lead to, and each formatter in the routine is the host's
/// reading of the option of its field.
pub fn compile(input: &TypeDescription) -> (r: Result<GeneratedRoutine, ExpandError>)
    ensures
        input@.compiles_to(compiled_view(r)),
{
    match input.shape {
        Shape::NamedFields => {},
        _ => {
            proof {
                let none = Seq::new(input@.fields.len(), |j: int| Err::<Seq<char>, syn::Error>(arbitrary()));
                assert(input@.answered(none));
                assert(input@.compile(none) == Err::<GeneratedRoutineView, ExpandErrorView>(
                    ExpandErrorView::NotARecord,
                ));
            }
            return Err(ExpandError::NotARecord);
        },
    }
    let ghost fields = input@.fields;
    let ghost mut answers: Answers = Seq::empty();
    let mut directives: Vec<FieldDirective> = Vec::new();
    let mut i: usize = 0;
    proof {
        assert(fields.take(0).len() == 0);
        assert(directives@.map_values(|d: FieldDirective| d@) == Seq::<
            FieldDirectiveView,
        >::empty());
    }
    while i < input.fields.len()
        invariant
            i <= input.fields.len(),
            input.shape == Shape::NamedFields,
            fields == input@.fields,
            fields.len() == input.fields.len(),
            answers.len() == i,
            forall|j: int| 0 <= j < i ==> (#[trigger] fields[j]).hears(answers[j]),
            resolve_all(fields.take(i as int), answers) == Ok::<
                Seq<FieldDirectiveView>,
                ExpandErrorView,
            >(directives@.map_values(|d: FieldDirective| d@)),
        decreases input.fields.len() - i,
    {
        let ghost before = directives@.map_values(|d: FieldDirective| d@);
        let resolved = resolve(&input.fields[i]);
        proof {
            let answer = answer_in(resolved_view(resolved));
            lemma_answers_for_fields(fields.take(i as int), answers, answers.push(answer));
            answers = answers.push(answer);
            assert(fields[i as int] == input.fields[i as int]@);
            assert(fields[i as int].hears(answers[i as int]));
            assert(fields.take(i + 1).drop_last() == fields.take(i as int));
            assert(fields.take(i + 1).last() == input.fields[i as int]@);
        }
        match resolved {
            Err(error) => {
                proof {
                    let rest = Seq::new(
                        (fields.len() - i - 1) as nat,
                        |j: int| Err::<Seq<char>, syn::Error>(arbitrary()),
                    );
                    let all = answers + rest;
                    lemma_answers_for_fields(fields.take(i + 1), answers, all);
                    assert(resolve_all(fields.take(i + 1), all) == Err::<
                        Seq<FieldDirectiveView>,
                        ExpandErrorView,
                    >(ExpandErrorView::Field { index: i as int, error: error@ }));
                    lemma_error_stays(fields, all, i + 1);
                    assert(input@.compile(all) == Err::<GeneratedRoutineView, ExpandErrorView>(
                        ExpandErrorView::Field { index: i as int, error: error@ },
                    ));
                    assert forall|j: int| 0 <= j < i + 1 implies (#[trigger] fields[j]).hears(
                        all[j],
                    ) by {
                        assert(all[j] == answers[j]);
                    }
                    assert(input@.answered(all));
                }
                return Err(ExpandError::Field { index: i, error });
            },
            Ok(None) => {},
            Ok(Some(directive)) => {
                directives.push(directive);
                assert(directives@.map_values(|d: FieldDirective| d@) == before.push(directive@));
            },
        }
        i += 1;
    }
    let routine = GeneratedRoutine { name: input.name.clone(), directives };
    proof {
        assert(fields.take(i as int) == fields);
        assert(input@.answered(answers));
        assert(input@.compile(answers) == Ok::<GeneratedRoutineView, ExpandErrorView>(routine@));
    }
    Ok(routine)
}

} // verus!
