//! From a type's description to the tokens of its `Debug` implementation.

use vstd::prelude::*;
use crate::host::{host_read, lex, printed};
use crate::record::{TypeDescription, TypeDescriptionView};
use crate::routine::{compile, compiled_view, Answers, ExpandError, ExpandErrorView};

verus! {

/// How generating ends: with tokens, here as they print, or with an error.
pub open spec fn outcome(r: Result<proc_macro2::TokenStream, ExpandError>) -> Result<
    Seq<char>,
    ExpandErrorView,
> {
    match r {
        Ok(tokens) => Ok(printed(tokens)),
        Err(error) => Err(error@),
    }
}

impl TypeDescriptionView {
    /// How generating ends for the type, where `answers` holds the answer
    /// of the host on the formatter of each field, and `read` the tokens
    /// that the host reads from the source of the routine, as they print;
    /// `None` where it reads none.
    pub open spec fn expand(self, answers: Answers, read: Option<Seq<char>>) -> Result<
        Seq<char>,
        ExpandErrorView,
    > {
        match self.compile(answers) {
            Err(error) => Err(error),
            Ok(_) => match read {
                Some(tokens) => Ok(tokens),
                None => Err(ExpandErrorView::Unlexable),
            },
        }
    }

    /// Whether `read` is such as the host gives on the routine that the
    /// type compiles to: it is what the host makes of a source of that
    /// routine. Where there is no routine, the host is not asked.
    pub open spec fn lexed(self, answers: Answers, read: Option<Seq<char>>) -> bool {
        match self.compile(answers) {
            Ok(routine) => exists|text: Seq<char>|
                routine.written_as(text) && #[trigger] host_read(text, read),
            Err(_) => true,
        }
    }

    /// Whether generating can end so for the type, for some answers of the
    /// host: on the formatters of the fields, and on the source of the
    /// routine.
    pub open spec fn expands_to(self, end: Result<Seq<char>, ExpandErrorView>) -> bool {
        exists|answers: Answers, read: Option<Seq<char>>|
            self.answered(answers) && self.lexed(answers, read) && #[trigger] self.expand(
                answers,
                read,
            ) == end
    }
}

/// Generates the `Debug` implementation of a type: compiles its routine,
/// writes the routine's source and has the host read it as tokens. Nothing
/// is generated on an error.
///
/// Tokens are returned exactly where a routine is compiled and the host
/// reads its source, and they are the tokens that the host reads from a
/// source of that routine. An error is the first error of the type, or says
/// that the host does not read a source of the routine.
pub fn expand(input: &TypeDescription) -> (r: Result<proc_macro2::TokenStream, ExpandError>)
    ensures
        input@.expands_to(outcome(r)),
{
    let compiled = compile(input);
    let ghost answers = choose|answers: Answers|
        input@.answered(answers) && #[trigger] input@.compile(answers) == compiled_view(compiled);
    let routine = match compiled {
        Ok(routine) => routine,
        Err(error) => {
            proof {
                assert(input@.lexed(answers, None));
                assert(input@.expand(answers, None) == Err::<Seq<char>, ExpandErrorView>(error@));
            }
            return Err(error);
        },
    };
    let source = routine.source();
    match lex(source.as_str()) {
        Ok(tokens) => {
            proof {
                let read = Some(printed(tokens));
                assert(routine@.written_as(source@) && host_read(source@, read));
                assert(input@.lexed(answers, read));
                assert(input@.expand(answers, read) == Ok::<Seq<char>, ExpandErrorView>(
                    printed(tokens),
                ));
            }
            Ok(tokens)
        },
        Err(_) => {
            proof {
                assert(routine@.written_as(source@) && host_read(source@, None));
                assert(input@.lexed(answers, None));
                assert(input@.expand(answers, None) == Err::<Seq<char>, ExpandErrorView>(
                    ExpandErrorView::Unlexable,
                ));
            }
            Err(ExpandError::Unlexable)
        },
    }
}

} // verus!
