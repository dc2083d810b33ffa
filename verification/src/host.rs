//! What the host toolchain does for the generator: it says whether a string
//! is an expression, writes a string as a literal, and reads source text as
//! tokens.
//!
//! Nothing in this module is proved. `proc_macro2` answers through the
//! compiler inside a procedural macro and through its own lexer elsewhere,
//! so none of these results is a function of the arguments alone, and two
//! calls on one argument may differ. What a contract here claims is that
//! the result of a call is one that the host gives for the argument of that
//! call: each relation below holds of an argument and a result exactly
//! where the host can give that result for that argument. It claims
//! nothing of which result that is. The rest of the library is verified for
//! every result that may come back.

use vstd::prelude::*;
use quote::ToTokens;
use std::str::FromStr;

verus! {

/// `proc_macro2::TokenStream`: a sequence of token trees. Nothing is known
/// of one but how it prints.
#[verifier::external_type_specification]
#[verifier::external_body]
pub struct ExTokenStream(proc_macro2::TokenStream);

/// `proc_macro2::LexError`: why source text does not read as tokens.
/// Nothing is known of one.
#[verifier::external_type_specification]
#[verifier::external_body]
pub struct ExLexError(proc_macro2::LexError);

/// `syn::Error`: why tokens do not parse, with the place. Nothing is known
/// of one.
#[verifier::external_type_specification]
#[verifier::external_body]
pub struct ExSynError(syn::Error);

/// What a token stream holds: its tokens as they print.
pub uninterp spec fn printed(tokens: proc_macro2::TokenStream) -> Seq<char>;

/// Whether the host can make `read` of `source`: tokens that print so, or
/// `None` where it does not read `source` as tokens.
pub uninterp spec fn host_read(source: Seq<char>, read: Option<Seq<char>>) -> bool;

/// Whether the host can write `value` as the string literal `literal`,
/// quotes and escapes included.
pub uninterp spec fn host_literal(value: Seq<char>, literal: Seq<char>) -> bool;

/// Whether the host can make `read` of `source`: one expression whose
/// tokens print so, or `None` where it does not read `source` as one
/// expression.
pub uninterp spec fn host_expression(source: Seq<char>, read: Option<Seq<char>>) -> bool;

/// Parses a string as one expression with `syn::parse_str::<syn::Expr>`,
/// and prints the tokens of the expression. The contract claims only that
/// what comes back, a text or a refusal, is what the host makes of this
/// string; nothing is claimed of when the host refuses, nor of its error.
#[verifier::external_body]
pub(crate) fn parse_expression(source: &str) -> (r: Result<String, syn::Error>)
    ensures
        host_expression(
            source@,
            match r {
                Ok(printed) => Some(printed@),
                Err(_) => None,
            },
        ),
{
    match syn::parse_str::<syn::Expr>(source) {
        Ok(expr) => Ok(expr.to_token_stream().to_string()),
        Err(error) => Err(error),
    }
}

/// Writes a value as a string literal, quotes and escapes included, with
/// `proc_macro2::Literal::string`. The contract claims only that the text
/// is one that the host writes for this value.
#[verifier::external_body]
pub(crate) fn string_literal(value: &str) -> (r: String)
    ensures
        host_literal(value@, r@),
{
    proc_macro2::Literal::string(value).to_string()
}

/// Reads source text as tokens with `proc_macro2::TokenStream::from_str`.
/// The contract claims only that what comes back, a stream or a refusal, is
/// what the host makes of this text; nothing is claimed of when the host
/// refuses, nor of its error.
#[verifier::external_body]
pub(crate) fn lex(source: &str) -> (r: Result<proc_macro2::TokenStream, proc_macro2::LexError>)
    ensures
        host_read(
            source@,
            match r {
                Ok(tokens) => Some(printed(tokens)),
                Err(_) => None,
            },
        ),
{
    proc_macro2::TokenStream::from_str(source)
}

} // verus!
