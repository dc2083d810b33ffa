//! The option resolver: from a field and its options to the directive that
//! says how the field is printed.

use vstd::prelude::*;
use crate::host::{host_expression, parse_expression};
use crate::options::{
    enabled, is_enabled, Conflict, FieldOptions, FieldOptionsView, OptionError, OptionErrorView,
};
use crate::record::{Field, FieldView};

verus! {

/// How the value printed for a field is found.
#[derive(Clone, Debug, PartialEq, Eq)]
pub enum Strategy {
    /// The field's value.
    Plain,
    /// A fixed marker; the field's value is not read.
    Secret,
    /// What the formatter returns, or the field's value where it returns
    /// `None`.
    CustomWithFallback { formatter: String },
    /// What the formatter returns; nothing is printed where it returns
    /// `None`.
    CustomNoFallback { formatter: String },
}

/// The mathematical value of a [`Strategy`].
pub enum StrategyView {
    Plain,
    Secret,
    CustomWithFallback { formatter: Seq<char> },
    CustomNoFallback { formatter: Seq<char> },
}

impl View for Strategy {
    type V = StrategyView;

    open spec fn view(&self) -> StrategyView {
        match self {
            Strategy::Plain => StrategyView::Plain,
            Strategy::Secret => StrategyView::Secret,
            Strategy::CustomWithFallback { formatter } => StrategyView::CustomWithFallback {
                formatter: formatter@,
            },
            Strategy::CustomNoFallback { formatter } => StrategyView::CustomNoFallback {
                formatter: formatter@,
            },
        }
    }
}

/// How one field is printed.
#[derive(Clone, Debug, PartialEq, Eq)]
pub struct FieldDirective {
    /// The label that the value is printed under.
    pub label: String,
    /// The field's identifier.
    pub field: String,
    pub strategy: Strategy,
}

/// The mathematical value of a [`FieldDirective`].
pub struct FieldDirectiveView {
    pub label: Seq<char>,
    pub field: Seq<char>,
    pub strategy: StrategyView,
}

impl View for FieldDirective {
    type V = FieldDirectiveView;

    open spec fn view(&self) -> FieldDirectiveView {
        FieldDirectiveView { label: self.label@, field: self.field@, strategy: self.strategy@ }
    }
}

/// The view of an optional directive.
pub open spec fn directive_view(directive: Option<FieldDirective>) -> Option<FieldDirectiveView> {
    match directive {
        Some(d) => Some(d@),
        None => None,
    }
}

/// Why a field has no directive.
#[derive(Debug)]
pub enum FieldError {
    /// An entry of its attributes cannot be read.
    Annotation(OptionError),
    /// Its options break a rule.
    Conflict(Conflict),
    /// It has no identifier.
    MissingIdentifier,
    /// Its formatter is not an expression; the parser's error is kept.
    FormatterSyntax(syn::Error),
}

/// The mathematical value of a [`FieldError`].
pub enum FieldErrorView {
    Annotation(OptionErrorView),
    Conflict(Conflict),
    MissingIdentifier,
    FormatterSyntax(syn::Error),
}

impl View for FieldError {
    type V = FieldErrorView;

    open spec fn view(&self) -> FieldErrorView {
        match self {
            FieldError::Annotation(e) => FieldErrorView::Annotation(e@),
            FieldError::Conflict(c) => FieldErrorView::Conflict(*c),
            FieldError::MissingIdentifier => FieldErrorView::MissingIdentifier,
            FieldError::FormatterSyntax(e) => FieldErrorView::FormatterSyntax(*e),
        }
    }
}

impl FieldOptionsView {
    /// The label of a field with these options.
    pub open spec fn label(self, ident: Seq<char>) -> Seq<char> {
        match self.rename_to {
            Some(name) => name,
            None => ident,
        }
    }

    /// The directive of the field `ident` with these options, where
    /// `formatter` is its formatter as an expression, if it has one. An
    /// ignored field has none.
    pub open spec fn directive(self, ident: Seq<char>, formatter: Option<Seq<char>>) -> Option<
        FieldDirectiveView,
    > {
        if enabled(self.ignore) {
            None
        } else {
            Some(
                FieldDirectiveView {
                    label: self.label(ident),
                    field: ident,
                    strategy: match formatter {
                        Some(formatter) => if enabled(self.cust_formatter_skip_if_none) {
                            StrategyView::CustomNoFallback { formatter }
                        } else {
                            StrategyView::CustomWithFallback { formatter }
                        },
                        None => if enabled(self.secret) {
                            StrategyView::Secret
                        } else {
                            StrategyView::Plain
                        },
                    },
                },
            )
        }
    }
}

impl StrategyView {
    /// The formatter of the strategy, if it has one.
    pub open spec fn formatter(self) -> Option<Seq<char>> {
        match self {
            StrategyView::CustomWithFallback { formatter } => Some(formatter),
            StrategyView::CustomNoFallback { formatter } => Some(formatter),
            _ => None,
        }
    }
}

/// What the host makes of a formatter: the tokens of the expression that
/// it reads, as they print, or its error where it reads none.
pub type Answer = Result<Seq<char>, syn::Error>;

impl FieldView {
    /// The string that the host is asked to read as an expression: the
    /// field's formatter, where nothing is wrong with the field before the
    /// formatter is looked at. `None` where the host is not asked.
    pub open spec fn asks(self) -> Option<Seq<char>> {
        match FieldOptionsView::read(self.annotations) {
            Ok(options) => if options.is_invalid() || self.ident is None {
                None
            } else {
                options.cust_formatter
            },
            Err(_) => None,
        }
    }

    /// Whether an answer is one that the host gives on the field: where the
    /// host is asked, the answer is what it makes of the field's formatter.
    pub open spec fn hears(self, answer: Answer) -> bool {
        match self.asks() {
            Some(source) => host_expression(
                source,
                match answer {
                    Ok(printed) => Some(printed),
                    Err(_) => None,
                },
            ),
            None => true,
        }
    }

    /// What the resolver makes of the field: its directive, `None` where it
    /// is ignored, or the first thing wrong with it. The entries are read
    /// first, then the rules on the options are checked, then the
    /// identifier, then the formatter.
    ///
    /// `answer` is what the host makes of the formatter. It counts only
    /// where the host is asked.
    pub open spec fn resolve(self, answer: Answer) -> Result<
        Option<FieldDirectiveView>,
        FieldErrorView,
    > {
        match FieldOptionsView::read(self.annotations) {
            Err(error) => Err(FieldErrorView::Annotation(error)),
            Ok(options) => match options.conflict() {
                Some(conflict) => Err(FieldErrorView::Conflict(conflict)),
                None => match self.ident {
                    None => Err(FieldErrorView::MissingIdentifier),
                    Some(ident) => match options.cust_formatter {
                        None => Ok(options.directive(ident, None)),
                        Some(_) => match answer {
                            Err(error) => Err(FieldErrorView::FormatterSyntax(error)),
                            Ok(formatter) => Ok(options.directive(ident, Some(formatter))),
                        },
                    },
                },
            },
        }
    }
}

/// The answer of the host that a result of the resolver shows: the
/// formatter of its directive, or the error on the formatter. A result that
/// shows none stands for an empty expression, which is as good as any.
pub open spec fn answer_in(result: Result<Option<FieldDirectiveView>, FieldErrorView>) -> Answer {
    match result {
        Ok(Some(directive)) => match directive.strategy.formatter() {
            Some(formatter) => Ok(formatter),
            None => Ok(Seq::empty()),
        },
        Err(FieldErrorView::FormatterSyntax(error)) => Err(error),
        _ => Ok(Seq::empty()),
    }
}

impl FieldOptions {
    /// The directive of the field `ident` with these options, where
    /// `formatter` is its formatter as an expression, if it has one.
    pub fn directive(&self, ident: &str, formatter: Option<String>) -> (r: Option<FieldDirective>)
        ensures
            directive_view(r) == self@.directive(
                ident@,
                match formatter {
                    Some(f) => Some(f@),
                    None => None,
                },
            ),
    {
        if is_enabled(&self.ignore) {
            return None;
        }
        let label = match &self.rename_to {
            Some(name) => name.clone(),
            None => String::from_str(ident),
        };
        let strategy = match formatter {
            Some(formatter) => if is_enabled(&self.cust_formatter_skip_if_none) {
                Strategy::CustomNoFallback { formatter }
            } else {
                Strategy::CustomWithFallback { formatter }
            },
            None => if is_enabled(&self.secret) {
                Strategy::Secret
            } else {
                Strategy::Plain
            },
        };
        Some(FieldDirective { label, field: String::from_str(ident), strategy })
    }
}

/// The view of what the resolver returns.
pub open spec fn resolved_view(r: Result<Option<FieldDirective>, FieldError>) -> Result<
    Option<FieldDirectiveView>,
    FieldErrorView,
> {
    match r {
        Ok(directive) => Ok(directive_view(directive)),
        Err(error) => Err(error@),
    }
}

/// Resolves a field: reads its options, checks them, and chooses its
/// directive. `Ok(None)` is an ignored field.
///
/// A field with a formatter that is otherwise in order is resolved with the
/// host, which is asked to read the formatter as an expression. The result
/// is the one that the host's answer leads to, and shows that answer: the
/// host's error, or the formatter as the host read it from the field's
/// option. Any other field resolves the same way whatever the host would
/// say.
pub fn resolve(field: &Field) -> (r: Result<Option<FieldDirective>, FieldError>)
    ensures
        resolved_view(r) == field@.resolve(answer_in(resolved_view(r))),
        field@.hears(answer_in(resolved_view(r))),
        field@.asks() is None ==> forall|answer: Answer|
            resolved_view(r) == #[trigger] field@.resolve(answer),
{
    let options = match FieldOptions::from_annotations(&field.annotations) {
        Ok(options) => options,
        Err(error) => return Err(FieldError::Annotation(error)),
    };
    if let Some(conflict) = options.conflict() {
        return Err(FieldError::Conflict(conflict));
    }
    let ident = match &field.ident {
        Some(ident) => ident,
        None => return Err(FieldError::MissingIdentifier),
    };
    let formatter = match &options.cust_formatter {
        None => None,
        Some(source) => match parse_expression(source.as_str()) {
            Ok(tokens) => Some(tokens),
            Err(error) => return Err(FieldError::FormatterSyntax(error)),
        },
    };
    Ok(options.directive(ident.as_str(), formatter))
}

} // verus!
