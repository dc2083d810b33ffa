//! The options that can be set on one field: how they are read from the
//! entries of the field's attributes, and the rules on combining them.

use vstd::prelude::*;
use crate::record::{Annotation, AnnotationView, Value, ValueView};

verus! {

/// The five options that a field can carry.
#[derive(Clone, Copy, Debug, PartialEq, Eq, Structural)]
pub enum Key {
    Ignore,
    RenameTo,
    Secret,
    CustFormatter,
    CustFormatterSkipIfNone,
}

/// The options of one field. A boolean option that is absent counts as
/// false.
#[derive(Clone, Debug, PartialEq, Eq)]
pub struct FieldOptions {
    /// Leave the field out of the output.
    pub ignore: Option<bool>,
    /// Print the field under this label.
    pub rename_to: Option<String>,
    /// Print a fixed marker in place of the value.
    pub secret: Option<bool>,
    /// A function that is handed the whole record and returns an optional
    /// printable value.
    pub cust_formatter: Option<String>,
    /// Print nothing where the formatter returns `None`.
    pub cust_formatter_skip_if_none: Option<bool>,
}

/// The mathematical value of a [`FieldOptions`].
pub struct FieldOptionsView {
    pub ignore: Option<bool>,
    pub rename_to: Option<Seq<char>>,
    pub secret: Option<bool>,
    pub cust_formatter: Option<Seq<char>>,
    pub cust_formatter_skip_if_none: Option<bool>,
}

/// The view of an optional string.
pub open spec fn text_view(text: Option<String>) -> Option<Seq<char>> {
    match text {
        Some(s) => Some(s@),
        None => None,
    }
}

impl View for FieldOptions {
    type V = FieldOptionsView;

    open spec fn view(&self) -> FieldOptionsView {
        FieldOptionsView {
            ignore: self.ignore,
            rename_to: text_view(self.rename_to),
            secret: self.secret,
            cust_formatter: text_view(self.cust_formatter),
            cust_formatter_skip_if_none: self.cust_formatter_skip_if_none,
        }
    }
}

/// What is wrong with an entry.
#[derive(Clone, Copy, Debug, PartialEq, Eq, Structural)]
pub enum Problem {
    /// The name is none of the five options.
    UnknownOption,
    /// An earlier entry has set the same option.
    DuplicateOption,
    /// The value is not of the kind that the option takes.
    MalformedValue,
}

/// The first entry of a field that cannot be read, and why.
#[derive(Clone, Copy, Debug, PartialEq, Eq, Structural)]
pub struct OptionError {
    /// The position of the entry among the field's entries.
    pub entry: usize,
    pub problem: Problem,
}

/// The mathematical value of an [`OptionError`].
pub struct OptionErrorView {
    pub entry: int,
    pub problem: Problem,
}

impl View for OptionError {
    type V = OptionErrorView;

    open spec fn view(&self) -> OptionErrorView {
        OptionErrorView { entry: self.entry as int, problem: self.problem }
    }
}

/// The rule that a combination of options breaks.
#[derive(Clone, Copy, Debug, PartialEq, Eq, Structural)]
pub enum Conflict {
    /// `ignore` together with any other option.
    IgnoredWithOptions,
    /// `cust_formatter_skip_if_none` without `cust_formatter`.
    SkipWithoutFormatter,
    /// `secret` together with `cust_formatter`.
    SecretWithFormatter,
}

/// The option that a name stands for; `None` for any other name.
pub open spec fn key_of(name: Seq<char>) -> Option<Key> {
    if name == "ignore"@ {
        Some(Key::Ignore)
    } else if name == "rename_to"@ {
        Some(Key::RenameTo)
    } else if name == "secret"@ {
        Some(Key::Secret)
    } else if name == "cust_formatter"@ {
        Some(Key::CustFormatter)
    } else if name == "cust_formatter_skip_if_none"@ {
        Some(Key::CustFormatterSkipIfNone)
    } else {
        None
    }
}

/// What a boolean option is set to by an entry's value: true where the name
/// stands alone, the literal where one is given. `None` for any other value.
pub open spec fn flag_of(value: Option<ValueView>) -> Option<bool> {
    match value {
        None => Some(true),
        Some(ValueView::Flag(b)) => Some(b),
        Some(_) => None,
    }
}

/// What a string option is set to by an entry's value. `None` unless the
/// value is a string.
pub open spec fn text_of(value: Option<ValueView>) -> Option<Seq<char>> {
    match value {
        Some(ValueView::Text(s)) => Some(s),
        _ => None,
    }
}

/// Whether a flag is present and true.
pub open spec fn enabled(flag: Option<bool>) -> bool {
    flag == Some(true)
}

impl FieldOptionsView {
    /// No option set.
    pub open spec fn empty() -> FieldOptionsView {
        FieldOptionsView {
            ignore: None,
            rename_to: None,
            secret: None,
            cust_formatter: None,
            cust_formatter_skip_if_none: None,
        }
    }

    /// Whether an option has been set.
    pub open spec fn has(self, key: Key) -> bool {
        match key {
            Key::Ignore => self.ignore is Some,
            Key::RenameTo => self.rename_to is Some,
            Key::Secret => self.secret is Some,
            Key::CustFormatter => self.cust_formatter is Some,
            Key::CustFormatterSkipIfNone => self.cust_formatter_skip_if_none is Some,
        }
    }

    /// The options after one more entry has been read. The entry must name
    /// an option that is not set yet, and give it a value of its kind.
    pub open spec fn with(self, entry: AnnotationView) -> Result<FieldOptionsView, Problem> {
        match key_of(entry.name) {
            None => Err(Problem::UnknownOption),
            Some(key) => if self.has(key) {
                Err(Problem::DuplicateOption)
            } else {
                match key {
                    Key::Ignore => match flag_of(entry.value) {
                        Some(b) => Ok(FieldOptionsView { ignore: Some(b), ..self }),
                        None => Err(Problem::MalformedValue),
                    },
                    Key::RenameTo => match text_of(entry.value) {
                        Some(s) => Ok(FieldOptionsView { rename_to: Some(s), ..self }),
                        None => Err(Problem::MalformedValue),
                    },
                    Key::Secret => match flag_of(entry.value) {
                        Some(b) => Ok(FieldOptionsView { secret: Some(b), ..self }),
                        None => Err(Problem::MalformedValue),
                    },
                    Key::CustFormatter => match text_of(entry.value) {
                        Some(s) => Ok(FieldOptionsView { cust_formatter: Some(s), ..self }),
                        None => Err(Problem::MalformedValue),
                    },
                    Key::CustFormatterSkipIfNone => match flag_of(entry.value) {
                        Some(b) => Ok(
                            FieldOptionsView { cust_formatter_skip_if_none: Some(b), ..self },
                        ),
                        None => Err(Problem::MalformedValue),
                    },
                }
            },
        }
    }

    /// The options after the entries from `start` on have been read, one
    /// after the other; the first entry that cannot be read ends it.
    pub open spec fn read_from(self, entries: Seq<AnnotationView>, start: int) -> Result<
        FieldOptionsView,
        OptionErrorView,
    >
        decreases entries.len() - start,
    {
        if start < 0 || start >= entries.len() {
            Ok(self)
        } else {
            match self.with(entries[start]) {
                Err(problem) => Err(OptionErrorView { entry: start, problem }),
                Ok(next) => next.read_from(entries, start + 1),
            }
        }
    }

    /// The options that a field's entries set.
    pub open spec fn read(entries: Seq<AnnotationView>) -> Result<
        FieldOptionsView,
        OptionErrorView,
    > {
        Self::empty().read_from(entries, 0)
    }

    /// The first rule that the options break, if any: `ignore` excludes
    /// every other option, `cust_formatter_skip_if_none` needs a formatter,
    /// and `secret` excludes a formatter.
    pub open spec fn conflict(self) -> Option<Conflict> {
        if enabled(self.ignore) && (self.rename_to is Some || enabled(self.secret)
            || self.cust_formatter is Some || enabled(self.cust_formatter_skip_if_none)) {
            Some(Conflict::IgnoredWithOptions)
        } else if self.cust_formatter is None && enabled(self.cust_formatter_skip_if_none) {
            Some(Conflict::SkipWithoutFormatter)
        } else if enabled(self.secret) && self.cust_formatter is Some {
            Some(Conflict::SecretWithFormatter)
        } else {
            None
        }
    }

    /// Whether the options break a rule.
    pub open spec fn is_invalid(self) -> bool {
        ||| enabled(self.ignore) && (self.rename_to is Some || enabled(self.secret)
            || self.cust_formatter is Some || enabled(self.cust_formatter_skip_if_none))
        ||| enabled(self.cust_formatter_skip_if_none) && self.cust_formatter is None
        ||| enabled(self.secret) && self.cust_formatter is Some
    }
}

impl Conflict {
    /// The rule in words.
    pub open spec fn message_text(self) -> Seq<char> {
        match self {
            Conflict::IgnoredWithOptions => "incompatible options"@,
            Conflict::SkipWithoutFormatter => "skip-if-none requires a custom formatter"@,
            Conflict::SecretWithFormatter => "secret and custom formatter are mutually exclusive"@,
        }
    }

    /// The rule in words, for a diagnostic.
    pub fn message(&self) -> (r: &'static str)
        ensures
            r@ == self.message_text(),
    {
        match self {
            Conflict::IgnoredWithOptions => "incompatible options",
            Conflict::SkipWithoutFormatter => "skip-if-none requires a custom formatter",
            Conflict::SecretWithFormatter => "secret and custom formatter are mutually exclusive",
        }
    }
}

/// Whether a name is the given option name.
fn named(name: &String, option: &str) -> (r: bool)
    ensures
        r == (name@ == option@),
{
    let key = String::from_str(option);
    *name == key
}

/// The option that a name stands for; `None` for any other name.
pub fn recognize(name: &String) -> (r: Option<Key>)
    ensures
        r == key_of(name@),
{
    if named(name, "ignore") {
        Some(Key::Ignore)
    } else if named(name, "rename_to") {
        Some(Key::RenameTo)
    } else if named(name, "secret") {
        Some(Key::Secret)
    } else if named(name, "cust_formatter") {
        Some(Key::CustFormatter)
    } else if named(name, "cust_formatter_skip_if_none") {
        Some(Key::CustFormatterSkipIfNone)
    } else {
        None
    }
}

/// What a boolean option is set to by an entry's value.
fn flag(value: &Option<Value>) -> (r: Option<bool>)
    ensures
        r == flag_of(
            match *value {
                Some(v) => Some(v@),
                None => None,
            },
        ),
{
    match value {
        None => Some(true),
        Some(Value::Flag(b)) => Some(*b),
        Some(_) => None,
    }
}

/// What a string option is set to by an entry's value.
fn text(value: &Option<Value>) -> (r: Option<String>)
    ensures
        text_view(r) == text_of(
            match *value {
                Some(v) => Some(v@),
                None => None,
            },
        ),
{
    match value {
        Some(Value::Text(s)) => Some(s.clone()),
        _ => None,
    }
}

/// Whether a flag is present and true.
pub fn is_enabled(flag: &Option<bool>) -> (r: bool)
    ensures
        r == enabled(*flag),
{
    match flag {
        Some(b) => *b,
        None => false,
    }
}

impl Default for FieldOptions {
    /// No option set.
    fn default() -> (r: FieldOptions)
        ensures
            r@ == FieldOptionsView::empty(),
    {
        FieldOptions {
            ignore: None,
            rename_to: None,
            secret: None,
            cust_formatter: None,
            cust_formatter_skip_if_none: None,
        }
    }
}

impl FieldOptions {
    /// Whether an option has been set.
    fn has(&self, key: Key) -> (r: bool)
        ensures
            r == self@.has(key),
    {
        match key {
            Key::Ignore => self.ignore.is_some(),
            Key::RenameTo => self.rename_to.is_some(),
            Key::Secret => self.secret.is_some(),
            Key::CustFormatter => self.cust_formatter.is_some(),
            Key::CustFormatterSkipIfNone => self.cust_formatter_skip_if_none.is_some(),
        }
    }

    /// Reads one more entry into the options. On an entry that cannot be
    /// read the options stay as they were.
    fn read_entry(&mut self, entry: &Annotation) -> (r: Result<(), Problem>)
        ensures
            match r {
                Ok(()) => old(self)@.with(entry@) == Ok::<FieldOptionsView, Problem>(final(self)@),
                Err(problem) => old(self)@.with(entry@) == Err::<FieldOptionsView, Problem>(problem)
                    && final(self)@ == old(self)@,
            },
    {
        let key = match recognize(&entry.name) {
            Some(key) => key,
            None => return Err(Problem::UnknownOption),
        };
        if self.has(key) {
            return Err(Problem::DuplicateOption);
        }
        match key {
            Key::Ignore => match flag(&entry.value) {
                Some(b) => self.ignore = Some(b),
                None => return Err(Problem::MalformedValue),
            },
            Key::RenameTo => match text(&entry.value) {
                Some(s) => self.rename_to = Some(s),
                None => return Err(Problem::MalformedValue),
            },
            Key::Secret => match flag(&entry.value) {
                Some(b) => self.secret = Some(b),
                None => return Err(Problem::MalformedValue),
            },
            Key::CustFormatter => match text(&entry.value) {
                Some(s) => self.cust_formatter = Some(s),
                None => return Err(Problem::MalformedValue),
            },
            Key::CustFormatterSkipIfNone => match flag(&entry.value) {
                Some(b) => self.cust_formatter_skip_if_none = Some(b),
                None => return Err(Problem::MalformedValue),
            },
        }
        Ok(())
    }

    /// Reads the options that a field's entries set. Each option can be set
    /// once; a boolean option takes no value or a boolean, a string option a
    /// string. The first entry that breaks this is reported.
    pub fn from_annotations(annotations: &Vec<Annotation>) -> (r: Result<FieldOptions, OptionError>)
        ensures
            match r {
                Ok(options) => FieldOptionsView::read(annotations@.map_values(|a: Annotation| a@))
                    == Ok::<FieldOptionsView, OptionErrorView>(options@),
                Err(error) => FieldOptionsView::read(annotations@.map_values(|a: Annotation| a@))
                    == Err::<FieldOptionsView, OptionErrorView>(error@),
            },
    {
        let mut options = FieldOptions::default();
        let ghost entries = annotations@.map_values(|a: Annotation| a@);
        let mut i: usize = 0;
        while i < annotations.len()
            invariant
                i <= annotations.len(),
                entries == annotations@.map_values(|a: Annotation| a@),
                FieldOptionsView::read(entries) == options@.read_from(entries, i as int),
            decreases annotations.len() - i,
        {
            match options.read_entry(&annotations[i]) {
                Ok(()) => {},
                Err(problem) => {
                    return Err(OptionError { entry: i, problem });
                },
            }
            i += 1;
        }
        Ok(options)
    }

    /// The first rule that the options break, if any; there is one exactly
    /// where the options are invalid.
    pub fn conflict(&self) -> (r: Option<Conflict>)
        ensures
            r == self@.conflict(),
            r is Some <==> self@.is_invalid(),
    {
        let ignore = is_enabled(&self.ignore);
        let secret = is_enabled(&self.secret);
        let skip = is_enabled(&self.cust_formatter_skip_if_none);
        if ignore && (self.rename_to.is_some() || secret || self.cust_formatter.is_some() || skip) {
            Some(Conflict::IgnoredWithOptions)
        } else if self.cust_formatter.is_none() && skip {
            Some(Conflict::SkipWithoutFormatter)
        } else if secret && self.cust_formatter.is_some() {
            Some(Conflict::SecretWithFormatter)
        } else {
            None
        }
    }

    /// Whether the options break a rule. With `ignore`, no other option
    /// makes sense; skipping needs a formatter; and a secret has none.
    pub fn is_invalid(&self) -> (r: bool)
        ensures
            r == self@.is_invalid(),
    {
        self.conflict().is_some()
    }
}

} // verus!
