//! The description of a type that the generator is given: its name, its
//! shape, and its fields with the options written on them.

use vstd::prelude::*;

verus! {

/// The value that an option was written with, after `=`.
#[derive(Clone, Debug, PartialEq, Eq)]
pub enum Value {
    /// A boolean literal: `secret = true`.
    Flag(bool),
    /// A string literal: `rename_to = "name"`.
    Text(String),
    /// Anything else: another literal, a list, an expression.
    Unsupported,
}

/// The mathematical value of a [`Value`].
pub enum ValueView {
    Flag(bool),
    Text(Seq<char>),
    Unsupported,
}

impl View for Value {
    type V = ValueView;

    open spec fn view(&self) -> ValueView {
        match self {
            Value::Flag(b) => ValueView::Flag(*b),
            Value::Text(s) => ValueView::Text(s@),
            Value::Unsupported => ValueView::Unsupported,
        }
    }
}

/// One entry of a field's `better_debug` attributes: a name, alone or with a
/// value.
#[derive(Clone, Debug, PartialEq, Eq)]
pub struct Annotation {
    pub name: String,
    /// `None` where the name stands alone.
    pub value: Option<Value>,
}

/// The mathematical value of an [`Annotation`].
pub struct AnnotationView {
    pub name: Seq<char>,
    pub value: Option<ValueView>,
}

impl View for Annotation {
    type V = AnnotationView;

    open spec fn view(&self) -> AnnotationView {
        AnnotationView {
            name: self.name@,
            value: match self.value {
                Some(v) => Some(v@),
                None => None,
            },
        }
    }
}

/// One field of the described type.
#[derive(Clone, Debug, PartialEq, Eq)]
pub struct Field {
    /// The field's identifier; `None` for a positional field.
    pub ident: Option<String>,
    /// The entries of all its `better_debug` attributes, in source order.
    pub annotations: Vec<Annotation>,
}

/// The mathematical value of a [`Field`].
pub struct FieldView {
    pub ident: Option<Seq<char>>,
    pub annotations: Seq<AnnotationView>,
}

impl View for Field {
    type V = FieldView;

    open spec fn view(&self) -> FieldView {
        FieldView {
            ident: match self.ident {
                Some(s) => Some(s@),
                None => None,
            },
            annotations: self.annotations@.map_values(|a: Annotation| a@),
        }
    }
}

/// What kind of type is described.
#[derive(Clone, Copy, Debug, PartialEq, Eq, Structural)]
pub enum Shape {
    /// A struct with named fields: `struct S { a: A }`.
    NamedFields,
    /// A struct with positional fields: `struct S(A);`.
    PositionalFields,
    /// A struct without fields: `struct S;`.
    Unit,
    /// An `enum`.
    TaggedUnion,
    /// A `union`.
    Union,
}

/// The type that a `Debug` implementation is to be generated for.
#[derive(Clone, Debug, PartialEq, Eq)]
pub struct TypeDescription {
    pub name: String,
    pub shape: Shape,
    /// The fields in declaration order.
    pub fields: Vec<Field>,
}

/// The mathematical value of a [`TypeDescription`].
pub struct TypeDescriptionView {
    pub name: Seq<char>,
    pub shape: Shape,
    pub fields: Seq<FieldView>,
}

impl View for TypeDescription {
    type V = TypeDescriptionView;

    open spec fn view(&self) -> TypeDescriptionView {
        TypeDescriptionView {
            name: self.name@,
            shape: self.shape,
            fields: self.fields@.map_values(|f: Field| f@),
        }
    }
}

} // verus!
