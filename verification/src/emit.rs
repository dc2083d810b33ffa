//! The source text of the generated routine.

use vstd::prelude::*;
use crate::directive::{FieldDirective, FieldDirectiveView, Strategy, StrategyView};
use crate::host::{host_literal, string_literal};
use crate::routine::{GeneratedRoutine, GeneratedRoutineView};

verus! {

/// The statement that appends a label, written as a string literal, and a
/// value, written as an expression, to the builder.
pub open spec fn append_source(label_literal: Seq<char>, value: Seq<char>) -> Seq<char> {
    "dbg_struct.field("@ + label_literal + ", &"@ + value + ");"@
}

/// The expression that reads a field of the printed value.
pub open spec fn member_source(field: Seq<char>) -> Seq<char> {
    "self."@ + field
}

/// The condition under which a formatter has returned a value, bound to
/// `out`.
pub open spec fn formatted_source(formatter: Seq<char>) -> Seq<char> {
    "if let Some(out) = "@ + formatter + "(&self)"@
}

/// The instruction for one field: `label_literal` is its label as a string
/// literal, `field` its identifier.
pub open spec fn instruction_source(
    label_literal: Seq<char>,
    field: Seq<char>,
    strategy: StrategyView,
) -> Seq<char> {
    match strategy {
        StrategyView::Plain => append_source(label_literal, member_source(field)),
        StrategyView::Secret => append_source(label_literal, "\"<SECRET>\""@),
        StrategyView::CustomWithFallback { formatter } => formatted_source(formatter) + " { "@
            + append_source(label_literal, "out"@) + " } else { "@ + append_source(
            label_literal,
            member_source(field),
        ) + " }"@,
        StrategyView::CustomNoFallback { formatter } => formatted_source(formatter) + " { "@
            + append_source(label_literal, "out"@) + " }"@,
    }
}

/// The whole `impl` block: `name` is the type's name, `name_literal` the
/// same as a string literal, `body` the instructions.
pub open spec fn impl_source(name: Seq<char>, name_literal: Seq<char>, body: Seq<char>) -> Seq<
    char,
> {
    "impl core::fmt::Debug for "@ + name
        + " {\n    fn fmt(&self, f: &mut core::fmt::Formatter) -> core::fmt::Result {\n        let mut dbg_struct = f.debug_struct("@
        + name_literal + ");\n"@ + body + "        dbg_struct.finish()\n    }\n}\n"@
}

impl FieldDirectiveView {
    /// The directive's instruction, where `label_literal` is its label as
    /// a string literal.
    pub open spec fn source(self, label_literal: Seq<char>) -> Seq<char> {
        instruction_source(label_literal, self.field, self.strategy)
    }
}

/// The instructions of the directives, one on a line, in their order.
/// `label_literals` holds the label of each directive as a string literal,
/// at its position.
pub open spec fn body_source(
    directives: Seq<FieldDirectiveView>,
    label_literals: Seq<Seq<char>>,
) -> Seq<char>
    decreases directives.len(),
{
    if directives.len() == 0 {
        Seq::empty()
    } else {
        body_source(directives.drop_last(), label_literals) + "        "@
            + directives.last().source(label_literals[directives.len() - 1]) + "\n"@
    }
}

impl GeneratedRoutineView {
    /// The routine as source text, where `name_literal` is the type's name
    /// as a string literal, and `label_literals` holds the label of each
    /// directive as one.
    pub open spec fn source(
        self,
        name_literal: Seq<char>,
        label_literals: Seq<Seq<char>>,
    ) -> Seq<char> {
        impl_source(self.name, name_literal, body_source(self.directives, label_literals))
    }

    /// Whether the literals are such as the host writes for the routine:
    /// the type's name, and the label of each directive at its position.
    pub open spec fn quoted(self, name_literal: Seq<char>, label_literals: Seq<Seq<char>>) -> bool {
        &&& host_literal(self.name, name_literal)
        &&& label_literals.len() == self.directives.len()
        &&& forall|j: int|
            0 <= j < self.directives.len() ==> host_literal(
                (#[trigger] self.directives[j]).label,
                label_literals[j],
            )
    }

    /// Whether a text is the source of the routine, with its name and its
    /// labels written as string literals by the host.
    pub open spec fn written_as(self, text: Seq<char>) -> bool {
        exists|name_literal: Seq<char>, label_literals: Seq<Seq<char>>|
            self.quoted(name_literal, label_literals) && #[trigger] self.source(
                name_literal,
                label_literals,
            ) == text
    }
}

/// Writes the statement that appends a label and a value to the builder.
fn append_statement(label_literal: &str, value: &str) -> (r: String)
    ensures
        r@ == append_source(label_literal@, value@),
{
    let mut text = String::from_str("dbg_struct.field(");
    text.append(label_literal);
    text.append(", &");
    text.append(value);
    text.append(");");
    text
}

/// Writes the expression that reads a field.
fn member(field: &str) -> (r: String)
    ensures
        r@ == member_source(field@),
{
    let mut text = String::from_str("self.");
    text.append(field);
    text
}

/// Writes the condition under which a formatter has returned a value.
fn formatted(formatter: &str) -> (r: String)
    ensures
        r@ == formatted_source(formatter@),
{
    let mut text = String::from_str("if let Some(out) = ");
    text.append(formatter);
    text.append("(&self)");
    text
}

/// Writes the instruction for one field, given its label as a string
/// literal.
pub fn instruction(label_literal: &str, field: &str, strategy: &Strategy) -> (r: String)
    ensures
        r@ == instruction_source(label_literal@, field@, strategy@),
{
    match strategy {
        Strategy::Plain => {
            let value = member(field);
            append_statement(label_literal, value.as_str())
        },
        Strategy::Secret => append_statement(label_literal, "\"<SECRET>\""),
        Strategy::CustomWithFallback { formatter } => {
            let mut text = formatted(formatter.as_str());
            let custom = append_statement(label_literal, "out");
            let value = member(field);
            let fallback = append_statement(label_literal, value.as_str());
            text.append(" { ");
            text.append(custom.as_str());
            text.append(" } else { ");
            text.append(fallback.as_str());
            text.append(" }");
            text
        },
        Strategy::CustomNoFallback { formatter } => {
            let mut text = formatted(formatter.as_str());
            let custom = append_statement(label_literal, "out");
            text.append(" { ");
            text.append(custom.as_str());
            text.append(" }");
            text
        },
    }
}

/// Writes the whole `impl` block around the instructions.
pub fn impl_block(name: &str, name_literal: &str, body: &str) -> (r: String)
    ensures
        r@ == impl_source(name@, name_literal@, body@),
{
    let mut text = String::from_str("impl core::fmt::Debug for ");
    text.append(name);
    text.append(
        " {\n    fn fmt(&self, f: &mut core::fmt::Formatter) -> core::fmt::Result {\n        let mut dbg_struct = f.debug_struct(",
    );
    text.append(name_literal);
    text.append(");\n");
    text.append(body);
    text.append("        dbg_struct.finish()\n    }\n}\n");
    text
}

impl FieldDirective {
    /// Writes the directive's instruction, given its label as a string
    /// literal.
    pub fn source(&self, label_literal: &str) -> (r: String)
        ensures
            r@ == self@.source(label_literal@),
    {
        instruction(label_literal, self.field.as_str(), &self.strategy)
    }
}

impl GeneratedRoutine {
    /// Writes the routine as source text, given its name and the label of
    /// each directive as string literals. `None` where the literals are not
    /// one for each directive.
    pub fn source_with(&self, name_literal: &str, label_literals: &Vec<String>) -> (r: Option<
        String,
    >)
        ensures
            r is Some <==> label_literals.len() == self.directives.len(),
            r matches Some(text) ==> text@ == self@.source(
                name_literal@,
                label_literals@.map_values(|l: String| l@),
            ),
    {
        if label_literals.len() != self.directives.len() {
            return None;
        }
        let ghost directives = self@.directives;
        let ghost literals = label_literals@.map_values(|l: String| l@);
        let mut body = String::new();
        let mut i: usize = 0;
        proof {
            assert(directives.take(0).len() == 0);
        }
        while i < self.directives.len()
            invariant
                i <= self.directives.len(),
                directives == self@.directives,
                directives.len() == self.directives.len(),
                literals == label_literals@.map_values(|l: String| l@),
                label_literals.len() == self.directives.len(),
                body@ == body_source(directives.take(i as int), literals),
            decreases self.directives.len() - i,
        {
            proof {
                assert(directives.take(i + 1).drop_last() == directives.take(i as int));
                assert(directives.take(i + 1).last() == self.directives[i as int]@);
            }
            let line = self.directives[i].source(label_literals[i].as_str());
            body.append("        ");
            body.append(line.as_str());
            body.append("\n");
            i += 1;
        }
        proof {
            assert(directives.take(i as int) == directives);
        }
        Some(impl_block(self.name.as_str(), name_literal, body.as_str()))
    }

    /// Writes the routine as source text. The host writes the type's name
    /// and the label of each directive as string literals; the text is the
    /// source of the routine with these literals.
    pub fn source(&self) -> (r: String)
        ensures
            self@.written_as(r@),
    {
        let name_literal = string_literal(self.name.as_str());
        let mut label_literals: Vec<String> = Vec::new();
        let mut i: usize = 0;
        while i < self.directives.len()
            invariant
                i <= self.directives.len(),
                label_literals.len() == i,
                forall|j: int|
                    0 <= j < i ==> host_literal(
                        (#[trigger] self.directives[j]).label@,
                        label_literals[j]@,
                    ),
            decreases self.directives.len() - i,
        {
            label_literals.push(string_literal(self.directives[i].label.as_str()));
            i += 1;
        }
        let written = self.source_with(name_literal.as_str(), &label_literals);
        let text = written.unwrap();
        proof {
            let literals = label_literals@.map_values(|l: String| l@);
            assert forall|j: int| 0 <= j < self@.directives.len() implies host_literal(
                (#[trigger] self@.directives[j]).label,
                literals[j],
            ) by {
                assert(self@.directives[j] == self.directives[j]@);
            }
            assert(self@.quoted(name_literal@, literals));
            assert(self@.source(name_literal@, literals) == text@);
        }
        text
    }
}

} // verus!
