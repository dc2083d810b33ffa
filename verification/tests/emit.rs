use better_debug::directive::{FieldDirective, Strategy};
use better_debug::emit::{impl_block, instruction};
use better_debug::routine::GeneratedRoutine;

fn custom(formatter: &str, fallback: bool) -> Strategy {
    if fallback {
        Strategy::CustomWithFallback { formatter: formatter.to_string() }
    } else {
        Strategy::CustomNoFallback { formatter: formatter.to_string() }
    }
}

#[test]
fn the_plain_instruction() {
    assert_eq!(
        instruction("\"label\"", "bar", &Strategy::Plain),
        "dbg_struct.field(\"label\", &self.bar);"
    );
}

#[test]
fn the_secret_instruction() {
    assert_eq!(
        instruction("\"label\"", "bar", &Strategy::Secret),
        "dbg_struct.field(\"label\", &\"<SECRET>\");"
    );
}

#[test]
fn the_instruction_with_fallback() {
    assert_eq!(
        instruction("\"label\"", "bar", &custom("foo", true)),
        "if let Some(out) = foo(&self) { dbg_struct.field(\"label\", &out); } \
         else { dbg_struct.field(\"label\", &self.bar); }"
    );
}

#[test]
fn the_instruction_without_fallback() {
    assert_eq!(
        instruction("\"label\"", "bar", &custom("foo", false)),
        "if let Some(out) = foo(&self) { dbg_struct.field(\"label\", &out); }"
    );
}

#[test]
fn the_impl_block() {
    assert_eq!(
        impl_block("Foo", "\"Foo\"", "        body();\n"),
        "impl core::fmt::Debug for Foo {\n    \
         fn fmt(&self, f: &mut core::fmt::Formatter) -> core::fmt::Result {\n        \
         let mut dbg_struct = f.debug_struct(\"Foo\");\n        \
         body();\n        \
         dbg_struct.finish()\n    \
         }\n\
         }\n"
    );
}

#[test]
fn a_directive_is_written_with_the_given_literal() {
    let directive = FieldDirective {
        label: "new name".to_string(),
        field: "bar".to_string(),
        strategy: Strategy::Plain,
    };
    assert_eq!(directive.source("\"LABEL\""), "dbg_struct.field(\"LABEL\", &self.bar);");
}

#[test]
fn a_label_is_written_as_a_literal() {
    let routine = GeneratedRoutine {
        name: "Foo".to_string(),
        directives: vec![FieldDirective {
            label: "new \"name\"".to_string(),
            field: "bar".to_string(),
            strategy: Strategy::Plain,
        }],
    };
    assert!(routine
        .source()
        .contains("        dbg_struct.field(\"new \\\"name\\\"\", &self.bar);\n"));
}

#[test]
fn the_source_with_given_literals() {
    let routine = GeneratedRoutine {
        name: "Foo".to_string(),
        directives: vec![
            FieldDirective {
                label: "a".to_string(),
                field: "bar".to_string(),
                strategy: Strategy::Plain,
            },
            FieldDirective {
                label: "b".to_string(),
                field: "baz".to_string(),
                strategy: Strategy::Secret,
            },
        ],
    };
    assert_eq!(
        routine.source_with("NAME", &vec!["ONE".to_string(), "TWO".to_string()]),
        Some(
            "impl core::fmt::Debug for Foo {\n    \
             fn fmt(&self, f: &mut core::fmt::Formatter) -> core::fmt::Result {\n        \
             let mut dbg_struct = f.debug_struct(NAME);\n        \
             dbg_struct.field(ONE, &self.bar);\n        \
             dbg_struct.field(TWO, &\"<SECRET>\");\n        \
             dbg_struct.finish()\n    \
             }\n\
             }\n"
                .to_string()
        )
    );
    assert_eq!(routine.source_with("NAME", &vec!["ONE".to_string()]), None);
    assert_eq!(routine.source_with("NAME", &vec![]), None);
    let three = vec!["ONE".to_string(), "TWO".to_string(), "THREE".to_string()];
    assert_eq!(routine.source_with("NAME", &three), None);
}

#[test]
fn the_source_of_a_routine() {
    let routine = GeneratedRoutine {
        name: "Foo".to_string(),
        directives: vec![
            FieldDirective {
                label: "new_name".to_string(),
                field: "bar".to_string(),
                strategy: Strategy::Secret,
            },
            FieldDirective {
                label: "baz".to_string(),
                field: "baz".to_string(),
                strategy: custom("foo", false),
            },
        ],
    };
    assert_eq!(
        routine.source(),
        "impl core::fmt::Debug for Foo {\n    \
         fn fmt(&self, f: &mut core::fmt::Formatter) -> core::fmt::Result {\n        \
         let mut dbg_struct = f.debug_struct(\"Foo\");\n        \
         dbg_struct.field(\"new_name\", &\"<SECRET>\");\n        \
         if let Some(out) = foo(&self) { dbg_struct.field(\"baz\", &out); }\n        \
         dbg_struct.finish()\n    \
         }\n\
         }\n"
    );
}

#[test]
fn the_source_of_an_empty_routine() {
    let routine = GeneratedRoutine { name: "Unit".to_string(), directives: vec![] };
    assert_eq!(
        routine.source(),
        "impl core::fmt::Debug for Unit {\n    \
         fn fmt(&self, f: &mut core::fmt::Formatter) -> core::fmt::Result {\n        \
         let mut dbg_struct = f.debug_struct(\"Unit\");\n        \
         dbg_struct.finish()\n    \
         }\n\
         }\n"
    );
}
