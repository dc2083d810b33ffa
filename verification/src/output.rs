//! What the generated routine prints when it runs.
//!
//! The routine itself is code. This module says what that code appends to
//! its builder, given what it reads of each printed field at run time: the
//! field's value, and what the field's formatter returned.

use vstd::prelude::*;
use crate::directive::{FieldDirective, FieldDirectiveView, Strategy, StrategyView};
use crate::routine::{GeneratedRoutine, GeneratedRoutineView};

verus! {

/// The marker printed in place of a secret value.
pub open spec fn secret_marker() -> Seq<char> {
    "<SECRET>"@
}

/// What a run reads of one printed field.
#[derive(Clone, Debug, PartialEq, Eq)]
pub struct Reading {
    /// The field's value.
    pub actual: String,
    /// What the field's formatter returns; `None` also where it has none.
    pub formatted: Option<String>,
}

/// The mathematical value of a [`Reading`].
pub struct ReadingView {
    pub actual: Seq<char>,
    pub formatted: Option<Seq<char>>,
}

impl View for Reading {
    type V = ReadingView;

    open spec fn view(&self) -> ReadingView {
        ReadingView {
            actual: self.actual@,
            formatted: match self.formatted {
                Some(v) => Some(v@),
                None => None,
            },
        }
    }
}

/// A label and the value printed under it.
#[derive(Clone, Debug, PartialEq, Eq)]
pub struct Entry {
    pub label: String,
    pub value: String,
}

/// The mathematical value of an [`Entry`].
pub struct EntryView {
    pub label: Seq<char>,
    pub value: Seq<char>,
}

impl View for Entry {
    type V = EntryView;

    open spec fn view(&self) -> EntryView {
        EntryView { label: self.label@, value: self.value@ }
    }
}

/// What one run prints: the type's label and the entries in their order.
#[derive(Clone, Debug, PartialEq, Eq)]
pub struct Output {
    pub label: String,
    pub entries: Vec<Entry>,
}

/// The mathematical value of an [`Output`].
pub struct OutputView {
    pub label: Seq<char>,
    pub entries: Seq<EntryView>,
}

impl View for Output {
    type V = OutputView;

    open spec fn view(&self) -> OutputView {
        OutputView { label: self.label@, entries: self.entries@.map_values(|e: Entry| e@) }
    }
}

impl FieldDirectiveView {
    /// The entry that the directive appends, if it appends one.
    pub open spec fn shown(self, reading: ReadingView) -> Option<EntryView> {
        match self.strategy {
            StrategyView::Plain => Some(EntryView { label: self.label, value: reading.actual }),
            StrategyView::Secret => Some(EntryView { label: self.label, value: secret_marker() }),
            StrategyView::CustomWithFallback { .. } => Some(
                EntryView {
                    label: self.label,
                    value: match reading.formatted {
                        Some(value) => value,
                        None => reading.actual,
                    },
                },
            ),
            StrategyView::CustomNoFallback { .. } => match reading.formatted {
                Some(value) => Some(EntryView { label: self.label, value }),
                None => None,
            },
        }
    }
}

/// The entries that the directives append, in their order, where
/// `readings` holds the reading of each directive at its position.
pub open spec fn entries_shown(
    directives: Seq<FieldDirectiveView>,
    readings: Seq<ReadingView>,
) -> Seq<EntryView>
    decreases directives.len(),
{
    if directives.len() == 0 || readings.len() < directives.len() {
        Seq::empty()
    } else {
        let before = entries_shown(directives.drop_last(), readings);
        match directives.last().shown(readings[directives.len() - 1]) {
            Some(entry) => before.push(entry),
            None => before,
        }
    }
}

impl GeneratedRoutineView {
    /// What a run prints, given one reading for each directive; `None`
    /// where the readings are not one for each directive.
    pub open spec fn run(self, readings: Seq<ReadingView>) -> Option<OutputView> {
        if readings.len() == self.directives.len() {
            Some(OutputView { label: self.name, entries: entries_shown(self.directives, readings) })
        } else {
            None
        }
    }
}

/// The view of an optional entry.
pub open spec fn entry_view(entry: Option<Entry>) -> Option<EntryView> {
    match entry {
        Some(e) => Some(e@),
        None => None,
    }
}

/// The view of an optional output.
pub open spec fn output_view(output: Option<Output>) -> Option<OutputView> {
    match output {
        Some(o) => Some(o@),
        None => None,
    }
}

impl FieldDirective {
    /// The entry that the directive appends, if it appends one.
    pub fn shown(&self, reading: &Reading) -> (r: Option<Entry>)
        ensures
            entry_view(r) == self@.shown(reading@),
    {
        let value = match &self.strategy {
            Strategy::Plain => reading.actual.clone(),
            Strategy::Secret => String::from_str("<SECRET>"),
            Strategy::CustomWithFallback { .. } => match &reading.formatted {
                Some(value) => value.clone(),
                None => reading.actual.clone(),
            },
            Strategy::CustomNoFallback { .. } => match &reading.formatted {
                Some(value) => value.clone(),
                None => return None,
            },
        };
        Some(Entry { label: self.label.clone(), value })
    }
}

impl GeneratedRoutine {
    /// What a run prints, given one reading for each directive; `None`
    /// where the readings are not one for each directive.
    pub fn run(&self, readings: &Vec<Reading>) -> (r: Option<Output>)
        ensures
            output_view(r) == self@.run(readings@.map_values(|x: Reading| x@)),
    {
        if readings.len() != self.directives.len() {
            return None;
        }
        let ghost directives = self@.directives;
        let ghost seen = readings@.map_values(|x: Reading| x@);
        let mut entries: Vec<Entry> = Vec::new();
        let mut i: usize = 0;
        proof {
            assert(directives.take(0).len() == 0);
            assert(entries@.map_values(|e: Entry| e@) == Seq::<EntryView>::empty());
        }
        while i < self.directives.len()
            invariant
                i <= self.directives.len(),
                directives == self@.directives,
                seen == readings@.map_values(|x: Reading| x@),
                readings.len() == self.directives.len(),
                entries@.map_values(|e: Entry| e@) == entries_shown(directives.take(i as int), seen),
            decreases self.directives.len() - i,
        {
            proof {
                assert(directives.take(i + 1).drop_last() == directives.take(i as int));
                assert(directives.take(i + 1).last() == self.directives[i as int]@);
            }
            let ghost before = entries@.map_values(|e: Entry| e@);
            match self.directives[i].shown(&readings[i]) {
                Some(entry) => {
                    entries.push(entry);
                    assert(entries@.map_values(|e: Entry| e@) == before.push(entry@));
                },
                None => {},
            }
            i += 1;
        }
        proof {
            assert(directives.take(i as int) == directives);
        }
        Some(Output { label: self.name.clone(), entries })
    }
}

} // verus!
