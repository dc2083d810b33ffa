//! Laws on reading a field's entries into options.

use vstd::prelude::*;
use vstd::seq_lib::{to_multiset_contains, to_multiset_remove};
use crate::options::{flag_of, key_of, text_of, FieldOptionsView, Key};
use crate::record::{AnnotationView, ValueView};

verus! {

impl FieldOptionsView {
    /// What an option is set to, as the value of an entry; `None` where it
    /// is not set.
    pub open spec fn setting(self, key: Key) -> Option<ValueView> {
        match key {
            Key::Ignore => match self.ignore {
                Some(b) => Some(ValueView::Flag(b)),
                None => None,
            },
            Key::RenameTo => match self.rename_to {
                Some(s) => Some(ValueView::Text(s)),
                None => None,
            },
            Key::Secret => match self.secret {
                Some(b) => Some(ValueView::Flag(b)),
                None => None,
            },
            Key::CustFormatter => match self.cust_formatter {
                Some(s) => Some(ValueView::Text(s)),
                None => None,
            },
            Key::CustFormatterSkipIfNone => match self.cust_formatter_skip_if_none {
                Some(b) => Some(ValueView::Flag(b)),
                None => None,
            },
        }
    }
}

/// What an entry sets its option to: a boolean for a boolean option, where
/// the entry gives one or stands alone; a string for a string option, where
/// the entry gives one.
pub open spec fn entry_setting(key: Key, entry: AnnotationView) -> Option<ValueView> {
    match key {
        Key::RenameTo | Key::CustFormatter => match text_of(entry.value) {
            Some(s) => Some(ValueView::Text(s)),
            None => None,
        },
        _ => match flag_of(entry.value) {
            Some(b) => Some(ValueView::Flag(b)),
            None => None,
        },
    }
}

/// Reading more entries changes no option that is already set.
proof fn lemma_read_keeps(
    options: FieldOptionsView,
    entries: Seq<AnnotationView>,
    start: int,
    key: Key,
)
    requires
        0 <= start <= entries.len(),
        options.read_from(entries, start) is Ok,
        options.has(key),
    ensures
        options.read_from(entries, start)->Ok_0.setting(key) == options.setting(key),
    decreases entries.len() - start,
{
    if start < entries.len() {
        let next = options.with(entries[start])->Ok_0;
        lemma_read_keeps(next, entries, start + 1, key);
    }
}

/// Every entry that was read has set its option.
proof fn lemma_read_sets(
    options: FieldOptionsView,
    entries: Seq<AnnotationView>,
    start: int,
    at: int,
)
    requires
        0 <= start <= at < entries.len(),
        options.read_from(entries, start) is Ok,
    ensures
        key_of(entries[at].name) is Some,
        entry_setting(key_of(entries[at].name)->0, entries[at]) is Some,
        options.read_from(entries, start)->Ok_0.setting(key_of(entries[at].name)->0)
            == entry_setting(key_of(entries[at].name)->0, entries[at]),
    decreases entries.len() - start,
{
    let next = options.with(entries[start])->Ok_0;
    if start == at {
        lemma_read_keeps(next, entries, start + 1, key_of(entries[at].name)->0);
    } else {
        lemma_read_sets(next, entries, start + 1, at);
    }
}

/// Where the entries of a field can be read, each entry names one of the
/// five options, gives a value of the kind that the option takes, and the
/// option is set to that value.
pub proof fn law_entries_set_options(entries: Seq<AnnotationView>, at: int)
    requires
        0 <= at < entries.len(),
        FieldOptionsView::read(entries) is Ok,
    ensures
        key_of(entries[at].name) is Some,
        entry_setting(key_of(entries[at].name)->0, entries[at]) is Some,
        FieldOptionsView::read(entries)->Ok_0.setting(key_of(entries[at].name)->0)
            == entry_setting(key_of(entries[at].name)->0, entries[at]),
{
    lemma_read_sets(FieldOptionsView::empty(), entries, 0, at);
}

/// An option that no entry names is not set: `start` is where the reading
/// of the entries begins, with the options that are set before.
pub proof fn law_unnamed_option_stays_unset(
    options: FieldOptionsView,
    entries: Seq<AnnotationView>,
    start: int,
    key: Key,
)
    requires
        0 <= start <= entries.len(),
        options.read_from(entries, start) is Ok,
        !options.has(key),
        forall|j: int|
            start <= j < entries.len() ==> key_of((#[trigger] entries[j]).name) != Some(key),
    ensures
        !options.read_from(entries, start)->Ok_0.has(key),
    decreases entries.len() - start,
{
    if start < entries.len() {
        let next = options.with(entries[start])->Ok_0;
        law_unnamed_option_stays_unset(next, entries, start + 1, key);
    }
}

/// Each of the five names stands for its own option: no two of them are
/// the same name.
pub proof fn law_option_names()
    ensures
        key_of("ignore"@) == Some(Key::Ignore),
        key_of("rename_to"@) == Some(Key::RenameTo),
        key_of("secret"@) == Some(Key::Secret),
        key_of("cust_formatter"@) == Some(Key::CustFormatter),
        key_of("cust_formatter_skip_if_none"@) == Some(Key::CustFormatterSkipIfNone),
{
    reveal_strlit("ignore");
    reveal_strlit("rename_to");
    reveal_strlit("secret");
    reveal_strlit("cust_formatter");
    reveal_strlit("cust_formatter_skip_if_none");
    assert("ignore"@.len() == 6);
    assert("rename_to"@.len() == 9);
    assert("secret"@.len() == 6);
    assert("cust_formatter"@.len() == 14);
    assert("cust_formatter_skip_if_none"@.len() == 27);
    assert("ignore"@[0] == 'i');
    assert("secret"@[0] == 's');
}

/// Whether an entry can be read on its own: it names one of the five
/// options and gives a value of the kind that the option takes.
pub open spec fn well_formed(entry: AnnotationView) -> bool {
    key_of(entry.name) is Some && entry_setting(key_of(entry.name)->0, entry) is Some
}

/// Whether entries can be read together: each on its own, and no two for
/// the same option.
pub open spec fn readable(entries: Seq<AnnotationView>) -> bool {
    &&& forall|i: int| 0 <= i < entries.len() ==> well_formed(#[trigger] entries[i])
    &&& forall|i: int, j: int|
        #![trigger entries[i], entries[j]]
        0 <= i < j < entries.len() ==> key_of(entries[i].name) != key_of(entries[j].name)
}

/// An entry for an option that is already set is refused.
proof fn lemma_read_refuses_second(
    options: FieldOptionsView,
    entries: Seq<AnnotationView>,
    start: int,
    at: int,
)
    requires
        0 <= start <= at < entries.len(),
        key_of(entries[at].name) is Some,
        options.has(key_of(entries[at].name)->0),
    ensures
        options.read_from(entries, start) is Err,
    decreases entries.len() - start,
{
    if start < at {
        match options.with(entries[start]) {
            Ok(next) => {
                lemma_read_refuses_second(next, entries, start + 1, at);
            },
            Err(_) => {},
        }
    }
}

/// Entries that were read name different options.
proof fn lemma_read_names_differ(
    options: FieldOptionsView,
    entries: Seq<AnnotationView>,
    start: int,
    i: int,
    j: int,
)
    requires
        0 <= start <= i < j < entries.len(),
        options.read_from(entries, start) is Ok,
    ensures
        key_of(entries[i].name) != key_of(entries[j].name),
    decreases entries.len() - start,
{
    let next = options.with(entries[start])->Ok_0;
    if start < i {
        lemma_read_names_differ(next, entries, start + 1, i, j);
    } else {
        lemma_read_sets(options, entries, start, j);
        if key_of(entries[i].name) == key_of(entries[j].name) {
            lemma_read_refuses_second(next, entries, start + 1, j);
        }
    }
}

/// Entries that can be read together are read, where none of their options
/// is set before.
proof fn lemma_readable_is_read(
    options: FieldOptionsView,
    entries: Seq<AnnotationView>,
    start: int,
)
    requires
        0 <= start <= entries.len(),
        readable(entries),
        forall|i: int|
            start <= i < entries.len() ==> !options.has(key_of((#[trigger] entries[i]).name)->0),
    ensures
        options.read_from(entries, start) is Ok,
    decreases entries.len() - start,
{
    if start < entries.len() {
        assert(well_formed(entries[start]));
        let next = options.with(entries[start])->Ok_0;
        assert forall|i: int| start + 1 <= i < entries.len() implies !next.has(
            key_of((#[trigger] entries[i]).name)->0,
        ) by {
            assert(well_formed(entries[i]));
            assert(key_of(entries[start].name) != key_of(entries[i].name));
        }
        lemma_readable_is_read(next, entries, start + 1);
    }
}

/// The entries of a field can be read exactly where each of them names one
/// of the five options with a value of its kind, and no two of them name
/// the same option.
pub proof fn law_readable_entries(entries: Seq<AnnotationView>)
    ensures
        FieldOptionsView::read(entries) is Ok <==> readable(entries),
{
    if FieldOptionsView::read(entries) is Ok {
        assert forall|i: int| 0 <= i < entries.len() implies well_formed(
            #[trigger] entries[i],
        ) by {
            law_entries_set_options(entries, i);
        }
        assert forall|i: int, j: int|
            #![trigger entries[i], entries[j]]
            0 <= i < j < entries.len() implies key_of(entries[i].name) != key_of(
            entries[j].name,
        ) by {
            lemma_read_names_differ(FieldOptionsView::empty(), entries, 0, i, j);
        }
    }
    if readable(entries) {
        lemma_readable_is_read(FieldOptionsView::empty(), entries, 0);
    }
}

/// Every entry of a rearrangement is an entry of the sequence.
proof fn lemma_member(entries: Seq<AnnotationView>, others: Seq<AnnotationView>, at: int) -> (found: int)
    requires
        entries.to_multiset() == others.to_multiset(),
        0 <= at < others.len(),
    ensures
        0 <= found < entries.len(),
        entries[found] == others[at],
{
    to_multiset_contains(others, others[at]);
    to_multiset_contains(entries, others[at]);
    assert(others.contains(others[at]));
    choose|i: int| 0 <= i < entries.len() && entries[i] == others[at]
}

/// Rearranged, entries that can be read together still can.
proof fn lemma_readable_rearranged(entries: Seq<AnnotationView>, others: Seq<AnnotationView>)
    requires
        entries.to_multiset() == others.to_multiset(),
        readable(entries),
    ensures
        readable(others),
{
    assert forall|i: int| 0 <= i < others.len() implies well_formed(#[trigger] others[i]) by {
        let found = lemma_member(entries, others, i);
    }
    assert forall|i: int, j: int|
        #![trigger others[i], others[j]]
        0 <= i < j < others.len() implies key_of(others[i].name) != key_of(others[j].name) by {
        if key_of(others[i].name) == key_of(others[j].name) {
            let first = lemma_member(entries, others, i);
            // Without one occurrence of `others[i]`, both hold the same
            // entries still, and `others` holds `others[j]`.
            to_multiset_remove(entries, first);
            to_multiset_remove(others, i);
            let fewer = entries.remove(first);
            let rest = others.remove(i);
            assert(rest[j - 1] == others[j]);
            assert(fewer.to_multiset() == rest.to_multiset());
            let second = lemma_member(fewer, rest, j - 1);
            let twin = if second < first {
                second
            } else {
                second + 1
            };
            assert(entries[twin] == others[j]);
            assert(entries[first] == others[i]);
            if first < twin {
                assert(key_of(entries[first].name) != key_of(entries[twin].name));
            } else {
                assert(key_of(entries[twin].name) != key_of(entries[first].name));
            }
        }
    }
}

/// Read from a rearrangement, an option is set to the same value.
proof fn lemma_same_setting(
    entries: Seq<AnnotationView>,
    others: Seq<AnnotationView>,
    key: Key,
)
    requires
        entries.to_multiset() == others.to_multiset(),
        FieldOptionsView::read(entries) is Ok,
        FieldOptionsView::read(others) is Ok,
    ensures
        FieldOptionsView::read(entries)->Ok_0.setting(key) == FieldOptionsView::read(
            others,
        )->Ok_0.setting(key),
{
    if exists|i: int| 0 <= i < others.len() && key_of(others[i].name) == Some(key) {
        let at = choose|i: int| 0 <= i < others.len() && key_of(others[i].name) == Some(key);
        let found = lemma_member(entries, others, at);
        law_entries_set_options(others, at);
        law_entries_set_options(entries, found);
    } else {
        assert forall|i: int| 0 <= i < entries.len() implies key_of(
            (#[trigger] entries[i]).name,
        ) != Some(key) by {
            let found = lemma_member(others, entries, i);
        }
        law_unnamed_option_stays_unset(FieldOptionsView::empty(), entries, 0, key);
        law_unnamed_option_stays_unset(FieldOptionsView::empty(), others, 0, key);
    }
}

/// The order of a field's entries is irrelevant: rearranged, they can be
/// read exactly where they could before, and set the same options.
pub proof fn law_order_of_entries_is_irrelevant(
    entries: Seq<AnnotationView>,
    others: Seq<AnnotationView>,
)
    requires
        entries.to_multiset() == others.to_multiset(),
    ensures
        FieldOptionsView::read(entries) is Ok <==> FieldOptionsView::read(others) is Ok,
        FieldOptionsView::read(entries) is Ok ==> FieldOptionsView::read(entries)
            == FieldOptionsView::read(others),
{
    law_readable_entries(entries);
    law_readable_entries(others);
    if readable(entries) {
        lemma_readable_rearranged(entries, others);
    }
    if readable(others) {
        lemma_readable_rearranged(others, entries);
    }
    if FieldOptionsView::read(entries) is Ok {
        lemma_same_setting(entries, others, Key::Ignore);
        lemma_same_setting(entries, others, Key::RenameTo);
        lemma_same_setting(entries, others, Key::Secret);
        lemma_same_setting(entries, others, Key::CustFormatter);
        lemma_same_setting(entries, others, Key::CustFormatterSkipIfNone);
    }
}

} // verus!
