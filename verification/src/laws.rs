//! What holds of the interface as a whole.

use vstd::prelude::*;

use crate::app;
use crate::app::{AppView, Exit, ModeView};
use crate::draw;
use crate::draw::{DrawOpView, FormText, ScreenText};
use crate::entry;
use crate::entry::EntryView;
use crate::form;
use crate::form::{FieldRules, FormResultView, FormView};
use crate::key::{KeyCode, KeyEvent};
use crate::layout;
use crate::layout::Rect;
use crate::save;
use crate::save::SaveEventView;
use crate::text;

verus! {

proof fn lemma_lex_reflexive(a: Seq<char>)
    ensures
        text::lex_le(a, a),
    decreases a.len(),
{
    if a.len() > 0 {
        lemma_lex_reflexive(a.drop_first());
    }
}

proof fn lemma_lex_total(a: Seq<char>, b: Seq<char>)
    ensures
        text::lex_le(a, b) || text::lex_le(b, a),
    decreases a.len(),
{
    if a.len() > 0 && b.len() > 0 && a[0] == b[0] {
        lemma_lex_total(a.drop_first(), b.drop_first());
    }
}

proof fn lemma_lex_transitive(a: Seq<char>, b: Seq<char>, c: Seq<char>)
    requires
        text::lex_le(a, b),
        text::lex_le(b, c),
    ensures
        text::lex_le(a, c),
    decreases a.len(),
{
    if a.len() > 0 && a[0] == b[0] && b[0] == c[0] {
        lemma_lex_transitive(a.drop_first(), b.drop_first(), c.drop_first());
    }
}

proof fn lemma_lex_antisymmetric(a: Seq<char>, b: Seq<char>)
    requires
        text::lex_le(a, b),
        text::lex_le(b, a),
    ensures
        a == b,
    decreases a.len(),
{
    if a.len() > 0 {
        lemma_lex_antisymmetric(a.drop_first(), b.drop_first());
        assert(a =~= seq![a[0]] + a.drop_first());
        assert(b =~= seq![b[0]] + b.drop_first());
    } else {
        assert(a =~= b);
    }
}

/// The order of texts is a total order: of two texts one stands before the
/// other, each of the two only where they are equal, and what stands before a
/// text stands before all that follow it.
pub proof fn law_text_order(a: Seq<char>, b: Seq<char>, c: Seq<char>)
    ensures
        text::lex_le(a, b) || text::lex_le(b, a),
        text::lex_le(a, b) && text::lex_le(b, a) <==> a == b,
        text::lex_le(a, b) && text::lex_le(b, c) ==> text::lex_le(a, c),
{
    lemma_lex_total(a, b);
    lemma_lex_reflexive(a);
    if text::lex_le(a, b) && text::lex_le(b, a) {
        lemma_lex_antisymmetric(a, b);
    }
    if text::lex_le(a, b) && text::lex_le(b, c) {
        lemma_lex_transitive(a, b, c);
    }
}

proof fn lemma_encode_push(s: Seq<char>, c: char)
    ensures
        vstd::utf8::encode_utf8(s.push(c)) == vstd::utf8::encode_utf8(s)
            + vstd::utf8::encode_scalar(c as u32),
    decreases s.len(),
{
    reveal_with_fuel(vstd::utf8::encode_utf8, 2);
    if s.len() == 0 {
        assert(s.push(c).drop_first() =~= Seq::<char>::empty());
        assert(s =~= Seq::<char>::empty());
        assert(vstd::utf8::encode_utf8(s.push(c)) =~= vstd::utf8::encode_utf8(s)
            + vstd::utf8::encode_scalar(c as u32));
    } else {
        lemma_encode_push(s.drop_first(), c);
        assert(s.push(c).drop_first() =~= s.drop_first().push(c));
        assert(s.push(c)[0] == s[0]);
        assert(vstd::utf8::encode_utf8(s.push(c)) =~= vstd::utf8::encode_utf8(s)
            + vstd::utf8::encode_scalar(c as u32));
    }
}

/// Different places between the characters of a text are different byte
/// positions, in the same order.
pub proof fn law_byte_positions_increase(s: Seq<char>, i: int, j: int)
    requires
        0 <= i < j <= s.len(),
    ensures
        text::byte_offset(s, i) < text::byte_offset(s, j),
    decreases j,
{
    lemma_encode_push(s.take(j - 1), s[j - 1]);
    assert(s.take(j) =~= s.take(j - 1).push(s[j - 1]));
    if i < j - 1 {
        law_byte_positions_increase(s, i, j - 1);
    }
}

/// The byte positions of a text start at 0, go on by the bytes of each character,
/// and end with the bytes of the text.
pub proof fn law_byte_positions_add_up(s: Seq<char>, k: int)
    requires
        0 <= k < s.len(),
    ensures
        text::byte_offset(s, 0) == 0,
        text::byte_offset(s, k + 1) == text::byte_offset(s, k) + vstd::utf8::encode_scalar(
            s[k] as u32,
        ).len(),
        text::byte_offset(s, s.len() as int) == vstd::utf8::encode_utf8(s).len(),
{
    lemma_encode_push(s.take(k), s[k]);
    assert(s.take(k + 1) =~= s.take(k).push(s[k]));
    assert(s.take(s.len() as int) =~= s);
}

/// Whether the entries stand in the order of their whole names in lower case.
pub open spec fn is_ordered(entries: Seq<EntryView>) -> bool {
    forall|i: int, j: int|
        #![trigger entries[i], entries[j]]
        0 <= i < j < entries.len() ==> text::lex_le(
            text::lowercase_of(entries[i].name),
            text::lowercase_of(entries[j].name),
        )
}

/// The entries whose whole name in lower case is that text, in their order.
pub open spec fn of_key(entries: Seq<EntryView>, key: Seq<char>) -> Seq<EntryView> {
    entries.filter(|entry: EntryView| text::lowercase_of(entry.name) == key)
}

/// Whether no two entries have the same name.
pub open spec fn names_differ(entries: Seq<EntryView>) -> bool {
    forall|i: int, j: int|
        0 <= i < j < entries.len() ==> (#[trigger] entries[i]).name != (#[trigger] entries[j]).name
}

spec fn place_of(entry: EntryView, sorted: Seq<EntryView>) -> int
    decreases sorted.len(),
{
    if sorted.len() == 0 || entry::listed_before(entry, sorted[0]) {
        0
    } else {
        1 + place_of(entry, sorted.drop_first())
    }
}

proof fn lemma_place(entry: EntryView, sorted: Seq<EntryView>)
    ensures
        0 <= place_of(entry, sorted) <= sorted.len(),
        entry::with_entry(entry, sorted) == sorted.insert(place_of(entry, sorted), entry),
        forall|j: int|
            0 <= j < place_of(entry, sorted) ==> !entry::listed_before(entry, #[trigger] sorted[j]),
        place_of(entry, sorted) < sorted.len() ==> entry::listed_before(
            entry,
            sorted[place_of(entry, sorted)],
        ),
    decreases sorted.len(),
{
    let place = place_of(entry, sorted);
    if sorted.len() == 0 || entry::listed_before(entry, sorted[0]) {
        assert(seq![entry] + sorted =~= sorted.insert(0, entry));
    } else {
        let rest = sorted.drop_first();
        lemma_place(entry, rest);
        assert(seq![sorted[0]] + rest.insert(place - 1, entry) =~= sorted.insert(place, entry));
        assert forall|j: int| 0 <= j < place implies !entry::listed_before(
            entry,
            #[trigger] sorted[j],
        ) by {
            if j > 0 {
                assert(sorted[j] == rest[j - 1]);
            }
        }
    }
}

proof fn lemma_with_entry_ordered(entry: EntryView, sorted: Seq<EntryView>)
    requires
        is_ordered(sorted),
    ensures
        is_ordered(entry::with_entry(entry, sorted)),
{
    lemma_place(entry, sorted);
    let place = place_of(entry, sorted);
    let all = sorted.insert(place, entry);
    assert forall|i: int, j: int| 0 <= i < j < all.len() implies entry::listed_before(
        #[trigger] all[i],
        #[trigger] all[j],
    ) by {
        if i < place && j == place {
            lemma_lex_total(entry::sort_key(entry), entry::sort_key(sorted[i]));
        } else if i == place {
            let first = sorted[place];
            if j > place + 1 {
                lemma_lex_transitive(
                    entry::sort_key(entry),
                    entry::sort_key(first),
                    entry::sort_key(sorted[j - 1]),
                );
            }
        } else if i > place {
            assert(all[i] == sorted[i - 1] && all[j] == sorted[j - 1]);
        } else if j > place {
            assert(all[i] == sorted[i] && all[j] == sorted[j - 1]);
        } else {
            assert(all[i] == sorted[i] && all[j] == sorted[j]);
        }
    }
}

proof fn lemma_filter_one(entry: EntryView, pred: spec_fn(EntryView) -> bool)
    ensures
        seq![entry].filter(pred) == if pred(entry) {
            seq![entry]
        } else {
            Seq::empty()
        },
{
    reveal_with_fuel(Seq::filter, 2);
    assert(seq![entry].drop_last() =~= Seq::<EntryView>::empty());
}

proof fn lemma_with_entry_of_key(entry: EntryView, sorted: Seq<EntryView>, key: Seq<char>)
    ensures
        of_key(entry::with_entry(entry, sorted), key) == of_key(seq![entry] + sorted, key),
{
    let pred = |e: EntryView| text::lowercase_of(e.name) == key;
    lemma_place(entry, sorted);
    let place = place_of(entry, sorted);
    let before = sorted.take(place);
    let behind = sorted.skip(place);
    assert(sorted.insert(place, entry) =~= before + (seq![entry] + behind));
    assert(seq![entry] + sorted =~= seq![entry] + (before + behind));
    Seq::filter_distributes_over_add(before, seq![entry] + behind, pred);
    Seq::filter_distributes_over_add(seq![entry], behind, pred);
    Seq::filter_distributes_over_add(seq![entry], before + behind, pred);
    Seq::filter_distributes_over_add(before, behind, pred);
    lemma_filter_one(entry, pred);
    if pred(entry) {
        assert(before.filter(pred) =~= Seq::<EntryView>::empty()) by {
            lemma_lex_reflexive(key);
            assert forall|j: int| 0 <= j < before.len() implies !pred(#[trigger] before[j]) by {
                assert(before[j] == sorted[j]);
            }
            lemma_no_match(before, pred);
        }
    }
    assert(of_key(sorted.insert(place, entry), key) =~= of_key(seq![entry] + sorted, key));
}

proof fn lemma_no_match(entries: Seq<EntryView>, pred: spec_fn(EntryView) -> bool)
    requires
        forall|j: int| 0 <= j < entries.len() ==> !pred(#[trigger] entries[j]),
    ensures
        entries.filter(pred) == Seq::<EntryView>::empty(),
    decreases entries.len(),
{
    reveal(Seq::filter);
    if entries.len() > 0 {
        lemma_no_match(entries.drop_last(), pred);
    }
    assert(entries.filter(pred) =~= Seq::<EntryView>::empty());
}

/// Ordering the list keeps its entries, each as often as it was there, puts them
/// in order, and leaves those with the same key in the order in which they stood.
pub proof fn law_sorting_is_stable(entries: Seq<EntryView>, key: Seq<char>)
    ensures
        entry::sorted_entries(entries).to_multiset() == entries.to_multiset(),
        is_ordered(entry::sorted_entries(entries)),
        of_key(entry::sorted_entries(entries), key) == of_key(entries, key),
    decreases entries.len(),
{
    if entries.len() > 0 {
        let rest = entries.drop_first();
        let sorted = entry::sorted_entries(rest);
        let pred = |e: EntryView| text::lowercase_of(e.name) == key;
        law_sorting_is_stable(rest, key);
        lemma_place(entries[0], sorted);
        lemma_with_entry_ordered(entries[0], sorted);
        lemma_with_entry_of_key(entries[0], sorted, key);
        vstd::seq_lib::to_multiset_insert(sorted, place_of(entries[0], sorted), entries[0]);
        vstd::seq_lib::to_multiset_insert(rest, 0, entries[0]);
        assert(rest.insert(0, entries[0]) =~= entries);
        assert(seq![entries[0]] + rest =~= entries);
        Seq::filter_distributes_over_add(seq![entries[0]], sorted, pred);
        Seq::filter_distributes_over_add(seq![entries[0]], rest, pred);
    }
}

/// Ordering an ordered list changes nothing.
pub proof fn law_sorting_twice(entries: Seq<EntryView>)
    ensures
        is_ordered(entries) ==> entry::sorted_entries(entries) == entries,
        entry::sorted_entries(entry::sorted_entries(entries)) == entry::sorted_entries(entries),
{
    if is_ordered(entries) {
        lemma_sorted_fixed(entries);
    }
    law_sorting_is_stable(entries, Seq::empty());
    lemma_sorted_fixed(entry::sorted_entries(entries));
}

proof fn lemma_sorted_fixed(entries: Seq<EntryView>)
    requires
        is_ordered(entries),
    ensures
        entry::sorted_entries(entries) == entries,
    decreases entries.len(),
{
    if entries.len() > 0 {
        let rest = entries.drop_first();
        assert forall|i: int, j: int| 0 <= i < j < rest.len() implies entry::listed_before(
            #[trigger] rest[i],
            #[trigger] rest[j],
        ) by {
            assert(rest[i] == entries[i + 1] && rest[j] == entries[j + 1]);
        }
        lemma_sorted_fixed(rest);
        if rest.len() > 0 {
            assert(rest[0] == entries[1]);
        }
        assert(seq![entries[0]] + rest =~= entries);
    }
}

proof fn lemma_sorted_contains(entries: Seq<EntryView>, entry: EntryView)
    ensures
        entry::sorted_entries(entries).contains(entry) <==> entries.contains(entry),
{
    law_sorting_is_stable(entries, Seq::empty());
    vstd::seq_lib::to_multiset_contains(entries, entry);
    vstd::seq_lib::to_multiset_contains(entry::sorted_entries(entries), entry);
}

proof fn lemma_sorted_names_differ(entries: Seq<EntryView>)
    requires
        names_differ(entries),
    ensures
        names_differ(entry::sorted_entries(entries)),
    decreases entries.len(),
{
    if entries.len() > 0 {
        let first = entries[0];
        let rest = entries.drop_first();
        assert forall|i: int, j: int| 0 <= i < j < rest.len() implies (#[trigger] rest[i]).name != (
        #[trigger] rest[j]).name by {
            assert(rest[i] == entries[i + 1] && rest[j] == entries[j + 1]);
        }
        lemma_sorted_names_differ(rest);
        let sorted = entry::sorted_entries(rest);
        lemma_place(first, sorted);
        let place = place_of(first, sorted);
        assert forall|j: int| 0 <= j < sorted.len() implies (#[trigger] sorted[j]).name
            != first.name by {
            lemma_sorted_contains(rest, sorted[j]);
            assert(sorted.contains(sorted[j]));
            let k = choose|k: int| 0 <= k < rest.len() && rest[k] == sorted[j];
            assert(rest[k] == entries[k + 1]);
        }
        let all = sorted.insert(place, first);
        assert forall|i: int, j: int| 0 <= i < j < all.len() implies (#[trigger] all[i]).name != (
        #[trigger] all[j]).name by {
            let a = if i < place {
                i
            } else {
                i - 1
            };
            let b = if j < place {
                j
            } else {
                j - 1
            };
            assert(i != place ==> all[i] == sorted[a]);
            assert(j != place ==> all[j] == sorted[b]);
        }
    }
}

/// The place that is found for a name is that of the first entry with it, and
/// there is one wherever an entry has the name.
pub proof fn law_position_is_first(entries: Seq<EntryView>, name: Seq<char>)
    ensures
        0 <= entry::position_of(entries, name) <= entries.len(),
        entry::position_of(entries, name) < entries.len() ==> entries[entry::position_of(
            entries,
            name,
        )].name == name,
        forall|j: int|
            0 <= j < entry::position_of(entries, name) ==> (#[trigger] entries[j]).name != name,
    decreases entries.len(),
{
    if entries.len() > 0 && entries[0].name != name {
        let rest = entries.drop_first();
        law_position_is_first(rest, name);
        assert forall|j: int| 0 <= j < entry::position_of(entries, name) implies (
        #[trigger] entries[j]).name != name by {
            if j > 0 {
                assert(entries[j] == rest[j - 1]);
            }
        }
    }
}

/// Whether the text may stand in the vault.
pub open spec fn is_acceptable(value: Seq<char>, rules: FieldRules) -> bool {
    !rules.has_unsafe(value) && value.len() <= rules.max_name_len
}

/// Whether the entry meets what the vault demands: it has a name and a password,
/// a realm only beside a URL, no empty text in their place, and only acceptable
/// texts to show.
pub open spec fn is_valid(entry: EntryView, rules: FieldRules) -> bool {
    &&& entry.name.len() > 0
    &&& entry.password.len() > 0
    &&& entry.realm is Some ==> entry.url is Some
    &&& entry.url matches Some(url) ==> url.len() > 0
    &&& entry.realm matches Some(realm) ==> realm.len() > 0
    &&& is_acceptable(entry.name, rules)
    &&& is_acceptable(entry.username, rules)
    &&& is_acceptable(form::or_empty(entry.url), rules)
    &&& is_acceptable(form::or_empty(entry.realm), rules)
}

/// Whether every entry meets what the vault demands.
pub open spec fn all_valid(entries: Seq<EntryView>, rules: FieldRules) -> bool {
    forall|i: int| 0 <= i < entries.len() ==> is_valid(#[trigger] entries[i], rules)
}

/// A form gives an entry exactly where that entry meets what the vault demands
/// and its name is not taken, and then it gives the entry that it describes.
pub proof fn law_form_gives_valid_entries(
    form: FormView,
    entries: Seq<EntryView>,
    rules: FieldRules,
)
    requires
        form.wf(),
    ensures
        form.submitted(entries, rules) is Save <==> is_valid(form.entry(), rules)
            && !form.name_taken(entries),
        form.submitted(entries, rules) matches FormResultView::Save(entry) ==> entry
            == form.entry(),
        form.submitted(entries, rules) is Save || form.submitted(entries, rules) is Error,
{
    if form.fields[3].len() == 0 {
        assert(form.fields[3] =~= Seq::<char>::empty());
    }
    if form.fields[4].len() == 0 {
        assert(form.fields[4] =~= Seq::<char>::empty());
    }
}

/// A list in order stays in order, whatever key comes.
pub proof fn law_keys_keep_order(app: AppView, key: KeyEvent, rules: FieldRules)
    requires
        app.wf(),
        is_ordered(app.entries),
    ensures
        is_ordered(app.after(key, rules).entries),
{
    if let ModeView::Edit(form) = app.mode {
        if let FormResultView::Save(entry) = form.result(key, app.entries, rules) {
            law_sorting_is_stable(app::with_saved(app.entries, form.editing, entry), Seq::empty());
        }
    }
}

/// Names that differ go on differing, whatever key comes.
pub proof fn law_keys_keep_names_apart(app: AppView, key: KeyEvent, rules: FieldRules)
    requires
        app.wf(),
        names_differ(app.entries),
    ensures
        names_differ(app.after(key, rules).entries),
{
    if let ModeView::Edit(form) = app.mode {
        if let FormResultView::Save(entry) = form.result(key, app.entries, rules) {
            law_form_gives_valid_entries(form, app.entries, rules);
            let saved = app::with_saved(app.entries, form.editing, entry);
            assert forall|i: int, j: int| 0 <= i < j < saved.len() implies (
            #[trigger] saved[i]).name != (#[trigger] saved[j]).name by {
                let _ = app.entries[i];
                let _ = app.entries[j];
            }
            lemma_sorted_names_differ(saved);
        }
    }
}

/// Entries that meet what the vault demands go on doing so, whatever key comes.
pub proof fn law_keys_keep_entries_valid(app: AppView, key: KeyEvent, rules: FieldRules)
    requires
        app.wf(),
        all_valid(app.entries, rules),
    ensures
        all_valid(app.after(key, rules).entries, rules),
{
    if let ModeView::Edit(form) = app.mode {
        if let FormResultView::Save(entry) = form.result(key, app.entries, rules) {
            law_form_gives_valid_entries(form, app.entries, rules);
            let saved = app::with_saved(app.entries, form.editing, entry);
            lemma_sorted_valid(saved, rules);
        }
    }
}

proof fn lemma_sorted_valid(entries: Seq<EntryView>, rules: FieldRules)
    requires
        all_valid(entries, rules),
    ensures
        all_valid(entry::sorted_entries(entries), rules),
{
    let sorted = entry::sorted_entries(entries);
    assert forall|i: int| 0 <= i < sorted.len() implies is_valid(#[trigger] sorted[i], rules) by {
        lemma_sorted_contains(entries, sorted[i]);
        assert(sorted.contains(sorted[i]));
        let k = choose|k: int| 0 <= k < entries.len() && entries[k] == sorted[i];
        assert(is_valid(entries[k], rules));
    }
}

/// What can happen to the interface.
pub enum Step {
    /// A key event comes.
    Event(KeyEvent),
    /// The password was put on the clipboard, or could not be.
    Copied(Result<Seq<char>, Seq<char>>),
}

/// The interface after one step.
pub open spec fn after_step(app: AppView, step: Step, rules: FieldRules) -> AppView {
    match step {
        Step::Event(event) => app.after_event(event, rules),
        Step::Copied(outcome) => app.copied(outcome),
    }
}

/// The interface after a row of steps. Once it is left it takes no more.
pub open spec fn after_all(app: AppView, steps: Seq<Step>, rules: FieldRules) -> AppView
    decreases steps.len(),
{
    if steps.len() == 0 || app.exit != Exit::Running {
        app
    } else {
        after_all(after_step(app, steps[0], rules), steps.drop_first(), rules)
    }
}

spec fn keeps_track(app: AppView, start: Seq<EntryView>) -> bool {
    &&& app.wf()
    &&& is_ordered(app.entries)
    &&& !app.dirty ==> app.entries == start
    &&& app.exit == Exit::Clean ==> !app.dirty
    &&& app.exit == Exit::Save || app.exit == Exit::Discard ==> app.dirty
    &&& app.mode == ModeView::ConfirmExit ==> app.dirty
    &&& app.mode matches ModeView::Edit(form) ==> (form.editing matches Some(index) ==> index
        == app.selected)
}

proof fn lemma_step_keeps_track(
    app: AppView,
    step: Step,
    rules: FieldRules,
    start: Seq<EntryView>,
)
    requires
        keeps_track(app, start),
        app.exit == Exit::Running,
    ensures
        keeps_track(after_step(app, step, rules), start),
{
    if let Step::Event(event) = step {
        app::lemma_after_wf(app, event, rules);
        law_keys_keep_order(app, event, rules);
    }
}

proof fn lemma_keeps_track(
    app: AppView,
    steps: Seq<Step>,
    rules: FieldRules,
    start: Seq<EntryView>,
)
    requires
        keeps_track(app, start),
    ensures
        keeps_track(after_all(app, steps, rules), start),
    decreases steps.len(),
{
    if steps.len() > 0 && app.exit == Exit::Running {
        lemma_step_keeps_track(app, steps[0], rules, start);
        lemma_keeps_track(after_step(app, steps[0], rules), steps.drop_first(), rules, start);
    }
}

/// Whatever keys come after a vault was opened, and whatever becomes of copying in
/// between, the interface is in one of its states and the list is in order. It is
/// left without a question only where the entries are those that were opened, and
/// it offers to save or to discard only where something has changed. A form that is
/// open on an entry of the list is open on the selected one.
pub proof fn law_changes_are_asked_about(
    entries: Seq<EntryView>,
    steps: Seq<Step>,
    rules: FieldRules,
)
    ensures
        ({
            let end = after_all(app::opened(entries), steps, rules);
            &&& end.wf()
            &&& is_ordered(end.entries)
            &&& !end.dirty ==> end.entries == entry::sorted_entries(entries)
            &&& end.exit == Exit::Clean ==> end.entries == entry::sorted_entries(entries)
            &&& end.exit == Exit::Save || end.exit == Exit::Discard ==> end.dirty
            &&& end.mode == ModeView::ConfirmExit ==> end.dirty
            &&& end.mode matches ModeView::Edit(form) ==> (form.editing matches Some(index)
                ==> index == end.selected)
        }),
{
    law_sorting_is_stable(entries, Seq::empty());
    lemma_keeps_track(app::opened(entries), steps, rules, entry::sorted_entries(entries));
}

proof fn lemma_stays_sound(app: AppView, steps: Seq<Step>, rules: FieldRules)
    requires
        app.wf(),
        names_differ(app.entries),
        all_valid(app.entries, rules),
    ensures
        names_differ(after_all(app, steps, rules).entries),
        all_valid(after_all(app, steps, rules).entries, rules),
    decreases steps.len(),
{
    if steps.len() > 0 && app.exit == Exit::Running {
        if let Step::Event(event) = steps[0] {
            app::lemma_after_wf(app, event, rules);
            law_keys_keep_names_apart(app, event, rules);
            law_keys_keep_entries_valid(app, event, rules);
        }
        lemma_stays_sound(after_step(app, steps[0], rules), steps.drop_first(), rules);
    }
}

/// A vault whose names differ and whose entries meet what it demands is one of
/// that kind whatever keys come after it was opened, and whatever becomes of
/// copying in between.
pub proof fn law_vault_stays_sound(
    entries: Seq<EntryView>,
    steps: Seq<Step>,
    rules: FieldRules,
)
    requires
        names_differ(entries),
        all_valid(entries, rules),
    ensures
        names_differ(after_all(app::opened(entries), steps, rules).entries),
        all_valid(after_all(app::opened(entries), steps, rules).entries, rules),
{
    lemma_sorted_names_differ(entries);
    lemma_sorted_valid(entries, rules);
    lemma_stays_sound(app::opened(entries), steps, rules);
}

/// The entries change only when a form is sent off or a deletion is confirmed,
/// and then the vault counts as changed. It counts so from then on.
pub proof fn law_what_changes_entries(app: AppView, key: KeyEvent, rules: FieldRules)
    ensures
        app.after(key, rules).entries != app.entries ==> {
            ||| app.mode is Edit && key.code == KeyCode::Enter
            ||| app.mode is ConfirmDelete && (key.code == KeyCode::Char('y') || key.code
                == KeyCode::Char('Y'))
        },
        app.after(key, rules).entries != app.entries ==> app.after(key, rules).dirty,
        app.dirty ==> app.after(key, rules).dirty,
{
}

/// The interface is left from the list where nothing has changed, and else only
/// by an answer to the question what to do with the changes.
pub proof fn law_ways_out(app: AppView, key: KeyEvent, rules: FieldRules)
    requires
        app.exit == Exit::Running,
    ensures
        ({
            let exit = app.after(key, rules).exit;
            let quit = key.code == KeyCode::Char('q') || key.code == KeyCode::Esc || (key.code
                == KeyCode::Char('c') && key.modifiers.control);
            let save = key.code == KeyCode::Char('s') || key.code == KeyCode::Char('S');
            let discard = key.code == KeyCode::Char('d') || key.code == KeyCode::Char('D');
            &&& exit == Exit::Clean <==> app.mode is Browse && !app.dirty && quit
            &&& exit == Exit::Save <==> app.mode is ConfirmExit && save
            &&& exit == Exit::Discard <==> app.mode is ConfirmExit && discard
            &&& app.mode is Browse && app.dirty && quit ==> app.after(
                key,
                rules,
            ).mode is ConfirmExit
        }),
{
}

/// Giving up a form leaves everything else as it was.
pub proof fn law_cancel_changes_nothing(app: AppView, key: KeyEvent, rules: FieldRules)
    requires
        app.mode is Edit,
        key.code == KeyCode::Esc,
    ensures
        app.after(key, rules) == (AppView {
            mode: ModeView::Browse,
            message: None,
            copy_requested: false,
            ..app
        }),
{
}

/// A form that is not accepted stays open as it is, with the reason in it, and
/// leaves the list as it was.
pub proof fn law_rejected_form_stays(
    app: AppView,
    form: FormView,
    key: KeyEvent,
    rules: FieldRules,
)
    requires
        app.mode == ModeView::Edit(form),
        key.code == KeyCode::Enter,
        form.submitted(app.entries, rules) is Error,
    ensures
        app.after(key, rules) == (AppView {
            mode: ModeView::Edit(
                (FormView {
                    error: Some(form.submitted(app.entries, rules)->Error_0),
                    ..form
                }),
            ),
            message: None,
            copy_requested: false,
            ..app
        }),
{
}

/// While a deletion is to be confirmed, keys that are no answer do nothing, and
/// only a yes takes the selected entry out.
pub proof fn law_delete_needs_an_answer(app: AppView, key: KeyEvent, rules: FieldRules)
    requires
        app.wf(),
        app.mode is ConfirmDelete,
    ensures
        ({
            let after = app.after(key, rules);
            let yes = key.code == KeyCode::Char('y') || key.code == KeyCode::Char('Y');
            let no = key.code == KeyCode::Char('n') || key.code == KeyCode::Char('N') || key.code
                == KeyCode::Esc;
            &&& yes ==> after.entries == app.entries.remove(app.selected) && after.mode is Browse
            &&& !yes ==> after.entries == app.entries && after.selected == app.selected
                && after.dirty == app.dirty
            &&& no ==> after.mode is Browse
            &&& !yes && !no ==> after.mode is ConfirmDelete
        }),
{
}

/// The entry that a form gave is the selected one afterwards: the selected entry
/// has its name, and where no two names are the same it is that entry.
pub proof fn law_saved_entry_is_selected(app: AppView, editing: Option<int>, entry: EntryView)
    requires
        editing matches Some(index) ==> 0 <= index < app.entries.len(),
    ensures
        ({
            let after = app.saved(editing, entry);
            &&& 0 <= after.selected < after.entries.len()
            &&& after.entries[after.selected].name == entry.name
            &&& after.entries.contains(entry)
            &&& names_differ(after.entries) ==> after.entries[after.selected] == entry
        }),
{
    let saved = app::with_saved(app.entries, editing, entry);
    let sorted = entry::sorted_entries(saved);
    let from = match editing {
        Some(index) => index,
        None => app.entries.len() as int,
    };
    assert(saved[from] == entry);
    lemma_sorted_contains(saved, entry);
    law_position_is_first(sorted, entry.name);
    let k = choose|k: int| 0 <= k < sorted.len() && sorted[k] == entry;
    assert(sorted[k].name == entry.name);
}

/// A form that is accepted changes no other entry: a new entry comes to those
/// that are there, and an edited one takes the place of what it was.
pub proof fn law_saving_keeps_the_others(app: AppView, editing: Option<int>, entry: EntryView)
    requires
        editing matches Some(index) ==> 0 <= index < app.entries.len(),
    ensures
        app.saved(editing, entry).entries.to_multiset() == match editing {
            Some(index) => app.entries.to_multiset().remove(app.entries[index]).insert(entry),
            None => app.entries.to_multiset().insert(entry),
        },
{
    law_sorting_is_stable(app::with_saved(app.entries, editing, entry), Seq::empty());
    match editing {
        Some(index) => {
            vstd::seq_lib::to_multiset_remove(app.entries, index);
            vstd::seq_lib::to_multiset_insert(app.entries.remove(index), index, entry);
            assert(app.entries.remove(index).insert(index, entry) =~= app.entries.update(
                index,
                entry,
            ));
        },
        None => {
            vstd::seq_lib::to_multiset_build(app.entries, entry);
        },
    }
}

/// A form that was opened on an entry describes that entry, but for a URL or a
/// realm that was there and empty.
pub proof fn law_form_describes_its_entry(index: int, entry: EntryView)
    requires
        entry.url matches Some(url) ==> url.len() > 0,
        entry.realm matches Some(realm) ==> realm.len() > 0,
    ensures
        form::form_on(index, entry).entry() == entry,
        form::form_on(index, entry).wf(),
{
}

/// An entry that meets what the vault demands can be opened in a form and sent
/// off again, and comes back as it was.
pub proof fn law_unchanged_entry_is_accepted(entries: Seq<EntryView>, index: int, rules: FieldRules)
    requires
        0 <= index < entries.len(),
        names_differ(entries),
        is_valid(entries[index], rules),
    ensures
        form::form_on(index, entries[index]).submitted(entries, rules) == FormResultView::Save(
            entries[index],
        ),
{
    let opened = form::form_on(index, entries[index]);
    law_form_describes_its_entry(index, entries[index]);
    law_form_gives_valid_entries(opened, entries, rules);
    assert(!opened.name_taken(entries)) by {
        if opened.name_taken(entries) {
            let i = choose|i: int|
                0 <= i < entries.len() && opened.editing != Some(i) && (#[trigger] entries[i]).name
                    == opened.fields[0];
            assert(entries[i].name == entries[index].name);
        }
    }
}

/// Erasing undoes typing: the character that was typed last goes with Backspace,
/// and also with Left and Delete, and the form is as it was.
pub proof fn law_erasing_undoes_typing(
    form: FormView,
    typed: KeyEvent,
    c: char,
    backspace: KeyEvent,
    left: KeyEvent,
    delete: KeyEvent,
)
    requires
        form.wf(),
        typed.code == KeyCode::Char(c),
        !typed.modifiers.control,
        backspace.code == KeyCode::Backspace,
        left.code == KeyCode::Left,
        delete.code == KeyCode::Delete,
    ensures
        form.after(typed).after(backspace) == (FormView { error: None, ..form }),
        form.after(typed).after(left).after(delete) == (FormView { error: None, ..form }),
{
    let value = form.text();
    assert(value.insert(form.cursor, c).remove(form.cursor) =~= value);
    assert(form.fields.update(form.active, value) =~= form.fields);
}

/// A key changes the text of no field but the active one, and of that one only
/// by typing or erasing a character. It never changes which entry is edited.
pub proof fn law_keys_change_the_active_field(form: FormView, key: KeyEvent)
    requires
        form.wf(),
    ensures
        form.after(key).wf(),
        form.after(key).editing == form.editing,
        forall|i: int|
            0 <= i < 5 && i != form.active ==> #[trigger] form.after(key).fields[i]
                == form.fields[i],
        !(key.code is Char) && key.code != KeyCode::Backspace && key.code != KeyCode::Delete
            ==> form.after(key).fields == form.fields,
        -1 <= form.after(key).fields[form.active].len() - form.text().len() <= 1,
{
}

proof fn lemma_step(form: FormView, key: KeyEvent)
    requires
        form.wf(),
        key.code == KeyCode::Tab || key.code == KeyCode::Down || key.code == KeyCode::BackTab
            || key.code == KeyCode::Up,
    ensures
        form.after(key).wf(),
        form.after(key).fields == form.fields,
        form.after(key).active == if key.code == KeyCode::Tab || key.code == KeyCode::Down {
            if form.active == 4 {
                0
            } else {
                form.active + 1
            }
        } else {
            if form.active == 0 {
                4
            } else {
                form.active - 1
            }
        },
{
}

/// The fields form a ring: stepping on and stepping back leads to the same field,
/// and so do five steps in one direction.
pub proof fn law_fields_form_a_ring(form: FormView, tab: KeyEvent, back_tab: KeyEvent)
    requires
        form.wf(),
        tab.code == KeyCode::Tab || tab.code == KeyCode::Down,
        back_tab.code == KeyCode::BackTab || back_tab.code == KeyCode::Up,
    ensures
        form.after(tab).active != form.active,
        form.after(tab).after(back_tab).active == form.active,
        form.after(back_tab).after(tab).active == form.active,
        form.after(tab).after(tab).after(tab).after(tab).after(tab).active == form.active,
        form.after(tab).after(tab).after(tab).after(tab).after(tab).fields == form.fields,
{
    lemma_step(form, back_tab);
    lemma_step(form.after(back_tab), tab);
    let one = form.after(tab);
    lemma_step(form, tab);
    lemma_step(one, back_tab);
    lemma_step(one, tab);
    let two = one.after(tab);
    lemma_step(two, tab);
    let three = two.after(tab);
    lemma_step(three, tab);
    lemma_step(three.after(tab), tab);
}

/// A password is asked for on the clipboard exactly when `c` comes to a list with
/// entries in it, without the control key. That key changes nothing else, and no
/// key changes which password was copied last.
pub proof fn law_copying_is_asked_for(app: AppView, key: KeyEvent, rules: FieldRules)
    ensures
        app.after(key, rules).copy_requested <==> app.mode is Browse && key.code == KeyCode::Char(
            'c',
        ) && !key.modifiers.control && app.entries.len() > 0,
        app.after(key, rules).copy_requested ==> app.after(key, rules) == (AppView {
            message: None,
            copy_requested: true,
            ..app
        }),
        app.after(key, rules).copied_password == app.copied_password,
{
}

/// A message stays until the next key, and so does what was wrong with a form.
pub proof fn law_messages_last_until_the_next_key(app: AppView, key: KeyEvent, rules: FieldRules)
    ensures
        app.after(key, rules).message is None,
        key.code != KeyCode::Enter ==> (app.after(key, rules).mode matches ModeView::Edit(form)
            ==> form.error is None),
{
}

/// Going down where there is an entry below and then up leads back to the entry
/// where it started, and so does going up where there is one above and then down.
pub proof fn law_up_undoes_down(app: AppView, down: KeyEvent, up: KeyEvent, rules: FieldRules)
    requires
        app.wf(),
        app.mode is Browse,
        down.code == KeyCode::Down || down.code == KeyCode::Char('j'),
        up.code == KeyCode::Up || up.code == KeyCode::Char('k'),
    ensures
        app.selected + 1 < app.entries.len() ==> app.after(down, rules).selected == app.selected
            + 1 && app.after(down, rules).after(up, rules).selected == app.selected,
        app.selected > 0 ==> app.after(up, rules).selected == app.selected - 1 && app.after(
            up,
            rules,
        ).after(down, rules).selected == app.selected,
{
}

/// Saving ends in one of two ways: the vault was stored, or the user said no when
/// asked whether to try again. A failure is always asked about, and the vault is
/// stored only because the user chose to or did not say no.
pub proof fn law_saving_ends(event: SaveEventView, count: nat, file: Seq<char>)
    ensures
        save::save_step(event, count, file) is Report <==> event is Stored,
        save::save_step(event, count, file) is Ask <==> event is Failed,
        save::save_step(event, count, file) is GiveUp <==> (event matches SaveEventView::Answer(
            line,
        ) && save::is_no(text::trimmed(line))),
        save::save_step(event, count, file) is Store <==> event is Chosen || (
        event matches SaveEventView::Answer(line) && !save::is_no(text::trimmed(line))),
{
}

/// Putting a password on the clipboard, or failing to, changes neither the list
/// nor what is open nor whether the interface is.
pub proof fn law_copying_changes_no_entry(app: AppView, outcome: Result<Seq<char>, Seq<char>>)
    ensures
        ({
            let after = app.copied(outcome);
            &&& after.entries == app.entries
            &&& after.selected == app.selected
            &&& after.dirty == app.dirty
            &&& after.mode == app.mode
            &&& after.exit == app.exit
            &&& outcome is Err ==> after.copied_password == app.copied_password
        }),
{
}

/// Whether two forms are the same but for what the password says: the two are
/// equally long.
pub open spec fn same_but_password(a: FormView, b: FormView) -> bool {
    &&& a.fields.len() == 5 && b.fields.len() == 5
    &&& a.editing == b.editing && a.active == b.active && a.cursor == b.cursor
    &&& a.error == b.error
    &&& a.fields[2].len() == b.fields[2].len()
}

/// Whether two states of the interface are the same but for what passwords say.
pub open spec fn same_but_passwords(a: AppView, b: AppView) -> bool {
    &&& a.entries.len() == b.entries.len()
    &&& a.selected == b.selected
    &&& a.dirty == b.dirty
    &&& a.message == b.message
    &&& match (a.mode, b.mode) {
        (ModeView::Edit(form), ModeView::Edit(other)) => same_but_password(form, other),
        _ => a.mode == b.mode,
    }
}

/// The screen does not show what a password says: where two states differ in
/// nothing else, what draws the one draws the other.
pub proof fn law_passwords_are_not_shown(
    a: AppView,
    b: AppView,
    text: ScreenText,
    area: Rect,
    ops: Seq<DrawOpView>,
)
    requires
        same_but_passwords(a, b),
        draw::draws_screen(a, text, area, ops),
    ensures
        draw::draws_screen(b, text, area, ops),
{
    let (chunks, body, front) = choose|chunks: Seq<Rect>, body: Seq<Rect>, front: Seq<DrawOpView>|
        draw::draws_screen_in(a, text, area, ops, chunks, body, front);
    assert(draw::pane_ops(a, text, body[0], body[1], chunks[1]) =~= draw::pane_ops(
        b,
        text,
        body[0],
        body[1],
        chunks[1],
    ));
    assert(draw::draws_front(b, text, area, front)) by {
        if let ModeView::Edit(form) = a.mode {
            if let ModeView::Edit(other) = b.mode {
                lemma_form_password_not_shown(form, other, text.form, area, front);
            }
        }
    }
    assert(draw::draws_screen_in(b, text, area, ops, chunks, body, front));
}

proof fn lemma_form_password_not_shown(
    form: FormView,
    other: FormView,
    text: FormText,
    area: Rect,
    ops: Seq<DrawOpView>,
)
    requires
        same_but_password(form, other),
        draw::draws_form(area, form, text, ops),
    ensures
        draw::draws_form(area, other, text, ops),
{
    let rows = choose|rows: Seq<Rect>| draw::draws_form_in(area, form, text, ops, rows);
    assert(draw::form_ops(draw::form_area(area), rows, form, text) == draw::form_ops(
        draw::form_area(area),
        rows,
        other,
        text,
    ));
    assert(draw::draws_form_in(area, other, text, ops, rows));
}

/// The cursor of a form is always in view: the active field shows the part of its
/// text in which the cursor stands, and its cell is inside the border wherever
/// the border has cells inside it.
pub proof fn law_cursor_is_in_view(form: FormView, row: Rect)
    requires
        form.wf(),
    ensures
        ({
            let column = form.cursor - draw::field_start(form, form.active, row);
            &&& 0 <= draw::field_start(form, form.active, row) <= form.cursor
            &&& 0 <= column < vstd::math::max(draw::field_width(row), 1)
            &&& row.width >= 3 ==> row.x < row.x + 1 + column < row.x + row.width - 1
        }),
{
}

/// A window shows no more characters than it is wide, and they stand in the text
/// one behind the other.
pub proof fn law_window_is_a_part(s: Seq<char>, start: int, width: int)
    requires
        0 <= start,
        0 <= width,
    ensures
        text::window_of(s, start, width).len() <= width,
        forall|i: int|
            0 <= i < text::window_of(s, start, width).len() ==> #[trigger] text::window_of(
                s,
                start,
                width,
            )[i] == s[start + i],
{
}

/// What is centered lies inside the area and has the asked size where that fits,
/// with the same space on both sides, or one cell less on the left or the top.
pub proof fn law_centered_is_inside(width: u16, height: u16, area: Rect)
    requires
        layout::can_center(width, height, area),
    ensures
        ({
            let inner = layout::centered_in(width, height, area);
            let left = inner.x - area.x;
            let right = area.x + area.width - (inner.x + inner.width);
            let top = inner.y - area.y;
            let bottom = area.y + area.height - (inner.y + inner.height);
            &&& inner.width == vstd::math::min(width as int, area.width as int)
            &&& inner.height == vstd::math::min(height as int, area.height as int)
            &&& 0 <= left <= right <= left + 1
            &&& 0 <= top <= bottom <= top + 1
        }),
{
}

} // verus!
