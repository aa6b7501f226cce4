//! The entries of a vault and the order in which they are listed.

use vstd::prelude::*;

use crate::secret::Secret;
use crate::text;

verus! {

/// One entry of the vault.
pub struct PasswordEntry {
    /// The name that tells the entry from the others.
    pub name: String,
    /// The user name.
    pub username: String,
    /// The password.
    pub password: Secret,
    /// The address that the entry is for.
    pub url: Option<String>,
    /// The realm at that address.
    pub realm: Option<String>,
}

/// What an entry holds.
#[verifier::ext_equal]
pub struct EntryView {
    pub name: Seq<char>,
    pub username: Seq<char>,
    pub password: Seq<char>,
    pub url: Option<Seq<char>>,
    pub realm: Option<Seq<char>>,
}

/// What an optional text holds.
pub open spec fn text_view(text: Option<String>) -> Option<Seq<char>> {
    match text {
        Some(inner) => Some(inner@),
        None => None,
    }
}

impl View for PasswordEntry {
    type V = EntryView;

    open spec fn view(&self) -> EntryView {
        EntryView {
            name: self.name@,
            username: self.username@,
            password: self.password@,
            url: text_view(self.url),
            realm: text_view(self.realm),
        }
    }
}

/// What a list of entries holds.
pub open spec fn entry_views(entries: Seq<PasswordEntry>) -> Seq<EntryView> {
    Seq::new(entries.len(), |i: int| entries[i]@)
}

/// The text by which an entry is ordered: its name without regard to case.
pub open spec fn sort_key(entry: EntryView) -> Seq<char> {
    text::lowercase_of(entry.name)
}

/// Whether `a` may stand before `b` in the list.
pub open spec fn listed_before(a: EntryView, b: EntryView) -> bool {
    text::lex_le(sort_key(a), sort_key(b))
}

/// An ordered list with one entry more, which goes before the first entry that
/// it may stand before.
pub open spec fn with_entry(entry: EntryView, sorted: Seq<EntryView>) -> Seq<EntryView>
    decreases sorted.len(),
{
    if sorted.len() == 0 || listed_before(entry, sorted[0]) {
        seq![entry] + sorted
    } else {
        seq![sorted[0]] + with_entry(entry, sorted.drop_first())
    }
}

/// The entries ordered by name without regard to case, those of equal keys in
/// the order in which they stood.
pub open spec fn sorted_entries(entries: Seq<EntryView>) -> Seq<EntryView>
    decreases entries.len(),
{
    if entries.len() == 0 {
        entries
    } else {
        with_entry(entries[0], sorted_entries(entries.drop_first()))
    }
}

/// The place of the first entry of that name, or the length of the list where
/// there is none.
pub open spec fn position_of(entries: Seq<EntryView>, name: Seq<char>) -> int
    decreases entries.len(),
{
    if entries.len() == 0 || entries[0].name == name {
        0
    } else {
        1 + position_of(entries.drop_first(), name)
    }
}

/// Ordering neither adds an entry nor drops one.
pub proof fn lemma_sorted_len(entries: Seq<EntryView>)
    ensures
        sorted_entries(entries).len() == entries.len(),
    decreases entries.len(),
{
    if entries.len() > 0 {
        lemma_sorted_len(entries.drop_first());
        lemma_with_entry_len(entries[0], sorted_entries(entries.drop_first()));
    }
}

proof fn lemma_with_entry_len(entry: EntryView, sorted: Seq<EntryView>)
    ensures
        with_entry(entry, sorted).len() == sorted.len() + 1,
    decreases sorted.len(),
{
    if sorted.len() > 0 && !listed_before(entry, sorted[0]) {
        lemma_with_entry_len(entry, sorted.drop_first());
    }
}

/// A place that was found is one of the list, or its length.
pub proof fn lemma_position_range(entries: Seq<EntryView>, name: Seq<char>)
    ensures
        0 <= position_of(entries, name) <= entries.len(),
    decreases entries.len(),
{
    if entries.len() > 0 && entries[0].name != name {
        lemma_position_range(entries.drop_first(), name);
    }
}

/// Orders the entries by name without regard to case and keeps those of equal
/// keys in the order in which they stood.
pub fn sort_entries(entries: &mut Vec<PasswordEntry>)
    ensures
        entry_views(final(entries)@) == sorted_entries(entry_views(old(entries)@)),
{
    let mut sorted: Vec<PasswordEntry> = Vec::new();
    let mut keys: Vec<String> = Vec::new();
    let ghost all = entry_views(entries@);
    proof {
        assert(all.skip(all.len() as int) =~= Seq::<EntryView>::empty());
        assert(entry_views(sorted@) =~= Seq::<EntryView>::empty());
        assert(all.take(all.len() as int) =~= all);
    }
    while entries.len() > 0
        invariant
            entries@.len() <= all.len(),
            entry_views(entries@) == all.take(entries@.len() as int),
            entry_views(sorted@) == sorted_entries(all.skip(entries@.len() as int)),
            keys@.len() == sorted@.len(),
            forall|j: int|
                0 <= j < keys@.len() ==> (#[trigger] keys@[j])@ == sort_key(sorted@[j]@),
        decreases entries@.len(),
    {
        let ghost before = sorted@;
        let ghost n = entries@.len() - 1;
        let entry = entries.pop().unwrap();
        let key = entry.name.to_lowercase();
        let place = place_for(&keys, key.as_str(), Ghost(entry@), Ghost(entry_views(before)));
        proof {
            assert(entry@ == all[n]) by {
                assert(entry_views(entries@.push(entry))[n] == all.take(n + 1)[n]);
            }
            assert(all.skip(n)[0] == all[n]);
            assert(all.skip(n).drop_first() =~= all.skip(n + 1));
            assert(entry_views(entries@) =~= all.take(n));
            assert(entry_views(before.insert(place as int, entry)) =~= entry_views(before).insert(
                place as int,
                entry@,
            ));
        }
        keys.insert(place, key);
        sorted.insert(place, entry);
    }
    proof {
        assert(all.skip(0) =~= all);
    }
    *entries = sorted;
}

fn place_for(
    keys: &Vec<String>,
    key: &str,
    Ghost(entry): Ghost<EntryView>,
    Ghost(sorted): Ghost<Seq<EntryView>>,
) -> (place: usize)
    requires
        key@ == sort_key(entry),
        keys@.len() == sorted.len(),
        forall|j: int| 0 <= j < keys@.len() ==> (#[trigger] keys@[j])@ == sort_key(sorted[j]),
    ensures
        place <= keys@.len(),
        with_entry(entry, sorted) == sorted.insert(place as int, entry),
{
    let mut place: usize = 0;
    assert(sorted.skip(0) =~= sorted);
    assert(sorted.take(0) + with_entry(entry, sorted) =~= with_entry(entry, sorted));
    while place < keys.len()
        invariant
            place <= keys@.len(),
            key@ == sort_key(entry),
            keys@.len() == sorted.len(),
            forall|j: int| 0 <= j < keys@.len() ==> (#[trigger] keys@[j])@ == sort_key(sorted[j]),
            with_entry(entry, sorted) == sorted.take(place as int) + with_entry(
                entry,
                sorted.skip(place as int),
            ),
        decreases keys@.len() - place,
    {
        let ghost rest = sorted.skip(place as int);
        if text::text_le(key, keys[place].as_str()) {
            assert(listed_before(entry, rest[0]));
            assert(sorted.take(place as int) + (seq![entry] + rest) =~= sorted.insert(
                place as int,
                entry,
            ));
            return place;
        }
        assert(!listed_before(entry, rest[0]));
        assert(rest.drop_first() =~= sorted.skip(place + 1));
        assert(sorted.take(place as int) + (seq![rest[0]] + with_entry(entry, rest.drop_first()))
            =~= sorted.take(place + 1) + with_entry(entry, sorted.skip(place + 1)));
        place = place + 1;
    }
    assert(sorted.take(place as int) + (seq![entry] + sorted.skip(place as int)) =~= sorted.insert(
        place as int,
        entry,
    ));
    place
}

/// The place of the first entry of that name, or `None` where there is none.
pub fn find_entry(entries: &[PasswordEntry], name: &String) -> (place: Option<usize>)
    ensures
        match place {
            Some(i) => i < entries@.len() && i == position_of(entry_views(entries@), name@),
            None => position_of(entry_views(entries@), name@) == entries@.len(),
        },
{
    let ghost all = entry_views(entries@);
    let mut i: usize = 0;
    assert(all.skip(0) =~= all);
    while i < entries.len()
        invariant
            i <= entries@.len(),
            all == entry_views(entries@),
            position_of(all, name@) == i + position_of(all.skip(i as int), name@),
        decreases entries@.len() - i,
    {
        assert(all.skip(i as int)[0].name == entries@[i as int].name@);
        if entries[i].name.eq(name) {
            return Some(i);
        }
        assert(all.skip(i as int).drop_first() =~= all.skip(i + 1));
        i = i + 1;
    }
    None
}

} // verus!
