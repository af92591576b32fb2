//! The style registry: named styles, each name held once.
//!
//! Setting a name that is already present replaces its style in place; setting a
//! new name appends it. The registry is the explicit destination of a colour
//! scheme: a scheme is applied to a registry, and what the registry then holds is
//! what the editor is given.
use vstd::prelude::*;

use crate::style::{Style, StyleView};

verus! {

/// A style name together with its style.
pub type Entry = (Seq<char>, StyleView);

/// Whether some entry of `entries` is called `name`.
pub open spec fn has_name(entries: Seq<Entry>, name: Seq<char>) -> bool {
    exists|i: int| 0 <= i < entries.len() && (#[trigger] entries[i]).0 == name
}

/// The place of an entry called `name`, where there is one.
pub open spec fn index_of(entries: Seq<Entry>, name: Seq<char>) -> int {
    choose|i: int| 0 <= i < entries.len() && (#[trigger] entries[i]).0 == name
}

/// No two entries have the same name.
pub open spec fn distinct_names(entries: Seq<Entry>) -> bool {
    forall|i: int, j: int|
        0 <= i < j < entries.len() ==> (#[trigger] entries[i]).0 != (#[trigger] entries[j]).0
}

/// The style registered under `name`, if any.
pub open spec fn find(entries: Seq<Entry>, name: Seq<char>) -> Option<StyleView> {
    if has_name(entries, name) {
        Some(entries[index_of(entries, name)].1)
    } else {
        None
    }
}

/// The names of `entries`, in order.
pub open spec fn names(entries: Seq<Entry>) -> Seq<Seq<char>> {
    Seq::new(entries.len(), |i: int| entries[i].0)
}

/// Registers `style` under `name`: replaces the style of the entry of that
/// name, or appends a new entry where there is none.
pub open spec fn upsert(entries: Seq<Entry>, name: Seq<char>, style: StyleView) -> Seq<Entry> {
    if has_name(entries, name) {
        entries.update(index_of(entries, name), (name, style))
    } else {
        entries.push((name, style))
    }
}

/// Registers each of `items` in turn, first to last.
pub open spec fn upsert_all(entries: Seq<Entry>, items: Seq<Entry>) -> Seq<Entry>
    decreases items.len(),
{
    if items.len() == 0 {
        entries
    } else {
        upsert(upsert_all(entries, items.drop_last()), items.last().0, items.last().1)
    }
}

/// The style that the last item called `name` assigns.
pub open spec fn last_assigned(items: Seq<Entry>, name: Seq<char>) -> Option<StyleView>
    decreases items.len(),
{
    if items.len() == 0 {
        None
    } else if items.last().0 == name {
        Some(items.last().1)
    } else {
        last_assigned(items.drop_last(), name)
    }
}

/// The mathematical view of a list of named styles.
pub open spec fn assignments(items: Seq<(String, Style)>) -> Seq<Entry> {
    Seq::new(items.len(), |i: int| (items[i].0@, items[i].1@))
}

/// In a list of distinct names, a name is found at one place only.
pub proof fn lemma_index_of_unique(entries: Seq<Entry>, i: int)
    requires
        distinct_names(entries),
        0 <= i < entries.len(),
    ensures
        has_name(entries, entries[i].0),
        index_of(entries, entries[i].0) == i,
        find(entries, entries[i].0) == Some(entries[i].1),
{
    let name = entries[i].0;
    let k = index_of(entries, name);
    assert(0 <= k < entries.len() && entries[k].0 == name);
    if k < i {
        assert(entries[k].0 != entries[i].0);
    } else if i < k {
        assert(entries[i].0 != entries[k].0);
    }
}

/// What registering one style does: the name is found with the new style,
/// every other name with the style it had, and no name comes to stand twice. A
/// name that was present keeps its place; a new one goes to the end.
pub proof fn lemma_upsert(entries: Seq<Entry>, name: Seq<char>, style: StyleView)
    requires
        distinct_names(entries),
    ensures
        distinct_names(upsert(entries, name, style)),
        find(upsert(entries, name, style), name) == Some(style),
        forall|other: Seq<char>|
            other != name ==> find(upsert(entries, name, style), other) == find(entries, other),
        forall|other: Seq<char>|
            has_name(upsert(entries, name, style), other) <==> (other == name || has_name(
                entries,
                other,
            )),
        has_name(entries, name) ==> names(upsert(entries, name, style)) == names(entries),
        !has_name(entries, name) ==> names(upsert(entries, name, style)) == names(entries).push(
            name,
        ),
{
    let after = upsert(entries, name, style);
    let k = if has_name(entries, name) {
        index_of(entries, name)
    } else {
        entries.len() as int
    };
    assert(after[k] == (name, style));
    assert forall|i: int| 0 <= i < entries.len() && i != k implies #[trigger] after[i]
        == entries[i] by {}
    assert forall|i: int, j: int| 0 <= i < j < after.len() implies (#[trigger] after[i]).0 != (
    #[trigger] after[j]).0 by {
        if j < entries.len() {
            assert(entries[i].0 != entries[j].0);
        } else {
            assert(entries[i].0 != name);
        }
    }
    if has_name(entries, name) {
        assert(names(after) =~= names(entries));
    } else {
        assert(names(after) =~= names(entries).push(name));
    }
    lemma_index_of_unique(after, k);
    assert forall|other: Seq<char>| other != name implies find(after, other) == find(
        entries,
        other,
    ) by {
        if has_name(entries, other) {
            let m = index_of(entries, other);
            assert(after[m] == entries[m]);
            lemma_index_of_unique(after, m);
            lemma_index_of_unique(entries, m);
        } else if has_name(after, other) {
            let m = index_of(after, other);
            assert(entries[m].0 == other);
        }
    }
    assert forall|other: Seq<char>| has_name(after, other) <==> (other == name || has_name(
        entries,
        other,
    )) by {
        if has_name(after, other) && other != name {
            let m = index_of(after, other);
            assert(entries[m].0 == other);
        }
        if has_name(entries, other) {
            let m = index_of(entries, other);
            assert(after[m].0 == other);
        }
        if other == name {
            assert(after[k].0 == other);
        }
    }
}

/// A name is assigned by `items` exactly when one of them carries it.
pub proof fn lemma_last_assigned(items: Seq<Entry>, name: Seq<char>)
    ensures
        last_assigned(items, name) is Some <==> has_name(items, name),
    decreases items.len(),
{
    if items.len() > 0 {
        let rest = items.drop_last();
        lemma_last_assigned(rest, name);
        if items.last().0 == name {
            assert(items[items.len() - 1].0 == name);
        } else {
            if has_name(rest, name) {
                let k = index_of(rest, name);
                assert(items[k].0 == name);
            }
            if has_name(items, name) {
                let k = index_of(items, name);
                assert(rest[k].0 == name);
            }
        }
    }
}

/// In a list of distinct names, the style that a name is assigned last is the
/// style of its one item.
pub proof fn lemma_last_assigned_distinct(items: Seq<Entry>, i: int)
    requires
        distinct_names(items),
        0 <= i < items.len(),
    ensures
        last_assigned(items, items[i].0) == Some(items[i].1),
    decreases items.len(),
{
    if i < items.len() - 1 {
        let rest = items.drop_last();
        assert(items[i].0 != items[items.len() - 1].0);
        assert forall|a: int, b: int| 0 <= a < b < rest.len() implies (#[trigger] rest[a]).0 != (
        #[trigger] rest[b]).0 by {
            assert(items[a].0 != items[b].0);
        }
        assert(rest[i] == items[i]);
        lemma_last_assigned_distinct(rest, i);
    }
}

/// What registering a list of styles does to a registry: no name comes to stand
/// twice; a name that the list assigns ends with the style that the list
/// assigns to it last; every other name keeps what it had.
pub proof fn lemma_upsert_all(entries: Seq<Entry>, items: Seq<Entry>)
    requires
        distinct_names(entries),
    ensures
        distinct_names(upsert_all(entries, items)),
        forall|name: Seq<char>| #[trigger]
            find(upsert_all(entries, items), name) == if last_assigned(items, name) is Some {
                last_assigned(items, name)
            } else {
                find(entries, name)
            },
        forall|name: Seq<char>| #[trigger]
            has_name(upsert_all(entries, items), name) <==> (has_name(entries, name) || has_name(
                items,
                name,
            )),
    decreases items.len(),
{
    let after = upsert_all(entries, items);
    if items.len() > 0 {
        let rest = items.drop_last();
        let mid = upsert_all(entries, rest);
        let last = items.last();
        lemma_upsert_all(entries, rest);
        lemma_upsert(mid, last.0, last.1);
        assert forall|name: Seq<char>| #[trigger]
            find(after, name) == if last_assigned(items, name) is Some {
                last_assigned(items, name)
            } else {
                find(entries, name)
            } by {
            if name != last.0 {
                assert(find(after, name) == find(mid, name));
            }
        }
        assert forall|name: Seq<char>| #[trigger]
            has_name(after, name) <==> (has_name(entries, name) || has_name(items, name)) by {
            lemma_last_assigned(items, name);
            lemma_last_assigned(rest, name);
            assert(has_name(after, name) <==> (name == last.0 || has_name(mid, name)));
            assert(has_name(mid, name) <==> (has_name(entries, name) || has_name(rest, name)));
        }
    } else {
        assert forall|name: Seq<char>| #[trigger]
            has_name(after, name) <==> (has_name(entries, name) || has_name(items, name)) by {
            lemma_last_assigned(items, name);
        }
    }
}

/// Where every name of the list is registered already, registering the list
/// adds no entry and moves none.
pub proof fn lemma_upsert_all_keeps_names(entries: Seq<Entry>, items: Seq<Entry>)
    requires
        distinct_names(entries),
        forall|k: int| 0 <= k < items.len() ==> has_name(entries, (#[trigger] items[k]).0),
    ensures
        names(upsert_all(entries, items)) == names(entries),
    decreases items.len(),
{
    if items.len() > 0 {
        let rest = items.drop_last();
        let mid = upsert_all(entries, rest);
        let last = items.last();
        assert forall|k: int| 0 <= k < rest.len() implies has_name(
            entries,
            (#[trigger] rest[k]).0,
        ) by {
            assert(rest[k] == items[k]);
        }
        lemma_upsert_all_keeps_names(entries, rest);
        lemma_upsert_all(entries, rest);
        assert(has_name(entries, items[items.len() - 1].0));
        assert(has_name(mid, last.0));
        lemma_upsert(mid, last.0, last.1);
    }
}

/// Two registries with the same names in the same order, and the same style
/// under each name, are the same registry.
pub proof fn lemma_same_registry(a: Seq<Entry>, b: Seq<Entry>)
    requires
        distinct_names(a),
        distinct_names(b),
        names(a) == names(b),
        forall|name: Seq<char>| #[trigger] find(a, name) == find(b, name),
    ensures
        a == b,
{
    assert(a.len() == names(a).len());
    assert(b.len() == names(b).len());
    assert forall|i: int| 0 <= i < a.len() implies a[i] == b[i] by {
        assert(names(a)[i] == a[i].0);
        assert(names(b)[i] == b[i].0);
        lemma_index_of_unique(a, i);
        lemma_index_of_unique(b, i);
        assert(find(a, a[i].0) == find(b, a[i].0));
    }
    assert(a =~= b);
}

/// Registering the same list a second time changes nothing.
pub proof fn lemma_upsert_all_idempotent(entries: Seq<Entry>, items: Seq<Entry>)
    requires
        distinct_names(entries),
    ensures
        upsert_all(upsert_all(entries, items), items) == upsert_all(entries, items),
{
    let once = upsert_all(entries, items);
    let twice = upsert_all(once, items);
    lemma_upsert_all(entries, items);
    lemma_upsert_all(once, items);
    assert forall|k: int| 0 <= k < items.len() implies has_name(once, (#[trigger] items[k]).0) by {
        assert(has_name(items, items[k].0));
    }
    lemma_upsert_all_keeps_names(once, items);
    assert forall|name: Seq<char>| #[trigger] find(twice, name) == find(once, name) by {}
    lemma_same_registry(twice, once);
}

/// Registering one list and then another is registering the two as one list.
pub proof fn lemma_upsert_all_concat(entries: Seq<Entry>, first: Seq<Entry>, second: Seq<Entry>)
    ensures
        upsert_all(upsert_all(entries, first), second) == upsert_all(entries, first + second),
    decreases second.len(),
{
    if second.len() == 0 {
        assert(first + second =~= first);
    } else {
        lemma_upsert_all_concat(entries, first, second.drop_last());
        assert((first + second).drop_last() =~= first + second.drop_last());
        assert((first + second).last() == second.last());
    }
}

/// Which names are registered, and in which order, depends on the names of the
/// list alone, not on its styles.
pub proof fn lemma_upsert_all_names(entries: Seq<Entry>, a: Seq<Entry>, b: Seq<Entry>)
    requires
        distinct_names(entries),
        names(a) == names(b),
    ensures
        names(upsert_all(entries, a)) == names(upsert_all(entries, b)),
    decreases a.len(),
{
    assert(a.len() == names(a).len());
    assert(b.len() == names(b).len());
    if a.len() > 0 {
        let ra = a.drop_last();
        let rb = b.drop_last();
        assert(names(ra) =~= names(a).drop_last());
        assert(names(rb) =~= names(b).drop_last());
        lemma_upsert_all_names(entries, ra, rb);
        lemma_upsert_all(entries, ra);
        lemma_upsert_all(entries, rb);
        let ma = upsert_all(entries, ra);
        let mb = upsert_all(entries, rb);
        assert(names(a)[a.len() - 1] == a.last().0);
        assert(names(b)[b.len() - 1] == b.last().0);
        let name = a.last().0;
        lemma_upsert(ma, name, a.last().1);
        lemma_upsert(mb, name, b.last().1);
        assert(has_name(ma, name) <==> has_name(mb, name)) by {
            lemma_names_decide(ma, mb, name);
        }
    }
}

/// Whether a name is registered can be read off the list of names.
pub proof fn lemma_names_decide(a: Seq<Entry>, b: Seq<Entry>, name: Seq<char>)
    requires
        names(a) == names(b),
    ensures
        has_name(a, name) <==> has_name(b, name),
{
    assert(a.len() == names(a).len());
    assert(b.len() == names(b).len());
    if has_name(a, name) {
        let k = index_of(a, name);
        assert(names(a)[k] == name);
        assert(names(b)[k] == b[k].0);
    }
    if has_name(b, name) {
        let k = index_of(b, name);
        assert(names(b)[k] == name);
        assert(names(a)[k] == a[k].0);
    }
}

/// The place of the entry called `name`, if there is one.
fn position(entries: &Vec<(String, Style)>, name: &str) -> (place: Option<usize>)
    ensures
        match place {
            Some(i) => i < entries.len() && assignments(entries@)[i as int].0 == name@,
            None => !has_name(assignments(entries@), name@),
        },
{
    let wanted = name.to_owned();
    let mut i: usize = 0;
    while i < entries.len()
        invariant
            0 <= i <= entries.len(),
            wanted@ == name@,
            forall|j: int| 0 <= j < i ==> (#[trigger] assignments(entries@)[j]).0 != name@,
        decreases entries.len() - i,
    {
        if entries[i].0 == wanted {
            assert(assignments(entries@)[i as int].0 == name@);
            return Some(i);
        }
        i += 1;
    }
    None
}

/// A registry of named styles.
#[derive(Debug)]
pub struct Registry {
    entries: Vec<(String, Style)>,
}

impl View for Registry {
    type V = Seq<Entry>;

    closed spec fn view(&self) -> Seq<Entry> {
        assignments(self.entries@)
    }
}

impl Registry {
    #[verifier::type_invariant]
    pub closed spec fn names_are_distinct(self) -> bool {
        distinct_names(self@)
    }

    /// An empty registry.
    pub fn new() -> (registry: Registry)
        ensures
            registry@ == Seq::<Entry>::empty(),
            distinct_names(registry@),
    {
        let registry = Registry { entries: Vec::new() };
        assert(registry@ =~= Seq::<Entry>::empty());
        registry
    }

    /// The number of names that are registered.
    pub fn len(&self) -> (n: usize)
        ensures
            n == self@.len(),
    {
        self.entries.len()
    }

    /// The registered names and styles, in the order in which the names were
    /// first set. No name occurs twice.
    pub fn entries(&self) -> (entries: &Vec<(String, Style)>)
        ensures
            assignments(entries@) == self@,
            distinct_names(self@),
    {
        proof {
            use_type_invariant(self);
        }
        &self.entries
    }

    /// The style registered under `name`, if any.
    pub fn get(&self, name: &str) -> (style: Option<Style>)
        ensures
            match style {
                Some(s) => find(self@, name@) == Some(s@),
                None => find(self@, name@) is None,
            },
    {
        proof {
            use_type_invariant(self);
        }
        match position(&self.entries, name) {
            Some(i) => {
                proof {
                    lemma_index_of_unique(self@, i as int);
                }
                Some(self.entries[i].1)
            },
            None => None,
        }
    }

    /// Registers `style` under `name`. A name that is already present keeps its
    /// place and takes the new style; a new name goes to the end.
    pub fn set(&mut self, name: &str, style: Style)
        ensures
            final(self)@ == upsert(old(self)@, name@, style@),
            distinct_names(final(self)@),
    {
        proof {
            use_type_invariant(&*self);
            lemma_upsert(self@, name@, style@);
        }
        let ghost before = self@;
        // The entries are taken out while they change, and put back at the end.
        let mut entries: Vec<(String, Style)> = Vec::new();
        std::mem::swap(&mut self.entries, &mut entries);
        match position(&entries, name) {
            Some(i) => {
                proof {
                    lemma_index_of_unique(before, i as int);
                }
                entries.set(i, (name.to_owned(), style));
            },
            None => {
                entries.push((name.to_owned(), style));
            },
        }
        assert(assignments(entries@) =~= upsert(before, name@, style@));
        std::mem::swap(&mut self.entries, &mut entries);
    }

    /// Registers each of `items` in turn, first to last: the same as calling
    /// [`Registry::set`] on one after the other.
    pub fn set_many(&mut self, items: &Vec<(String, Style)>)
        ensures
            final(self)@ == upsert_all(old(self)@, assignments(items@)),
            distinct_names(final(self)@),
    {
        proof {
            use_type_invariant(&*self);
        }
        let ghost all = assignments(items@);
        let mut i: usize = 0;
        while i < items.len()
            invariant
                0 <= i <= items.len(),
                all == assignments(items@),
                self@ == upsert_all(old(self)@, all.take(i as int)),
                distinct_names(self@),
            decreases items.len() - i,
        {
            proof {
                assert(all.take(i + 1).drop_last() =~= all.take(i as int));
                assert(all.take(i + 1).last() == (items@[i as int].0@, items@[i as int].1@));
            }
            self.set(items[i].0.as_str(), items[i].1);
            i += 1;
        }
        assert(all.take(items.len() as int) =~= all);
    }
}

} // verus!
