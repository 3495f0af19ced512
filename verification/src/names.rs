//! A map keyed by names, kept in name order.
use vstd::prelude::*;

use crate::text;

verus! {

/// Entries whose names strictly increase.
pub open spec fn names_sorted<T>(s: Seq<(Seq<char>, T)>) -> bool {
    forall|i: int, j: int| 0 <= i < j < s.len() ==> #[trigger] text::text_lt(s[i].0, s[j].0)
}

/// Whether some entry carries the name.
pub open spec fn has_name<T>(s: Seq<(Seq<char>, T)>, name: Seq<char>) -> bool {
    exists|i: int| 0 <= i < s.len() && #[trigger] s[i].0 == name
}

/// Where the entry with the name stands, if there is one.
pub open spec fn position_of<T>(s: Seq<(Seq<char>, T)>, name: Seq<char>) -> int {
    choose|i: int| 0 <= i < s.len() && #[trigger] s[i].0 == name
}

/// The value under a name.
pub open spec fn lookup<T>(s: Seq<(Seq<char>, T)>, name: Seq<char>) -> Option<T> {
    if has_name(s, name) {
        Some(s[position_of(s, name)].1)
    } else {
        None
    }
}

/// How many leading entries come before the name.
pub open spec fn insert_position<T>(s: Seq<(Seq<char>, T)>, name: Seq<char>) -> nat
    decreases s.len(),
{
    if s.len() == 0 || !text::text_lt(s[0].0, name) {
        0
    } else {
        1 + insert_position(s.drop_first(), name)
    }
}

/// The entries with `name` bound to `value`, in name order.
pub open spec fn inserted<T>(
    s: Seq<(Seq<char>, T)>,
    name: Seq<char>,
    value: T,
) -> Seq<(Seq<char>, T)> {
    let p = insert_position(s, name) as int;
    if p < s.len() && s[p].0 == name {
        s.update(p, (name, value))
    } else {
        s.insert(p, (name, value))
    }
}

/// The entries without the one under `name`.
pub open spec fn removed<T>(s: Seq<(Seq<char>, T)>, name: Seq<char>) -> Seq<(Seq<char>, T)> {
    if has_name(s, name) {
        s.remove(position_of(s, name))
    } else {
        s
    }
}

/// In sorted entries a name occurs once.
pub proof fn name_occurs_once<T>(s: Seq<(Seq<char>, T)>, i: int, j: int)
    requires
        names_sorted(s),
        0 <= i < s.len(),
        0 <= j < s.len(),
        s[i].0 == s[j].0,
    ensures
        i == j,
{
    text::text_lt_irreflexive(s[i].0);
    if i < j {
        assert(text::text_lt(s[i].0, s[j].0));
    } else if j < i {
        assert(text::text_lt(s[j].0, s[i].0));
    }
}

/// Looking an entry's name up gives that entry's value.
pub proof fn lookup_at<T>(s: Seq<(Seq<char>, T)>, i: int)
    requires
        names_sorted(s),
        0 <= i < s.len(),
    ensures
        has_name(s, s[i].0),
        lookup(s, s[i].0) == Some(s[i].1),
{
    name_occurs_once(s, i, position_of(s, s[i].0));
}

/// `insert_position` is the one index that splits the entries at `name`.
pub proof fn insert_position_is<T>(s: Seq<(Seq<char>, T)>, name: Seq<char>, p: int)
    requires
        0 <= p <= s.len(),
        forall|i: int| 0 <= i < p ==> text::text_lt(#[trigger] s[i].0, name),
        p < s.len() ==> !text::text_lt(s[p].0, name),
    ensures
        insert_position(s, name) == p,
    decreases s.len(),
{
    if p > 0 {
        let rest = s.drop_first();
        assert forall|i: int| 0 <= i < p - 1 implies text::text_lt(#[trigger] rest[i].0, name) by {
            assert(rest[i] == s[i + 1]);
        }
        assert(text::text_lt(s[0].0, name));
        insert_position_is(rest, name, p - 1);
    }
}

/// The entries before `insert_position` come before `name`; none from there on does.
pub proof fn insert_position_splits<T>(s: Seq<(Seq<char>, T)>, name: Seq<char>)
    requires
        names_sorted(s),
    ensures
        insert_position(s, name) <= s.len(),
        forall|i: int|
            0 <= i < insert_position(s, name) ==> text::text_lt(#[trigger] s[i].0, name),
        forall|i: int|
            insert_position(s, name) <= i < s.len() ==> !text::text_lt(#[trigger] s[i].0, name),
    decreases s.len(),
{
    if s.len() > 0 {
        if text::text_lt(s[0].0, name) {
            let rest = s.drop_first();
            assert(names_sorted(rest)) by {
                assert forall|i: int, j: int| 0 <= i < j < rest.len() implies text::text_lt(
                    rest[i].0,
                    rest[j].0,
                ) by {
                    assert(text::text_lt(s[i + 1].0, s[j + 1].0));
                }
            }
            insert_position_splits(rest, name);
            let p = insert_position(rest, name) as int;
            assert forall|i: int| 0 <= i < p + 1 implies text::text_lt(#[trigger] s[i].0, name) by {
                if i > 0 {
                    assert(s[i] == rest[i - 1]);
                }
            }
            assert forall|i: int| p + 1 <= i < s.len() implies !text::text_lt(
                #[trigger] s[i].0,
                name,
            ) by {
                assert(s[i] == rest[i - 1]);
            }
        } else {
            assert forall|i: int| 0 <= i < s.len() implies !text::text_lt(#[trigger] s[i].0, name) by {
                if i > 0 && text::text_lt(s[i].0, name) {
                    assert(text::text_lt(s[0].0, s[i].0));
                    text::text_lt_transitive(s[0].0, s[i].0, name);
                }
            }
        }
    }
}

/// Inserting a name that comes after all others appends the entry.
pub proof fn inserted_last<T>(s: Seq<(Seq<char>, T)>, name: Seq<char>, value: T)
    requires
        forall|i: int| 0 <= i < s.len() ==> text::text_lt(#[trigger] s[i].0, name),
    ensures
        inserted(s, name, value) == s.push((name, value)),
{
    insert_position_is(s, name, s.len() as int);
    assert(s.insert(s.len() as int, (name, value)) =~= s.push((name, value)));
}

/// Insertion keeps name order.
pub proof fn inserted_sorted<T>(s: Seq<(Seq<char>, T)>, name: Seq<char>, value: T)
    requires
        names_sorted(s),
    ensures
        names_sorted(inserted(s, name, value)),
{
    insert_position_splits(s, name);
    let p = insert_position(s, name) as int;
    let r = inserted(s, name, value);
    if p < s.len() && s[p].0 == name {
        assert forall|i: int, j: int| 0 <= i < j < r.len() implies text::text_lt(r[i].0, r[j].0) by {
            assert(text::text_lt(s[i].0, s[j].0));
        }
    } else {
        assert forall|i: int, j: int| 0 <= i < j < r.len() implies text::text_lt(r[i].0, r[j].0) by {
            if i < p && j < p {
                assert(text::text_lt(s[i].0, s[j].0));
            } else if i < p && j == p {
                assert(text::text_lt(s[i].0, name));
            } else if i < p {
                assert(text::text_lt(s[i].0, s[j - 1].0));
            } else if i == p {
                assert(p < s.len());
                text::text_lt_total(s[p].0, name);
                assert(!text::text_lt(s[p].0, name));
                if j - 1 > p {
                    assert(text::text_lt(s[p].0, s[j - 1].0));
                    text::text_lt_transitive(name, s[p].0, s[j - 1].0);
                }
            } else {
                assert(text::text_lt(s[i - 1].0, s[j - 1].0));
            }
        }
    }
}

/// After an insertion the name gives the new value, and every other name what it gave before.
pub proof fn inserted_lookup<T>(s: Seq<(Seq<char>, T)>, name: Seq<char>, value: T, q: Seq<char>)
    requires
        names_sorted(s),
    ensures
        lookup(inserted(s, name, value), q) == if q == name {
            Some(value)
        } else {
            lookup(s, q)
        },
{
    insert_position_splits(s, name);
    inserted_sorted(s, name, value);
    let p = insert_position(s, name) as int;
    let r = inserted(s, name, value);
    assert(r[p] == (name, value));
    if q == name {
        lookup_at(r, p);
    } else if has_name(s, q) {
        let i = position_of(s, q);
        lookup_at(s, i);
        let k = inserted_index(s, name, value, i);
        lookup_at(r, k);
    } else if has_name(r, q) {
        let k = position_of(r, q);
        assert(k != p);
        if p < s.len() && s[p].0 == name {
            assert(r[k] == s[k]);
        } else if k < p {
            assert(r[k] == s[k]);
        } else {
            assert(r[k] == s[k - 1]);
        }
    }
}

proof fn inserted_index<T>(s: Seq<(Seq<char>, T)>, name: Seq<char>, value: T, i: int) -> (k: int)
    requires
        insert_position(s, name) <= s.len(),
        0 <= i < s.len(),
        s[i].0 != name,
    ensures
        0 <= k < inserted(s, name, value).len(),
        inserted(s, name, value)[k] == s[i],
{
    let p = insert_position(s, name) as int;
    if i < p || (p < s.len() && s[p].0 == name) {
        i
    } else {
        i + 1
    }
}

/// Removal keeps name order.
pub proof fn removed_sorted<T>(s: Seq<(Seq<char>, T)>, name: Seq<char>)
    requires
        names_sorted(s),
    ensures
        names_sorted(removed(s, name)),
{
    let r = removed(s, name);
    if has_name(s, name) {
        let p = position_of(s, name);
        assert forall|i: int, j: int| 0 <= i < j < r.len() implies text::text_lt(r[i].0, r[j].0) by {
            let a = if i < p { i } else { i + 1 };
            let b = if j < p { j } else { j + 1 };
            assert(text::text_lt(s[a].0, s[b].0));
        }
    }
}

/// After a removal the name gives nothing, and every other name what it gave before.
pub proof fn removed_lookup<T>(s: Seq<(Seq<char>, T)>, name: Seq<char>, q: Seq<char>)
    requires
        names_sorted(s),
    ensures
        lookup(removed(s, name), q) == if q == name {
            None
        } else {
            lookup(s, q)
        },
{
    if has_name(s, name) {
        removed_sorted(s, name);
        removed_has_name(s, name, q);
        let r = removed(s, name);
        if q != name && has_name(s, q) {
            let p = position_of(s, name);
            let a = position_of(s, q);
            let i = if a < p { a } else { a - 1 };
            assert(r[i] == s[a]);
            lookup_at(r, i);
            lookup_at(s, a);
        }
    }
}

proof fn removed_has_name<T>(s: Seq<(Seq<char>, T)>, name: Seq<char>, q: Seq<char>)
    requires
        names_sorted(s),
        has_name(s, name),
    ensures
        has_name(removed(s, name), q) == (q != name && has_name(s, q)),
{
    let p = position_of(s, name);
    let r = removed(s, name);
    assert(r == s.remove(p));
    if has_name(r, q) {
        let i = position_of(r, q);
        let a = if i < p { i } else { i + 1 };
        assert(r[i] == s[a]);
        if q == name {
            name_occurs_once(s, a, p);
        }
    }
    if q != name && has_name(s, q) {
        let a = position_of(s, q);
        let i = if a < p { a } else { a - 1 };
        assert(r[i] == s[a]);
    }
}

/// The entries with each value replaced by what `f` makes of it.
pub open spec fn with_values<T, U>(s: Seq<(Seq<char>, T)>, f: spec_fn(T) -> U) -> Seq<
    (Seq<char>, U),
> {
    Seq::new(s.len(), |i: int| (s[i].0, f(s[i].1)))
}

proof fn same_names_same_position<T, U>(
    s: Seq<(Seq<char>, T)>,
    t: Seq<(Seq<char>, U)>,
    name: Seq<char>,
)
    requires
        s.len() == t.len(),
        forall|i: int| 0 <= i < s.len() ==> (#[trigger] s[i]).0 == t[i].0,
    ensures
        insert_position(s, name) == insert_position(t, name),
        insert_position(s, name) <= s.len(),
    decreases s.len(),
{
    if s.len() > 0 {
        assert(s[0].0 == t[0].0);
        let (rest, other) = (s.drop_first(), t.drop_first());
        assert forall|i: int| 0 <= i < rest.len() implies (#[trigger] rest[i]).0 == other[i].0 by {
            assert(s[i + 1].0 == t[i + 1].0);
        }
        same_names_same_position(rest, other, name);
    }
}

/// Replacing values commutes with insertion.
pub proof fn with_values_inserted<T, U>(
    s: Seq<(Seq<char>, T)>,
    f: spec_fn(T) -> U,
    name: Seq<char>,
    value: T,
)
    ensures
        with_values(inserted(s, name, value), f) == inserted(with_values(s, f), name, f(value)),
{
    same_names_same_position(s, with_values(s, f), name);
    assert(with_values(inserted(s, name, value), f) =~= inserted(with_values(s, f), name, f(value)));
}

/// Replacing values keeps the names, their order, and what is found under them.
pub proof fn with_values_lookup<T, U>(s: Seq<(Seq<char>, T)>, f: spec_fn(T) -> U, name: Seq<char>)
    requires
        names_sorted(s),
    ensures
        names_sorted(with_values(s, f)),
        has_name(with_values(s, f), name) == has_name(s, name),
        lookup(with_values(s, f), name) == match lookup(s, name) {
            Some(value) => Some(f(value)),
            None => None,
        },
{
    let t = with_values(s, f);
    assert forall|i: int, j: int| 0 <= i < j < t.len() implies #[trigger] text::text_lt(
        t[i].0,
        t[j].0,
    ) by {
        assert(text::text_lt(s[i].0, s[j].0));
    }
    if has_name(s, name) {
        let i = position_of(s, name);
        assert(t[i].0 == name);
        lookup_at(s, i);
        lookup_at(t, i);
    } else if has_name(t, name) {
        let i = position_of(t, name);
        assert(s[i].0 == name);
    }
}

/// The entries whose values are to be kept, in the order they had.
pub open spec fn kept<T>(s: Seq<(Seq<char>, T)>, keep: spec_fn(T) -> bool) -> Seq<(Seq<char>, T)>
    decreases s.len(),
{
    if s.len() == 0 {
        Seq::empty()
    } else {
        let before = kept(s.drop_last(), keep);
        if keep(s.last().1) {
            before.push(s.last())
        } else {
            before
        }
    }
}

/// Keeping some entries keeps name order, and what is found under a name that
/// stays.
pub proof fn kept_lookup<T>(s: Seq<(Seq<char>, T)>, keep: spec_fn(T) -> bool, name: Seq<char>)
    requires
        names_sorted(s),
    ensures
        names_sorted(kept(s, keep)),
        lookup(kept(s, keep), name) == match lookup(s, name) {
            Some(value) => if keep(value) {
                Some(value)
            } else {
                None
            },
            None => None,
        },
{
    let r = kept(s, keep);
    kept_sorted(s, keep);
    if has_name(r, name) {
        let i = position_of(r, name);
        let k = kept_source(s, keep, i);
        lookup_at(r, i);
        lookup_at(s, k);
    }
    if has_name(s, name) {
        let k = position_of(s, name);
        lookup_at(s, k);
        if keep(s[k].1) {
            kept_holds(s, keep, k);
        }
    }
}

/// Where an entry that is kept stood before.
proof fn kept_source<T>(s: Seq<(Seq<char>, T)>, keep: spec_fn(T) -> bool, i: int) -> (k: int)
    requires
        0 <= i < kept(s, keep).len(),
    ensures
        0 <= k < s.len(),
        kept(s, keep)[i] == s[k],
        keep(s[k].1),
    decreases s.len(),
{
    let rest = s.drop_last();
    if i < kept(rest, keep).len() {
        kept_source(rest, keep, i)
    } else {
        s.len() - 1
    }
}

proof fn kept_holds<T>(s: Seq<(Seq<char>, T)>, keep: spec_fn(T) -> bool, k: int)
    requires
        0 <= k < s.len(),
        keep(s[k].1),
    ensures
        exists|i: int| 0 <= i < kept(s, keep).len() && #[trigger] kept(s, keep)[i] == s[k],
    decreases s.len(),
{
    let rest = s.drop_last();
    let before = kept(rest, keep);
    if k < rest.len() {
        kept_holds(rest, keep, k);
        let i = choose|i: int| 0 <= i < before.len() && #[trigger] before[i] == rest[k];
        assert(kept(s, keep)[i] == s[k]);
    } else {
        assert(kept(s, keep)[before.len() as int] == s[k]);
    }
}

/// Keeping some entries keeps name order.
pub proof fn kept_sorted<T>(s: Seq<(Seq<char>, T)>, keep: spec_fn(T) -> bool)
    requires
        names_sorted(s),
    ensures
        names_sorted(kept(s, keep)),
    decreases s.len(),
{
    if s.len() > 0 {
        let rest = s.drop_last();
        assert forall|i: int, j: int| 0 <= i < j < rest.len() implies #[trigger] text::text_lt(
            rest[i].0,
            rest[j].0,
        ) by {
            assert(text::text_lt(s[i].0, s[j].0));
        }
        kept_sorted(rest, keep);
        let before = kept(rest, keep);
        let r = kept(s, keep);
        assert forall|i: int, j: int| 0 <= i < j < r.len() implies #[trigger] text::text_lt(
            r[i].0,
            r[j].0,
        ) by {
            assert(r[i] == before[i]);
            if j < before.len() {
                assert(text::text_lt(before[i].0, before[j].0));
            } else {
                let k = kept_source(rest, keep, i);
                assert(text::text_lt(s[k].0, s[s.len() - 1].0));
            }
        }
    }
}

/// Replacing values commutes with removal.
pub proof fn with_values_removed<T, U>(s: Seq<(Seq<char>, T)>, f: spec_fn(T) -> U, name: Seq<char>)
    requires
        names_sorted(s),
    ensures
        with_values(removed(s, name), f) == removed(with_values(s, f), name),
{
    let t = with_values(s, f);
    with_values_lookup(s, f, name);
    if has_name(s, name) {
        let p = position_of(s, name);
        let q = position_of(t, name);
        assert(t[p].0 == name);
        name_occurs_once(t, p, q);
    }
    assert(with_values(removed(s, name), f) =~= removed(t, name));
}

/// Entries by the characters of their names.
pub open spec fn entry_views<T>(entries: Seq<(String, T)>) -> Seq<(Seq<char>, T)> {
    Seq::new(entries.len(), |i: int| (entries[i].0@, entries[i].1))
}

/// A map from names to values that is walked in name order.
#[derive(Debug, PartialEq, Eq)]
pub struct NameMap<T> {
    entries: Vec<(String, T)>,
}

impl<T> View for NameMap<T> {
    type V = Seq<(Seq<char>, T)>;

    closed spec fn view(&self) -> Seq<(Seq<char>, T)> {
        entry_views(self.entries@)
    }
}

impl<T> NameMap<T> {
    #[verifier::type_invariant]
    spec fn in_name_order(self) -> bool {
        names_sorted(self@)
    }

    pub fn new() -> (r: Self)
        ensures
            r@ == Seq::<(Seq<char>, T)>::empty(),
    {
        NameMap { entries: Vec::new() }
    }

    pub fn len(&self) -> (r: usize)
        ensures
            r == self@.len(),
            names_sorted(self@),
    {
        proof {
            use_type_invariant(&*self);
        }
        self.entries.len()
    }

    pub fn is_empty(&self) -> (r: bool)
        ensures
            r == (self@.len() == 0),
    {
        self.entries.len() == 0
    }

    pub fn name_at(&self, index: usize) -> (r: &String)
        requires
            index < self@.len(),
        ensures
            r@ == self@[index as int].0,
    {
        &self.entries[index].0
    }

    pub fn value_at(&self, index: usize) -> (r: &T)
        requires
            index < self@.len(),
        ensures
            *r == self@[index as int].1,
    {
        &self.entries[index].1
    }

    fn position(&self, name: &str) -> (r: Option<usize>)
        ensures
            match r {
                Some(i) => i < self@.len() && self@[i as int].0 == name@,
                None => !has_name(self@, name@),
            },
    {
        let mut i: usize = 0;
        while i < self.entries.len()
            invariant
                i <= self.entries.len(),
                forall|j: int| 0 <= j < i ==> (#[trigger] self@[j]).0 != name@,
            decreases self.entries.len() - i,
        {
            if text::same(self.entries[i].0.as_str(), name) {
                assert(self@[i as int].0 == name@);
                return Some(i);
            }
            assert(self@[i as int].0 != name@);
            i += 1;
        }
        None
    }

    pub fn contains_name(&self, name: &str) -> (r: bool)
        ensures
            r == has_name(self@, name@),
            names_sorted(self@),
    {
        proof {
            use_type_invariant(&*self);
        }
        match self.position(name) {
            Some(_) => true,
            None => false,
        }
    }

    pub fn get(&self, name: &str) -> (r: Option<&T>)
        ensures
            match r {
                Some(v) => lookup(self@, name@) == Some(*v),
                None => lookup(self@, name@) is None,
            },
            names_sorted(self@),
    {
        proof {
            use_type_invariant(&*self);
        }
        match self.position(name) {
            Some(i) => {
                proof {
                    lookup_at(self@, i as int);
                }
                Some(&self.entries[i].1)
            },
            None => None,
        }
    }

    /// Binds `name` to `value`, replacing what it was bound to.
    pub fn insert(&mut self, name: String, value: T)
        ensures
            final(self)@ == inserted(old(self)@, name@, value),
            names_sorted(old(self)@),
            names_sorted(final(self)@),
    {
        proof {
            use_type_invariant(&*self);
            insert_position_splits(self@, name@);
            inserted_sorted(self@, name@, value);
        }
        let ghost before = self@;
        let mut p: usize = 0;
        while p < self.entries.len() && text::text_less(self.entries[p].0.as_str(), name.as_str())
            invariant
                p <= self.entries.len(),
                before == self@,
                forall|i: int| 0 <= i < p ==> text::text_lt((#[trigger] before[i]).0, name@),
            decreases self.entries.len() - p,
        {
            p += 1;
        }
        proof {
            assert(p < self@.len() ==> self.entries@[p as int].0@ == self@[p as int].0);
            insert_position_is(before, name@, p as int);
        }
        let mut entries: Vec<(String, T)> = Vec::new();
        std::mem::swap(&mut entries, &mut self.entries);
        let ghost taken = entries@;
        if p < entries.len() && text::same(entries[p].0.as_str(), name.as_str()) {
            assert(before[p as int].0 == name@);
            entries.set(p, (name, value));
        } else {
            assert(p < before.len() ==> before[p as int].0 == taken[p as int].0@);
            entries.insert(p, (name, value));
        }
        assert(entry_views(entries@) =~= inserted(
            before,
            name@,
            value,
        ));
        *self = NameMap { entries };
    }

    /// A map of entries that are in name order already.
    pub fn from_sorted(entries: Vec<(String, T)>) -> (r: Self)
        requires
            names_sorted(entry_views(entries@)),
        ensures
            r@ == entry_views(entries@),
    {
        NameMap { entries }
    }

    /// Drops the entries whose values the test, which decides as `rule` does,
    /// turns down.
    pub(crate) fn retain<F: Fn(&T) -> bool>(&mut self, test: F, rule: Ghost<spec_fn(T) -> bool>)
        requires
            forall|value: &T| #[trigger] test.requires((value,)),
            forall|value: &T, b: bool| #[trigger] test.ensures((value,), b) ==> b == rule@(*value),
        ensures
            final(self)@ == kept(old(self)@, rule@),
            names_sorted(old(self)@),
            names_sorted(final(self)@),
    {
        proof {
            use_type_invariant(&*self);
            kept_sorted(self@, rule@);
        }
        let ghost before = self@;
        let mut entries: Vec<(String, T)> = Vec::new();
        std::mem::swap(&mut entries, &mut self.entries);
        assert(entry_views(entries@) =~= before);
        let mut keeping: Vec<(String, T)> = Vec::new();
        let total = entries.len();
        assert(before.take(0) =~= Seq::empty());
        assert(entry_views(keeping@) =~= Seq::empty());
        let ghost all = entries@;
        let mut i: usize = 0;
        while i < total
            invariant
                i <= total,
                total == all.len(),
                before == entry_views(all),
                entries@ == all.skip(i as int),
                entry_views(keeping@) == kept(before.take(i as int), rule@),
                forall|value: &T| #[trigger] test.requires((value,)),
                forall|value: &T, b: bool|
                    #[trigger] test.ensures((value,), b) ==> b == rule@(*value),
            decreases total - i,
        {
            let entry = entries.remove(0);
            assert(entry == all[i as int]);
            assert(entries@ =~= all.skip(i + 1));
            assert(before.take(i + 1).drop_last() =~= before.take(i as int));
            let ghost model = entry_views(keeping@);
            if test(&entry.1) {
                keeping.push(entry);
                assert(entry_views(keeping@) =~= model.push((entry.0@, entry.1)));
            }
            i += 1;
        }
        assert(before.take(i as int) =~= before);
        *self = NameMap { entries: keeping };
    }

    /// Takes `name` and its value out.
    pub fn remove(&mut self, name: &str)
        ensures
            final(self)@ == removed(old(self)@, name@),
            names_sorted(old(self)@),
            names_sorted(final(self)@),
    {
        proof {
            use_type_invariant(&*self);
            removed_sorted(self@, name@);
        }
        let ghost before = self@;
        let found = self.position(name);
        if let Some(p) = found {
            proof {
                name_occurs_once(before, p as int, position_of(before, name@));
            }
            let mut entries: Vec<(String, T)> = Vec::new();
            std::mem::swap(&mut entries, &mut self.entries);
            let _taken = entries.remove(p);
            assert(entry_views(entries@) =~= removed(
                before,
                name@,
            ));
            *self = NameMap { entries };
        }
    }
}

impl<T: Clone> Clone for NameMap<T> {
    fn clone(&self) -> (r: Self)
        ensures
            r@.len() == self@.len(),
            forall|i: int|
                0 <= i < self@.len() ==> (#[trigger] r@[i]).0 == self@[i].0 && cloned::<T>(
                    self@[i].1,
                    r@[i].1,
                ),
    {
        proof {
            use_type_invariant(&*self);
        }
        let mut entries: Vec<(String, T)> = Vec::new();
        let mut i: usize = 0;
        while i < self.entries.len()
            invariant
                i <= self.entries.len(),
                entries@.len() == i,
                forall|j: int|
                    0 <= j < i ==> (#[trigger] entries@[j]).0@ == self.entries@[j].0@ && cloned::<T>(
                        self.entries@[j].1,
                        entries@[j].1,
                    ),
            decreases self.entries.len() - i,
        {
            entries.push((self.entries[i].0.clone(), self.entries[i].1.clone()));
            i += 1;
        }
        let ghost copy = entry_views(entries@);
        assert forall|i: int, j: int| 0 <= i < j < copy.len() implies text::text_lt(
            copy[i].0,
            copy[j].0,
        ) by {
            assert(text::text_lt(self@[i].0, self@[j].0));
        }
        NameMap { entries }
    }
}

} // verus!
