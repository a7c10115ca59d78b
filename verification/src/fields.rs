//! Header and trailer fields: an ordered list of name/value pairs in which a
//! name may occur any number of times.

use vstd::prelude::*;

verus! {

/// The abstract contents of a `Fields`: the entries in order, each a name and
/// its value bytes.
pub type Entries = Seq<(Seq<char>, Seq<u8>)>;

/// The entries of a list of owned pairs, each name and value taken by its view.
pub open spec fn entries_view(list: Seq<(String, Vec<u8>)>) -> Entries {
    list.map_values(|e: (String, Vec<u8>)| (e.0@, e.1@))
}

/// A list of byte vectors taken by its view.
pub open spec fn values_view(list: Seq<Vec<u8>>) -> Seq<Seq<u8>> {
    list.map_values(|v: Vec<u8>| v@)
}

/// The values stored under `name`, in the order in which they occur.
pub open spec fn values_of(entries: Entries, name: Seq<char>) -> Seq<Seq<u8>>
    decreases entries.len(),
{
    if entries.len() == 0 {
        Seq::empty()
    } else {
        let earlier = values_of(entries.drop_last(), name);
        if entries.last().0 == name {
            earlier.push(entries.last().1)
        } else {
            earlier
        }
    }
}

/// The entries whose name is not `name`, in their original order.
pub open spec fn without_name(entries: Entries, name: Seq<char>) -> Entries
    decreases entries.len(),
{
    if entries.len() == 0 {
        Seq::empty()
    } else {
        let earlier = without_name(entries.drop_last(), name);
        if entries.last().0 == name {
            earlier
        } else {
            earlier.push(entries.last())
        }
    }
}

/// Whether some entry carries the name `name`.
pub open spec fn has_name(entries: Entries, name: Seq<char>) -> bool {
    exists|i: int| 0 <= i < entries.len() && #[trigger] entries[i].0 == name
}

/// One entry `(name, v)` for each value `v`, in order.
pub open spec fn pairs_for(name: Seq<char>, values: Seq<Seq<u8>>) -> Entries {
    values.map_values(|v: Seq<u8>| (name, v))
}

/// The entries after replacing every value stored under `name` by `values`:
/// the other entries keep their order and the new ones follow them.
pub open spec fn with_values(entries: Entries, name: Seq<char>, values: Seq<Seq<u8>>) -> Entries {
    without_name(entries, name) + pairs_for(name, values)
}

/// The entries after adding the value `value` under `name` at the end.
pub open spec fn with_appended(entries: Entries, name: Seq<char>, value: Seq<u8>) -> Entries {
    entries.push((name, value))
}

/// A list of header or trailer fields.
#[derive(Clone, Debug)]
pub struct Fields(pub Vec<(String, Vec<u8>)>);

impl View for Fields {
    type V = Entries;

    open spec fn view(&self) -> Entries {
        entries_view(self.0@)
    }
}

/// A copy of `bytes`.
pub fn copy_bytes(bytes: &Vec<u8>) -> (copy: Vec<u8>)
    ensures
        copy@ == bytes@,
{
    let copy = bytes.clone();
    assert(copy@ =~= bytes@);
    copy
}

/// A copy of `list`, each pair copied.
pub fn copy_entries(list: &Vec<(String, Vec<u8>)>) -> (copy: Vec<(String, Vec<u8>)>)
    ensures
        entries_view(copy@) == entries_view(list@),
{
    let mut copy: Vec<(String, Vec<u8>)> = Vec::new();
    let mut i: usize = 0;
    while i < list.len()
        invariant
            i <= list.len(),
            entries_view(copy@) == entries_view(list@.take(i as int)),
        decreases list.len() - i,
    {
        let name = list[i].0.clone();
        let value = copy_bytes(&list[i].1);
        proof {
            lemma_entries_view_push(copy@, (name, value));
            lemma_entries_view_push(list@.take(i as int), list@[i as int]);
            assert(list@.take(i + 1) =~= list@.take(i as int).push(list@[i as int]));
        }
        copy.push((name, value));
        i = i + 1;
    }
    assert(list@.take(list.len() as int) =~= list@);
    copy
}

/// The view of a list with one more pair is the view with one more entry.
proof fn lemma_entries_view_push(list: Seq<(String, Vec<u8>)>, entry: (String, Vec<u8>))
    ensures
        entries_view(list.push(entry)) == entries_view(list).push((entry.0@, entry.1@)),
{
    assert(entries_view(list.push(entry)) =~= entries_view(list).push((entry.0@, entry.1@)));
}

/// Adding one value under `name` adds one entry at the end.
proof fn lemma_pairs_for_push(name: Seq<char>, values: Seq<Seq<u8>>, value: Seq<u8>)
    ensures
        pairs_for(name, values.push(value)) == pairs_for(name, values).push((name, value)),
{
    assert(pairs_for(name, values.push(value)) =~= pairs_for(name, values).push((name, value)));
}

/// Taking the first `i + 1` entries of a view is taking the first `i` and
/// then the entry at `i`.
proof fn lemma_take_step(entries: Entries, i: int)
    requires
        0 <= i < entries.len(),
    ensures
        entries.take(i + 1).drop_last() == entries.take(i),
        entries.take(i + 1).last() == entries[i],
        entries.take(i + 1).len() > 0,
{
    assert(entries.take(i + 1).drop_last() =~= entries.take(i));
}

/// The view of the first entries of a list is the first entries of its view.
proof fn lemma_view_take(list: Seq<(String, Vec<u8>)>, i: int)
    requires
        0 <= i <= list.len(),
    ensures
        entries_view(list.take(i)) == entries_view(list).take(i),
{
    assert(entries_view(list.take(i)) =~= entries_view(list).take(i));
}

impl Fields {
    /// Fields with no entries.
    pub fn new() -> (fields: Fields)
        ensures
            fields@ == Seq::<(Seq<char>, Seq<u8>)>::empty(),
    {
        let fields = Fields(Vec::new());
        assert(fields@ =~= Seq::<(Seq<char>, Seq<u8>)>::empty());
        fields
    }

    /// The values stored under `name`, in order.
    pub fn get(&self, name: &String) -> (values: Vec<Vec<u8>>)
        ensures
            values_view(values@) == values_of(self@, name@),
    {
        let mut values: Vec<Vec<u8>> = Vec::new();
        let mut i: usize = 0;
        while i < self.0.len()
            invariant
                i <= self.0.len(),
                values_view(values@) == values_of(self@.take(i as int), name@),
            decreases self.0.len() - i,
        {
            proof {
                lemma_take_step(self@, i as int);
            }
            if self.0[i].0 == *name {
                let value = copy_bytes(&self.0[i].1);
                values.push(value);
                assert(values_view(values@) =~= values_of(self@.take(i + 1), name@));
            }
            i = i + 1;
        }
        assert(self@.take(self.0.len() as int) =~= self@);
        values
    }

    /// Whether some entry carries the name `name`.
    pub fn has(&self, name: &String) -> (found: bool)
        ensures
            found == has_name(self@, name@),
    {
        let mut i: usize = 0;
        while i < self.0.len()
            invariant
                i <= self.0.len(),
                forall|j: int| 0 <= j < i ==> #[trigger] self@[j].0 != name@,
            decreases self.0.len() - i,
        {
            if self.0[i].0 == *name {
                assert(self@[i as int].0 == name@);
                return true;
            }
            i = i + 1;
        }
        false
    }

    /// A copy of the entries, in order.
    pub fn entries(&self) -> (list: Vec<(String, Vec<u8>)>)
        ensures
            entries_view(list@) == self@,
    {
        copy_entries(&self.0)
    }

    /// Removes every entry named `name`; the other entries keep their order.
    pub fn delete(&mut self, name: &String)
        ensures
            final(self)@ == without_name(old(self)@, name@),
    {
        let mut old_list: Vec<(String, Vec<u8>)> = Vec::new();
        std::mem::swap(&mut old_list, &mut self.0);
        let ghost start = entries_view(old_list@);
        let mut kept: Vec<(String, Vec<u8>)> = Vec::new();
        let mut i: usize = 0;
        while i < old_list.len()
            invariant
                i <= old_list.len(),
                start == entries_view(old_list@),
                entries_view(kept@) == without_name(start.take(i as int), name@),
            decreases old_list.len() - i,
        {
            proof {
                lemma_take_step(start, i as int);
            }
            if old_list[i].0 != *name {
                let entry_name = old_list[i].0.clone();
                let entry_value = copy_bytes(&old_list[i].1);
                kept.push((entry_name, entry_value));
                assert(entries_view(kept@) =~= without_name(start.take(i + 1), name@));
            }
            i = i + 1;
        }
        assert(start.take(old_list.len() as int) =~= start);
        self.0 = kept;
    }

    /// Replaces every value stored under `name` by `values`: the other entries
    /// keep their order and one entry per value follows them.
    pub fn set(&mut self, name: String, values: Vec<Vec<u8>>)
        ensures
            final(self)@ == with_values(old(self)@, name@, values_view(values@)),
    {
        self.delete(&name);
        let ghost kept = self@;
        let mut i: usize = 0;
        while i < values.len()
            invariant
                i <= values.len(),
                self@ == kept + pairs_for(name@, values_view(values@).take(i as int)),
            decreases values.len() - i,
        {
            let value = copy_bytes(&values[i]);
            let entry_name = name.clone();
            proof {
                lemma_entries_view_push(self.0@, (entry_name, value));
                lemma_pairs_for_push(name@, values_view(values@).take(i as int), value@);
                assert(values_view(values@).take(i + 1) =~= values_view(values@).take(i as int).push(
                    values[i as int]@,
                ));
                assert(kept + pairs_for(name@, values_view(values@).take(i as int)).push((name@, value@))
                    =~= (kept + pairs_for(name@, values_view(values@).take(i as int))).push((name@, value@)));
            }
            self.0.push((entry_name, value));
            i = i + 1;
        }
        assert(values_view(values@).take(values.len() as int) =~= values_view(values@));
    }

    /// Adds the value `value` under `name` after all other entries.
    pub fn append(&mut self, name: String, value: Vec<u8>)
        ensures
            final(self)@ == with_appended(old(self)@, name@, value@),
    {
        self.0.push((name, value));
        assert(self@ =~= with_appended(old(self)@, name@, value@));
    }
}

/// The values under a name in two lists put end to end are those of the first
/// list followed by those of the second.
proof fn lemma_values_of_concat(first: Entries, second: Entries, name: Seq<char>)
    ensures
        values_of(first + second, name) == values_of(first, name) + values_of(second, name),
    decreases second.len(),
{
    if second.len() == 0 {
        assert(first + second =~= first);
        assert(values_of(first, name) + values_of(second, name) =~= values_of(first, name));
    } else {
        lemma_values_of_concat(first, second.drop_last(), name);
        assert((first + second).drop_last() =~= first + second.drop_last());
        assert((first + second).last() == second.last());
        if second.last().0 == name {
            assert(values_of(first, name) + values_of(second, name) =~= (values_of(first, name)
                + values_of(second.drop_last(), name)).push(second.last().1));
        }
    }
}

/// Removing a name from two lists put end to end removes it from each.
proof fn lemma_without_name_concat(first: Entries, second: Entries, name: Seq<char>)
    ensures
        without_name(first + second, name) == without_name(first, name) + without_name(second, name),
    decreases second.len(),
{
    if second.len() == 0 {
        assert(first + second =~= first);
        assert(without_name(first, name) + without_name(second, name) =~= without_name(first, name));
    } else {
        lemma_without_name_concat(first, second.drop_last(), name);
        assert((first + second).drop_last() =~= first + second.drop_last());
        assert((first + second).last() == second.last());
        if second.last().0 != name {
            assert(without_name(first, name) + without_name(second, name) =~= (without_name(first, name)
                + without_name(second.drop_last(), name)).push(second.last()));
        }
    }
}

/// The entries made for `name` hold exactly `values` under `name` and nothing
/// under any other name.
proof fn lemma_pairs_for(name: Seq<char>, values: Seq<Seq<u8>>, other: Seq<char>)
    ensures
        values_of(pairs_for(name, values), name) == values,
        name != other ==> values_of(pairs_for(name, values), other) == Seq::<Seq<u8>>::empty(),
        without_name(pairs_for(name, values), name) == Seq::<(Seq<char>, Seq<u8>)>::empty(),
        name != other ==> without_name(pairs_for(name, values), other) == pairs_for(name, values),
    decreases values.len(),
{
    if values.len() == 0 {
        assert(pairs_for(name, values) =~= Seq::<(Seq<char>, Seq<u8>)>::empty());
    } else {
        lemma_pairs_for(name, values.drop_last(), other);
        assert(pairs_for(name, values).drop_last() =~= pairs_for(name, values.drop_last()));
        assert(values.drop_last().push(values.last()) =~= values);
        assert(pairs_for(name, values.drop_last()).push((name, values.last())) =~= pairs_for(
            name,
            values,
        ));
    }
}

/// After removing `name`, nothing is stored under it, what is stored under any
/// other name is unchanged, and removing it again changes nothing.
proof fn lemma_without_name(entries: Entries, name: Seq<char>, other: Seq<char>)
    ensures
        values_of(without_name(entries, name), name) == Seq::<Seq<u8>>::empty(),
        name != other ==> values_of(without_name(entries, name), other) == values_of(entries, other),
        without_name(without_name(entries, name), name) == without_name(entries, name),
    decreases entries.len(),
{
    if entries.len() > 0 {
        lemma_without_name(entries.drop_last(), name, other);
        let earlier = without_name(entries.drop_last(), name);
        if entries.last().0 != name {
            assert(earlier.push(entries.last()).drop_last() =~= earlier);
        }
    }
}

/// A name occurs in a list exactly when some value is stored under it.
proof fn lemma_has_name(entries: Entries, name: Seq<char>)
    ensures
        has_name(entries, name) <==> values_of(entries, name).len() > 0,
    decreases entries.len(),
{
    if entries.len() > 0 {
        let earlier = entries.drop_last();
        lemma_has_name(earlier, name);
        if has_name(earlier, name) {
            let i = choose|i: int| 0 <= i < earlier.len() && #[trigger] earlier[i].0 == name;
            assert(entries[i].0 == name);
        }
        if has_name(entries, name) && entries.last().0 != name {
            let i = choose|i: int| 0 <= i < entries.len() && #[trigger] entries[i].0 == name;
            assert(earlier[i].0 == name);
        }
        if entries.last().0 == name {
            assert(entries[entries.len() - 1].0 == name);
        }
    }
}

/// Reading a name after setting it gives back exactly the values that were set.
pub proof fn law_get_after_set(entries: Entries, name: Seq<char>, values: Seq<Seq<u8>>)
    ensures
        values_of(with_values(entries, name, values), name) == values,
{
    lemma_values_of_concat(without_name(entries, name), pairs_for(name, values), name);
    lemma_without_name(entries, name, name);
    lemma_pairs_for(name, values, name);
    assert(Seq::<Seq<u8>>::empty() + values =~= values);
}

/// Setting one name leaves the values stored under every other name as they were.
pub proof fn law_set_keeps_other_names(
    entries: Entries,
    name: Seq<char>,
    values: Seq<Seq<u8>>,
    other: Seq<char>,
)
    requires
        name != other,
    ensures
        values_of(with_values(entries, name, values), other) == values_of(entries, other),
{
    lemma_values_of_concat(without_name(entries, name), pairs_for(name, values), other);
    lemma_without_name(entries, name, other);
    lemma_pairs_for(name, values, other);
    assert(values_of(entries, other) + Seq::<Seq<u8>>::empty() =~= values_of(entries, other));
}

/// Setting a name twice is the same as setting it once to the second values.
pub proof fn law_set_twice(entries: Entries, name: Seq<char>, first: Seq<Seq<u8>>, second: Seq<Seq<u8>>)
    ensures
        with_values(with_values(entries, name, first), name, second) == with_values(entries, name, second),
{
    lemma_without_name_concat(without_name(entries, name), pairs_for(name, first), name);
    lemma_without_name(entries, name, name);
    lemma_pairs_for(name, first, name);
    assert(without_name(entries, name) + Seq::<(Seq<char>, Seq<u8>)>::empty() =~= without_name(
        entries,
        name,
    ));
}

/// Setting a name to no values is deleting it.
pub proof fn law_set_empty_is_delete(entries: Entries, name: Seq<char>)
    ensures
        with_values(entries, name, Seq::empty()) == without_name(entries, name),
{
    lemma_pairs_for(name, Seq::empty(), name);
    assert(pairs_for(name, Seq::empty()) =~= Seq::<(Seq<char>, Seq<u8>)>::empty());
    assert(with_values(entries, name, Seq::empty()) =~= without_name(entries, name));
}

/// After a delete the name is absent and nothing is stored under it; the values
/// under every other name are as they were; deleting again changes nothing.
pub proof fn law_delete(entries: Entries, name: Seq<char>, other: Seq<char>)
    ensures
        !has_name(without_name(entries, name), name),
        values_of(without_name(entries, name), name) == Seq::<Seq<u8>>::empty(),
        name != other ==> values_of(without_name(entries, name), other) == values_of(entries, other),
        without_name(without_name(entries, name), name) == without_name(entries, name),
{
    lemma_without_name(entries, name, other);
    lemma_has_name(without_name(entries, name), name);
}

/// Appending a value under a name adds it after the values already there and
/// leaves every other name as it was.
pub proof fn law_append(entries: Entries, name: Seq<char>, value: Seq<u8>, other: Seq<char>)
    ensures
        values_of(with_appended(entries, name, value), name) == values_of(entries, name).push(value),
        name != other ==> values_of(with_appended(entries, name, value), other) == values_of(entries, other),
        has_name(with_appended(entries, name, value), name),
{
    assert(with_appended(entries, name, value).drop_last() =~= entries);
    lemma_has_name(with_appended(entries, name, value), name);
}

/// A name is present exactly when reading it gives at least one value.
pub proof fn law_has_iff_some_value(entries: Entries, name: Seq<char>)
    ensures
        has_name(entries, name) <==> values_of(entries, name).len() > 0,
{
    lemma_has_name(entries, name);
}

} // verus!
