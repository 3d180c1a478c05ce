//! Name-keyed association lists.
//!
//! The service registry, the notification registry and the status table are
//! all maps from a service or channel name to some value. They are small and
//! built once at startup, so they are kept as vectors of `(name, value)`
//! pairs, with first-match lookup as the specification-level model.

use vstd::prelude::*;

verus! {

/// First-match lookup: the value of the first entry whose name is `name`,
/// or `None` when no entry has that name.
pub open spec fn spec_lookup<V>(entries: Seq<(String, V)>, name: Seq<char>) -> Option<V>
    decreases entries.len(),
{
    if entries.len() == 0 {
        None
    } else if entries[0].0@ == name {
        Some(entries[0].1)
    } else {
        spec_lookup(entries.drop_first(), name)
    }
}

/// Whether some entry is named `name`.
pub open spec fn contains_key<V>(entries: Seq<(String, V)>, name: Seq<char>) -> bool {
    spec_lookup(entries, name) is Some
}

/// The list with the value of the first entry named `name` replaced by `v`;
/// the list unchanged when no entry has that name.
pub open spec fn spec_store<V>(entries: Seq<(String, V)>, name: Seq<char>, v: V) -> Seq<
    (String, V),
>
    decreases entries.len(),
{
    if entries.len() == 0 {
        entries
    } else if entries[0].0@ == name {
        seq![(entries[0].0, v)] + entries.drop_first()
    } else {
        seq![entries[0]] + spec_store(entries.drop_first(), name, v)
    }
}

/// A found entry pins the lookup down: if `i` is the first index named
/// `name`, the lookup returns that entry's value.
pub proof fn lemma_lookup_at_first_index<V>(entries: Seq<(String, V)>, name: Seq<char>, i: int)
    requires
        0 <= i < entries.len(),
        entries[i].0@ == name,
        forall|j: int| 0 <= j < i ==> entries[j].0@ != name,
    ensures
        spec_lookup(entries, name) == Some(entries[i].1),
    decreases i,
{
    if i > 0 {
        lemma_lookup_at_first_index(entries.drop_first(), name, i - 1);
    }
}

/// A successful lookup names an actual entry: the first one carrying `name`.
pub proof fn lemma_lookup_some_index<V>(entries: Seq<(String, V)>, name: Seq<char>) -> (i: int)
    requires
        contains_key(entries, name),
    ensures
        0 <= i < entries.len(),
        entries[i].0@ == name,
        spec_lookup(entries, name) == Some(entries[i].1),
        forall|j: int| 0 <= j < i ==> entries[j].0@ != name,
    decreases entries.len(),
{
    if entries[0].0@ == name {
        0
    } else {
        let k = lemma_lookup_some_index(entries.drop_first(), name) + 1;
        assert(entries.drop_first()[k - 1] == entries[k]);
        assert forall|j: int| 0 <= j < k implies entries[j].0@ != name by {
            if j > 0 {
                assert(entries.drop_first()[j - 1] == entries[j]);
            }
        }
        k
    }
}

/// Storing at the first index named `name` is a positional update that keeps
/// the entry's name.
pub proof fn lemma_store_is_update<V>(entries: Seq<(String, V)>, name: Seq<char>, v: V, i: int)
    requires
        0 <= i < entries.len(),
        entries[i].0@ == name,
        forall|j: int| 0 <= j < i ==> entries[j].0@ != name,
    ensures
        spec_store(entries, name, v) =~= entries.update(i, (entries[i].0, v)),
    decreases i,
{
    if i == 0 {
        assert(spec_store(entries, name, v) =~= entries.update(0, (entries[0].0, v)));
    } else {
        lemma_store_is_update(entries.drop_first(), name, v, i - 1);
        assert(entries.drop_first().update(i - 1, (entries[i].0, v)) =~= entries.update(
            i,
            (entries[i].0, v),
        ).drop_first());
        assert(spec_store(entries, name, v) =~= entries.update(i, (entries[i].0, v)));
    }
}

/// After a store, the stored name reads back the new value.
pub proof fn lemma_lookup_store_same<V>(entries: Seq<(String, V)>, name: Seq<char>, v: V)
    requires
        contains_key(entries, name),
    ensures
        spec_lookup(spec_store(entries, name, v), name) == Some(v),
    decreases entries.len(),
{
    if entries[0].0@ == name {
        assert(spec_store(entries, name, v)[0] == (entries[0].0, v));
    } else {
        lemma_lookup_store_same(entries.drop_first(), name, v);
        assert(spec_store(entries, name, v).drop_first() =~= spec_store(
            entries.drop_first(),
            name,
            v,
        ));
    }
}

/// A store touches one name only: every other name reads as before.
pub proof fn lemma_lookup_store_other<V>(
    entries: Seq<(String, V)>,
    name: Seq<char>,
    v: V,
    other: Seq<char>,
)
    requires
        other != name,
    ensures
        spec_lookup(spec_store(entries, name, v), other) == spec_lookup(entries, other),
    decreases entries.len(),
{
    if entries.len() > 0 {
        if entries[0].0@ == name {
            assert(spec_store(entries, name, v)[0] == (entries[0].0, v));
            assert(spec_store(entries, name, v).drop_first() =~= entries.drop_first());
        } else {
            lemma_lookup_store_other(entries.drop_first(), name, v, other);
            assert(spec_store(entries, name, v)[0] == entries[0]);
            assert(spec_store(entries, name, v).drop_first() =~= spec_store(
                entries.drop_first(),
                name,
                v,
            ));
        }
    }
}

/// A store keeps the length and every entry's name.
pub proof fn lemma_store_keeps_names<V>(entries: Seq<(String, V)>, name: Seq<char>, v: V)
    ensures
        spec_store(entries, name, v).len() == entries.len(),
        forall|i: int|
            0 <= i < entries.len() ==> #[trigger] spec_store(entries, name, v)[i].0
                == entries[i].0,
    decreases entries.len(),
{
    if entries.len() > 0 && entries[0].0@ != name {
        lemma_store_keeps_names(entries.drop_first(), name, v);
        assert forall|i: int| 0 <= i < entries.len() implies #[trigger] spec_store(
            entries,
            name,
            v,
        )[i].0 == entries[i].0 by {
            if i > 0 {
                assert(spec_store(entries, name, v)[i] == spec_store(
                    entries.drop_first(),
                    name,
                    v,
                )[i - 1]);
            }
        }
    }
}

/// Two lists with the same names at the same places contain the same names.
pub proof fn lemma_contains_same_keys<A, B>(
    ea: Seq<(String, A)>,
    eb: Seq<(String, B)>,
    name: Seq<char>,
)
    requires
        ea.len() == eb.len(),
        forall|i: int| 0 <= i < ea.len() ==> (#[trigger] ea[i].0)@ == eb[i].0@,
    ensures
        contains_key(ea, name) == contains_key(eb, name),
    decreases ea.len(),
{
    if ea.len() > 0 {
        assert(ea[0].0@ == eb[0].0@);
        assert forall|i: int| 0 <= i < ea.drop_first().len() implies (#[trigger] ea.drop_first()[
            i
        ].0)@ == eb.drop_first()[i].0@ by {
            assert(ea.drop_first()[i] == ea[i + 1]);
            assert(eb.drop_first()[i] == eb[i + 1]);
        }
        lemma_contains_same_keys(ea.drop_first(), eb.drop_first(), name);
    }
}

/// In a list whose every entry holds the same value, any contained name
/// reads that value.
pub proof fn lemma_lookup_constant<V>(entries: Seq<(String, V)>, v: V, name: Seq<char>)
    requires
        forall|i: int| 0 <= i < entries.len() ==> (#[trigger] entries[i]).1 == v,
        contains_key(entries, name),
    ensures
        spec_lookup(entries, name) == Some(v),
    decreases entries.len(),
{
    if entries[0].0@ != name {
        assert forall|i: int| 0 <= i < entries.drop_first().len() implies (#[trigger] entries.drop_first()[i]).1 == v by {
            assert(entries.drop_first()[i] == entries[i + 1]);
        }
        lemma_lookup_constant(entries.drop_first(), v, name);
    }
}

/// Finds the first entry named `name` and returns its index.
pub fn find_index<V>(entries: &Vec<(String, V)>, name: &String) -> (r: Option<usize>)
    ensures
        match r {
            Some(i) => {
                &&& i < entries@.len()
                &&& entries@[i as int].0@ == name@
                &&& forall|j: int| 0 <= j < i ==> entries@[j].0@ != name@
                &&& spec_lookup(entries@, name@) == Some(entries@[i as int].1)
            },
            None => !contains_key(entries@, name@),
        },
{
    let n = entries.len();
    let mut i: usize = 0;
    while i < n
        invariant
            n == entries@.len(),
            i <= n,
            forall|j: int| 0 <= j < i ==> entries@[j].0@ != name@,
        decreases n - i,
    {
        if entries[i].0.eq(name) {
            proof {
                lemma_lookup_at_first_index(entries@, name@, i as int);
            }
            return Some(i);
        }
        i = i + 1;
    }
    proof {
        if contains_key(entries@, name@) {
            let k = lemma_lookup_some_index(entries@, name@);
        }
    }
    None
}

} // verus!
