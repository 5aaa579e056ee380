//! The environment model: association lists of `NAME`/value pairs, a lookup
//! in which the latest entry for a name wins, and the merge that applies a
//! caller's overrides on top of the inherited environment.

use vstd::prelude::*;

verus! {

/// Looks `key` up in an association list of environment entries; when a name
/// occurs more than once, the entry pushed last wins.
pub open spec fn env_lookup(entries: Seq<(String, String)>, key: Seq<char>) -> Option<Seq<char>>
    decreases entries.len(),
{
    if entries.len() == 0 {
        None
    } else if entries.last().0@ == key {
        Some(entries.last().1@)
    } else {
        env_lookup(entries.drop_last(), key)
    }
}

/// Whether the association list carries an entry for `key`.
pub open spec fn env_has_key(entries: Seq<(String, String)>, key: Seq<char>) -> bool {
    env_lookup(entries, key) is Some
}

/// Whether no two entries of the list share a name: the list then denotes a
/// mapping.
pub open spec fn unique_keys(entries: Seq<(String, String)>) -> bool {
    forall|i: int, j: int|
        0 <= i < j < entries.len() ==> entries[i].0@ != entries[j].0@
}

/// An entry exists for `key` exactly when some position of the list holds it.
pub proof fn lemma_env_lookup_index(entries: Seq<(String, String)>, key: Seq<char>)
    ensures
        env_has_key(entries, key) <==> exists|i: int|
            0 <= i < entries.len() && entries[i].0@ == key,
    decreases entries.len(),
{
    if entries.len() > 0 {
        lemma_env_lookup_index(entries.drop_last(), key);
        if entries.last().0@ == key {
            assert(entries[entries.len() - 1].0@ == key);
        } else if env_has_key(entries.drop_last(), key) {
            let i = choose|i: int|
                0 <= i < entries.drop_last().len() && entries.drop_last()[i].0@ == key;
            assert(entries[i].0@ == key);
        } else if exists|i: int| 0 <= i < entries.len() && entries[i].0@ == key {
            let i = choose|i: int| 0 <= i < entries.len() && entries[i].0@ == key;
            assert(entries.drop_last()[i].0@ == key);
        }
    }
}

/// Pushing an entry changes the lookup only for that entry's name.
pub proof fn lemma_env_lookup_push(
    entries: Seq<(String, String)>,
    entry: (String, String),
    key: Seq<char>,
)
    ensures
        env_lookup(entries.push(entry), key) == (if entry.0@ == key {
            Some(entry.1@)
        } else {
            env_lookup(entries, key)
        }),
{
    assert(entries.push(entry).drop_last() =~= entries);
    assert(entries.push(entry).last() == entry);
}

/// Extending a prefix by one entry changes the lookup only for that entry's
/// name.
pub proof fn lemma_env_lookup_take_step(entries: Seq<(String, String)>, i: int, key: Seq<char>)
    requires
        0 <= i < entries.len(),
    ensures
        env_lookup(entries.take(i + 1), key) == (if entries[i].0@ == key {
            Some(entries[i].1@)
        } else {
            env_lookup(entries.take(i), key)
        }),
{
    assert(entries.take(i + 1).drop_last() =~= entries.take(i));
    assert(entries.take(i + 1).last() == entries[i]);
}

/// The inherited entries a merge retains: those whose name the overrides do
/// not carry, in their inherited order.
pub open spec fn retained(
    inherited: Seq<(String, String)>,
    overriding: Seq<(String, String)>,
) -> Seq<(String, String)> {
    inherited.filter(|p: (String, String)| !env_has_key(overriding, p.0@))
}

/// Extending the inherited prefix by one entry extends what is retained by
/// that entry exactly when the overrides do not carry its name.
pub proof fn lemma_retained_take_step(
    inherited: Seq<(String, String)>,
    overriding: Seq<(String, String)>,
    i: int,
)
    requires
        0 <= i < inherited.len(),
    ensures
        retained(inherited.take(i + 1), overriding) == (if !env_has_key(
            overriding,
            inherited[i].0@,
        ) {
            retained(inherited.take(i), overriding).push(inherited[i])
        } else {
            retained(inherited.take(i), overriding)
        }),
{
    reveal(Seq::filter);
    assert(inherited.take(i + 1).drop_last() =~= inherited.take(i));
    assert(inherited.take(i + 1).last() == inherited[i]);
}

/// The mapping an association list denotes: each name present in the list
/// maps to the value of its winning entry.
pub open spec fn as_env_map(entries: Seq<(String, String)>) -> Map<Seq<char>, Seq<char>> {
    Map::new(
        |key: Seq<char>| env_has_key(entries, key),
        |key: Seq<char>| env_lookup(entries, key)->Some_0,
    )
}

/// The merge denotes exactly "inherited, overwritten by the overrides": as
/// mappings, the merged environment is the inherited one joined with the
/// override mapping, the override winning on a shared name.
pub proof fn lemma_merge_is_union(
    merged: Seq<(String, String)>,
    inherited: Seq<(String, String)>,
    overriding: Seq<(String, String)>,
)
    requires
        forall|key: Seq<char>|
            env_lookup(merged, key) == (if env_has_key(overriding, key) {
                env_lookup(overriding, key)
            } else {
                env_lookup(inherited, key)
            }),
    ensures
        as_env_map(merged) == as_env_map(inherited).union_prefer_right(as_env_map(overriding)),
{
    assert(as_env_map(merged) =~= as_env_map(inherited).union_prefer_right(
        as_env_map(overriding),
    ));
}

/// A merge loses no name and invents none: when every lookup in the merged
/// list resolves through the overrides first and the inherited entries
/// second, a name resolves after the merge exactly when it resolves in the
/// overrides or in the inherited environment.
pub proof fn lemma_merge_keeps_names(
    merged: Seq<(String, String)>,
    inherited: Seq<(String, String)>,
    overriding: Seq<(String, String)>,
)
    requires
        forall|key: Seq<char>|
            env_lookup(merged, key) == (if env_has_key(overriding, key) {
                env_lookup(overriding, key)
            } else {
                env_lookup(inherited, key)
            }),
    ensures
        forall|key: Seq<char>|
            env_has_key(merged, key) <==> (env_has_key(overriding, key) || env_has_key(
                inherited,
                key,
            )),
{
}

/// The entries of an optional override mapping; an absent mapping overrides
/// nothing.
pub open spec fn override_entries(overrides: Option<Vec<(String, String)>>) -> Seq<
    (String, String),
> {
    match overrides {
        Some(o) => o@,
        None => Seq::<(String, String)>::empty(),
    }
}

/// Whether the list carries an entry named `key`, decided by walking it.
pub fn env_contains_key(entries: &Vec<(String, String)>, key: &String) -> (r: bool)
    ensures
        r == env_has_key(entries@, key@),
{
    proof {
        lemma_env_lookup_index(entries@, key@);
    }
    let mut i: usize = 0;
    while i < entries.len()
        invariant
            0 <= i <= entries@.len(),
            forall|j: int| 0 <= j < i ==> entries@[j].0@ != key@,
        decreases entries@.len() - i,
    {
        if entries[i].0 == *key {
            proof {
                lemma_env_lookup_index(entries@, key@);
            }
            return true;
        }
        i = i + 1;
    }
    false
}

/// Merges caller overrides into the inherited environment: every override
/// name takes the override's value, every other inherited entry keeps its
/// inherited value, and no name is lost or duplicated.
pub fn merge_env(
    inherited: &Vec<(String, String)>,
    overrides: &Option<Vec<(String, String)>>,
) -> (merged: Vec<(String, String)>)
    requires
        unique_keys(inherited@),
        unique_keys(override_entries(*overrides)),
    ensures
        unique_keys(merged@),
        forall|key: Seq<char>|
            env_lookup(merged@, key) == (if env_has_key(override_entries(*overrides), key) {
                env_lookup(override_entries(*overrides), key)
            } else {
                env_lookup(inherited@, key)
            }),
        merged@ == retained(inherited@, override_entries(*overrides)) + override_entries(
            *overrides,
        ),
{
    let ghost ov = override_entries(*overrides);
    let mut merged: Vec<(String, String)> = Vec::new();
    proof {
        reveal(Seq::filter);
        assert(inherited@.take(0) =~= Seq::<(String, String)>::empty());
        assert(merged@ =~= retained(inherited@.take(0), ov));
    }
    let mut i: usize = 0;
    while i < inherited.len()
        invariant
            i <= inherited@.len(),
            unique_keys(inherited@),
            unique_keys(ov),
            ov == override_entries(*overrides),
            unique_keys(merged@),
            merged@ == retained(inherited@.take(i as int), ov),
            forall|key: Seq<char>|
                env_lookup(merged@, key) == (if env_has_key(ov, key) {
                    None::<Seq<char>>
                } else {
                    env_lookup(inherited@.take(i as int), key)
                }),
        decreases inherited@.len() - i,
    {
        let p = &inherited[i];
        let is_overridden = match overrides {
            Some(o) => env_contains_key(o, &p.0),
            None => false,
        };
        if !is_overridden {
            let ghost pre = merged@;
            proof {
                if env_has_key(pre, p.0@) {
                    lemma_env_lookup_index(inherited@.take(i as int), p.0@);
                    let m = choose|m: int|
                        0 <= m < i && inherited@.take(i as int)[m].0@ == p.0@;
                    assert(inherited@[m].0@ == inherited@[i as int].0@);
                    assert(false);
                }
                lemma_env_lookup_index(pre, p.0@);
            }
            let entry = (p.0.clone(), p.1.clone());
            merged.push(entry);
            proof {
                assert forall|key: Seq<char>|
                    env_lookup(merged@, key) == (if env_has_key(ov, key) {
                        None::<Seq<char>>
                    } else {
                        env_lookup(inherited@.take(i as int + 1), key)
                    }) by {
                    lemma_env_lookup_push(pre, (inherited@[i as int].0, inherited@[i as int].1), key);
                    assert(pre.push((inherited@[i as int].0, inherited@[i as int].1)) =~= merged@);
                    lemma_env_lookup_take_step(inherited@, i as int, key);
                }
                assert forall|j1: int, j2: int|
                    0 <= j1 < j2 < merged@.len() implies merged@[j1].0@ != merged@[j2].0@ by {
                    if j2 == pre.len() {
                        assert(merged@[j1] == pre[j1]);
                        assert(pre[j1].0@ != p.0@);
                    }
                }
                lemma_retained_take_step(inherited@, ov, i as int);
                assert((inherited@[i as int].0, inherited@[i as int].1) == inherited@[i as int]);
                assert(merged@ == retained(inherited@.take(i as int + 1), ov));
            }
        } else {
            proof {
                assert forall|key: Seq<char>|
                    env_lookup(merged@, key) == (if env_has_key(ov, key) {
                        None::<Seq<char>>
                    } else {
                        env_lookup(inherited@.take(i as int + 1), key)
                    }) by {
                    lemma_env_lookup_take_step(inherited@, i as int, key);
                }
                lemma_retained_take_step(inherited@, ov, i as int);
            }
        }
        i = i + 1;
    }
    proof {
        assert(inherited@.take(inherited@.len() as int) =~= inherited@);
    }
    if let Some(ovr) = overrides {
        proof {
            assert(merged@ =~= retained(inherited@, ov) + ov.take(0));
        }
        let mut j: usize = 0;
        while j < ovr.len()
            invariant
                j <= ovr@.len(),
                ov == ovr@,
                unique_keys(ov),
                unique_keys(merged@),
                merged@ == retained(inherited@, ov) + ov.take(j as int),
                forall|key: Seq<char>|
                    env_lookup(merged@, key) == (if env_has_key(ov.take(j as int), key) {
                        env_lookup(ov.take(j as int), key)
                    } else if env_has_key(ov, key) {
                        None::<Seq<char>>
                    } else {
                        env_lookup(inherited@, key)
                    }),
            decreases ovr@.len() - j,
        {
            let p = &ovr[j];
            let ghost pre = merged@;
            proof {
                lemma_env_lookup_index(ov, p.0@);
                if env_has_key(pre, p.0@) {
                    lemma_env_lookup_index(ov.take(j as int), p.0@);
                    let m = choose|m: int| 0 <= m < j && ov.take(j as int)[m].0@ == p.0@;
                    assert(ov[m].0@ == ov[j as int].0@);
                    assert(false);
                }
                lemma_env_lookup_index(pre, p.0@);
            }
            let entry = (p.0.clone(), p.1.clone());
            merged.push(entry);
            proof {
                assert forall|key: Seq<char>|
                    env_lookup(merged@, key) == (if env_has_key(ov.take(j as int + 1), key) {
                        env_lookup(ov.take(j as int + 1), key)
                    } else if env_has_key(ov, key) {
                        None::<Seq<char>>
                    } else {
                        env_lookup(inherited@, key)
                    }) by {
                    lemma_env_lookup_push(pre, (ov[j as int].0, ov[j as int].1), key);
                    assert(pre.push((ov[j as int].0, ov[j as int].1)) =~= merged@);
                    lemma_env_lookup_take_step(ov, j as int, key);
                }
                assert forall|j1: int, j2: int|
                    0 <= j1 < j2 < merged@.len() implies merged@[j1].0@ != merged@[j2].0@ by {
                    if j2 == pre.len() {
                        assert(merged@[j1] == pre[j1]);
                        assert(pre[j1].0@ != p.0@);
                    }
                }
                assert((ov[j as int].0, ov[j as int].1) == ov[j as int]);
                assert(merged@ =~= retained(inherited@, ov) + ov.take(j as int + 1));
            }
            j = j + 1;
        }
        proof {
            assert(ov.take(ov.len() as int) =~= ov);
        }
    } else {
        proof {
            assert(merged@ =~= retained(inherited@, ov) + ov);
        }
    }
    merged
}

} // verus!
