//! Name/value lists with unique names, and the expansion of a property into the
//! properties it implies.
use vstd::prelude::*;

use crate::types::{
    opt_str_view, KindView, PropertyExpansion, PropertyNameKind, PropertySpec, StackableVersion,
    VersionParts,
};
use crate::validation::ValidationResult;

verus! {

broadcast use vstd::string::group_string_axioms;

/// The merged properties: names with optional values.
pub type PropertyMap = Map<Seq<char>, Option<Seq<char>>>;

/// `s` lists each name once, and its names and values are those of `m`.
pub open spec fn models(s: Seq<(String, Option<String>)>, m: PropertyMap) -> bool {
    &&& forall|i: int, j: int|
        0 <= i < s.len() && 0 <= j < s.len() && i != j ==> #[trigger] s[i].0@ != #[trigger] s[j].0@
    &&& forall|i: int|
        0 <= i < s.len() ==> m.contains_key(#[trigger] s[i].0@) && m[s[i].0@] == opt_str_view(s[i].1)
    &&& forall|k: Seq<char>| m.contains_key(k) ==> exists|i: int| 0 <= i < s.len() && #[trigger] s[i].0@ == k
}

/// `acc` with the entries of `s` written over it in order; a later entry for the same name wins.
pub open spec fn overlay(acc: PropertyMap, s: Seq<(String, Option<String>)>) -> PropertyMap
    decreases s.len(),
{
    if s.len() == 0 {
        acc
    } else {
        overlay(acc, s.drop_last()).insert(s.last().0@, opt_str_view(s.last().1))
    }
}

/// The names and values that a list gives, a later entry for the same name winning.
pub open spec fn user_map(s: Seq<(String, Option<String>)>) -> PropertyMap {
    overlay(Map::empty(), s)
}

/// Sets `key` to `value` in a list of unique names.
pub fn insert_entry(entries: &mut Vec<(String, Option<String>)>, key: String, value: Option<String>, Ghost(m): Ghost<PropertyMap>)
    requires
        models(old(entries)@, m),
    ensures
        models(final(entries)@, m.insert(key@, opt_str_view(value))),
{
    let ghost k = key@;
    let ghost v = opt_str_view(value);
    let mut i: usize = 0;
    while i < entries.len()
        invariant
            i <= entries@.len(),
            models(entries@, m),
            k == key@,
            v == opt_str_view(value),
            forall|j: int| 0 <= j < i ==> #[trigger] entries@[j].0@ != key@,
        decreases entries.len() - i,
    {
        if entries[i].0 == key {
            let ghost before = entries@;
            entries.set(i, (key, value));
            assert forall|a: int, b: int|
                0 <= a < entries@.len() && 0 <= b < entries@.len() && a != b implies #[trigger] entries@[a].0@
                != #[trigger] entries@[b].0@ by {
                assert(before[a].0@ != before[b].0@);
            }
            assert forall|a: int| 0 <= a < entries@.len() implies m.insert(k, v).contains_key(
                #[trigger] entries@[a].0@,
            ) && m.insert(k, v)[entries@[a].0@] == opt_str_view(entries@[a].1) by {
                if a != i {
                    assert(before[a].0@ != before[i as int].0@);
                    assert(before[a] == entries@[a]);
                }
            }
            assert forall|kk: Seq<char>| m.insert(k, v).contains_key(kk) implies exists|a: int|
                0 <= a < entries@.len() && #[trigger] entries@[a].0@ == kk by {
                if kk == k {
                    assert(entries@[i as int].0@ == kk);
                } else {
                    let a = choose|a: int| 0 <= a < before.len() && #[trigger] before[a].0@ == kk;
                    assert(entries@[a] == before[a]);
                }
            }
            return;
        }
        i = i + 1;
    }
    let ghost before = entries@;
    entries.push((key, value));
    assert forall|a: int, b: int|
        0 <= a < entries@.len() && 0 <= b < entries@.len() && a != b implies #[trigger] entries@[a].0@
        != #[trigger] entries@[b].0@ by {
        if a < before.len() && b < before.len() {
            assert(before[a].0@ != before[b].0@);
        }
    }
    assert forall|a: int| 0 <= a < entries@.len() implies m.insert(k, v).contains_key(
        #[trigger] entries@[a].0@,
    ) && m.insert(k, v)[entries@[a].0@] == opt_str_view(entries@[a].1) by {
        if a < before.len() {
            assert(before[a] == entries@[a]);
        }
    }
    assert forall|kk: Seq<char>| m.insert(k, v).contains_key(kk) implies exists|a: int|
        0 <= a < entries@.len() && #[trigger] entries@[a].0@ == kk by {
        if kk == k {
            assert(entries@[before.len() as int].0@ == kk);
        } else {
            let a = choose|a: int| 0 <= a < before.len() && #[trigger] before[a].0@ == kk;
            assert(entries@[a] == before[a]);
        }
    }
}

/// Writes the entries of `source` over the list, in order.
pub fn overlay_entries(entries: &mut Vec<(String, Option<String>)>, source: &Vec<(String, Option<String>)>, Ghost(m): Ghost<PropertyMap>)
    requires
        models(old(entries)@, m),
    ensures
        models(final(entries)@, overlay(m, source@)),
{
    let mut i: usize = 0;
    while i < source.len()
        invariant
            i <= source@.len(),
            models(entries@, overlay(m, source@.subrange(0, i as int))),
        decreases source.len() - i,
    {
        let ghost cur = overlay(m, source@.subrange(0, i as int));
        assert(source@.subrange(0, i + 1).drop_last() =~= source@.subrange(0, i as int));
        let key = source[i].0.clone();
        let value = match &source[i].1 {
            Some(v) => Some(v.clone()),
            None => None,
        };
        insert_entry(entries, key, value, Ghost(cur));
        i = i + 1;
    }
    assert(source@.subrange(0, source@.len() as int) =~= source@);
}

/// Helper to check if any given key is a name of the list.
pub fn contains_any_key(entries: &Vec<(String, Option<String>)>, possible_keys: &Vec<String>) -> (r: bool)
    ensures
        r == exists|i: int, j: int|
            0 <= i < possible_keys@.len() && 0 <= j < entries@.len() && #[trigger] entries@[j].0@
                == #[trigger] possible_keys@[i]@,
{
    let mut i: usize = 0;
    while i < possible_keys.len()
        invariant
            i <= possible_keys@.len(),
            forall|a: int, b: int|
                0 <= a < i && 0 <= b < entries@.len() ==> #[trigger] entries@[b].0@ != #[trigger] possible_keys@[a]@,
        decreases possible_keys.len() - i,
    {
        let mut j: usize = 0;
        while j < entries.len()
            invariant
                i < possible_keys@.len(),
                j <= entries@.len(),
                forall|a: int, b: int|
                    0 <= a < i && 0 <= b < entries@.len() ==> #[trigger] entries@[b].0@ != #[trigger] possible_keys@[a]@,
                forall|b: int| 0 <= b < j ==> #[trigger] entries@[b].0@ != possible_keys@[i as int]@,
            decreases entries.len() - j,
        {
            if entries[j].0 == possible_keys[i] {
                return true;
            }
            j = j + 1;
        }
        i = i + 1;
    }
    false
}

/// One expansion: a target that lists the role, exists in the version and has a name under
/// the kind is set to the expansion's value, or else to its own recommended or default value.
pub open spec fn expand_step(acc: PropertyMap, t: PropertyExpansion, version: VersionParts, role: Seq<char>, kind: KindView) -> PropertyMap {
    if t.property.spec_has_role(role) && t.property.spec_supported(version) {
        match t.property.name_for_kind(kind) {
            Some(name) => match t.value {
                Some(v) => acc.insert(name, Some(v@)),
                None => acc.insert(name, t.property.spec_preferred_value(version)),
            },
            None => acc,
        }
    } else {
        acc
    }
}

/// `acc` after the expansions of `ts`, in order.
pub open spec fn expand_fold(acc: PropertyMap, ts: Seq<PropertyExpansion>, version: VersionParts, role: Seq<char>, kind: KindView) -> PropertyMap
    decreases ts.len(),
{
    if ts.len() == 0 {
        acc
    } else {
        expand_step(expand_fold(acc, ts.drop_last(), version, role, kind), ts.last(), version, role, kind)
    }
}

/// `acc` after the expansions of `property`.
pub open spec fn expand_spec(acc: PropertyMap, property: PropertySpec, version: VersionParts, role: Seq<char>, kind: KindView) -> PropertyMap {
    match property.expands_to {
        Some(ts) => expand_fold(acc, ts@, version, role, kind),
        None => acc,
    }
}

/// Writes the expansions of `property` into the list.
pub fn expand_into(property: &PropertySpec, version: &StackableVersion, role: &str, kind: &PropertyNameKind, entries: &mut Vec<(String, Option<String>)>, Ghost(m): Ghost<PropertyMap>)
    requires
        models(old(entries)@, m),
    ensures
        models(final(entries)@, expand_spec(m, *property, version@, role@, kind@)),
{
    match &property.expands_to {
        None => {},
        Some(expands_to) => {
            let mut i: usize = 0;
            while i < expands_to.len()
                invariant
                    i <= expands_to@.len(),
                    property.expands_to == Some(*expands_to),
                    models(entries@, expand_fold(m, expands_to@.subrange(0, i as int), version@, role@, kind@)),
                decreases expands_to.len() - i,
            {
                let ghost cur = expand_fold(m, expands_to@.subrange(0, i as int), version@, role@, kind@);
                assert(expands_to@.subrange(0, i + 1).drop_last() =~= expands_to@.subrange(0, i as int));
                let to_expand = &expands_to[i];
                if to_expand.property.has_role(role) {
                    let supported = match to_expand.property.is_version_supported(version) {
                        Ok(b) => b,
                        Err(_) => false,
                    };
                    if supported {
                        match to_expand.property.name_from_kind(kind) {
                            Some(name) => {
                                match &to_expand.value {
                                    Some(v) => {
                                        insert_entry(entries, name, Some(v.clone()), Ghost(cur));
                                    },
                                    None => {
                                        match to_expand.property.recommended_or_default(version, kind) {
                                            Some((_, value)) => {
                                                insert_entry(entries, name, value, Ghost(cur));
                                            },
                                            None => {},
                                        }
                                    },
                                }
                            },
                            None => {},
                        }
                    }
                }
                i = i + 1;
            }
            assert(expands_to@.subrange(0, expands_to@.len() as int) =~= expands_to@);
        },
    }
}

/// Checks if the provided property has other properties which need to be expanded / added in
/// order to work correctly; those whose role and version fit are returned with their values.
pub fn expand_properties(property: &PropertySpec, version: &StackableVersion, role: &str, kind: &PropertyNameKind) -> (r: ValidationResult<Vec<(String, Option<String>)>>)
    ensures
        r matches Ok(v) && models(v@, expand_spec(Map::empty(), *property, version@, role@, kind@)),
{
    let mut result: Vec<(String, Option<String>)> = Vec::new();
    expand_into(property, version, role, kind, &mut result, Ghost(Map::empty()));
    Ok(result)
}

} // verus!
