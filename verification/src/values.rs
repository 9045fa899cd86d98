//! Lists of values under names: the headers of a request or response, and
//! the parameters of a query.
//!
//! A name may carry several values. A value is set at a position; the list
//! grows as far as the position asks, and the positions that were never set
//! hold the empty text.
use crate::dict::Dict;
use crate::model::ValueMap;
use vstd::prelude::*;
use vstd::string::StringExecFns;

verus! {

/// A list of values after `value` has been set at `index`: longer by empty
/// texts where it was too short, and otherwise unchanged elsewhere.
pub open spec fn grown(values: Seq<Seq<char>>, index: nat, value: Seq<char>) -> Seq<Seq<char>> {
    Seq::new(
        if index < values.len() {
            values.len()
        } else {
            index + 1
        },
        |i: int|
            if i == index {
                value
            } else if 0 <= i < values.len() {
                values[i]
            } else {
                Seq::empty()
            },
    )
}

/// The values that a name carries: none where the name is unknown.
pub open spec fn values_of(map: Option<ValueMap>, name: Seq<char>) -> Seq<Seq<char>> {
    match map {
        Some(m) => if m.contains_key(name) {
            m[name]
        } else {
            Seq::empty()
        },
        None => Seq::empty(),
    }
}

/// Whether a name carries values.
pub open spec fn has_name(map: Option<ValueMap>, name: Seq<char>) -> bool {
    map matches Some(m) && m.contains_key(name)
}

/// The map with `name` carrying `values`.
pub open spec fn with_values(map: Option<ValueMap>, name: Seq<char>, values: Seq<Seq<char>>) -> Option<
    ValueMap,
> {
    match map {
        Some(m) => Some(m.insert(name, values)),
        None => Some(Map::<Seq<char>, Seq<Seq<char>>>::empty().insert(name, values)),
    }
}

/// The map after `value` has been set at `index` under `name`.
pub open spec fn value_set(
    map: Option<ValueMap>,
    name: Seq<char>,
    index: nat,
    value: Seq<char>,
) -> Option<ValueMap> {
    with_values(map, name, grown(values_of(map, name), index, value))
}

/// Setting a value at `index` under a name that carries no values gives the
/// name a list of `index + 1` values: the value at `index`, and the empty
/// text at every position before it.
pub proof fn lemma_first_value_set(
    map: Option<ValueMap>,
    name: Seq<char>,
    index: nat,
    value: Seq<char>,
)
    requires
        !has_name(map, name),
    ensures
        has_name(value_set(map, name, index, value), name),
        values_of(value_set(map, name, index, value), name).len() == index + 1,
        values_of(value_set(map, name, index, value), name)[index as int] == value,
        forall|i: int|
            0 <= i < index ==> values_of(value_set(map, name, index, value), name)[i]
                == Seq::<char>::empty(),
{
}

/// Setting a value at `index` keeps the values at the other positions, and
/// never shortens the list.
pub proof fn lemma_value_set_keeps_others(
    map: Option<ValueMap>,
    name: Seq<char>,
    index: nat,
    value: Seq<char>,
)
    ensures
        values_of(value_set(map, name, index, value), name).len() >= values_of(map, name).len(),
        values_of(value_set(map, name, index, value), name).len() > index,
        values_of(value_set(map, name, index, value), name)[index as int] == value,
        forall|i: int|
            0 <= i < values_of(map, name).len() && i != index ==> values_of(
                value_set(map, name, index, value),
                name,
            )[i] == values_of(map, name)[i],
{
}

/// The values of a list joined by a comma and a space.
pub open spec fn joined(values: Seq<Seq<char>>) -> Seq<char>
    decreases values.len(),
{
    if values.len() == 0 {
        Seq::empty()
    } else if values.len() == 1 {
        values[0]
    } else {
        joined(values.drop_last()) + ", "@ + values.last()
    }
}

/// Sets `value` at `index` in a list of values.
pub fn set_value_at(values: &mut Vec<String>, index: usize, value: String)
    ensures
        final(values).deep_view() == grown(old(values).deep_view(), index as nat, value@),
{
    let ghost before = values.deep_view();
    while values.len() <= index
        invariant
            before.len() <= values@.len(),
            values@.len() <= index + 1 || values@.len() == before.len(),
            forall|i: int| 0 <= i < before.len() ==> values@[i]@ == before[i],
            forall|i: int| before.len() <= i < values@.len() ==> values@[i]@ == Seq::<char>::empty(),
        decreases index + 1 - values@.len(),
    {
        values.push(String::new());
    }
    values[index] = value;
    assert(values.deep_view() =~= grown(before, index as nat, value@));
}

/// A copy of a list of values.
pub fn copy_values(values: &Vec<String>) -> (r: Vec<String>)
    ensures
        r.deep_view() == values.deep_view(),
{
    let mut r: Vec<String> = Vec::new();
    let mut i: usize = 0;
    while i < values.len()
        invariant
            i <= values.len(),
            r@.len() == i,
            forall|k: int| 0 <= k < i ==> r@[k]@ == values@[k]@,
        decreases values.len() - i,
    {
        r.push(values[i].clone());
        i += 1;
    }
    assert(r.deep_view() =~= values.deep_view());
    r
}

/// The values that a name carries.
pub fn lookup_values(map: &Option<Dict<String, Vec<String>>>, name: &str) -> (r: Vec<String>)
    ensures
        r.deep_view() == values_of(map.deep_view(), name@),
{
    let key: String = name.to_owned();
    let found = match map {
        Some(m) => m.get(&key),
        None => None,
    };
    match found {
        Some(values) => copy_values(values),
        None => {
            let r: Vec<String> = Vec::new();
            assert(r.deep_view() =~= Seq::<Seq<char>>::empty());
            r
        },
    }
}

/// Whether a name carries values.
pub fn contains_name(map: &Option<Dict<String, Vec<String>>>, name: &str) -> (r: bool)
    ensures
        r == has_name(map.deep_view(), name@),
{
    let key: String = name.to_owned();
    match map {
        Some(m) => m.contains_key(&key),
        None => false,
    }
}

/// Lets `name` carry `values`, in a map that may not exist yet.
pub fn put_values(map: &mut Option<Dict<String, Vec<String>>>, name: &str, values: Vec<String>)
    ensures
        final(map).deep_view() == with_values(old(map).deep_view(), name@, values.deep_view()),
{
    if map.is_none() {
        *map = Some(Dict::new());
    }
    match map {
        Some(m) => {
            m.insert(name.to_owned(), values);
        },
        None => {},
    }
}

/// Sets `value` at `index` under `name`, in a map that may not exist yet.
pub fn set_value(
    map: &mut Option<Dict<String, Vec<String>>>,
    name: &str,
    index: usize,
    value: String,
)
    ensures
        final(map).deep_view() == value_set(old(map).deep_view(), name@, index as nat, value@),
{
    let mut values = lookup_values(map, name);
    set_value_at(&mut values, index, value);
    put_values(map, name, values);
}

/// Joins the values of a list by a comma and a space.
pub fn join_values(values: &Vec<String>) -> (r: String)
    ensures
        r@ == joined(values.deep_view()),
{
    let mut r = String::new();
    let mut i: usize = 0;
    assert(values.deep_view().take(0) =~= Seq::<Seq<char>>::empty());
    while i < values.len()
        invariant
            i <= values.len(),
            r@ == joined(values.deep_view().take(i as int)),
        decreases values.len() - i,
    {
        proof {
            let all = values.deep_view();
            assert(all.take(i + 1).drop_last() =~= all.take(i as int));
            assert(all.take(i + 1).last() == values@[i as int]@);
            if i == 0 {
                assert(joined(all.take(1)) == values@[0]@);
            }
        }
        if i > 0 {
            r.append(", ");
        }
        r.append(values[i].as_str());
        proof {
            if i == 0 {
                assert(r@ =~= values@[0]@);
            }
        }
        i += 1;
    }
    assert(values.deep_view().take(i as int) =~= values.deep_view());
    r
}

} // verus!
