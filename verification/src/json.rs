//! JSON values that the library carries without looking inside.

use crate::string_map::has_key;
use crate::string_map::StringMap;
use vstd::prelude::*;

verus! {

#[verifier::external_type_specification]
#[verifier::external_body]
pub struct ExJsonValue(serde_json::Value);

/// A copy of a JSON value, made by `serde_json::Value::clone`. The type
/// derives `Clone`, so the copy holds what the value holds.
#[verifier::external_body]
pub(crate) fn clone_value(value: &serde_json::Value) -> (copy: serde_json::Value)
    ensures
        copy == *value,
{
    value.clone()
}

/// A copy of a map of JSON values: the same keys with the same values, in the
/// same order.
pub fn clone_values(map: &StringMap<serde_json::Value>) -> (copy: StringMap<serde_json::Value>)
    ensures
        copy.entries() == map.entries(),
{
    proof {
        use_type_invariant(map);
    }
    let mut copy: StringMap<serde_json::Value> = StringMap::new();
    let mut i: usize = 0;
    while i < map.len()
        invariant
            map.inv(),
            i <= map.entries().len(),
            copy.entries() == map.entries().subrange(0, i as int),
        decreases map.entries().len() - i,
    {
        let key = map.key_at(i).clone();
        let value = clone_value(map.value_at(i));
        proof {
            if has_key(copy.entries(), key@) {
                let p = crate::string_map::position_of(copy.entries(), key@);
                assert(map.entries()[p].0 == copy.entries()[p].0);
                assert(map.entries()[p].0 != map.entries()[i as int].0);
            }
        }
        copy.insert_new(key, value);
        assert(copy.entries() =~= map.entries().subrange(0, i + 1));
        i += 1;
    }
    assert(map.entries().subrange(0, map.entries().len() as int) =~= map.entries());
    copy
}

} // verus!
