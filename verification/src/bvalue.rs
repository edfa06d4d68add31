//! The structured wire value that the external structured-data codec
//! produces: integers, byte strings, lists and string-keyed dictionaries.
//! The tracker response decoder reads values of this shape.

use vstd::prelude::*;

verus! {

/// A parsed generic wire value.
pub enum BValue {
    Int(i64),
    Str(Vec<u8>),
    List(Vec<BValue>),
    Dict(Vec<(String, BValue)>),
}

/// The value under the first entry of `entries` whose key reads `key`.
pub open spec fn lookup(entries: Seq<(String, BValue)>, key: Seq<char>) -> Option<BValue>
    decreases entries.len(),
{
    if entries.len() == 0 {
        None
    } else if entries[0].0@ == key {
        Some(entries[0].1)
    } else {
        lookup(entries.drop_first(), key)
    }
}

/// Finds the first entry of `entries` whose key reads `key`.
pub fn dict_get<'a>(entries: &'a Vec<(String, BValue)>, key: &String) -> (r: Option<
    &'a BValue,
>)
    ensures
        match r {
            Some(v) => lookup(entries@, key@) == Some(*v),
            None => lookup(entries@, key@) is None,
        },
{
    let mut i: usize = 0;
    proof {
        assert(entries@.skip(0) =~= entries@);
    }
    while i < entries.len()
        invariant
            i <= entries@.len(),
            lookup(entries@, key@) == lookup(entries@.skip(i as int), key@),
        decreases entries@.len() - i,
    {
        proof {
            assert(entries@.skip(i as int)[0] == entries@[i as int]);
            assert(entries@.skip(i as int).drop_first() =~= entries@.skip(i + 1 as int));
        }
        let e = &entries[i];
        if e.0.eq(key) {
            return Some(&e.1);
        }
        i += 1;
    }
    proof {
        assert(entries@.skip(entries@.len() as int) =~= Seq::<(String, BValue)>::empty());
    }
    None
}

} // verus!
