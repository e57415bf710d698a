//! Transient reconciliation lookups: small association tables built from a
//! secondary source and consulted while normalizing the primary source's
//! rows. Lookup takes the last entry whose key matches, so a key written
//! twice keeps the later row's value, as in the keyed store the rows fill.

use vstd::prelude::*;
use crate::text::str_eq_str;

verus! {

/// One key/value pair of a text-valued table.
pub struct StrEntry {
    /// The entry's key.
    pub key: String,
    /// The entry's value.
    pub val: String,
}

/// One key/value pair of an integer-valued table.
pub struct U64Entry {
    /// The entry's key.
    pub key: String,
    /// The entry's value.
    pub val: u64,
}

/// The value under `key` in a text-valued table, if any: the last entry
/// with that key.
pub open spec fn str_assoc(t: Seq<StrEntry>, key: Seq<char>) -> Option<Seq<char>>
    decreases t.len(),
{
    if t.len() == 0 {
        None
    } else if t.last().key@ == key {
        Some(t.last().val@)
    } else {
        str_assoc(t.drop_last(), key)
    }
}

/// The value under `key` in an integer-valued table, if any: the last
/// entry with that key.
pub open spec fn u64_assoc(t: Seq<U64Entry>, key: Seq<char>) -> Option<u64>
    decreases t.len(),
{
    if t.len() == 0 {
        None
    } else if t.last().key@ == key {
        Some(t.last().val)
    } else {
        u64_assoc(t.drop_last(), key)
    }
}

/// Looks `key` up in a text-valued table.
pub fn str_table_get(t: &Vec<StrEntry>, key: &str) -> (r: Option<String>)
    ensures
        match r {
            Some(v) => str_assoc(t@, key@) == Some(v@),
            None => str_assoc(t@, key@) is None,
        },
{
    let mut i: usize = t.len();
    proof {
        assert(t@.subrange(0, i as int) =~= t@);
    }
    while i > 0
        invariant
            i <= t@.len(),
            str_assoc(t@, key@) == str_assoc(t@.subrange(0, i as int), key@),
        decreases i,
    {
        let ghost pre = t@.subrange(0, i as int);
        proof {
            assert(pre.last() == t@[i - 1]);
            assert(pre.drop_last() =~= t@.subrange(0, i - 1 as int));
        }
        if str_eq_str(t[i - 1].key.as_str(), key) {
            return Some(t[i - 1].val.clone());
        }
        i = i - 1;
    }
    proof {
        assert(t@.subrange(0, 0).len() == 0);
    }
    None
}

/// Looks `key` up in an integer-valued table.
pub fn u64_table_get(t: &Vec<U64Entry>, key: &str) -> (r: Option<u64>)
    ensures
        match r {
            Some(v) => u64_assoc(t@, key@) == Some(v),
            None => u64_assoc(t@, key@) is None,
        },
{
    let mut i: usize = t.len();
    proof {
        assert(t@.subrange(0, i as int) =~= t@);
    }
    while i > 0
        invariant
            i <= t@.len(),
            u64_assoc(t@, key@) == u64_assoc(t@.subrange(0, i as int), key@),
        decreases i,
    {
        let ghost pre = t@.subrange(0, i as int);
        proof {
            assert(pre.last() == t@[i - 1]);
            assert(pre.drop_last() =~= t@.subrange(0, i - 1 as int));
        }
        if str_eq_str(t[i - 1].key.as_str(), key) {
            return Some(t[i - 1].val);
        }
        i = i - 1;
    }
    proof {
        assert(t@.subrange(0, 0).len() == 0);
    }
    None
}

} // verus!
