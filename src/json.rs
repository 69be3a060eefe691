use vstd::prelude::*;

verus! {

/// A JSON value as the agent sees it on the wire.
///
/// Numbers are kept in the three shapes a JSON reader distinguishes: a
/// non-negative integer, a negative integer, and any other number, which is
/// kept as its decimal text.
#[derive(Debug, PartialEq, Eq)]
pub enum Json {
    Null,
    Bool(bool),
    UInt(u64),
    NegInt(i64),
    Decimal(String),
    Str(String),
    Array(Vec<Json>),
    Object(Vec<(String, Json)>),
}

/// The value of the first member of `entries` whose key is `key`.
pub open spec fn lookup(entries: Seq<(String, Json)>, key: Seq<char>) -> Option<Json>
    decreases entries.len(),
{
    if entries.len() == 0 {
        None
    } else if entries[0].0@ == key {
        Some(entries[0].1)
    } else {
        lookup(entries.drop_first(), key)
    }
}

/// The position of the first member of `entries` whose key is `key`.
pub open spec fn position(entries: Seq<(String, Json)>, key: Seq<char>) -> Option<int>
    decreases entries.len(),
{
    if entries.len() == 0 {
        None
    } else if entries[0].0@ == key {
        Some(0)
    } else {
        match position(entries.drop_first(), key) {
            Some(i) => Some(i + 1),
            None => None,
        }
    }
}

pub proof fn lemma_position_lookup(entries: Seq<(String, Json)>, key: Seq<char>)
    ensures
        match position(entries, key) {
            Some(i) => 0 <= i < entries.len() && lookup(entries, key) == Some(entries[i].1)
                && entries[i].0@ == key,
            None => lookup(entries, key) is None,
        },
    decreases entries.len(),
{
    if entries.len() > 0 && entries[0].0@ != key {
        lemma_position_lookup(entries.drop_first(), key);
    }
}

/// Finds the first member of an object whose key is `key`.
pub fn find_member(entries: &Vec<(String, Json)>, key: &str) -> (r: Option<usize>)
    ensures
        r == (match position(entries@, key@) {
            Some(i) => Some(i as usize),
            None => None::<usize>,
        }),
        match r {
            Some(i) => i < entries@.len() && lookup(entries@, key@) == Some(entries@[i as int].1),
            None => lookup(entries@, key@) is None,
        },
{
    let ghost all = entries@;
    let wanted = String::from_str(key);
    let mut i: usize = 0;
    assert(all.subrange(0, all.len() as int) =~= all);
    while i < entries.len()
        invariant
            i <= entries@.len(),
            wanted@ == key@,
            all == entries@,
            position(all, key@) == (match position(all.subrange(i as int, all.len() as int), key@) {
                Some(j) => Some(j + i),
                None => None::<int>,
            }),
        decreases entries@.len() - i,
    {
        let ghost rest = all.subrange(i as int, all.len() as int);
        assert(rest.drop_first() =~= all.subrange(i + 1, all.len() as int));
        if entries[i].0 == wanted {
            proof {
                lemma_position_lookup(all, key@);
            }
            return Some(i);
        }
        i = i + 1;
    }
    proof {
        lemma_position_lookup(all, key@);
    }
    None
}

/// Lookups in an object of two members with distinct keys.
pub proof fn lemma_lookup_pair(entries: Seq<(String, Json)>, k0: Seq<char>, k1: Seq<char>)
    requires
        entries.len() == 2,
        entries[0].0@ == k0,
        entries[1].0@ == k1,
        k0 != k1,
    ensures
        lookup(entries, k0) == Some(entries[0].1),
        lookup(entries, k1) == Some(entries[1].1),
{
    assert(entries.drop_first()[0] == entries[1]);
    assert(lookup(entries.drop_first(), k1) == Some(entries[1].1));
}

} // verus!
