use vstd::prelude::*;

verus! {

/// A dynamically typed value as the bus reports it: scalars of several
/// widths, text, arrays, dictionaries and one level of variant wrapping.
#[derive(Debug)]
pub enum PropValue {
    Bool(bool),
    Byte(u8),
    UInt16(u16),
    UInt32(u32),
    UInt64(u64),
    Int16(i16),
    Int32(i32),
    Int64(i64),
    Str(String),
    Array(Vec<PropValue>),
    Dict(Vec<(PropValue, PropValue)>),
    Variant(Box<PropValue>),
}

/// The value of the first entry named `key`, if any.
pub open spec fn lookup<V>(m: Seq<(String, V)>, key: Seq<char>) -> Option<V>
    decreases m.len(),
{
    if m.len() == 0 {
        None
    } else if m[0].0@ == key {
        Some(m[0].1)
    } else {
        lookup(m.drop_first(), key)
    }
}

/// Whether two texts are equal, character by character.
pub fn same_text(a: &str, b: &str) -> (r: bool)
    ensures
        r == (a@ == b@),
{
    let n = a.unicode_len();
    if n != b.unicode_len() {
        return false;
    }
    let mut i: usize = 0;
    while i < n
        invariant
            n == a@.len(),
            n == b@.len(),
            i <= n,
            forall|j: int| 0 <= j < i ==> a@[j] == b@[j],
        decreases n - i,
    {
        if a.get_char(i) != b.get_char(i) {
            return false;
        }
        i = i + 1;
    }
    assert(a@ =~= b@);
    true
}

/// Finds the value of the first entry named `key`.
pub fn find_value<'a, V>(m: &'a Vec<(String, V)>, key: &str) -> (r: Option<&'a V>)
    ensures
        r matches Some(v) ==> lookup(m@, key@) == Some(*v),
        r is None ==> lookup(m@, key@) is None,
{
    let mut i: usize = 0;
    assert(m@.subrange(0, m@.len() as int) =~= m@);
    while i < m.len()
        invariant
            i <= m@.len(),
            lookup(m@, key@) == lookup(m@.subrange(i as int, m@.len() as int), key@),
        decreases m.len() - i,
    {
        let ghost rest = m@.subrange(i as int, m@.len() as int);
        assert(rest.drop_first() =~= m@.subrange(i + 1, m@.len() as int));
        if same_text(m[i].0.as_str(), key) {
            return Some(&m[i].1);
        }
        i = i + 1;
    }
    None
}

} // verus!
