//! A JSON-like tree: the raw structured input that a submitted document
//! arrives as. A number is carried as its decimal lexeme (a character
//! sequence), so the tree never holds binary floating point.

use vstd::prelude::*;

verus! {

/// One node of a JSON-like document tree.
#[derive(Debug)]
pub enum JsonValue {
    Null,
    Bool(bool),
    /// A number, as the decimal text the client sent.
    Num(Vec<char>),
    Str(String),
    Arr(Vec<JsonValue>),
    Obj(Vec<(String, JsonValue)>),
}

/// The first binding of `key` among an object's fields.
pub open spec fn lookup(fs: Seq<(String, JsonValue)>, key: Seq<char>) -> Option<JsonValue>
    decreases fs.len(),
{
    if fs.len() == 0 {
        None
    } else if fs[0].0@ == key {
        Some(fs[0].1)
    } else {
        lookup(fs.skip(1), key)
    }
}

pub proof fn lemma_lookup_none(fs: Seq<(String, JsonValue)>, key: Seq<char>)
    requires
        forall|k: int| 0 <= k < fs.len() ==> (#[trigger] fs[k]).0@ != key,
    ensures
        lookup(fs, key) is None,
    decreases fs.len(),
{
    if fs.len() > 0 {
        assert forall|k: int| 0 <= k < fs.skip(1).len() implies (#[trigger] fs.skip(1)[k]).0@
            != key by {
            assert(fs.skip(1)[k] == fs[k + 1]);
        }
        lemma_lookup_none(fs.skip(1), key);
    }
}

pub proof fn lemma_lookup_at(fs: Seq<(String, JsonValue)>, key: Seq<char>, j: int)
    requires
        0 <= j < fs.len(),
        fs[j].0@ == key,
        forall|k: int| 0 <= k < j ==> (#[trigger] fs[k]).0@ != key,
    ensures
        lookup(fs, key) == Some(fs[j].1),
    decreases j,
{
    if j > 0 {
        assert forall|k: int| 0 <= k < j - 1 implies (#[trigger] fs.skip(1)[k]).0@ != key by {
            assert(fs.skip(1)[k] == fs[k + 1]);
        }
        assert(fs.skip(1)[j - 1] == fs[j]);
        lemma_lookup_at(fs.skip(1), key, j - 1);
    }
}

/// Finds the first binding of `key` in an object's field list.
pub fn get_field<'a>(fs: &'a Vec<(String, JsonValue)>, key: &str) -> (r: Option<&'a JsonValue>)
    ensures
        r matches Some(v) ==> lookup(fs@, key@) == Some(*v),
        r is None ==> lookup(fs@, key@) is None,
{
    let k: String = key.to_owned();
    let mut i: usize = 0;
    while i < fs.len()
        invariant
            0 <= i <= fs@.len(),
            k@ == key@,
            forall|j: int| 0 <= j < i ==> (#[trigger] fs@[j]).0@ != key@,
        decreases fs@.len() - i,
    {
        if fs[i].0 == k {
            proof {
                lemma_lookup_at(fs@, key@, i as int);
            }
            return Some(&fs[i].1);
        }
        i = i + 1;
    }
    proof {
        lemma_lookup_none(fs@, key@);
    }
    None
}

} // verus!
