use vstd::prelude::*;

verus! {

/// A JSON value as it arrives in a stream frame.
///
/// Numbers keep the text they were written with, so that no precision is
/// lost before a decoder reads them.
#[derive(Debug, PartialEq)]
pub enum JsonValue {
    Null,
    Bool(bool),
    Number(String),
    Str(String),
    Array(Vec<JsonValue>),
    Object(Vec<(String, JsonValue)>),
}

/// The value of the first member of an object named `key`.
pub open spec fn lookup(fields: Seq<(String, JsonValue)>, key: Seq<char>) -> Option<JsonValue>
    decreases fields.len(),
{
    if fields.len() == 0 {
        None
    } else if fields[0].0@ == key {
        Some(fields[0].1)
    } else {
        lookup(fields.drop_first(), key)
    }
}

/// The members of an object, less every one named `key`.
pub open spec fn remove_key(fields: Seq<(String, JsonValue)>, key: Seq<char>) -> Seq<
    (String, JsonValue),
>
    decreases fields.len(),
{
    if fields.len() == 0 {
        fields
    } else if fields[0].0@ == key {
        remove_key(fields.drop_first(), key)
    } else {
        seq![fields[0]] + remove_key(fields.drop_first(), key)
    }
}

/// Index of the first member named `key`.
pub fn find_field(fields: &Vec<(String, JsonValue)>, key: &str) -> (r: Option<usize>)
    ensures
        match r {
            Some(i) => i < fields@.len() && lookup(fields@, key@) == Some(fields@[i as int].1),
            None => lookup(fields@, key@) is None,
        },
{
    let k = key.to_owned();
    let mut i: usize = 0;
    assert(fields@.subrange(0, fields@.len() as int) =~= fields@);
    while i < fields.len()
        invariant
            i <= fields@.len(),
            k@ == key@,
            lookup(fields@, key@) == lookup(fields@.subrange(i as int, fields@.len() as int), key@),
        decreases fields@.len() - i,
    {
        let ghost rest = fields@.subrange(i as int, fields@.len() as int);
        assert(rest[0] == fields@[i as int]);
        if fields[i].0 == k {
            return Some(i);
        }
        assert(rest.drop_first() =~= fields@.subrange(i + 1, fields@.len() as int));
        i = i + 1;
    }
    None
}

/// A member whose name differs from `key` does not change what `key` looks
/// up, wherever it stands.
pub proof fn lemma_lookup_skip(
    a: Seq<(String, JsonValue)>,
    b: Seq<(String, JsonValue)>,
    extra: (String, JsonValue),
    key: Seq<char>,
)
    requires
        extra.0@ != key,
    ensures
        lookup(a + seq![extra] + b, key) == lookup(a + b, key),
    decreases a.len(),
{
    if a.len() == 0 {
        assert((a + seq![extra] + b).drop_first() =~= b);
        assert(a + b =~= b);
    } else {
        lemma_lookup_skip(a.drop_first(), b, extra, key);
        assert((a + seq![extra] + b).drop_first() =~= a.drop_first() + seq![extra] + b);
        assert((a + b).drop_first() =~= a.drop_first() + b);
    }
}

/// Taking out the members named `gone` leaves every other name's value as
/// it was, and `gone` itself absent.
pub proof fn lemma_lookup_remove(fields: Seq<(String, JsonValue)>, gone: Seq<char>, key: Seq<char>)
    ensures
        lookup(remove_key(fields, gone), key) == if key == gone {
            None
        } else {
            lookup(fields, key)
        },
    decreases fields.len(),
{
    if fields.len() > 0 {
        lemma_lookup_remove(fields.drop_first(), gone, key);
        if fields[0].0@ != gone {
            let r = seq![fields[0]] + remove_key(fields.drop_first(), gone);
            assert(r[0] == fields[0]);
            assert(r.drop_first() =~= remove_key(fields.drop_first(), gone));
        }
    }
}

} // verus!
