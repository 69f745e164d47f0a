use vstd::prelude::*;

verus! {

/// An untyped parameter value as a client sends it.
///
/// Numbers are held as their decimal text: the dispatch core only needs to
/// know that a value is a number, never to compute with it.
#[derive(Debug)]
pub enum Value {
    Null,
    Bool(bool),
    Number(String),
    Text(String),
    Array(Vec<Value>),
    Object(Vec<(String, Value)>),
}

/// The value bound to `key` in a parameter mapping: the first entry whose
/// key is `key`, if there is one.
pub open spec fn lookup(params: Seq<(String, Value)>, key: Seq<char>) -> Option<Value>
    decreases params.len(),
{
    if params.len() == 0 {
        None
    } else if params[0].0@ == key {
        Some(params[0].1)
    } else {
        lookup(params.drop_first(), key)
    }
}

/// Finds the value bound to `key` in `params`.
pub fn find_field<'a>(params: &'a Vec<(String, Value)>, key: &String) -> (r: Option<&'a Value>)
    ensures
        r matches Some(v) ==> lookup(params@, key@) == Some(*v),
        r is None ==> lookup(params@, key@) is None,
{
    let mut i: usize = 0;
    assert(params@.skip(0) =~= params@);
    while i < params.len()
        invariant
            0 <= i <= params@.len(),
            lookup(params@, key@) == lookup(params@.skip(i as int), key@),
        decreases params@.len() - i,
    {
        assert(params@.skip(i as int).drop_first() =~= params@.skip(i as int + 1));
        if params[i].0 == *key {
            return Some(&params[i].1);
        }
        i = i + 1;
    }
    None
}

/// The text bound to `key` in `params`, which is known to be text.
pub fn text_field<'a>(params: &'a Vec<(String, Value)>, key: &String) -> (r: &'a String)
    requires
        lookup(params@, key@) matches Some(Value::Text(_)),
    ensures
        lookup(params@, key@) == Some(Value::Text(*r)),
{
    let n: usize = params.len();
    let mut i: usize = 0;
    assert(params@.skip(0) =~= params@);
    loop
        invariant
            0 <= i <= params@.len(),
            n == params@.len(),
            lookup(params@, key@) == lookup(params@.skip(i as int), key@),
            lookup(params@, key@) matches Some(Value::Text(_)),
        decreases params@.len() - i,
    {
        assert(i < params@.len());
        assert(params@.skip(i as int).drop_first() =~= params@.skip(i as int + 1));
        if params[i].0 == *key {
            if let Value::Text(s) = &params[i].1 {
                return s;
            }
        }
        i = i + 1;
    }
}

} // verus!
