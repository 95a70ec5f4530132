//! The loosely-typed input values in which the embedding application hands
//! structured metadata to the workflow: null, booleans, unsigned integers,
//! text, lists, and records of key/value pairs.

use vstd::prelude::*;

verus! {

/// A loosely-typed input value. Numbers that are not unsigned integers have
/// no representation here; the embedding maps them to `Null`, which every
/// typed read rejects.
pub enum InputValue {
    Null,
    Bool(bool),
    Int(u64),
    Text(String),
    List(Vec<InputValue>),
    Record(Vec<(String, InputValue)>),
}

/// The value under the first entry of `pairs` whose key reads `key`.
pub open spec fn field_of(pairs: Seq<(String, InputValue)>, key: Seq<char>) -> Option<InputValue>
    decreases pairs.len(),
{
    if pairs.len() == 0 {
        None
    } else if pairs[0].0@ == key {
        Some(pairs[0].1)
    } else {
        field_of(pairs.skip(1), key)
    }
}

/// The entries of a record value.
pub open spec fn fields_of(v: InputValue) -> Seq<(String, InputValue)> {
    v->Record_0@
}

/// Whether `v` is a record with a text value under `key`.
pub open spec fn text_field_ok(v: InputValue, key: Seq<char>) -> bool {
    v is Record && (field_of(fields_of(v), key) matches Some(t) && t is Text)
}

/// The text under `key`, where `text_field_ok` holds.
pub open spec fn text_field(v: InputValue, key: Seq<char>) -> Seq<char> {
    field_of(fields_of(v), key)->0->Text_0@
}

/// Whether `v` is a record with a boolean value under `key`.
pub open spec fn bool_field_ok(v: InputValue, key: Seq<char>) -> bool {
    v is Record && (field_of(fields_of(v), key) matches Some(b) && b is Bool)
}

/// The boolean under `key`, where `bool_field_ok` holds.
pub open spec fn bool_field(v: InputValue, key: Seq<char>) -> bool {
    field_of(fields_of(v), key)->0->Bool_0
}

/// Whether `v` is a record with an unsigned integer under `key`.
pub open spec fn int_field_ok(v: InputValue, key: Seq<char>) -> bool {
    v is Record && (field_of(fields_of(v), key) matches Some(n) && n is Int)
}

/// The integer under `key`, where `int_field_ok` holds.
pub open spec fn int_field(v: InputValue, key: Seq<char>) -> u64 {
    field_of(fields_of(v), key)->0->Int_0
}

impl InputValue {
    /// Look a field up in a record value: `None` for any other shape of
    /// value and for a missing key.
    pub fn field<'a>(&'a self, key: &String) -> (r: Option<&'a InputValue>)
        ensures
            match r {
                Some(found) => self is Record && field_of(fields_of(*self), key@) == Some(*found),
                None => !(self is Record) || field_of(fields_of(*self), key@) is None,
            },
    {
        match self {
            InputValue::Record(pairs) => {
                let n = pairs.len();
                let mut i: usize = 0;
                proof {
                    assert(pairs@.skip(0) =~= pairs@);
                }
                while i < n
                    invariant
                        i <= n,
                        n == pairs@.len(),
                        self is Record,
                        fields_of(*self) == pairs@,
                        field_of(pairs@, key@) == field_of(pairs@.skip(i as int), key@),
                    decreases n - i,
                {
                    proof {
                        assert(pairs@.skip(i as int)[0] == pairs@[i as int]);
                        assert(pairs@.skip(i as int).skip(1) =~= pairs@.skip(i as int + 1));
                    }
                    if pairs[i].0 == *key {
                        proof {
                            assert(field_of(pairs@.skip(i as int), key@) == Some(pairs@[i as int].1));
                        }
                        return Some(&pairs[i].1);
                    }
                    i = i + 1;
                }
                None
            },
            _ => None,
        }
    }

    /// The text under `key`, when `self` is a record holding text there.
    pub fn text_value<'a>(&'a self, key: &str) -> (r: Option<&'a String>)
        ensures
            r is Some <==> text_field_ok(*self, key@),
            r matches Some(s) ==> s@ == text_field(*self, key@),
    {
        match self.field(&key.to_owned()) {
            Some(InputValue::Text(s)) => Some(s),
            _ => None,
        }
    }

    /// The boolean under `key`, when `self` is a record holding one there.
    pub fn bool_value(&self, key: &str) -> (r: Option<bool>)
        ensures
            r is Some <==> bool_field_ok(*self, key@),
            r matches Some(b) ==> b == bool_field(*self, key@),
    {
        match self.field(&key.to_owned()) {
            Some(InputValue::Bool(b)) => Some(*b),
            _ => None,
        }
    }

    /// The unsigned integer under `key`, when `self` is a record holding one
    /// there.
    pub fn int_value(&self, key: &str) -> (r: Option<u64>)
        ensures
            r is Some <==> int_field_ok(*self, key@),
            r matches Some(n) ==> n == int_field(*self, key@),
    {
        match self.field(&key.to_owned()) {
            Some(InputValue::Int(n)) => Some(*n),
            _ => None,
        }
    }
}

} // verus!
