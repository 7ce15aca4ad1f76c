//! The document tree the extractor reads.
//!
//! A property-list document is a recursive value whose leaf kinds are array,
//! dictionary, boolean, binary data, date, integer, real, string and
//! reference. The color-scheme extractor looks up dictionary entries by key
//! and reads only strings and reals; of every other kind it reads nothing but
//! the kind itself, so those variants carry no payload here. A tenth variant
//! stands for a leaf the loader could not classify, so that an unforeseen
//! kind is still named in a type error rather than crashing anything.

use vstd::prelude::*;

verus! {

use crate::channel::Real;
use crate::error::{Error, ErrorView};

/// One entry of a dictionary: a string key and its value.
#[derive(Debug)]
pub struct DictEntry {
    pub key: String,
    pub value: Value,
}

/// A dictionary of the document: string keys mapped to values. Insertion
/// order is irrelevant for lookup; keys are expected to be distinct, and
/// lookup takes the first match.
#[derive(Debug)]
pub struct Dict {
    pub entries: Vec<DictEntry>,
}

/// One value of the document tree.
#[derive(Debug)]
pub enum Value {
    Array,
    Boolean(bool),
    Data,
    Date,
    Dictionary(Dict),
    Integer,
    Real(Real),
    String(String),
    Uid,
    Unknown,
}

/// The name of a value's leaf kind, as reported in type errors.
pub open spec fn kind_text(v: Value) -> Seq<char> {
    match v {
        Value::Array => "Array"@,
        Value::Boolean(_) => "Boolean"@,
        Value::Data => "Data"@,
        Value::Date => "Date"@,
        Value::Dictionary(_) => "Dictionary"@,
        Value::Integer => "Integer"@,
        Value::Real(_) => "Real"@,
        Value::String(_) => "String"@,
        Value::Uid => "Uid"@,
        Value::Unknown => "(unknown)"@,
    }
}

/// The first value bound to `key`, searching entries front to back.
pub open spec fn lookup(entries: Seq<DictEntry>, key: Seq<char>) -> Option<Value>
    decreases entries.len(),
{
    if entries.len() == 0 {
        None
    } else if entries[0].key@ == key {
        Some(entries[0].value)
    } else {
        lookup(entries.drop_first(), key)
    }
}

/// Required lookup: the value bound to `key`, or the missing-key error.
pub open spec fn get_spec(d: Dict, key: Seq<char>) -> Result<Value, ErrorView> {
    match lookup(d.entries@, key) {
        Some(v) => Ok(v),
        None => Err(ErrorView::MissingKey(key)),
    }
}

/// The string a value holds, or the type error naming its actual kind.
pub open spec fn as_string_spec(v: Value) -> Result<Seq<char>, ErrorView> {
    match v {
        Value::String(s) => Ok(s@),
        _ => Err(ErrorView::InvalidType { expected: "String"@, actual: kind_text(v) }),
    }
}

/// The real a value holds, or the type error naming its actual kind.
pub open spec fn as_real_spec(v: Value) -> Result<Real, ErrorView> {
    match v {
        Value::Real(r) => Ok(r),
        _ => Err(ErrorView::InvalidType { expected: "Real"@, actual: kind_text(v) }),
    }
}

/// The dictionary a value holds, or the type error naming its actual kind.
pub open spec fn as_dictionary_spec(v: Value) -> Result<Dict, ErrorView> {
    match v {
        Value::Dictionary(d) => Ok(d),
        _ => Err(ErrorView::InvalidType { expected: "Dictionary"@, actual: kind_text(v) }),
    }
}

impl Dict {
    /// Looks `key` up; absence is the `MissingKey` error, never a panic.
    pub fn get_r<'a>(&'a self, key: &String) -> (r: Result<&'a Value, Error>)
        ensures
            match r {
                Ok(v) => get_spec(*self, key@) == Ok::<Value, ErrorView>(*v),
                Err(e) => get_spec(*self, key@) == Err::<Value, ErrorView>(e@),
            },
    {
        let n = self.entries.len();
        proof {
            assert(self.entries@.skip(0) =~= self.entries@);
        }
        for i in 0..n
            invariant
                n == self.entries.len(),
                lookup(self.entries@, key@) == lookup(self.entries@.skip(i as int), key@),
        {
            proof {
                assert(self.entries@.skip(i as int)[0] == self.entries@[i as int]);
            }
            if self.entries[i].key == *key {
                return Ok(&self.entries[i].value);
            }
            proof {
                assert(self.entries@.skip(i as int).drop_first() =~= self.entries@.skip(
                    i + 1,
                ));
            }
        }
        proof {
            assert(self.entries@.skip(n as int).len() == 0);
        }
        Err(Error::MissingKey(key.clone()))
    }
}

impl Value {
    /// The name of this value's leaf kind.
    pub fn kind_name(&self) -> (r: &'static str)
        ensures
            r@ == kind_text(*self),
    {
        match self {
            Value::Array => "Array",
            Value::Boolean(_) => "Boolean",
            Value::Data => "Data",
            Value::Date => "Date",
            Value::Dictionary(_) => "Dictionary",
            Value::Integer => "Integer",
            Value::Real(_) => "Real",
            Value::String(_) => "String",
            Value::Uid => "Uid",
            Value::Unknown => "(unknown)",
        }
    }

    /// This value as a string, or the type error.
    pub fn as_string_r(&self) -> (r: Result<&String, Error>)
        ensures
            match r {
                Ok(s) => as_string_spec(*self) == Ok::<Seq<char>, ErrorView>(s@),
                Err(e) => as_string_spec(*self) == Err::<Seq<char>, ErrorView>(e@),
            },
    {
        match self {
            Value::String(s) => Ok(s),
            _ => Err(Error::invalid_type("String", self)),
        }
    }

    /// This value as a real, or the type error.
    pub fn as_real_r(&self) -> (r: Result<Real, Error>)
        ensures
            match r {
                Ok(x) => as_real_spec(*self) == Ok::<Real, ErrorView>(x),
                Err(e) => as_real_spec(*self) == Err::<Real, ErrorView>(e@),
            },
    {
        match self {
            Value::Real(x) => Ok(*x),
            _ => Err(Error::invalid_type("Real", self)),
        }
    }

    /// This value as a dictionary, or the type error.
    pub fn as_dictionary_r(&self) -> (r: Result<&Dict, Error>)
        ensures
            match r {
                Ok(d) => as_dictionary_spec(*self) == Ok::<Dict, ErrorView>(*d),
                Err(e) => as_dictionary_spec(*self) == Err::<Dict, ErrorView>(e@),
            },
    {
        match self {
            Value::Dictionary(d) => Ok(d),
            _ => Err(Error::invalid_type("Dictionary", self)),
        }
    }
}

} // verus!
