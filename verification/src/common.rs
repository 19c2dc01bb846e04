//! Attribute keys and values shared by spans, events, links and resources.

use vstd::prelude::*;

verus! {

/// The value of an attribute.
#[derive(Debug)]
pub enum Value {
    /// A boolean.
    Bool(bool),
    /// A signed integer.
    I64(i64),
    /// A string.
    String(String),
}

/// The character of a decimal digit.
pub open spec fn digit_char(digit: nat) -> char {
    if digit == 0 {
        '0'
    } else if digit == 1 {
        '1'
    } else if digit == 2 {
        '2'
    } else if digit == 3 {
        '3'
    } else if digit == 4 {
        '4'
    } else if digit == 5 {
        '5'
    } else if digit == 6 {
        '6'
    } else if digit == 7 {
        '7'
    } else if digit == 8 {
        '8'
    } else {
        '9'
    }
}

/// A natural number in decimal digits, without leading zeros.
pub open spec fn decimal_digits(n: nat) -> Seq<char>
    decreases n,
{
    if n < 10 {
        seq![digit_char(n)]
    } else {
        decimal_digits(n / 10).push(digit_char(n % 10))
    }
}

/// A signed integer in decimal: a minus sign for a negative number, then the
/// digits of its magnitude.
pub open spec fn decimal_text(value: i64) -> Seq<char> {
    if value < 0 {
        seq!['-'] + decimal_digits((-(value as int)) as nat)
    } else {
        decimal_digits(value as nat)
    }
}

/// Formats an integer with `i64::to_string` of the standard library, which
/// writes it in decimal, with a minus sign for a negative number and
/// without leading zeros.
#[verifier::external_body]
fn integer_text(value: i64) -> (text: String)
    ensures
        text@ == decimal_text(value),
{
    value.to_string()
}

impl Value {
    /// The value as it is written in text: a string as it stands, a boolean
    /// as `true` or `false`, an integer in decimal.
    pub open spec fn text(&self) -> Seq<char> {
        match self {
            Value::Bool(b) => if *b {
                "true"@
            } else {
                "false"@
            },
            Value::I64(n) => decimal_text(*n),
            Value::String(s) => s@,
        }
    }

    /// The value written as text.
    pub fn to_text(&self) -> (text: String)
        ensures
            text@ == self.text(),
    {
        match self {
            Value::Bool(b) => if *b {
                "true".to_owned()
            } else {
                "false".to_owned()
            },
            Value::I64(n) => integer_text(*n),
            Value::String(s) => s.clone(),
        }
    }
}

impl Clone for Value {
    /// An equal value.
    fn clone(&self) -> (copy: Self)
        ensures
            copy == *self,
    {
        match self {
            Value::Bool(b) => Value::Bool(*b),
            Value::I64(n) => Value::I64(*n),
            Value::String(s) => Value::String(s.clone()),
        }
    }
}

/// A key with the value recorded under it.
#[derive(Debug)]
pub struct KeyValue {
    /// The attribute's name.
    pub key: String,
    /// The attribute's value.
    pub value: Value,
}

impl Clone for KeyValue {
    /// An equal pair.
    fn clone(&self) -> (copy: Self)
        ensures
            copy == *self,
    {
        KeyValue { key: self.key.clone(), value: self.value.clone() }
    }
}

impl KeyValue {
    /// Pair a key with a value.
    pub fn new(key: String, value: Value) -> (kv: Self)
        ensures
            kv.key == key,
            kv.value == value,
    {
        KeyValue { key, value }
    }
}

/// The name and version of the library that produced a span.
#[derive(Clone, Debug)]
pub struct InstrumentationLibrary {
    /// The library's name.
    pub name: String,
    /// The library's version, if it gave one.
    pub version: Option<String>,
    /// The schema its telemetry follows, if it gave one.
    pub schema_url: Option<String>,
}

impl InstrumentationLibrary {
    /// Describe a library by name, version and schema.
    pub fn new(name: String, version: Option<String>, schema_url: Option<String>) -> (lib: Self)
        ensures
            lib.name == name,
            lib.version == version,
            lib.schema_url == schema_url,
    {
        InstrumentationLibrary { name, version, schema_url }
    }
}

impl Default for InstrumentationLibrary {
    /// A library without a name, version or schema.
    fn default() -> (lib: Self)
        ensures
            lib.name@ == Seq::<char>::empty(),
            lib.version is None,
            lib.schema_url is None,
    {
        InstrumentationLibrary { name: String::new(), version: None, schema_url: None }
    }
}

} // verus!
