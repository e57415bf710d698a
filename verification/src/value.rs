//! The value-coercion layer: heterogeneous records mapping field names to
//! dynamically tagged values, and typed extraction over them.
//!
//! A row returned by the management-query interface is a set of named, tagged
//! values. Extraction distinguishes a missing key from a present key of the
//! wrong shape, performs safe numeric widening, and — for 64-bit requests
//! only — accepts a string-tagged value that parses as a non-negative
//! integer. It never panics on a wrong type or a missing key.

use vstd::prelude::*;
use crate::errors::ExtractError;
use crate::text::{parse_u64_spec, parse_u64_chars, str_chars, str_eq_str};

verus! {

/// One dynamically tagged value of a heterogeneous record.
pub enum Value {
    /// A text value.
    Str(String),
    /// A boolean value.
    Bool(bool),
    /// An unsigned 8-bit value.
    UI1(u8),
    /// An unsigned 16-bit value.
    UI2(u16),
    /// An unsigned 32-bit value.
    UI4(u32),
    /// An unsigned 64-bit value.
    UI8(u64),
    /// A signed 16-bit value.
    I2(i16),
    /// A signed 32-bit value.
    I4(i32),
    /// A signed 64-bit value.
    I8(i64),
    /// An array of tagged values.
    Array(Vec<Value>),
    /// Any tag the probes never read (null, empty, floating point, ...).
    Other,
}

/// One named field of a heterogeneous record.
pub struct Field {
    /// The field's name.
    pub key: String,
    /// The field's tagged value.
    pub val: Value,
}

/// A heterogeneous record: the raw per-row result of a management query.
/// Ephemeral — it exists only while a probe normalizes it.
pub struct Record {
    /// The named fields, in source order. Lookup takes the first match.
    pub fields: Vec<Field>,
}

impl Record {
    /// The value stored under `key`, if any: the first field so named.
    pub open spec fn lookup(self, key: Seq<char>) -> Option<Value> {
        lookup_in(self.fields@, key)
    }

    /// A record with no fields.
    pub fn new() -> (r: Record)
        ensures
            r.fields@.len() == 0,
    {
        Record { fields: Vec::new() }
    }

    /// Adds a field to the record.
    pub fn add(&mut self, key: String, val: Value)
        ensures
            final(self).fields@ == old(self).fields@.push(Field { key, val }),
    {
        self.fields.push(Field { key, val });
    }

    /// A reference to the value stored under `key`, if any.
    pub fn get_value(&self, key: &str) -> (r: Option<&Value>)
        ensures
            match r {
                Some(v) => self.lookup(key@) == Some(*v),
                None => self.lookup(key@) is None,
            },
    {
        let n = self.fields.len();
        let mut i: usize = 0;
        proof {
            assert(self.fields@.subrange(0, n as int) =~= self.fields@);
        }
        while i < n
            invariant
                i <= n,
                n == self.fields@.len(),
                lookup_in(self.fields@, key@) == lookup_in(
                    self.fields@.subrange(i as int, n as int),
                    key@,
                ),
            decreases n - i,
        {
            let ghost rest = self.fields@.subrange(i as int, n as int);
            proof {
                assert(rest[0] == self.fields@[i as int]);
                assert(rest.drop_first() =~= self.fields@.subrange(i + 1 as int, n as int));
            }
            if str_eq_str(self.fields[i].key.as_str(), key) {
                return Some(&self.fields[i].val);
            }
            i = i + 1;
        }
        None
    }

    /// Extracts a text field.
    pub fn get_string(&self, key: &str) -> (r: Result<String, ExtractError>)
        ensures
            match self.lookup(key@) {
                None => r == Err::<String, ExtractError>(ExtractError::KeyMissing),
                Some(v) => match v {
                    Value::Str(s) => r matches Ok(x) && x@ == s@,
                    _ => r == Err::<String, ExtractError>(ExtractError::TypeMismatch),
                },
            },
    {
        match self.get_value(key) {
            None => Err(ExtractError::KeyMissing),
            Some(Value::Str(s)) => Ok(s.clone()),
            Some(_) => Err(ExtractError::TypeMismatch),
        }
    }

    /// Extracts a boolean field.
    pub fn get_bool(&self, key: &str) -> (r: Result<bool, ExtractError>)
        ensures
            r == spec_get_bool(*self, key@),
    {
        match self.get_value(key) {
            None => Err(ExtractError::KeyMissing),
            Some(Value::Bool(b)) => Ok(*b),
            Some(_) => Err(ExtractError::TypeMismatch),
        }
    }

    /// Extracts an unsigned 16-bit field, widening from the narrower
    /// unsigned tag and reinterpreting the signed 16-bit tag.
    pub fn get_u16(&self, key: &str) -> (r: Result<u16, ExtractError>)
        ensures
            r == spec_get_u16(*self, key@),
    {
        match self.get_value(key) {
            None => Err(ExtractError::KeyMissing),
            Some(Value::UI1(v)) => Ok(*v as u16),
            Some(Value::UI2(v)) => Ok(*v),
            Some(Value::I2(v)) => Ok(*v as u16),
            Some(_) => Err(ExtractError::TypeMismatch),
        }
    }

    /// Extracts an unsigned 32-bit field, widening from narrower unsigned
    /// tags and reinterpreting the signed 32-bit tag.
    pub fn get_u32(&self, key: &str) -> (r: Result<u32, ExtractError>)
        ensures
            r == spec_get_u32(*self, key@),
    {
        match self.get_value(key) {
            None => Err(ExtractError::KeyMissing),
            Some(Value::UI1(v)) => Ok(*v as u32),
            Some(Value::UI2(v)) => Ok(*v as u32),
            Some(Value::UI4(v)) => Ok(*v),
            Some(Value::I4(v)) => Ok(*v as u32),
            Some(_) => Err(ExtractError::TypeMismatch),
        }
    }

    /// Extracts an unsigned 64-bit field. Widens from every narrower
    /// unsigned tag, reinterprets the signed 64-bit tag, and accepts a
    /// string tag that parses as a non-negative integer — sources encode
    /// large counters as text to avoid overflowing a narrower native type.
    pub fn get_u64(&self, key: &str) -> (r: Result<u64, ExtractError>)
        ensures
            r == spec_get_u64(*self, key@),
    {
        match self.get_value(key) {
            None => Err(ExtractError::KeyMissing),
            Some(Value::UI8(v)) => Ok(*v),
            Some(Value::UI4(v)) => Ok(*v as u64),
            Some(Value::UI2(v)) => Ok(*v as u64),
            Some(Value::UI1(v)) => Ok(*v as u64),
            Some(Value::I8(v)) => Ok(*v as u64),
            Some(Value::Str(s)) => {
                let chars = str_chars(s.as_str());
                match parse_u64_chars(&chars) {
                    Some(x) => Ok(x),
                    None => Err(ExtractError::TypeMismatch),
                }
            },
            Some(_) => Err(ExtractError::TypeMismatch),
        }
    }
}

/// First-match lookup over a field list.
pub open spec fn lookup_in(fields: Seq<Field>, key: Seq<char>) -> Option<Value>
    decreases fields.len(),
{
    if fields.len() == 0 {
        None
    } else if fields[0].key@ == key {
        Some(fields[0].val)
    } else {
        lookup_in(fields.drop_first(), key)
    }
}

/// What boolean extraction returns.
pub open spec fn spec_get_bool(r: Record, key: Seq<char>) -> Result<bool, ExtractError> {
    match r.lookup(key) {
        None => Err(ExtractError::KeyMissing),
        Some(v) => match v {
            Value::Bool(b) => Ok(b),
            _ => Err(ExtractError::TypeMismatch),
        },
    }
}

/// What unsigned 16-bit extraction returns.
pub open spec fn spec_get_u16(r: Record, key: Seq<char>) -> Result<u16, ExtractError> {
    match r.lookup(key) {
        None => Err(ExtractError::KeyMissing),
        Some(v) => match v {
            Value::UI1(x) => Ok(x as u16),
            Value::UI2(x) => Ok(x),
            Value::I2(x) => Ok(x as u16),
            _ => Err(ExtractError::TypeMismatch),
        },
    }
}

/// What unsigned 32-bit extraction returns.
pub open spec fn spec_get_u32(r: Record, key: Seq<char>) -> Result<u32, ExtractError> {
    match r.lookup(key) {
        None => Err(ExtractError::KeyMissing),
        Some(v) => match v {
            Value::UI1(x) => Ok(x as u32),
            Value::UI2(x) => Ok(x as u32),
            Value::UI4(x) => Ok(x),
            Value::I4(x) => Ok(x as u32),
            _ => Err(ExtractError::TypeMismatch),
        },
    }
}

/// What unsigned 64-bit extraction returns.
pub open spec fn spec_get_u64(r: Record, key: Seq<char>) -> Result<u64, ExtractError> {
    match r.lookup(key) {
        None => Err(ExtractError::KeyMissing),
        Some(v) => match v {
            Value::UI8(x) => Ok(x),
            Value::UI4(x) => Ok(x as u64),
            Value::UI2(x) => Ok(x as u64),
            Value::UI1(x) => Ok(x as u64),
            Value::I8(x) => Ok(x as u64),
            Value::Str(s) => match parse_u64_spec(s@) {
                Some(x) => Ok(x),
                None => Err(ExtractError::TypeMismatch),
            },
            _ => Err(ExtractError::TypeMismatch),
        },
    }
}

/// The text of a string field, if the key is present and string-tagged.
pub open spec fn str_field(r: Record, key: Seq<char>) -> Option<Seq<char>> {
    match r.lookup(key) {
        Some(Value::Str(s)) => Some(s@),
        _ => None,
    }
}

/// The text of a string field, or empty when it is missing or mistyped.
pub open spec fn str_or_empty(r: Record, key: Seq<char>) -> Seq<char> {
    match r.lookup(key) {
        Some(Value::Str(s)) => s@,
        _ => Seq::<char>::empty(),
    }
}

/// A boolean field, or the default when it is missing or mistyped.
pub open spec fn bool_or(r: Record, key: Seq<char>, d: bool) -> bool {
    match spec_get_bool(r, key) {
        Ok(b) => b,
        Err(_) => d,
    }
}

/// An unsigned 16-bit field, or the default when extraction fails.
pub open spec fn u16_or(r: Record, key: Seq<char>, d: u16) -> u16 {
    match spec_get_u16(r, key) {
        Ok(x) => x,
        Err(_) => d,
    }
}

/// An unsigned 32-bit field, or the default when extraction fails.
pub open spec fn u32_or(r: Record, key: Seq<char>, d: u32) -> u32 {
    match spec_get_u32(r, key) {
        Ok(x) => x,
        Err(_) => d,
    }
}

/// An unsigned 64-bit field, or the default when extraction fails.
pub open spec fn u64_or(r: Record, key: Seq<char>, d: u64) -> u64 {
    match spec_get_u64(r, key) {
        Ok(x) => x,
        Err(_) => d,
    }
}

/// Extracts a text field, substituting empty text when it is absent or
/// mistyped.
pub fn get_string_or_empty(r: &Record, key: &str) -> (s: String)
    ensures
        s@ == str_or_empty(*r, key@),
{
    match r.get_string(key) {
        Ok(s) => s,
        Err(_) => String::new(),
    }
}

/// Extracts a boolean field with a default.
pub fn get_bool_or(r: &Record, key: &str, d: bool) -> (b: bool)
    ensures
        b == bool_or(*r, key@, d),
{
    match r.get_bool(key) {
        Ok(b) => b,
        Err(_) => d,
    }
}

/// Extracts an unsigned 16-bit field with a default.
pub fn get_u16_or(r: &Record, key: &str, d: u16) -> (x: u16)
    ensures
        x == u16_or(*r, key@, d),
{
    match r.get_u16(key) {
        Ok(x) => x,
        Err(_) => d,
    }
}

/// Extracts an unsigned 32-bit field with a default.
pub fn get_u32_or(r: &Record, key: &str, d: u32) -> (x: u32)
    ensures
        x == u32_or(*r, key@, d),
{
    match r.get_u32(key) {
        Ok(x) => x,
        Err(_) => d,
    }
}

/// Extracts an unsigned 64-bit field with a default.
pub fn get_u64_or(r: &Record, key: &str, d: u64) -> (x: u64)
    ensures
        x == u64_or(*r, key@, d),
{
    match r.get_u64(key) {
        Ok(x) => x,
        Err(_) => d,
    }
}

/// The bytes an array-tagged value carries: each 8-bit item as itself, each
/// 16-bit item reinterpreted as a byte; other items contribute nothing.
pub open spec fn bytes_of(items: Seq<Value>) -> Seq<u8>
    decreases items.len(),
{
    if items.len() == 0 {
        Seq::<u8>::empty()
    } else {
        bytes_of(items.drop_last()) + (match items.last() {
            Value::UI1(b) => seq![b],
            Value::UI2(x) => seq![x as u8],
            Value::I2(x) => seq![x as u8],
            _ => Seq::<u8>::empty(),
        })
    }
}

/// The prefix of `b` before its first zero byte.
pub open spec fn take_until_zero(b: Seq<u8>) -> Seq<u8>
    decreases b.len(),
{
    if b.len() == 0 || b[0] == 0 {
        Seq::<u8>::empty()
    } else {
        seq![b[0]] + take_until_zero(b.drop_first())
    }
}

/// A zero-free prefix bounded by a zero (or the end) is exactly what
/// `take_until_zero` keeps.
proof fn lemma_take_until_zero(b: Seq<u8>, n: int)
    requires
        0 <= n <= b.len(),
        forall|k: int| 0 <= k < n ==> b[k] != 0,
        n == b.len() || b[n] == 0,
    ensures
        take_until_zero(b) == b.subrange(0, n),
    decreases n,
{
    if n == 0 {
        assert(b.subrange(0, 0) =~= Seq::<u8>::empty());
    } else {
        assert(b[0] != 0);
        lemma_take_until_zero(b.drop_first(), n - 1);
        assert(b.drop_first().subrange(0, n - 1) =~= b.subrange(1, n));
        assert(seq![b[0]] + b.subrange(1, n) =~= b.subrange(0, n));
    }
}

/// One character per byte: seven-bit bytes stand for themselves, anything
/// higher is replaced. Descriptor strings are treated as single-byte text.
pub open spec fn byte_text(b: Seq<u8>) -> Seq<char> {
    b.map_values(|x: u8| if x < 0x80 { x as char } else { '\u{fffd}' })
}

/// What decoding a byte-array descriptor yields: the bytes carried by the
/// array, truncated at the first zero, read as single-byte text. A value
/// that is not array-tagged decodes to empty text.
pub open spec fn decoded_bytes(v: Value) -> Seq<char> {
    match v {
        Value::Array(items) => byte_text(take_until_zero(bytes_of(items@))),
        _ => Seq::<char>::empty(),
    }
}

/// Decodes a byte-array descriptor field (monitor names, manufacturers) to
/// text: collect the byte items, stop at the first zero, read as
/// single-byte text.
pub fn decode_byte_array(v: &Value) -> (r: Vec<char>)
    ensures
        r@ == decoded_bytes(*v),
{
    match v {
        Value::Array(items) => {
            let n = items.len();
            let mut bytes: Vec<u8> = Vec::new();
            let mut i: usize = 0;
            while i < n
                invariant
                    i <= n,
                    n == items@.len(),
                    bytes@ == bytes_of(items@.subrange(0, i as int)),
                decreases n - i,
            {
                let ghost pre = items@.subrange(0, i + 1 as int);
                proof {
                    assert(pre.drop_last() =~= items@.subrange(0, i as int));
                    assert(pre.last() == items@[i as int]);
                }
                match &items[i] {
                    Value::UI1(b) => bytes.push(*b),
                    Value::UI2(x) => bytes.push(*x as u8),
                    Value::I2(x) => bytes.push(*x as u8),
                    _ => (),
                }
                i = i + 1;
            }
            proof {
                assert(items@.subrange(0, n as int) =~= items@);
            }
            let m = bytes.len();
            let mut out: Vec<char> = Vec::new();
            let mut j: usize = 0;
            while j < m
                invariant
                    j <= m,
                    m == bytes@.len(),
                    decoded_bytes(*v) == byte_text(take_until_zero(bytes@)),
                    forall|k: int| 0 <= k < j ==> bytes@[k] != 0,
                    out@ == byte_text(bytes@.subrange(0, j as int)),
                decreases m - j,
            {
                let b = bytes[j];
                if b == 0 {
                    proof {
                        lemma_take_until_zero(bytes@, j as int);
                    }
                    return out;
                }
                if b < 0x80 {
                    out.push(b as char);
                } else {
                    out.push('\u{fffd}');
                }
                assert(out@ =~= byte_text(bytes@.subrange(0, j + 1 as int)));
                j = j + 1;
            }
            proof {
                lemma_take_until_zero(bytes@, m as int);
                assert(bytes@.subrange(0, m as int) =~= bytes@);
            }
            out
        },
        _ => Vec::new(),
    }
}

/// The text items of an array-tagged value, in order; items of any other
/// tag are skipped.
pub open spec fn strings_of(items: Seq<Value>) -> Seq<Seq<char>>
    decreases items.len(),
{
    if items.len() == 0 {
        Seq::<Seq<char>>::empty()
    } else {
        strings_of(items.drop_last()) + (match items.last() {
            Value::Str(s) => seq![s@],
            _ => Seq::<Seq<char>>::empty(),
        })
    }
}

/// What extracting an array of strings yields: its text items for an
/// array-tagged value, nothing for any other tag.
pub open spec fn string_array(v: Value) -> Seq<Seq<char>> {
    match v {
        Value::Array(items) => strings_of(items@),
        _ => Seq::<Seq<char>>::empty(),
    }
}

/// Collects the text items of an array-tagged value.
pub fn extract_string_array(v: &Value) -> (r: Vec<String>)
    ensures
        r@.len() == string_array(*v).len(),
        forall|i: int| 0 <= i < r@.len() ==> #[trigger] r@[i]@ == string_array(*v)[i],
{
    match v {
        Value::Array(items) => {
            let n = items.len();
            let mut out: Vec<String> = Vec::new();
            let mut i: usize = 0;
            while i < n
                invariant
                    i <= n,
                    n == items@.len(),
                    out@.len() == strings_of(items@.subrange(0, i as int)).len(),
                    forall|k: int|
                        0 <= k < out@.len() ==> #[trigger] out@[k]@ == strings_of(
                            items@.subrange(0, i as int),
                        )[k],
                decreases n - i,
            {
                let ghost pre = items@.subrange(0, i + 1 as int);
                proof {
                    assert(pre.drop_last() =~= items@.subrange(0, i as int));
                    assert(pre.last() == items@[i as int]);
                }
                match &items[i] {
                    Value::Str(s) => out.push(s.clone()),
                    _ => (),
                }
                i = i + 1;
            }
            proof {
                assert(items@.subrange(0, n as int) =~= items@);
            }
            out
        },
        _ => Vec::new(),
    }
}

} // verus!
