//! Scalar property values.

use vstd::prelude::*;
use vstd::std_specs::convert::FromSpecImpl;

verus! {

/// A scalar that can be attached to an event as a property.
///
/// Only strings, booleans and numbers exist: a list or an object cannot be
/// written down as a `PropValue`. The two floating-point variants carry the
/// IEEE 754 bit pattern of the number (binary32 and binary64).
#[derive(Clone, Debug, PartialEq, Eq)]
pub enum PropValue {
    String(String),
    Bool(bool),
    U8(u8),
    U16(u16),
    U32(u32),
    U64(u64),
    U128(u128),
    Usize(usize),
    I8(i8),
    I16(i16),
    I32(i32),
    I64(i64),
    I128(i128),
    Isize(isize),
    F32(u32),
    F64(u64),
}

/// What a [`PropValue`] stands for: the same cases, with the string as a
/// sequence of characters.
pub enum PropModel {
    Text(Seq<char>),
    Bool(bool),
    U8(u8),
    U16(u16),
    U32(u32),
    U64(u64),
    U128(u128),
    Usize(usize),
    I8(i8),
    I16(i16),
    I32(i32),
    I64(i64),
    I128(i128),
    Isize(isize),
    F32(u32),
    F64(u64),
}

/// What a scalar is to a reader of JSON: a string, a boolean or a number. The
/// width of an integer is not part of it.
pub enum JsonScalar {
    Text(Seq<char>),
    Bool(bool),
    Integer(int),
    Float32(u32),
    Float64(u64),
}

impl PropModel {
    /// The JSON scalar that this value is sent as.
    pub open spec fn json_value(self) -> JsonScalar {
        match self {
            PropModel::Text(s) => JsonScalar::Text(s),
            PropModel::Bool(b) => JsonScalar::Bool(b),
            PropModel::F32(bits) => JsonScalar::Float32(bits),
            PropModel::F64(bits) => JsonScalar::Float64(bits),
            _ => JsonScalar::Integer(self.integer().unwrap()),
        }
    }

    /// The number held by an integer case.
    pub open spec fn integer(self) -> Option<int> {
        match self {
            PropModel::U8(n) => Some(n as int),
            PropModel::U16(n) => Some(n as int),
            PropModel::U32(n) => Some(n as int),
            PropModel::U64(n) => Some(n as int),
            PropModel::U128(n) => Some(n as int),
            PropModel::Usize(n) => Some(n as int),
            PropModel::I8(n) => Some(n as int),
            PropModel::I16(n) => Some(n as int),
            PropModel::I32(n) => Some(n as int),
            PropModel::I64(n) => Some(n as int),
            PropModel::I128(n) => Some(n as int),
            PropModel::Isize(n) => Some(n as int),
            _ => None,
        }
    }
}

impl View for PropValue {
    type V = PropModel;

    open spec fn view(&self) -> PropModel {
        match *self {
            PropValue::String(s) => PropModel::Text(s@),
            PropValue::Bool(b) => PropModel::Bool(b),
            PropValue::U8(n) => PropModel::U8(n),
            PropValue::U16(n) => PropModel::U16(n),
            PropValue::U32(n) => PropModel::U32(n),
            PropValue::U64(n) => PropModel::U64(n),
            PropValue::U128(n) => PropModel::U128(n),
            PropValue::Usize(n) => PropModel::Usize(n),
            PropValue::I8(n) => PropModel::I8(n),
            PropValue::I16(n) => PropModel::I16(n),
            PropValue::I32(n) => PropModel::I32(n),
            PropValue::I64(n) => PropModel::I64(n),
            PropValue::I128(n) => PropModel::I128(n),
            PropValue::Isize(n) => PropModel::Isize(n),
            PropValue::F32(bits) => PropModel::F32(bits),
            PropValue::F64(bits) => PropModel::F64(bits),
        }
    }
}

impl PropValue {
    /// An independent copy that stands for the same scalar.
    pub fn duplicate(&self) -> (copy: PropValue)
        ensures
            copy@ == self@,
    {
        match self {
            PropValue::String(s) => PropValue::String(s.clone()),
            PropValue::Bool(b) => PropValue::Bool(*b),
            PropValue::U8(n) => PropValue::U8(*n),
            PropValue::U16(n) => PropValue::U16(*n),
            PropValue::U32(n) => PropValue::U32(*n),
            PropValue::U64(n) => PropValue::U64(*n),
            PropValue::U128(n) => PropValue::U128(*n),
            PropValue::Usize(n) => PropValue::Usize(*n),
            PropValue::I8(n) => PropValue::I8(*n),
            PropValue::I16(n) => PropValue::I16(*n),
            PropValue::I32(n) => PropValue::I32(*n),
            PropValue::I64(n) => PropValue::I64(*n),
            PropValue::I128(n) => PropValue::I128(*n),
            PropValue::Isize(n) => PropValue::Isize(*n),
            PropValue::F32(bits) => PropValue::F32(*bits),
            PropValue::F64(bits) => PropValue::F64(*bits),
        }
    }
}

impl<'a> From<&'a str> for PropValue {
    fn from(s: &'a str) -> (value: PropValue)
        ensures
            value@ == PropModel::Text(s@),
    {
        PropValue::String(s.to_string())
    }
}

impl<'a> FromSpecImpl<&'a str> for PropValue {
    /// A string slice has no owned string in specifications; the contract is
    /// on `from` itself.
    open spec fn obeys_from_spec() -> bool {
        false
    }

    open spec fn from_spec(s: &'a str) -> PropValue {
        arbitrary()
    }
}

impl From<String> for PropValue {
    fn from(s: String) -> (value: PropValue) {
        PropValue::String(s)
    }
}

impl FromSpecImpl<String> for PropValue {
    open spec fn obeys_from_spec() -> bool {
        true
    }

    open spec fn from_spec(s: String) -> PropValue {
        PropValue::String(s)
    }
}

impl From<bool> for PropValue {
    fn from(b: bool) -> (value: PropValue) {
        PropValue::Bool(b)
    }
}

impl FromSpecImpl<bool> for PropValue {
    open spec fn obeys_from_spec() -> bool {
        true
    }

    open spec fn from_spec(b: bool) -> PropValue {
        PropValue::Bool(b)
    }
}

impl From<u8> for PropValue {
    fn from(u: u8) -> (value: PropValue) {
        PropValue::U8(u)
    }
}

impl FromSpecImpl<u8> for PropValue {
    open spec fn obeys_from_spec() -> bool {
        true
    }

    open spec fn from_spec(u: u8) -> PropValue {
        PropValue::U8(u)
    }
}

impl From<u16> for PropValue {
    fn from(u: u16) -> (value: PropValue) {
        PropValue::U16(u)
    }
}

impl FromSpecImpl<u16> for PropValue {
    open spec fn obeys_from_spec() -> bool {
        true
    }

    open spec fn from_spec(u: u16) -> PropValue {
        PropValue::U16(u)
    }
}

impl From<u32> for PropValue {
    fn from(u: u32) -> (value: PropValue) {
        PropValue::U32(u)
    }
}

impl FromSpecImpl<u32> for PropValue {
    open spec fn obeys_from_spec() -> bool {
        true
    }

    open spec fn from_spec(u: u32) -> PropValue {
        PropValue::U32(u)
    }
}

impl From<u64> for PropValue {
    fn from(u: u64) -> (value: PropValue) {
        PropValue::U64(u)
    }
}

impl FromSpecImpl<u64> for PropValue {
    open spec fn obeys_from_spec() -> bool {
        true
    }

    open spec fn from_spec(u: u64) -> PropValue {
        PropValue::U64(u)
    }
}

impl From<u128> for PropValue {
    fn from(u: u128) -> (value: PropValue) {
        PropValue::U128(u)
    }
}

impl FromSpecImpl<u128> for PropValue {
    open spec fn obeys_from_spec() -> bool {
        true
    }

    open spec fn from_spec(u: u128) -> PropValue {
        PropValue::U128(u)
    }
}

impl From<usize> for PropValue {
    fn from(u: usize) -> (value: PropValue) {
        PropValue::Usize(u)
    }
}

impl FromSpecImpl<usize> for PropValue {
    open spec fn obeys_from_spec() -> bool {
        true
    }

    open spec fn from_spec(u: usize) -> PropValue {
        PropValue::Usize(u)
    }
}

impl From<i8> for PropValue {
    fn from(i: i8) -> (value: PropValue) {
        PropValue::I8(i)
    }
}

impl FromSpecImpl<i8> for PropValue {
    open spec fn obeys_from_spec() -> bool {
        true
    }

    open spec fn from_spec(i: i8) -> PropValue {
        PropValue::I8(i)
    }
}

impl From<i16> for PropValue {
    fn from(i: i16) -> (value: PropValue) {
        PropValue::I16(i)
    }
}

impl FromSpecImpl<i16> for PropValue {
    open spec fn obeys_from_spec() -> bool {
        true
    }

    open spec fn from_spec(i: i16) -> PropValue {
        PropValue::I16(i)
    }
}

impl From<i32> for PropValue {
    fn from(i: i32) -> (value: PropValue) {
        PropValue::I32(i)
    }
}

impl FromSpecImpl<i32> for PropValue {
    open spec fn obeys_from_spec() -> bool {
        true
    }

    open spec fn from_spec(i: i32) -> PropValue {
        PropValue::I32(i)
    }
}

impl From<i64> for PropValue {
    fn from(i: i64) -> (value: PropValue) {
        PropValue::I64(i)
    }
}

impl FromSpecImpl<i64> for PropValue {
    open spec fn obeys_from_spec() -> bool {
        true
    }

    open spec fn from_spec(i: i64) -> PropValue {
        PropValue::I64(i)
    }
}

impl From<i128> for PropValue {
    fn from(i: i128) -> (value: PropValue) {
        PropValue::I128(i)
    }
}

impl FromSpecImpl<i128> for PropValue {
    open spec fn obeys_from_spec() -> bool {
        true
    }

    open spec fn from_spec(i: i128) -> PropValue {
        PropValue::I128(i)
    }
}

impl From<isize> for PropValue {
    fn from(i: isize) -> (value: PropValue) {
        PropValue::Isize(i)
    }
}

impl FromSpecImpl<isize> for PropValue {
    open spec fn obeys_from_spec() -> bool {
        true
    }

    open spec fn from_spec(i: isize) -> PropValue {
        PropValue::Isize(i)
    }
}

} // verus!
