//! Fixed-width integer types named as in `<stddef.h>` and `<stdint.h>`, and
//! the plain values and enumeration constants of a flat C file.

use vstd::prelude::*;
use vstd::string::StringExecFns;

verus! {

/// Fixed-width integer types.
#[derive(Clone, Copy, Debug, PartialEq, Eq, Structural, Hash)]
pub enum CPrimitiveType {
    Isize,
    I8,
    I16,
    I32,
    I64,
    Usize,
    U8,
    U16,
    U32,
    U64,
}

impl CPrimitiveType {
    pub open spec fn spec_is_signed(self) -> bool {
        self is Isize || self is I8 || self is I16 || self is I32 || self is I64
    }

    /// Whether the type is a signed integer.
    pub fn is_signed(self) -> (r: bool)
        ensures
            r == self.spec_is_signed(),
    {
        match self {
            CPrimitiveType::Isize
            | CPrimitiveType::I8
            | CPrimitiveType::I16
            | CPrimitiveType::I32
            | CPrimitiveType::I64 => true,
            CPrimitiveType::Usize
            | CPrimitiveType::U8
            | CPrimitiveType::U16
            | CPrimitiveType::U32
            | CPrimitiveType::U64 => false,
        }
    }

    /// The unsigned version of a signed type.
    pub fn to_unsigned(self) -> (r: CPrimitiveType)
        requires
            self.spec_is_signed(),
        ensures
            !r.spec_is_signed(),
            r == match self {
                CPrimitiveType::Isize => CPrimitiveType::Usize,
                CPrimitiveType::I8 => CPrimitiveType::U8,
                CPrimitiveType::I16 => CPrimitiveType::U16,
                CPrimitiveType::I32 => CPrimitiveType::U32,
                _ => CPrimitiveType::U64,
            },
    {
        match self {
            CPrimitiveType::Isize => CPrimitiveType::Usize,
            CPrimitiveType::I8 => CPrimitiveType::U8,
            CPrimitiveType::I16 => CPrimitiveType::U16,
            CPrimitiveType::I32 => CPrimitiveType::U32,
            _ => CPrimitiveType::U64,
        }
    }

    pub open spec fn spec_max_value(self) -> &'static str {
        match self {
            CPrimitiveType::Isize => "SSIZE_MAX",
            CPrimitiveType::I8 => "INT8_MAX",
            CPrimitiveType::I16 => "INT16_MAX",
            CPrimitiveType::I32 => "INT32_MAX",
            CPrimitiveType::I64 => "INT64_MAX",
            CPrimitiveType::Usize => "SIZE_MAX",
            CPrimitiveType::U8 => "UINT8_MAX",
            CPrimitiveType::U16 => "UINT16_MAX",
            CPrimitiveType::U32 => "UINT32_MAX",
            CPrimitiveType::U64 => "UINT64_MAX",
        }
    }

    /// The constant naming the maximum value of this type.
    pub fn max_value(self) -> (r: &'static str)
        ensures
            r == self.spec_max_value(),
    {
        match self {
            CPrimitiveType::Isize => "SSIZE_MAX",
            CPrimitiveType::I8 => "INT8_MAX",
            CPrimitiveType::I16 => "INT16_MAX",
            CPrimitiveType::I32 => "INT32_MAX",
            CPrimitiveType::I64 => "INT64_MAX",
            CPrimitiveType::Usize => "SIZE_MAX",
            CPrimitiveType::U8 => "UINT8_MAX",
            CPrimitiveType::U16 => "UINT16_MAX",
            CPrimitiveType::U32 => "UINT32_MAX",
            CPrimitiveType::U64 => "UINT64_MAX",
        }
    }

    pub open spec fn spec_to_str(self) -> &'static str {
        match self {
            CPrimitiveType::Isize => "ssize_t",
            CPrimitiveType::I8 => "int8_t",
            CPrimitiveType::I16 => "int16_t",
            CPrimitiveType::I32 => "int32_t",
            CPrimitiveType::I64 => "int64_t",
            CPrimitiveType::Usize => "size_t",
            CPrimitiveType::U8 => "uint8_t",
            CPrimitiveType::U16 => "uint16_t",
            CPrimitiveType::U32 => "uint32_t",
            CPrimitiveType::U64 => "uint64_t",
        }
    }

    /// The name of the type in C.
    pub fn to_str(self) -> (r: &'static str)
        ensures
            r == self.spec_to_str(),
    {
        match self {
            CPrimitiveType::Isize => "ssize_t",
            CPrimitiveType::I8 => "int8_t",
            CPrimitiveType::I16 => "int16_t",
            CPrimitiveType::I32 => "int32_t",
            CPrimitiveType::I64 => "int64_t",
            CPrimitiveType::Usize => "size_t",
            CPrimitiveType::U8 => "uint8_t",
            CPrimitiveType::U16 => "uint16_t",
            CPrimitiveType::U32 => "uint32_t",
            CPrimitiveType::U64 => "uint64_t",
        }
    }
}

/// A constant of a C enumeration.
pub struct CEnumConstant {
    pub name: String,
}

impl CEnumConstant {
    /// The text of the constant.
    pub fn to_text(&self) -> (r: String)
        ensures
            r@ == self.name@,
    {
        self.name.clone()
    }
}

/// Values of C variables, parameters and scalars.
#[derive(Clone, Copy, Debug, PartialEq, Eq, Structural, Hash)]
pub enum CValue {
    Scalar(i128),
    Local(usize),
}

impl CValue {
    /// The text of the value: the literal, or `_n` for local `n`.
    pub fn to_text(&self) -> (r: String)
        ensures
            r@ == match *self {
                CValue::Scalar(i) => crate::pretty::int_text(i as int),
                CValue::Local(n) => "_"@ + crate::pretty::nat_text(n as nat),
            },
    {
        match *self {
            CValue::Scalar(i) => crate::pretty::int_string(i),
            CValue::Local(n) => {
                let mut r = String::from_str("_");
                let digits = crate::pretty::nat_string(n as u128);
                r.append(digits.as_str());
                r
            },
        }
    }
}

} // verus!
