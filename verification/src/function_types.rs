//! Type tags and tagged values exchanged across the call boundary.
//!
//! Floating-point payloads are carried as their IEEE-754 bit patterns, so a
//! value compares and copies exactly as it was handed in.

use vstd::prelude::*;

verus! {

/// The type of one parameter of a callable function.
#[derive(Clone, Copy, Debug, PartialEq, Eq, Structural)]
pub enum ParameterType {
    Int,
    UInt,
    Long,
    ULong,
    Float,
    Double,
    String,
    Bool,
    VecBytes,
}

/// The type a function call is expected to return.
#[derive(Clone, Copy, Debug, PartialEq, Eq, Structural)]
pub enum ReturnType {
    Int,
    UInt,
    Long,
    ULong,
    Float,
    Double,
    String,
    Bool,
    Void,
    VecBytes,
}

/// One argument of a call, tagged with its runtime type.
#[derive(Debug, PartialEq, Eq)]
pub enum ParameterValue {
    Int(i32),
    UInt(u32),
    Long(i64),
    ULong(u64),
    /// The bit pattern of a 32-bit float.
    Float(u32),
    /// The bit pattern of a 64-bit float.
    Double(u64),
    String(String),
    Bool(bool),
    VecBytes(Vec<u8>),
}

/// The mathematical content of a [`ParameterValue`].
pub enum ParameterValueView {
    Int(i32),
    UInt(u32),
    Long(i64),
    ULong(u64),
    Float(u32),
    Double(u64),
    String(Seq<char>),
    Bool(bool),
    VecBytes(Seq<u8>),
}

impl ParameterValueView {
    /// The type tag of this value.
    pub open spec fn parameter_type(self) -> ParameterType {
        match self {
            ParameterValueView::Int(_) => ParameterType::Int,
            ParameterValueView::UInt(_) => ParameterType::UInt,
            ParameterValueView::Long(_) => ParameterType::Long,
            ParameterValueView::ULong(_) => ParameterType::ULong,
            ParameterValueView::Float(_) => ParameterType::Float,
            ParameterValueView::Double(_) => ParameterType::Double,
            ParameterValueView::String(_) => ParameterType::String,
            ParameterValueView::Bool(_) => ParameterType::Bool,
            ParameterValueView::VecBytes(_) => ParameterType::VecBytes,
        }
    }
}

impl View for ParameterValue {
    type V = ParameterValueView;

    open spec fn view(&self) -> ParameterValueView {
        match *self {
            ParameterValue::Int(v) => ParameterValueView::Int(v),
            ParameterValue::UInt(v) => ParameterValueView::UInt(v),
            ParameterValue::Long(v) => ParameterValueView::Long(v),
            ParameterValue::ULong(v) => ParameterValueView::ULong(v),
            ParameterValue::Float(v) => ParameterValueView::Float(v),
            ParameterValue::Double(v) => ParameterValueView::Double(v),
            ParameterValue::String(v) => ParameterValueView::String(v@),
            ParameterValue::Bool(v) => ParameterValueView::Bool(v),
            ParameterValue::VecBytes(v) => ParameterValueView::VecBytes(v@),
        }
    }
}

impl Clone for ParameterValue {
    fn clone(&self) -> (copy: ParameterValue)
        ensures
            copy@ == self@,
    {
        self.duplicate()
    }
}

impl ParameterValue {
    /// The type tag this value carries.
    pub fn parameter_type(&self) -> (tag: ParameterType)
        ensures
            tag == self@.parameter_type(),
    {
        match self {
            ParameterValue::Int(_) => ParameterType::Int,
            ParameterValue::UInt(_) => ParameterType::UInt,
            ParameterValue::Long(_) => ParameterType::Long,
            ParameterValue::ULong(_) => ParameterType::ULong,
            ParameterValue::Float(_) => ParameterType::Float,
            ParameterValue::Double(_) => ParameterType::Double,
            ParameterValue::String(_) => ParameterType::String,
            ParameterValue::Bool(_) => ParameterType::Bool,
            ParameterValue::VecBytes(_) => ParameterType::VecBytes,
        }
    }

    /// An independent copy holding the same content.
    pub fn duplicate(&self) -> (copy: ParameterValue)
        ensures
            copy@ == self@,
    {
        match self {
            ParameterValue::Int(v) => ParameterValue::Int(*v),
            ParameterValue::UInt(v) => ParameterValue::UInt(*v),
            ParameterValue::Long(v) => ParameterValue::Long(*v),
            ParameterValue::ULong(v) => ParameterValue::ULong(*v),
            ParameterValue::Float(v) => ParameterValue::Float(*v),
            ParameterValue::Double(v) => ParameterValue::Double(*v),
            ParameterValue::String(v) => ParameterValue::String(v.clone()),
            ParameterValue::Bool(v) => ParameterValue::Bool(*v),
            ParameterValue::VecBytes(v) => ParameterValue::VecBytes(copy_bytes(v)),
        }
    }
}

/// A value that came back from a call, tagged with its runtime type.
#[derive(Debug, PartialEq, Eq)]
pub enum ReturnValue {
    Int(i32),
    UInt(u32),
    Long(i64),
    ULong(u64),
    /// The bit pattern of a 32-bit float.
    Float(u32),
    /// The bit pattern of a 64-bit float.
    Double(u64),
    String(String),
    Bool(bool),
    Void,
    VecBytes(Vec<u8>),
}

/// The mathematical content of a [`ReturnValue`].
pub enum ReturnValueView {
    Int(i32),
    UInt(u32),
    Long(i64),
    ULong(u64),
    Float(u32),
    Double(u64),
    String(Seq<char>),
    Bool(bool),
    Void,
    VecBytes(Seq<u8>),
}

impl ReturnValueView {
    /// The type tag of this value.
    pub open spec fn return_type(self) -> ReturnType {
        match self {
            ReturnValueView::Int(_) => ReturnType::Int,
            ReturnValueView::UInt(_) => ReturnType::UInt,
            ReturnValueView::Long(_) => ReturnType::Long,
            ReturnValueView::ULong(_) => ReturnType::ULong,
            ReturnValueView::Float(_) => ReturnType::Float,
            ReturnValueView::Double(_) => ReturnType::Double,
            ReturnValueView::String(_) => ReturnType::String,
            ReturnValueView::Bool(_) => ReturnType::Bool,
            ReturnValueView::Void => ReturnType::Void,
            ReturnValueView::VecBytes(_) => ReturnType::VecBytes,
        }
    }
}

impl View for ReturnValue {
    type V = ReturnValueView;

    open spec fn view(&self) -> ReturnValueView {
        match *self {
            ReturnValue::Int(v) => ReturnValueView::Int(v),
            ReturnValue::UInt(v) => ReturnValueView::UInt(v),
            ReturnValue::Long(v) => ReturnValueView::Long(v),
            ReturnValue::ULong(v) => ReturnValueView::ULong(v),
            ReturnValue::Float(v) => ReturnValueView::Float(v),
            ReturnValue::Double(v) => ReturnValueView::Double(v),
            ReturnValue::String(v) => ReturnValueView::String(v@),
            ReturnValue::Bool(v) => ReturnValueView::Bool(v),
            ReturnValue::Void => ReturnValueView::Void,
            ReturnValue::VecBytes(v) => ReturnValueView::VecBytes(v@),
        }
    }
}

impl ReturnValue {
    /// The type tag this value carries.
    pub fn return_type(&self) -> (tag: ReturnType)
        ensures
            tag == self@.return_type(),
    {
        match self {
            ReturnValue::Int(_) => ReturnType::Int,
            ReturnValue::UInt(_) => ReturnType::UInt,
            ReturnValue::Long(_) => ReturnType::Long,
            ReturnValue::ULong(_) => ReturnType::ULong,
            ReturnValue::Float(_) => ReturnType::Float,
            ReturnValue::Double(_) => ReturnType::Double,
            ReturnValue::String(_) => ReturnType::String,
            ReturnValue::Bool(_) => ReturnType::Bool,
            ReturnValue::Void => ReturnType::Void,
            ReturnValue::VecBytes(_) => ReturnType::VecBytes,
        }
    }
}

/// A fresh vector holding the same bytes as `bytes`.
pub fn copy_bytes(bytes: &Vec<u8>) -> (copy: Vec<u8>)
    ensures
        copy@ == bytes@,
{
    let mut copy: Vec<u8> = Vec::new();
    let mut i: usize = 0;
    while i < bytes.len()
        invariant
            i <= bytes.len(),
            copy@ == bytes@.take(i as int),
        decreases bytes.len() - i,
    {
        copy.push(bytes[i]);
        i += 1;
    }
    copy
}

} // verus!
