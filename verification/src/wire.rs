//! Reading calls in the form the transport layer hands them over.
//!
//! The transport's own call type is opaque here. What it holds is read
//! through the functions of this module, whose contracts are taken on trust;
//! everything that decides anything works on [`CallEnvelope`].

use vstd::prelude::*;
use hyperlight_common::flatbuffer_wrappers::function_call::FunctionCall;
use hyperlight_common::flatbuffer_wrappers::function_types::ParameterValue as WireValue;
use hyperlight_common::flatbuffer_wrappers::function_types::ReturnType as WireReturnType;
use crate::envelope::{values_view, CallEnvelope, CallEnvelopeView};
use crate::function_types::{ParameterValue, ParameterValueView, ReturnType};

verus! {

/// The transport's call type, `hyperlight_common`'s `FunctionCall`.
#[verifier::external_type_specification]
#[verifier::external_body]
pub struct ExFunctionCall(FunctionCall);

/// The name in the `function_name` field of a transport call.
pub uninterp spec fn wire_function_name(call: FunctionCall) -> Seq<char>;

/// The values in the `parameters` field of a transport call, in order, or
/// nothing where the field is absent. A float stands as its bit pattern.
pub uninterp spec fn wire_parameters(call: FunctionCall) -> Option<Seq<ParameterValueView>>;

/// The tag in the `expected_return_type` field of a transport call.
pub uninterp spec fn wire_return_type(call: FunctionCall) -> ReturnType;

/// The call that `FunctionCall::try_from` reads out of a size-prefixed
/// buffer, or nothing where it rejects the buffer.
pub uninterp spec fn decoded_call(bytes: Seq<u8>) -> Option<FunctionCall>;

/// What a transport call holds, as an envelope. A call without a list of
/// parameters is a call with no parameters.
pub open spec fn envelope_of(call: FunctionCall) -> CallEnvelopeView {
    CallEnvelopeView {
        function_name: wire_function_name(call),
        parameters: match wire_parameters(call) {
            Some(values) => values,
            None => Seq::empty(),
        },
        expected_return_type: wire_return_type(call),
    }
}

/// Reads the public field `function_name` of `FunctionCall`: the result is
/// a copy of that string.
#[verifier::external_body]
fn read_function_name(call: &FunctionCall) -> (name: String)
    ensures
        name@ == wire_function_name(*call),
{
    call.function_name.clone()
}

/// Reads the public field `parameters` of `FunctionCall`: where the field
/// holds a list, the result holds the same values in the same order,
/// variant for variant, and where it is `None`, so is the result. The two
/// float variants are carried over with `to_bits`.
#[verifier::external_body]
fn read_parameters(call: &FunctionCall) -> (values: Option<Vec<ParameterValue>>)
    ensures
        match values {
            Some(list) => wire_parameters(*call) == Some(values_view(list@)),
            None => wire_parameters(*call) is None,
        },
{
    let list = call.parameters.as_ref()?;
    Some(list.iter().map(|value| match value {
        WireValue::Int(v) => ParameterValue::Int(*v),
        WireValue::UInt(v) => ParameterValue::UInt(*v),
        WireValue::Long(v) => ParameterValue::Long(*v),
        WireValue::ULong(v) => ParameterValue::ULong(*v),
        WireValue::Float(v) => ParameterValue::Float(v.to_bits()),
        WireValue::Double(v) => ParameterValue::Double(v.to_bits()),
        WireValue::String(v) => ParameterValue::String(v.clone()),
        WireValue::Bool(v) => ParameterValue::Bool(*v),
        WireValue::VecBytes(v) => ParameterValue::VecBytes(v.clone()),
    }).collect())
}

/// Reads the public field `expected_return_type` of `FunctionCall`: the
/// result is the tag of the same name.
#[verifier::external_body]
fn read_return_type(call: &FunctionCall) -> (tag: ReturnType)
    ensures
        tag == wire_return_type(*call),
{
    match call.expected_return_type {
        WireReturnType::Int => ReturnType::Int,
        WireReturnType::UInt => ReturnType::UInt,
        WireReturnType::Long => ReturnType::Long,
        WireReturnType::ULong => ReturnType::ULong,
        WireReturnType::Float => ReturnType::Float,
        WireReturnType::Double => ReturnType::Double,
        WireReturnType::String => ReturnType::String,
        WireReturnType::Bool => ReturnType::Bool,
        WireReturnType::Void => ReturnType::Void,
        WireReturnType::VecBytes => ReturnType::VecBytes,
    }
}

/// Calls `FunctionCall::try_from` on a size-prefixed buffer. That function
/// has the buffer checked by the flatbuffers verifier before it reads a
/// field, and answers with an error where the check fails or a tag is
/// unknown; the same bytes always decode to the same call. The error's text
/// is handed back, with nothing claimed of it.
#[verifier::external_body]
pub(crate) fn read_function_call(bytes: &[u8]) -> (decoded: Result<FunctionCall, String>)
    ensures
        match decoded {
            Ok(call) => decoded_call(bytes@) == Some(call),
            Err(_) => decoded_call(bytes@) is None,
        },
{
    FunctionCall::try_from(bytes).map_err(|error| format!("{:?}", error))
}

/// The envelope that holds what `call` holds.
pub fn envelope_from_call(call: &FunctionCall) -> (envelope: CallEnvelope)
    ensures
        envelope@ == envelope_of(*call),
{
    let parameters = match read_parameters(call) {
        Some(values) => values,
        None => Vec::new(),
    };
    assert(wire_parameters(*call) is None ==> values_view(parameters@) =~= Seq::empty());
    CallEnvelope::new(read_function_name(call), parameters, read_return_type(call))
}

} // verus!
