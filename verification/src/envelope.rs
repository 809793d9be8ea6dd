//! The in-memory form of one function call.

use vstd::prelude::*;
use crate::function_types::{ParameterType, ParameterValue, ParameterValueView, ReturnType};

verus! {

/// One call: the function's name, its arguments in order, and the type the
/// caller expects back.
#[derive(Debug, PartialEq, Eq)]
pub struct CallEnvelope {
    pub function_name: String,
    pub parameters: Vec<ParameterValue>,
    pub expected_return_type: ReturnType,
}

/// The mathematical content of a [`CallEnvelope`].
pub struct CallEnvelopeView {
    pub function_name: Seq<char>,
    pub parameters: Seq<ParameterValueView>,
    pub expected_return_type: ReturnType,
}

/// The contents of a sequence of values, one by one.
pub open spec fn values_view(values: Seq<ParameterValue>) -> Seq<ParameterValueView> {
    Seq::new(values.len(), |i: int| values[i]@)
}

/// The type tags of a sequence of values, in order.
pub open spec fn types_of(values: Seq<ParameterValueView>) -> Seq<ParameterType> {
    Seq::new(values.len(), |i: int| values[i].parameter_type())
}

impl CallEnvelopeView {
    /// The types of the arguments, in order.
    pub open spec fn parameter_types(self) -> Seq<ParameterType> {
        types_of(self.parameters)
    }
}

impl View for CallEnvelope {
    type V = CallEnvelopeView;

    open spec fn view(&self) -> CallEnvelopeView {
        CallEnvelopeView {
            function_name: self.function_name@,
            parameters: values_view(self.parameters@),
            expected_return_type: self.expected_return_type,
        }
    }
}

/// Copies a list of values.
pub fn duplicate_values(values: &Vec<ParameterValue>) -> (copy: Vec<ParameterValue>)
    ensures
        values_view(copy@) == values_view(values@),
{
    let mut copy: Vec<ParameterValue> = Vec::new();
    let mut i: usize = 0;
    while i < values.len()
        invariant
            i <= values.len(),
            copy.len() == i,
            forall|j: int| 0 <= j < i ==> copy[j]@ == values[j]@,
        decreases values.len() - i,
    {
        copy.push(values[i].duplicate());
        i += 1;
    }
    assert(values_view(copy@) =~= values_view(values@));
    copy
}

impl CallEnvelope {
    /// An envelope for a call of `function_name` with `parameters`.
    pub fn new(
        function_name: String,
        parameters: Vec<ParameterValue>,
        expected_return_type: ReturnType,
    ) -> (envelope: CallEnvelope)
        ensures
            envelope@ == (CallEnvelopeView {
                function_name: function_name@,
                parameters: values_view(parameters@),
                expected_return_type,
            }),
    {
        CallEnvelope { function_name, parameters, expected_return_type }
    }

    /// The types of the arguments, in order.
    pub fn parameter_types(&self) -> (types: Vec<ParameterType>)
        ensures
            types@ == self@.parameter_types(),
    {
        let mut types: Vec<ParameterType> = Vec::new();
        let mut i: usize = 0;
        while i < self.parameters.len()
            invariant
                i <= self.parameters.len(),
                types.len() == i,
                forall|j: int| 0 <= j < i ==> types[j] == self.parameters[j]@.parameter_type(),
            decreases self.parameters.len() - i,
        {
            types.push(self.parameters[i].parameter_type());
            i += 1;
        }
        assert(types@ =~= self@.parameter_types());
        types
    }

    /// An independent copy holding the same content.
    pub fn duplicate(&self) -> (copy: CallEnvelope)
        ensures
            copy@ == self@,
    {
        CallEnvelope {
            function_name: self.function_name.clone(),
            parameters: duplicate_values(&self.parameters),
            expected_return_type: self.expected_return_type,
        }
    }
}

} // verus!
