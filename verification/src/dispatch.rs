//! Dispatch of an inbound call: find the function, check the argument
//! types, and only then let anything run.

use vstd::prelude::*;
use hyperlight_common::flatbuffer_wrappers::function_call::FunctionCall;
use crate::envelope::{CallEnvelope, CallEnvelopeView};
use crate::error::{result_view, CallError, CallErrorView};
use crate::function_types::{ParameterType, ReturnType};
use crate::registry::{
    verified_parameters, GuestFunctionDefinition, GuestFunctionDefinitionView,
    GuestFunctionRegister,
};
use crate::wire::{decoded_call, envelope_from_call, envelope_of, read_function_call};

verus! {

/// What is to happen with a call, decided before anything runs.
#[derive(Debug, PartialEq, Eq)]
pub enum DispatchPlan {
    /// Call the registered function at this address.
    Invoke { function_pointer: usize },
    /// No function of that name is registered: ask the fallback handler.
    Fallback,
    /// Refuse the call; nothing is to run.
    Reject { error: CallError },
}

/// The mathematical content of a [`DispatchPlan`].
pub enum DispatchPlanView {
    Invoke { function_pointer: usize },
    Fallback,
    Reject { error: CallErrorView },
}

impl View for DispatchPlan {
    type V = DispatchPlanView;

    open spec fn view(&self) -> DispatchPlanView {
        match *self {
            DispatchPlan::Invoke { function_pointer } => DispatchPlanView::Invoke {
                function_pointer,
            },
            DispatchPlan::Fallback => DispatchPlanView::Fallback,
            DispatchPlan::Reject { error } => DispatchPlanView::Reject { error: error@ },
        }
    }
}

/// The plan for `call` against the table `register`: the fallback for a
/// name without a definition; for a name with one, its address where the
/// argument types are its signature, and a refusal where they are not.
pub open spec fn planned(
    register: Map<Seq<char>, GuestFunctionDefinitionView>,
    call: CallEnvelopeView,
) -> DispatchPlanView {
    if register.contains_key(call.function_name) {
        let definition = register[call.function_name];
        match verified_parameters(definition.parameter_types, call.parameter_types()) {
            Ok(_) => DispatchPlanView::Invoke { function_pointer: definition.function_pointer },
            Err(error) => DispatchPlanView::Reject { error },
        }
    } else {
        DispatchPlanView::Fallback
    }
}

/// What a call ends in once the fallback handler has answered: the bytes it
/// produced, the failure it reported, or, where it declined, the failure
/// that names the function nobody knows.
pub open spec fn concluded(
    function_name: Seq<char>,
    answer: Result<Option<Vec<u8>>, CallError>,
) -> Result<Vec<u8>, CallErrorView> {
    match answer {
        Ok(Some(bytes)) => Ok(bytes),
        Ok(None) => Err(CallErrorView::FunctionNotFound { name: function_name }),
        Err(error) => Err(error@),
    }
}

/// Decides what is to happen with `call`. Nothing runs here.
pub fn plan_dispatch(register: &GuestFunctionRegister, call: &CallEnvelope) -> (plan: DispatchPlan)
    ensures
        plan@ == planned(register@, call@),
{
    match register.get(call.function_name.as_str()) {
        Some(definition) => {
            let received = call.parameter_types();
            match definition.verify_parameters(received.as_slice()) {
                Ok(_) => DispatchPlan::Invoke { function_pointer: definition.function_pointer },
                Err(error) => DispatchPlan::Reject { error },
            }
        },
        None => DispatchPlan::Fallback,
    }
}

/// Turns the fallback handler's answer for the function `function_name`
/// into the result of the call.
pub fn conclude_fallback(function_name: String, answer: Result<Option<Vec<u8>>, CallError>) -> (outcome:
    Result<Vec<u8>, CallError>)
    ensures
        result_view(outcome) == concluded(function_name@, answer),
{
    match answer {
        Ok(Some(bytes)) => Ok(bytes),
        Ok(None) => Err(CallError::FunctionNotFound { name: function_name }),
        Err(error) => Err(error),
    }
}

/// Whether `invoke` and `fallback` accept what a dispatch of `call` against
/// the table `register` hands them: `invoke` the address registered under
/// the call's name, where the argument types are its signature, and
/// `fallback` a call whose name has no definition. Nothing is asked of
/// either for a call that is refused.
pub open spec fn plan_is_accepted<I, F>(
    register: Map<Seq<char>, GuestFunctionDefinitionView>,
    call: &CallEnvelope,
    invoke: I,
    fallback: F,
) -> bool where
    I: Fn(usize, &CallEnvelope) -> Result<Vec<u8>, CallError>,
    F: Fn(&CallEnvelope) -> Result<Option<Vec<u8>>, CallError>,
 {
    &&& planned(register, call@) matches DispatchPlanView::Invoke { function_pointer }
        ==> call_requires(invoke, (function_pointer, call))
    &&& planned(register, call@) is Fallback ==> call_requires(fallback, (call,))
}

/// How a dispatch of `call` against the table `register` may end, given
/// what `invoke` and `fallback` do. A refused call ends in its refusal; a
/// call of a registered function ends in whatever `invoke` returns for its
/// address; any other call ends as `fallback`'s answer is concluded.
pub open spec fn dispatched<I, F>(
    register: Map<Seq<char>, GuestFunctionDefinitionView>,
    call: &CallEnvelope,
    invoke: I,
    fallback: F,
    outcome: Result<Vec<u8>, CallError>,
) -> bool where
    I: Fn(usize, &CallEnvelope) -> Result<Vec<u8>, CallError>,
    F: Fn(&CallEnvelope) -> Result<Option<Vec<u8>>, CallError>,
 {
    match planned(register, call@) {
        DispatchPlanView::Reject { error } => result_view(outcome) == Err::<Vec<u8>, _>(error),
        DispatchPlanView::Invoke { function_pointer } => call_ensures(
            invoke,
            (function_pointer, call),
            outcome,
        ),
        DispatchPlanView::Fallback => exists|answer: Result<Option<Vec<u8>>, CallError>|
            call_ensures(fallback, (call,), answer) && result_view(outcome) == concluded(
                call@.function_name,
                answer,
            ),
    }
}

/// Dispatches `call`: `invoke` runs the registered function at the address
/// it is given, `fallback` is asked about a name that has no definition.
///
/// `invoke` has to accept only the address that the plan names, and
/// `fallback` only a call that the plan sends to it. So neither can run for
/// a call that is refused, nor `invoke` with an address other than the one
/// registered under the call's name.
pub fn dispatch_envelope<I, F>(
    register: &GuestFunctionRegister,
    call: &CallEnvelope,
    invoke: I,
    fallback: F,
) -> (outcome: Result<Vec<u8>, CallError>) where
    I: Fn(usize, &CallEnvelope) -> Result<Vec<u8>, CallError>,
    F: Fn(&CallEnvelope) -> Result<Option<Vec<u8>>, CallError>,

    requires
        plan_is_accepted(register@, call, invoke, fallback),
    ensures
        dispatched(register@, call, invoke, fallback, outcome),
{
    match plan_dispatch(register, call) {
        DispatchPlan::Reject { error } => Err(error),
        DispatchPlan::Invoke { function_pointer } => invoke(function_pointer, call),
        DispatchPlan::Fallback => {
            let answer = fallback(call);
            conclude_fallback(call.function_name.clone(), answer)
        },
    }
}

/// A call of a registered function with exactly its signature ends in
/// whatever the function at the registered address returns.
pub proof fn lemma_matching_call_is_invoked<I, F>(
    register: Map<Seq<char>, GuestFunctionDefinitionView>,
    call: &CallEnvelope,
    invoke: I,
    fallback: F,
    outcome: Result<Vec<u8>, CallError>,
) where
    I: Fn(usize, &CallEnvelope) -> Result<Vec<u8>, CallError>,
    F: Fn(&CallEnvelope) -> Result<Option<Vec<u8>>, CallError>,

    requires
        register.contains_key(call@.function_name),
        register[call@.function_name].parameter_types == call@.parameter_types(),
        dispatched(register, call, invoke, fallback, outcome),
    ensures
        call_ensures(invoke, (register[call@.function_name].function_pointer, call), outcome),
{
}

/// A call of a registered function with other argument types than its
/// signature ends in a type mismatch that carries both, and would end so
/// whatever the registered function or the fallback handler did.
pub proof fn lemma_mismatch_is_refused<I, F, I2, F2>(
    register: Map<Seq<char>, GuestFunctionDefinitionView>,
    call: &CallEnvelope,
    invoke: I,
    fallback: F,
    other_invoke: I2,
    other_fallback: F2,
    outcome: Result<Vec<u8>, CallError>,
) where
    I: Fn(usize, &CallEnvelope) -> Result<Vec<u8>, CallError>,
    F: Fn(&CallEnvelope) -> Result<Option<Vec<u8>>, CallError>,
    I2: Fn(usize, &CallEnvelope) -> Result<Vec<u8>, CallError>,
    F2: Fn(&CallEnvelope) -> Result<Option<Vec<u8>>, CallError>,

    requires
        register.contains_key(call@.function_name),
        register[call@.function_name].parameter_types != call@.parameter_types(),
        dispatched(register, call, invoke, fallback, outcome),
    ensures
        result_view(outcome) == Err::<Vec<u8>, _>(
            CallErrorView::ParameterTypeMismatch {
                expected: register[call@.function_name].parameter_types,
                received: call@.parameter_types(),
            },
        ),
        dispatched(register, call, other_invoke, other_fallback, outcome),
{
}

/// A call of a name that has no definition, with a fallback handler that
/// declines whatever it is asked, ends in the failure that carries exactly
/// that name.
pub proof fn lemma_unknown_function_is_not_found<I, F>(
    register: Map<Seq<char>, GuestFunctionDefinitionView>,
    call: &CallEnvelope,
    invoke: I,
    fallback: F,
    outcome: Result<Vec<u8>, CallError>,
) where
    I: Fn(usize, &CallEnvelope) -> Result<Vec<u8>, CallError>,
    F: Fn(&CallEnvelope) -> Result<Option<Vec<u8>>, CallError>,

    requires
        !register.contains_key(call@.function_name),
        forall|asked: &CallEnvelope, answer: Result<Option<Vec<u8>>, CallError>|
            call_ensures(fallback, (asked,), answer) ==> answer == Ok::<
                Option<Vec<u8>>,
                CallError,
            >(None),
        dispatched(register, call, invoke, fallback, outcome),
    ensures
        result_view(outcome) == Err::<Vec<u8>, _>(
            CallErrorView::FunctionNotFound { name: call@.function_name },
        ),
{
}

/// Dispatches a call that arrives in the transport's form: the call is
/// read into an envelope, and the envelope dispatched.
///
/// As for [`dispatch_envelope`], `invoke` and `fallback` have to accept only
/// what the plan for this call hands them. So a function runs only at the
/// address registered under the call's name and only once the argument
/// types have been found to be its signature, and the fallback handler is
/// asked only about a name that has no definition.
pub fn guest_dispatch_function<I, F>(
    register: &GuestFunctionRegister,
    function_call: FunctionCall,
    invoke: I,
    fallback: F,
) -> (outcome: Result<Vec<u8>, CallError>) where
    I: Fn(usize, &CallEnvelope) -> Result<Vec<u8>, CallError>,
    F: Fn(&CallEnvelope) -> Result<Option<Vec<u8>>, CallError>,

    requires
        forall|call: &CallEnvelope|
            call@ == envelope_of(function_call) ==> #[trigger] plan_is_accepted(
                register@,
                call,
                invoke,
                fallback,
            ),
    ensures
        exists|call: CallEnvelope|
            call@ == envelope_of(function_call) && dispatched(
                register@,
                &call,
                invoke,
                fallback,
                outcome,
            ),
{
    let call = envelope_from_call(&function_call);
    dispatch_envelope(register, &call, invoke, fallback)
}

/// Dispatches what came of decoding a buffer: a call that was decoded is
/// dispatched, and a decode that failed ends in a decode failure that
/// carries its message.
///
/// `invoke` and `fallback` have to accept only what the plan for the
/// decoded call hands them. Where the decode failed there is no plan, so
/// nothing is looked up and neither of the two can run.
pub fn dispatch_decoded<I, F>(
    register: &GuestFunctionRegister,
    decoded: Result<FunctionCall, String>,
    invoke: I,
    fallback: F,
) -> (outcome: Result<Vec<u8>, CallError>) where
    I: Fn(usize, &CallEnvelope) -> Result<Vec<u8>, CallError>,
    F: Fn(&CallEnvelope) -> Result<Option<Vec<u8>>, CallError>,

    requires
        decoded matches Ok(function_call) ==> forall|call: &CallEnvelope|
            call@ == envelope_of(function_call) ==> #[trigger] plan_is_accepted(
                register@,
                call,
                invoke,
                fallback,
            ),
    ensures
        match decoded {
            Err(message) => result_view(outcome) == Err::<Vec<u8>, _>(
                CallErrorView::CallEnvelopeDecodeError { message: message@ },
            ),
            Ok(function_call) => exists|call: CallEnvelope|
                call@ == envelope_of(function_call) && dispatched(
                    register@,
                    &call,
                    invoke,
                    fallback,
                    outcome,
                ),
        },
{
    match decoded {
        Err(message) => Err(CallError::CallEnvelopeDecodeError { message }),
        Ok(function_call) => guest_dispatch_function(register, function_call, invoke, fallback),
    }
}

/// Dispatches a call that arrives as a size-prefixed buffer: the buffer is
/// decoded, and what came of it dispatched. A buffer that does not decode
/// ends in a decode failure.
///
/// What the buffer holds is not known before it is decoded, so `invoke`
/// and `fallback` have to accept what the plan for any call hands them:
/// `invoke` an address with a call of the name and the signature it is
/// registered under, `fallback` a call whose name has no definition.
pub fn dispatch_serialized<I, F>(
    register: &GuestFunctionRegister,
    bytes: &[u8],
    invoke: I,
    fallback: F,
) -> (outcome: Result<Vec<u8>, CallError>) where
    I: Fn(usize, &CallEnvelope) -> Result<Vec<u8>, CallError>,
    F: Fn(&CallEnvelope) -> Result<Option<Vec<u8>>, CallError>,

    requires
        forall|call: &CallEnvelope| #[trigger] plan_is_accepted(register@, call, invoke, fallback),
    ensures
        match decoded_call(bytes@) {
            None => outcome matches Err(error) && error@ is CallEnvelopeDecodeError,
            Some(function_call) => exists|call: CallEnvelope|
                call@ == envelope_of(function_call) && dispatched(
                    register@,
                    &call,
                    invoke,
                    fallback,
                    outcome,
                ),
        },
{
    dispatch_decoded(register, read_function_call(bytes), invoke, fallback)
}

/// Registers the function `function_name` at the address `function_pointer`
/// with the signature `params_type` and `return_type`. A definition already
/// registered under that name is replaced.
pub fn hl_register_function_definition(
    register: &mut GuestFunctionRegister,
    function_name: String,
    function_pointer: usize,
    params_type: &[ParameterType],
    return_type: ReturnType,
)
    ensures
        final(register)@ == old(register)@.insert(
            function_name@,
            GuestFunctionDefinitionView {
                function_name: function_name@,
                parameter_types: params_type@,
                return_type,
                function_pointer,
            },
        ),
        old(register).wf() ==> final(register).wf(),
        final(register).spec_len() == old(register).spec_len() + (if old(register)@.contains_key(
            function_name@,
        ) {
            0nat
        } else {
            1nat
        }),
{
    let parameter_types = crate::registry::copy_types(params_type);
    let definition = GuestFunctionDefinition::new(
        function_name,
        parameter_types,
        return_type,
        function_pointer,
    );
    let _ = register.register(definition);
}

/// Hands a call of a host function across the boundary: `send` receives an
/// owned copy of the call, with the same name, arguments and expected
/// return type. The value the host returns is fetched separately.
pub fn hl_call_host_function<S>(function_call: &CallEnvelope, send: S) where
    S: Fn(CallEnvelope) -> (),

    requires
        forall|sent: CallEnvelope| sent@ == function_call@ ==> call_requires(send, (sent,)),
    ensures
        exists|sent: CallEnvelope| sent@ == function_call@ && call_ensures(send, (sent,), ()),
{
    let owned = function_call.duplicate();
    send(owned)
}

} // verus!
