use std::cell::{Cell, RefCell};

use hyperlight_common::flatbuffer_wrappers::function_call::{FunctionCall, FunctionCallType};
use hyperlight_common::flatbuffer_wrappers::function_types::{
    ParameterValue as WireValue, ReturnType as WireReturnType,
};
use hyperlight_common::flatbuffer_wrappers::util::get_flatbuffer_result;
use sandbox_calls::dispatch::{
    conclude_fallback, dispatch_decoded, dispatch_envelope, dispatch_serialized,
    guest_dispatch_function, hl_call_host_function, hl_register_function_definition,
    plan_dispatch, DispatchPlan,
};
use sandbox_calls::envelope::{duplicate_values, CallEnvelope};
use sandbox_calls::error::{CallError, ErrorCode};
use sandbox_calls::function_types::{
    copy_bytes, ParameterType, ParameterValue, ReturnType, ReturnValue,
};
use sandbox_calls::registry::{
    copy_types, same_types, GuestFunctionDefinition, GuestFunctionRegister,
};
use sandbox_calls::wire::envelope_from_call;

const ADD: usize = 0xA000;
const GREET: usize = 0xB000;

fn register_of_two() -> GuestFunctionRegister {
    let mut register = GuestFunctionRegister::new();
    hl_register_function_definition(
        &mut register,
        "Add".to_string(),
        ADD,
        &[ParameterType::Int, ParameterType::Int],
        ReturnType::Int,
    );
    hl_register_function_definition(
        &mut register,
        "Greet".to_string(),
        GREET,
        &[ParameterType::String],
        ReturnType::String,
    );
    register
}

fn call(name: &str, parameters: Vec<ParameterValue>, expected: ReturnType) -> CallEnvelope {
    CallEnvelope::new(name.to_string(), parameters, expected)
}

fn run_function(function_pointer: usize, call: &CallEnvelope) -> Result<Vec<u8>, CallError> {
    match (function_pointer, call.parameters.as_slice()) {
        (ADD, [ParameterValue::Int(a), ParameterValue::Int(b)]) => Ok(get_flatbuffer_result(a + b)),
        (GREET, [ParameterValue::String(who)]) => {
            Ok(get_flatbuffer_result(format!("Hello {}", who).as_str()))
        }
        _ => Err(CallError::HostCallFailed { message: "bad address".to_string() }),
    }
}

fn decline(_: &CallEnvelope) -> Result<Option<Vec<u8>>, CallError> {
    Ok(None)
}

#[test]
fn a_new_register_is_empty() {
    let register = GuestFunctionRegister::new();
    assert_eq!(register.len(), 0);
    assert!(register.get("Add").is_none());
}

#[test]
fn a_registered_function_is_found_under_its_name() {
    let register = register_of_two();
    assert_eq!(register.len(), 2);
    let found = register.get("Add").unwrap();
    assert_eq!(found.function_name, "Add");
    assert_eq!(found.parameter_types, vec![ParameterType::Int, ParameterType::Int]);
    assert_eq!(found.return_type, ReturnType::Int);
    assert_eq!(found.function_pointer, ADD);
    assert_eq!(register.get("Greet").unwrap().function_pointer, GREET);
    assert!(register.get("add").is_none());
    assert!(register.get("").is_none());
}

#[test]
fn the_last_registration_under_a_name_wins() {
    let mut register = register_of_two();
    let replaced = register.register(GuestFunctionDefinition::new(
        "Add".to_string(),
        vec![ParameterType::Long],
        ReturnType::Long,
        0xC000,
    ));
    assert_eq!(
        replaced,
        Some(GuestFunctionDefinition::new(
            "Add".to_string(),
            vec![ParameterType::Int, ParameterType::Int],
            ReturnType::Int,
            ADD,
        ))
    );
    assert_eq!(register.len(), 2);
    let found = register.get("Add").unwrap();
    assert_eq!(found.parameter_types, vec![ParameterType::Long]);
    assert_eq!(found.return_type, ReturnType::Long);
    assert_eq!(found.function_pointer, 0xC000);
    assert_eq!(register.get("Greet").unwrap().function_pointer, GREET);

    let fresh = register.register(GuestFunctionDefinition::new(
        "Other".to_string(),
        vec![],
        ReturnType::Void,
        0xD000,
    ));
    assert_eq!(fresh, None);
    assert_eq!(register.len(), 3);
}

#[test]
fn parameters_are_verified_by_count_order_and_type() {
    let definition = GuestFunctionDefinition::new(
        "F".to_string(),
        vec![ParameterType::Int, ParameterType::String],
        ReturnType::Void,
        1,
    );
    assert_eq!(
        definition.verify_parameters(&[ParameterType::Int, ParameterType::String]),
        Ok(())
    );
    for received in [
        vec![],
        vec![ParameterType::Int],
        vec![ParameterType::String, ParameterType::Int],
        vec![ParameterType::Int, ParameterType::VecBytes],
        vec![ParameterType::Int, ParameterType::String, ParameterType::Bool],
    ] {
        assert_eq!(
            definition.verify_parameters(&received),
            Err(CallError::ParameterTypeMismatch {
                expected: vec![ParameterType::Int, ParameterType::String],
                received: received.clone(),
            })
        );
    }
}

#[test]
fn a_signature_may_be_longer_than_eleven_parameters() {
    let twelve = vec![ParameterType::Int; 12];
    let definition =
        GuestFunctionDefinition::new("Twelve".to_string(), twelve.clone(), ReturnType::Int, 1);
    assert_eq!(definition.verify_parameters(&twelve), Ok(()));
}

#[test]
fn lists_of_types_are_compared_and_copied() {
    assert!(same_types(&[], &[]));
    assert!(same_types(&[ParameterType::Float], &[ParameterType::Float]));
    assert!(!same_types(&[ParameterType::Float], &[ParameterType::Double]));
    assert!(!same_types(&[ParameterType::Float], &[]));
    assert_eq!(
        copy_types(&[ParameterType::UInt, ParameterType::ULong]),
        vec![ParameterType::UInt, ParameterType::ULong]
    );
    assert_eq!(copy_bytes(&vec![1, 2, 3]), vec![1, 2, 3]);
}

#[test]
fn the_plan_names_what_is_to_happen() {
    let register = register_of_two();
    assert_eq!(
        plan_dispatch(
            &register,
            &call("Add", vec![ParameterValue::Int(1), ParameterValue::Int(2)], ReturnType::Int)
        ),
        DispatchPlan::Invoke { function_pointer: ADD }
    );
    assert_eq!(
        plan_dispatch(&register, &call("Missing", vec![], ReturnType::Void)),
        DispatchPlan::Fallback
    );
    assert_eq!(
        plan_dispatch(&register, &call("Add", vec![ParameterValue::Int(1)], ReturnType::Int)),
        DispatchPlan::Reject {
            error: CallError::ParameterTypeMismatch {
                expected: vec![ParameterType::Int, ParameterType::Int],
                received: vec![ParameterType::Int],
            }
        }
    );
}

#[test]
fn a_well_typed_call_returns_what_the_function_returns() {
    let register = register_of_two();
    let outcome = dispatch_envelope(
        &register,
        &call("Add", vec![ParameterValue::Int(40), ParameterValue::Int(2)], ReturnType::Int),
        run_function,
        decline,
    );
    assert_eq!(outcome, Ok(get_flatbuffer_result(42)));

    let outcome = dispatch_envelope(
        &register,
        &call("Greet", vec![ParameterValue::String("you".to_string())], ReturnType::String),
        run_function,
        decline,
    );
    assert_eq!(outcome, Ok(get_flatbuffer_result("Hello you")));
}

#[test]
fn a_mistyped_call_is_refused_before_anything_runs() {
    let register = register_of_two();
    let invoked = Cell::new(0u32);
    let asked = Cell::new(0u32);
    let invoke = |function_pointer: usize, call: &CallEnvelope| {
        invoked.set(invoked.get() + 1);
        run_function(function_pointer, call)
    };
    let fallback = |call: &CallEnvelope| {
        asked.set(asked.get() + 1);
        decline(call)
    };
    let outcome = dispatch_envelope(
        &register,
        &call(
            "Add",
            vec![ParameterValue::Int(40), ParameterValue::Long(2)],
            ReturnType::Int,
        ),
        &invoke,
        &fallback,
    );
    assert_eq!(
        outcome,
        Err(CallError::ParameterTypeMismatch {
            expected: vec![ParameterType::Int, ParameterType::Int],
            received: vec![ParameterType::Int, ParameterType::Long],
        })
    );
    assert_eq!(invoked.get(), 0);
    assert_eq!(asked.get(), 0);

    // The same closures do run for a call that is in order.
    let outcome = dispatch_envelope(
        &register,
        &call("Add", vec![ParameterValue::Int(1), ParameterValue::Int(1)], ReturnType::Int),
        &invoke,
        &fallback,
    );
    assert_eq!(outcome, Ok(get_flatbuffer_result(2)));
    assert_eq!(invoked.get(), 1);
    assert_eq!(asked.get(), 0);
}

#[test]
fn an_unknown_function_that_the_fallback_declines_is_not_found() {
    let register = register_of_two();
    let outcome = dispatch_envelope(
        &register,
        &call("DoesNotExist", vec![ParameterValue::Bool(true)], ReturnType::Void),
        run_function,
        decline,
    );
    assert_eq!(outcome, Err(CallError::FunctionNotFound { name: "DoesNotExist".to_string() }));
    assert_eq!(outcome.unwrap_err().code(), ErrorCode::FunctionNotFound);
}

#[test]
fn an_unknown_function_that_the_fallback_resolves_returns_its_result() {
    let register = register_of_two();
    let fallback = |call: &CallEnvelope| -> Result<Option<Vec<u8>>, CallError> {
        if call.function_name == "Extension" {
            Ok(Some(vec![9, 9, 9]))
        } else {
            Ok(None)
        }
    };
    let outcome = dispatch_envelope(
        &register,
        &call("Extension", vec![], ReturnType::VecBytes),
        run_function,
        &fallback,
    );
    assert_eq!(outcome, Ok(vec![9, 9, 9]));
    let outcome = dispatch_envelope(
        &register,
        &call("Extension2", vec![], ReturnType::VecBytes),
        run_function,
        &fallback,
    );
    assert_eq!(outcome, Err(CallError::FunctionNotFound { name: "Extension2".to_string() }));
}

#[test]
fn a_fallback_that_fails_passes_its_failure_on() {
    let register = GuestFunctionRegister::new();
    let fallback = |_: &CallEnvelope| -> Result<Option<Vec<u8>>, CallError> {
        Err(CallError::CallEnvelopeDecodeError { message: "bad name".to_string() })
    };
    let outcome =
        dispatch_envelope(&register, &call("X", vec![], ReturnType::Void), run_function, fallback);
    assert_eq!(
        outcome,
        Err(CallError::CallEnvelopeDecodeError { message: "bad name".to_string() })
    );
}

#[test]
fn the_answer_of_the_fallback_is_concluded() {
    assert_eq!(conclude_fallback("F".to_string(), Ok(Some(vec![1]))), Ok(vec![1]));
    assert_eq!(
        conclude_fallback("F".to_string(), Ok(None)),
        Err(CallError::FunctionNotFound { name: "F".to_string() })
    );
    assert_eq!(
        conclude_fallback(
            "F".to_string(),
            Err(CallError::HostCallFailed { message: "m".to_string() })
        ),
        Err(CallError::HostCallFailed { message: "m".to_string() })
    );
}

#[test]
fn a_transport_call_is_read_value_for_value() {
    let function_call = FunctionCall::new(
        "PrintNineArgs".to_string(),
        Some(vec![
            WireValue::Int(-1),
            WireValue::UInt(2),
            WireValue::Long(-3),
            WireValue::ULong(4),
            WireValue::Float(1.5),
            WireValue::Double(-0.25),
            WireValue::String("seven".to_string()),
            WireValue::Bool(true),
            WireValue::VecBytes(vec![9, 9]),
        ]),
        FunctionCallType::Guest,
        WireReturnType::VecBytes,
    );
    let envelope = envelope_from_call(&function_call);
    assert_eq!(
        envelope,
        CallEnvelope::new(
            "PrintNineArgs".to_string(),
            vec![
                ParameterValue::Int(-1),
                ParameterValue::UInt(2),
                ParameterValue::Long(-3),
                ParameterValue::ULong(4),
                ParameterValue::Float(1.5f32.to_bits()),
                ParameterValue::Double((-0.25f64).to_bits()),
                ParameterValue::String("seven".to_string()),
                ParameterValue::Bool(true),
                ParameterValue::VecBytes(vec![9, 9]),
            ],
            ReturnType::VecBytes,
        )
    );
    assert_eq!(
        envelope.parameter_types(),
        vec![
            ParameterType::Int,
            ParameterType::UInt,
            ParameterType::Long,
            ParameterType::ULong,
            ParameterType::Float,
            ParameterType::Double,
            ParameterType::String,
            ParameterType::Bool,
            ParameterType::VecBytes,
        ]
    );
}

#[test]
fn a_transport_call_without_parameters_has_none() {
    let function_call =
        FunctionCall::new("Nothing".to_string(), None, FunctionCallType::Guest, WireReturnType::Void);
    let envelope = envelope_from_call(&function_call);
    assert_eq!(envelope, CallEnvelope::new("Nothing".to_string(), vec![], ReturnType::Void));
}

#[test]
fn a_transport_call_with_an_empty_list_has_no_parameters_either() {
    let function_call = FunctionCall::new(
        "Nothing".to_string(),
        Some(vec![]),
        FunctionCallType::Guest,
        WireReturnType::Void,
    );
    let envelope = envelope_from_call(&function_call);
    assert_eq!(envelope, CallEnvelope::new("Nothing".to_string(), vec![], ReturnType::Void));
    assert_eq!(envelope.parameter_types(), vec![]);
}

#[test]
fn every_return_type_of_the_transport_is_read() {
    let pairs = [
        (WireReturnType::Int, ReturnType::Int),
        (WireReturnType::UInt, ReturnType::UInt),
        (WireReturnType::Long, ReturnType::Long),
        (WireReturnType::ULong, ReturnType::ULong),
        (WireReturnType::Float, ReturnType::Float),
        (WireReturnType::Double, ReturnType::Double),
        (WireReturnType::String, ReturnType::String),
        (WireReturnType::Bool, ReturnType::Bool),
        (WireReturnType::Void, ReturnType::Void),
        (WireReturnType::VecBytes, ReturnType::VecBytes),
    ];
    for (wire, expected) in pairs {
        let function_call = FunctionCall::new("F".to_string(), None, FunctionCallType::Guest, wire);
        assert_eq!(envelope_from_call(&function_call).expected_return_type, expected);
    }
}

#[test]
fn a_transport_call_is_dispatched() {
    let register = register_of_two();
    let function_call = FunctionCall::new(
        "Add".to_string(),
        Some(vec![WireValue::Int(20), WireValue::Int(22)]),
        FunctionCallType::Guest,
        WireReturnType::Int,
    );
    assert_eq!(
        guest_dispatch_function(&register, function_call, run_function, decline),
        Ok(get_flatbuffer_result(42))
    );

    let mistyped = FunctionCall::new(
        "Add".to_string(),
        Some(vec![WireValue::Float(20.0), WireValue::Int(22)]),
        FunctionCallType::Guest,
        WireReturnType::Int,
    );
    assert_eq!(
        guest_dispatch_function(&register, mistyped, run_function, decline),
        Err(CallError::ParameterTypeMismatch {
            expected: vec![ParameterType::Int, ParameterType::Int],
            received: vec![ParameterType::Float, ParameterType::Int],
        })
    );

    let unknown =
        FunctionCall::new("Sub".to_string(), None, FunctionCallType::Guest, WireReturnType::Int);
    assert_eq!(
        guest_dispatch_function(&register, unknown, run_function, decline),
        Err(CallError::FunctionNotFound { name: "Sub".to_string() })
    );
}

#[test]
fn a_serialized_call_is_decoded_and_dispatched() {
    let register = register_of_two();
    let function_call = FunctionCall::new(
        "Greet".to_string(),
        Some(vec![WireValue::String("wire".to_string())]),
        FunctionCallType::Guest,
        WireReturnType::String,
    );
    let bytes: Vec<u8> = function_call.try_into().unwrap();
    assert_eq!(
        dispatch_serialized(&register, &bytes, run_function, decline),
        Ok(get_flatbuffer_result("Hello wire"))
    );
}

#[test]
fn a_buffer_that_does_not_decode_runs_nothing() {
    let register = register_of_two();
    let invoked = Cell::new(false);
    let asked = Cell::new(false);
    let invoke = |function_pointer: usize, call: &CallEnvelope| {
        invoked.set(true);
        run_function(function_pointer, call)
    };
    let fallback = |call: &CallEnvelope| {
        asked.set(true);
        decline(call)
    };
    for bytes in [vec![], vec![1u8, 2, 3], vec![0xFFu8; 64]] {
        let outcome = dispatch_serialized(&register, &bytes, &invoke, &fallback);
        match outcome {
            Err(error) => assert_eq!(error.code(), ErrorCode::CallEnvelopeDecodeError),
            Ok(bytes) => panic!("decoded garbage into {:?}", bytes),
        }
    }
    assert!(!invoked.get());
    assert!(!asked.get());
}

#[test]
fn a_failed_decode_ends_in_its_message_and_runs_nothing() {
    let register = register_of_two();
    let invoked = Cell::new(false);
    let asked = Cell::new(false);
    let invoke = |function_pointer: usize, call: &CallEnvelope| {
        invoked.set(true);
        run_function(function_pointer, call)
    };
    let fallback = |call: &CallEnvelope| {
        asked.set(true);
        decline(call)
    };
    assert_eq!(
        dispatch_decoded(&register, Err("bad buffer".to_string()), &invoke, &fallback),
        Err(CallError::CallEnvelopeDecodeError { message: "bad buffer".to_string() })
    );
    assert!(!invoked.get());
    assert!(!asked.get());
}

#[test]
fn a_decoded_call_is_dispatched() {
    let register = register_of_two();
    let function_call = FunctionCall::new(
        "Add".to_string(),
        Some(vec![WireValue::Int(2), WireValue::Int(3)]),
        FunctionCallType::Guest,
        WireReturnType::Int,
    );
    assert_eq!(
        dispatch_decoded(&register, Ok(function_call), run_function, decline),
        Ok(get_flatbuffer_result(5))
    );
}

#[test]
fn a_registered_function_is_not_handed_to_the_fallback() {
    let register = register_of_two();
    let asked = Cell::new(0u32);
    let fallback = |call: &CallEnvelope| {
        asked.set(asked.get() + 1);
        decline(call)
    };
    let well_typed = FunctionCall::new(
        "Add".to_string(),
        Some(vec![WireValue::Int(2), WireValue::Int(3)]),
        FunctionCallType::Guest,
        WireReturnType::Int,
    );
    assert_eq!(
        guest_dispatch_function(&register, well_typed, run_function, &fallback),
        Ok(get_flatbuffer_result(5))
    );
    let one_too_few = FunctionCall::new(
        "Add".to_string(),
        Some(vec![WireValue::Int(2)]),
        FunctionCallType::Guest,
        WireReturnType::Int,
    );
    assert_eq!(
        guest_dispatch_function(&register, one_too_few, run_function, &fallback),
        Err(CallError::ParameterTypeMismatch {
            expected: vec![ParameterType::Int, ParameterType::Int],
            received: vec![ParameterType::Int],
        })
    );
    assert_eq!(asked.get(), 0);
    let unknown =
        FunctionCall::new("Sub".to_string(), None, FunctionCallType::Guest, WireReturnType::Int);
    assert_eq!(
        guest_dispatch_function(&register, unknown, run_function, &fallback),
        Err(CallError::FunctionNotFound { name: "Sub".to_string() })
    );
    assert_eq!(asked.get(), 1);
}

#[test]
fn registering_through_the_entry_point_overwrites_too() {
    let mut register = GuestFunctionRegister::new();
    hl_register_function_definition(
        &mut register,
        "F".to_string(),
        1,
        &[ParameterType::Bool],
        ReturnType::Void,
    );
    hl_register_function_definition(&mut register, "F".to_string(), 2, &[], ReturnType::Bool);
    assert_eq!(register.len(), 1);
    assert_eq!(
        register.get("F"),
        Some(&GuestFunctionDefinition::new("F".to_string(), vec![], ReturnType::Bool, 2))
    );
}

#[test]
fn a_host_call_hands_over_an_owned_copy() {
    let sent: RefCell<Vec<CallEnvelope>> = RefCell::new(Vec::new());
    let function_call = call(
        "HostPrint",
        vec![ParameterValue::String("hi".to_string()), ParameterValue::Double(2.5f64.to_bits())],
        ReturnType::Int,
    );
    hl_call_host_function(&function_call, |envelope: CallEnvelope| {
        sent.borrow_mut().push(envelope)
    });
    let sent = sent.into_inner();
    assert_eq!(sent.len(), 1);
    assert_eq!(sent[0], function_call);
}

#[test]
fn values_and_envelopes_are_copied_whole() {
    let values = vec![
        ParameterValue::Float(0.5f32.to_bits()),
        ParameterValue::String("s".to_string()),
        ParameterValue::VecBytes(vec![1, 2]),
    ];
    assert_eq!(duplicate_values(&values), values);
    assert_eq!(values[1].clone(), ParameterValue::String("s".to_string()));
    assert_eq!(values[2].parameter_type(), ParameterType::VecBytes);
    let envelope = call("F", values, ReturnType::Float);
    assert_eq!(envelope.duplicate(), envelope);
}

#[test]
fn values_that_come_back_carry_their_type() {
    let pairs = [
        (ReturnValue::Int(1), ReturnType::Int),
        (ReturnValue::UInt(1), ReturnType::UInt),
        (ReturnValue::Long(1), ReturnType::Long),
        (ReturnValue::ULong(1), ReturnType::ULong),
        (ReturnValue::Float(1), ReturnType::Float),
        (ReturnValue::Double(1), ReturnType::Double),
        (ReturnValue::String("1".to_string()), ReturnType::String),
        (ReturnValue::Bool(true), ReturnType::Bool),
        (ReturnValue::Void, ReturnType::Void),
        (ReturnValue::VecBytes(vec![1]), ReturnType::VecBytes),
    ];
    for (value, expected) in pairs {
        assert_eq!(value.return_type(), expected);
    }
}

#[test]
fn every_failure_has_its_code() {
    let failures = [
        (CallError::FunctionNotFound { name: String::new() }, ErrorCode::FunctionNotFound),
        (
            CallError::ParameterTypeMismatch { expected: vec![], received: vec![] },
            ErrorCode::ParameterTypeMismatch,
        ),
        (
            CallError::CallEnvelopeDecodeError { message: String::new() },
            ErrorCode::CallEnvelopeDecodeError,
        ),
        (
            CallError::InvalidRegionAlignment { base: 1, length: 1 },
            ErrorCode::InvalidRegionAlignment,
        ),
        (
            CallError::ReturnTypeMismatch { expected: ReturnType::Int, received: ReturnType::Void },
            ErrorCode::ReturnTypeMismatch,
        ),
        (CallError::HostCallFailed { message: String::new() }, ErrorCode::HostCallFailed),
    ];
    for (failure, code) in failures {
        assert_eq!(failure.code(), code);
    }
}
