//! A sandbox: the guest that runs in it, the guest's memory, and the host
//! memory mapped into it.
//!
//! The guest itself is whatever the owner of the sandbox supplies: a
//! function from the memory it finds, the mapped regions and a call to the
//! memory it leaves and the call's result. Everything here holds of every
//! such function.

use vstd::prelude::*;
use crate::call_ctx::MultiUseGuestCallContext;
use crate::envelope::{values_view, CallEnvelope, CallEnvelopeView};
use crate::error::{result_view, CallError, CallErrorView};
use crate::function_types::{copy_bytes, ParameterValue, ReturnType, ReturnValue};
use crate::memory_region::{
    alignment_checked, byte_at, check_alignment, read_mapped, regions_view, MemoryRegion,
    MemoryRegionView,
};

verus! {

/// What a guest leaves behind after one call.
#[derive(Debug, PartialEq, Eq)]
pub struct GuestOutcome {
    /// The guest's memory as the call left it.
    pub memory: Vec<u8>,
    /// The value the function returned, or why it did not return one.
    pub result: Result<ReturnValue, CallError>,
}

/// The state of a sandbox that a guest can observe.
pub struct SandboxState {
    pub memory: Seq<u8>,
    pub regions: Seq<MemoryRegionView>,
}

/// What the caller gets for a call that expects `expected`: the value that
/// came back if it has that type, a type mismatch if it has another, and
/// the guest's own failure if it reported one.
pub open spec fn checked_return(
    expected: ReturnType,
    result: Result<ReturnValue, CallError>,
) -> Result<ReturnValue, CallErrorView> {
    match result {
        Ok(value) => if value@.return_type() == expected {
            Ok(value)
        } else {
            Err(CallErrorView::ReturnTypeMismatch { expected, received: value@.return_type() })
        },
        Err(error) => Err(error@),
    }
}

/// Checks the type of what came back against the type asked for.
pub fn check_return(expected: ReturnType, result: Result<ReturnValue, CallError>) -> (checked:
    Result<ReturnValue, CallError>)
    ensures
        result_view(checked) == checked_return(expected, result),
{
    match result {
        Ok(value) => {
            let received = value.return_type();
            if received == expected {
                Ok(value)
            } else {
                Err(CallError::ReturnTypeMismatch { expected, received })
            }
        },
        Err(error) => Err(error),
    }
}

/// The content of a call of `function_name` with `parameters`.
pub open spec fn call_of(
    function_name: Seq<char>,
    parameters: Seq<ParameterValue>,
    expected_return_type: ReturnType,
) -> CallEnvelopeView {
    CallEnvelopeView { function_name, parameters: values_view(parameters), expected_return_type }
}

/// Whether `outcome` is something `guest` may leave behind when it is
/// handed a call with the content `call` and finds `memory` and `regions`.
pub open spec fn guest_ran<G>(
    guest: G,
    memory: Vec<u8>,
    regions: Vec<MemoryRegion>,
    call: CallEnvelopeView,
    outcome: GuestOutcome,
) -> bool where G: Fn(&Vec<u8>, &Vec<MemoryRegion>, &CallEnvelope) -> GuestOutcome {
    exists|envelope: CallEnvelope|
        envelope@ == call && call_ensures(guest, (&memory, &regions, &envelope), outcome)
}

/// A sandbox at rest. It has one owner; opening a call context takes it,
/// and closing the context gives it back.
pub struct MultiUseSandbox<G> {
    guest: G,
    memory: Vec<u8>,
    regions: Vec<MemoryRegion>,
}

impl<G> View for MultiUseSandbox<G> {
    type V = SandboxState;

    closed spec fn view(&self) -> SandboxState {
        SandboxState { memory: self.memory@, regions: regions_view(self.regions@) }
    }
}

impl<G: Fn(&Vec<u8>, &Vec<MemoryRegion>, &CallEnvelope) -> GuestOutcome> MultiUseSandbox<G> {
    /// The guest that runs in this sandbox.
    pub closed spec fn guest(&self) -> G {
        self.guest
    }

    /// The guest's memory.
    pub closed spec fn guest_memory(&self) -> Vec<u8> {
        self.memory
    }

    /// The regions mapped into the sandbox, oldest first.
    pub closed spec fn mapped_regions(&self) -> Vec<MemoryRegion> {
        self.regions
    }

    /// The guest can be handed any call, whatever memory it finds.
    pub open spec fn wf(&self) -> bool {
        forall|memory: &Vec<u8>, regions: &Vec<MemoryRegion>, call: &CallEnvelope|
            call_requires(self.guest(), (memory, regions, call))
    }

    /// The accessors agree with the view.
    pub proof fn lemma_view(&self)
        ensures
            self@.memory == self.guest_memory()@,
            self@.regions == regions_view(self.mapped_regions()@),
    {
    }

    /// A sandbox for `guest` whose memory starts out as `memory`, with no
    /// region mapped.
    pub fn new(guest: G, memory: Vec<u8>) -> (sandbox: Self)
        requires
            forall|memory: &Vec<u8>, regions: &Vec<MemoryRegion>, call: &CallEnvelope|
                call_requires(guest, (memory, regions, call)),
        ensures
            sandbox.wf(),
            sandbox.guest() == guest,
            sandbox.guest_memory() == memory,
            sandbox@ == (SandboxState { memory: memory@, regions: Seq::empty() }),
    {
        let sandbox = MultiUseSandbox { guest, memory, regions: Vec::new() };
        assert(sandbox@.regions =~= Seq::empty());
        sandbox
    }

    /// The guest's memory as it stands.
    pub fn memory(&self) -> (memory: &Vec<u8>)
        ensures
            *memory == self.guest_memory(),
            memory@ == self@.memory,
    {
        &self.memory
    }

    /// Opens a call context over this sandbox.
    pub fn new_call_context(self) -> (context: MultiUseGuestCallContext<G>)
        requires
            self.wf(),
        ensures
            context.wf(),
            context.guest() == self.guest(),
            context.guest_memory() == self.guest_memory(),
            context.mapped_regions() == self.mapped_regions(),
            context@ == self@.opened(),
    {
        MultiUseGuestCallContext::start(self)
    }

    /// Calls the guest function `func_name` once, outside any context. The
    /// guest runs against the memory of the sandbox at rest, and what it
    /// did to that memory is discarded: the next call finds the sandbox as
    /// this one found it.
    pub fn call_guest_function_by_name(
        &mut self,
        func_name: &str,
        return_type: ReturnType,
        args: Vec<ParameterValue>,
    ) -> (result: Result<ReturnValue, CallError>)
        requires
            old(self).wf(),
        ensures
            *final(self) == *old(self),
            exists|outcome: GuestOutcome|
                guest_ran(
                    old(self).guest(),
                    old(self).guest_memory(),
                    old(self).mapped_regions(),
                    call_of(func_name@, args@, return_type),
                    outcome,
                ) && result_view(result) == checked_return(return_type, outcome.result),
    {
        let call = CallEnvelope::new(func_name.to_owned(), args, return_type);
        assert(call_requires(self.guest(), (&self.memory, &self.regions, &call)));
        let outcome = (self.guest)(&self.memory, &self.regions, &call);
        assert(guest_ran(
            self.guest(),
            self.guest_memory(),
            self.mapped_regions(),
            call_of(func_name@, args@, return_type),
            outcome,
        ));
        check_return(return_type, outcome.result)
    }

    /// Calls the guest function `func_name` and keeps what the call did to
    /// the guest's memory.
    pub(crate) fn call_guest_function_by_name_no_reset(
        &mut self,
        func_name: &str,
        return_type: ReturnType,
        args: Vec<ParameterValue>,
    ) -> (result: Result<ReturnValue, CallError>)
        requires
            old(self).wf(),
        ensures
            final(self).wf(),
            final(self).guest() == old(self).guest(),
            final(self).mapped_regions() == old(self).mapped_regions(),
            final(self)@.regions == old(self)@.regions,
            exists|outcome: GuestOutcome|
                guest_ran(
                    old(self).guest(),
                    old(self).guest_memory(),
                    old(self).mapped_regions(),
                    call_of(func_name@, args@, return_type),
                    outcome,
                ) && final(self).guest_memory() == outcome.memory && final(self)@.memory
                    == outcome.memory@ && result_view(result) == checked_return(
                    return_type,
                    outcome.result,
                ),
    {
        let call = CallEnvelope::new(func_name.to_owned(), args, return_type);
        assert(call_requires(self.guest(), (&self.memory, &self.regions, &call)));
        let outcome = (self.guest)(&self.memory, &self.regions, &call);
        assert(guest_ran(
            self.guest(),
            self.guest_memory(),
            self.mapped_regions(),
            call_of(func_name@, args@, return_type),
            outcome,
        ));
        let GuestOutcome { memory, result } = outcome;
        self.memory = memory;
        assert(self.guest() == old(self).guest());
        check_return(return_type, result)
    }

    /// A copy of the guest's memory as it stands.
    pub(crate) fn snapshot(&self) -> (memory: Vec<u8>)
        ensures
            memory@ == self@.memory,
    {
        copy_bytes(&self.memory)
    }

    /// The number of regions mapped.
    pub(crate) fn region_count(&self) -> (count: usize)
        ensures
            count == self@.regions.len(),
    {
        self.regions.len()
    }

    /// Puts the guest's memory back to `memory` and unmaps all but the
    /// first `regions` regions.
    pub(crate) fn restore_state(&mut self, memory: Vec<u8>, regions: usize)
        requires
            old(self).wf(),
            regions <= old(self)@.regions.len(),
        ensures
            final(self).wf(),
            final(self).guest() == old(self).guest(),
            final(self)@ == (SandboxState {
                memory: memory@,
                regions: old(self)@.regions.take(regions as int),
            }),
    {
        let ghost before = self.regions@;
        self.memory = memory;
        self.regions.truncate(regions);
        assert(regions_view(self.regions@) =~= regions_view(before).take(regions as int));
        assert(self.guest() == old(self).guest());
    }

    /// Maps `rgn` if its base and its length are whole numbers of pages.
    pub(crate) fn map_region(&mut self, rgn: &MemoryRegion) -> (outcome: Result<(), CallError>)
        requires
            old(self).wf(),
        ensures
            final(self).wf(),
            final(self).guest() == old(self).guest(),
            final(self).guest_memory() == old(self).guest_memory(),
            result_view(outcome) == alignment_checked(
                rgn@.guest_base,
                rgn@.host_memory.len() as u64,
            ),
            outcome is Ok ==> final(self)@ == (SandboxState {
                memory: old(self)@.memory,
                regions: old(self)@.regions.push(rgn@),
            }),
            outcome is Err ==> *final(self) == *old(self),
    {
        let ghost before = regions_view(self.regions@);
        match check_alignment(rgn.guest_base, rgn.host_memory.len() as u64) {
            Ok(()) => {
                self.regions.push(rgn.duplicate());
                assert(regions_view(self.regions@) =~= before.push(rgn@));
                assert(self.guest() == old(self).guest());
                Ok(())
            },
            Err(error) => Err(error),
        }
    }

    /// Reads the byte the guest finds at `address` in the mapped regions.
    pub fn read_mapped(&self, address: u64) -> (byte: Option<u8>)
        ensures
            byte == byte_at(self@.regions, address),
    {
        read_mapped(&self.regions, address)
    }
}

impl SandboxState {
    /// The state of a context that has just been opened over a sandbox in
    /// this state.
    pub open spec fn opened(self) -> crate::call_ctx::ContextState {
        crate::call_ctx::ContextState { checkpoint: self, current: self }
    }
}

} // verus!
