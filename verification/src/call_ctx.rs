//! A call context: a batch of calls against one sandbox, each of which
//! finds what the one before it left, and an end that either discards or
//! keeps what the batch did.

use vstd::prelude::*;
use crate::envelope::CallEnvelope;
use crate::error::{result_view, CallError, CallErrorView};
use crate::function_types::{ParameterValue, ReturnType, ReturnValue};
use crate::memory_region::{
    alignment_checked, build_file_image, byte_at, file_image, mapped_length, regions_view,
    MemoryRegion, MemoryRegionType, MemoryRegionView, RegionBacking, PAGE_SIZE,
};
use crate::sandbox::{
    call_of, checked_return, guest_ran, GuestOutcome, MultiUseSandbox, SandboxState,
};

verus! {

/// The state of an open context: what the sandbox was when the context was
/// opened, and what it is now.
pub struct ContextState {
    pub checkpoint: SandboxState,
    pub current: SandboxState,
}

/// Something that happened in a context.
pub enum ContextEvent {
    /// A call ran and left the guest's memory as `memory`.
    Called { memory: Seq<u8> },
    /// A region was mapped.
    Mapped { region: MemoryRegionView },
}

impl ContextState {
    /// The state after a call that left the guest's memory as `memory`.
    pub open spec fn after_call(self, memory: Seq<u8>) -> ContextState {
        ContextState {
            checkpoint: self.checkpoint,
            current: SandboxState { memory, regions: self.current.regions },
        }
    }

    /// The state after `region` has been mapped.
    pub open spec fn after_map(self, region: MemoryRegionView) -> ContextState {
        ContextState {
            checkpoint: self.checkpoint,
            current: SandboxState {
                memory: self.current.memory,
                regions: self.current.regions.push(region),
            },
        }
    }

    /// The state after `event`.
    pub open spec fn after(self, event: ContextEvent) -> ContextState {
        match event {
            ContextEvent::Called { memory } => self.after_call(memory),
            ContextEvent::Mapped { region } => self.after_map(region),
        }
    }

    /// The state after `events`, in order.
    pub open spec fn after_all(self, events: Seq<ContextEvent>) -> ContextState
        decreases events.len(),
    {
        if events.len() == 0 {
            self
        } else {
            self.after_all(events.drop_last()).after(events.last())
        }
    }

    /// The sandbox that finishing the context gives back: the one the
    /// context was opened over.
    pub open spec fn restored(self) -> SandboxState {
        self.checkpoint
    }

    /// The sandbox that finishing the context without a reset gives back:
    /// the one the context has made of it.
    pub open spec fn kept(self) -> SandboxState {
        self.current
    }
}

/// What a context was opened over stays its checkpoint, whatever happens
/// in the context.
pub proof fn lemma_checkpoint_is_kept(state: ContextState, events: Seq<ContextEvent>)
    ensures
        state.after_all(events).checkpoint == state.checkpoint,
    decreases events.len(),
{
    if events.len() > 0 {
        lemma_checkpoint_is_kept(state, events.drop_last());
    }
}

/// Within one context a call finds the guest's memory as the call before
/// it left it: after any events, then a call that leaves `memory`, then any
/// number of mappings, the guest's memory is `memory`.
pub proof fn lemma_call_sees_previous_call(
    state: ContextState,
    earlier: Seq<ContextEvent>,
    memory: Seq<u8>,
    mappings: Seq<ContextEvent>,
)
    requires
        forall|i: int| 0 <= i < mappings.len() ==> mappings[i] is Mapped,
    ensures
        state.after_all(earlier.push(ContextEvent::Called { memory }) + mappings).current.memory
            == memory,
    decreases mappings.len(),
{
    let called = earlier.push(ContextEvent::Called { memory });
    let events = called + mappings;
    if mappings.len() == 0 {
        assert(events =~= called);
        assert(called.drop_last() =~= earlier);
    } else {
        assert(events.drop_last() =~= called + mappings.drop_last());
        assert(events.last() == mappings.last());
        lemma_call_sees_previous_call(state, earlier, memory, mappings.drop_last());
    }
}

/// Finishing a context gives back the sandbox it was opened over, whatever
/// the calls and mappings in between did, and a context opened next starts
/// from that sandbox again.
pub proof fn lemma_finish_restores(sandbox: SandboxState, events: Seq<ContextEvent>)
    ensures
        sandbox.opened().after_all(events).restored() == sandbox,
        sandbox.opened().after_all(events).restored().opened().current == sandbox,
{
    lemma_checkpoint_is_kept(sandbox.opened(), events);
}

/// Finishing a context without a reset gives back the sandbox as the
/// context left it, and a context opened next starts from there and has it
/// for its checkpoint.
pub proof fn lemma_finish_no_reset_keeps(sandbox: SandboxState, events: Seq<ContextEvent>)
    ensures
        sandbox.opened().after_all(events).kept() == sandbox.opened().after_all(events).current,
        sandbox.opened().after_all(events).kept().opened().current == sandbox.opened().after_all(
            events,
        ).current,
        sandbox.opened().after_all(events).kept().opened().checkpoint == sandbox.opened().after_all(
            events,
        ).current,
{
}

/// An open call context. It owns its sandbox: while the context exists,
/// nothing else can reach the sandbox, and only finishing the context
/// gives the sandbox back.
///
/// A context that is dropped without being finished takes its sandbox with
/// it. Nothing is restored on the way: the sandbox and everything mapped
/// into it are released, and there is no handle left to recover.
pub struct MultiUseGuestCallContext<G> {
    sbox: MultiUseSandbox<G>,
    checkpoint: Vec<u8>,
    checkpoint_regions: usize,
}

impl<G> View for MultiUseGuestCallContext<G> {
    type V = ContextState;

    closed spec fn view(&self) -> ContextState {
        ContextState {
            checkpoint: SandboxState {
                memory: self.checkpoint@,
                regions: self.sbox@.regions.take(self.checkpoint_regions as int),
            },
            current: self.sbox@,
        }
    }
}

impl<G: Fn(&Vec<u8>, &Vec<MemoryRegion>, &CallEnvelope) -> GuestOutcome> MultiUseGuestCallContext<
    G,
> {
    /// The guest that runs in the sandbox of this context.
    pub closed spec fn guest(&self) -> G {
        self.sbox.guest()
    }

    /// The guest's memory as it stands.
    pub closed spec fn guest_memory(&self) -> Vec<u8> {
        self.sbox.guest_memory()
    }

    /// The regions mapped into the sandbox, oldest first.
    pub closed spec fn mapped_regions(&self) -> Vec<MemoryRegion> {
        self.sbox.mapped_regions()
    }

    /// The sandbox is well-formed, and the regions of the checkpoint are
    /// among those mapped now.
    pub closed spec fn wf(&self) -> bool {
        self.sbox.wf() && self.checkpoint_regions <= self.sbox@.regions.len()
    }

    /// The accessors agree with the view.
    pub proof fn lemma_view(&self)
        ensures
            self@.current.memory == self.guest_memory()@,
            self@.current.regions == regions_view(self.mapped_regions()@),
    {
        self.sbox.lemma_view();
    }

    /// Takes ownership of `sbox` and opens a context over it. The state of
    /// the sandbox at this moment is the checkpoint.
    pub fn start(sbox: MultiUseSandbox<G>) -> (context: Self)
        requires
            sbox.wf(),
        ensures
            context.wf(),
            context.guest() == sbox.guest(),
            context.guest_memory() == sbox.guest_memory(),
            context.mapped_regions() == sbox.mapped_regions(),
            context@ == sbox@.opened(),
    {
        let checkpoint = sbox.snapshot();
        let checkpoint_regions = sbox.region_count();
        let context = MultiUseGuestCallContext { sbox, checkpoint, checkpoint_regions };
        assert(context@.checkpoint.regions =~= context@.current.regions);
        context
    }

    /// Closes the context and gives the sandbox back as it was when the
    /// context was opened: the guest's memory is that of the checkpoint,
    /// and the regions mapped since then are gone.
    pub fn finish(self) -> (restored: Result<MultiUseSandbox<G>, CallError>)
        requires
            self.wf(),
        ensures
            restored matches Ok(sbox) && sbox.wf() && sbox.guest() == self.guest() && sbox@
                == self@.restored(),
    {
        let MultiUseGuestCallContext { sbox, checkpoint, checkpoint_regions } = self;
        let mut sbox = sbox;
        sbox.restore_state(checkpoint, checkpoint_regions);
        Ok(sbox)
    }

    /// Closes the context and gives the sandbox back as the calls left it:
    /// what they did to the guest's memory is what the sandbox starts from
    /// next, and the regions mapped stay mapped.
    pub fn finish_no_reset(self) -> (kept: MultiUseSandbox<G>)
        requires
            self.wf(),
        ensures
            kept.wf(),
            kept.guest() == self.guest(),
            kept.guest_memory() == self.guest_memory(),
            kept.mapped_regions() == self.mapped_regions(),
            kept@ == self@.kept(),
    {
        self.sbox
    }

    /// Maps `rgn` into the sandbox if its base and its length are whole
    /// numbers of pages, and refuses it otherwise. What the region is said
    /// to be for plays no part.
    pub fn map_region(&mut self, rgn: &MemoryRegion) -> (outcome: Result<(), CallError>)
        requires
            old(self).wf(),
        ensures
            final(self).wf(),
            final(self).guest() == old(self).guest(),
            final(self).guest_memory() == old(self).guest_memory(),
            result_view(outcome) == alignment_checked(
                rgn@.guest_base,
                rgn@.host_memory.len() as u64,
            ),
            outcome is Ok ==> final(self)@ == old(self)@.after_map(rgn@),
            outcome is Err ==> final(self)@ == old(self)@ && final(self).mapped_regions() == old(
                self,
            ).mapped_regions(),
    {
        let ghost before = self.sbox@.regions;
        let outcome = self.sbox.map_region(rgn);
        proof {
            if outcome is Ok {
                assert(before.push(rgn@).take(self.checkpoint_regions as int) =~= before.take(
                    self.checkpoint_regions as int,
                ));
            }
        }
        outcome
    }

    /// Maps a file with the contents `contents` copy-on-write at
    /// `guest_base` and returns the length of the mapping: the least whole
    /// number of pages that holds the file. The guest sees the file's bytes
    /// followed by zeroes; `contents` itself is never written to. A base
    /// that is not a whole number of pages is refused.
    pub fn map_file_cow(&mut self, contents: &[u8], guest_base: u64) -> (outcome: Result<
        u64,
        CallError,
    >)
        requires
            old(self).wf(),
            contents@.len() + PAGE_SIZE <= usize::MAX,
        ensures
            final(self).wf(),
            final(self).guest() == old(self).guest(),
            final(self).guest_memory() == old(self).guest_memory(),
            result_view(outcome) == (match alignment_checked(
                guest_base,
                mapped_length(contents@.len()) as u64,
            ) {
                Ok(_) => Ok(mapped_length(contents@.len()) as u64),
                Err(error) => Err(error),
            }),
            outcome is Ok ==> final(self)@ == old(self)@.after_map(
                MemoryRegionView {
                    guest_base,
                    host_memory: file_image(contents@),
                    region_type: MemoryRegionType::Heap,
                    backing: RegionBacking::FileCopyOnWrite,
                },
            ),
            outcome is Err ==> final(self)@ == old(self)@ && final(self).mapped_regions() == old(
                self,
            ).mapped_regions(),
    {
        let image = build_file_image(contents);
        let length = image.len() as u64;
        let region = MemoryRegion::new(
            guest_base,
            image,
            MemoryRegionType::Heap,
            RegionBacking::FileCopyOnWrite,
        );
        match self.map_region(&region) {
            Ok(()) => Ok(length),
            Err(error) => Err(error),
        }
    }

    /// Reads the byte the guest finds at `address` in the mapped regions.
    pub fn read_mapped(&self, address: u64) -> (byte: Option<u8>)
        ensures
            byte == byte_at(self@.current.regions, address),
    {
        self.sbox.read_mapped(address)
    }

    /// The guest's memory as it stands.
    pub fn memory(&self) -> (memory: &Vec<u8>)
        ensures
            *memory == self.guest_memory(),
            memory@ == self@.current.memory,
    {
        self.sbox.memory()
    }

    /// Calls the guest function `func_name` with `args` and expects a value
    /// of the type `return_type` back. The guest runs against the memory
    /// that the call before this one left, and what it leaves is what the
    /// next call finds.
    pub fn call(&mut self, func_name: &str, return_type: ReturnType, args: Vec<ParameterValue>) -> (result:
        Result<ReturnValue, CallError>)
        requires
            old(self).wf(),
        ensures
            final(self).wf(),
            final(self).guest() == old(self).guest(),
            final(self).mapped_regions() == old(self).mapped_regions(),
            exists|outcome: GuestOutcome|
                guest_ran(
                    old(self).guest(),
                    old(self).guest_memory(),
                    old(self).mapped_regions(),
                    call_of(func_name@, args@, return_type),
                    outcome,
                ) && final(self).guest_memory() == outcome.memory && final(self)@ == old(
                    self,
                )@.after_call(outcome.memory@) && result_view(result) == checked_return(
                    return_type,
                    outcome.result,
                ),
    {
        let ghost sandbox = self.sbox;
        let result = self.sbox.call_guest_function_by_name_no_reset(func_name, return_type, args);
        proof {
            let outcome = choose|outcome: GuestOutcome|
                guest_ran(
                    sandbox.guest(),
                    sandbox.guest_memory(),
                    sandbox.mapped_regions(),
                    call_of(func_name@, args@, return_type),
                    outcome,
                ) && self.sbox.guest_memory() == outcome.memory && self.sbox@.memory
                    == outcome.memory@ && result_view(result) == checked_return(
                    return_type,
                    outcome.result,
                );
            assert(self@ == old(self)@.after_call(outcome.memory@));
            assert(guest_ran(
                old(self).guest(),
                old(self).guest_memory(),
                old(self).mapped_regions(),
                call_of(func_name@, args@, return_type),
                outcome,
            ) && self.guest_memory() == outcome.memory && self@ == old(self)@.after_call(
                outcome.memory@,
            ) && result_view(result) == checked_return(return_type, outcome.result));
        }
        result
    }
}

} // verus!
