//! Creating, finalizing, executing and destroying graph descriptors.
//!
//! Each entry point looks at the envelopes it was given and decides: either
//! the status to report at once, or the one call into MIOpen to make.  The
//! result of that call is then completed by [`crate::status::call`].

use crate::envelope::{BackendDescriptor, BackendDescriptorKind};
use crate::status::{call, recorded, to_cudnn_spec, CudnnStatus, LastError, MiopenStatus};
use crate::sticky::{alive, evicted, is_descriptor_alive, parked, StickyCache};
use crate::convert::{
    backend_descriptor_type_spec, to_backend_descriptor_type, CudnnBackendDescriptorType,
    MiopenBackendDescriptorType,
};
use vstd::prelude::*;

verus! {

/// Where MIOpen writes the number of elements it found for an attribute.
#[derive(Clone, Copy, Debug, PartialEq, Eq, Structural)]
pub enum CountDestination {
    /// The place the caller named.
    Caller,
    /// A counter of the bridge's own, because the caller named none.
    Internal,
}

/// Where MIOpen writes the elements of an attribute.
#[derive(Clone, Copy, Debug, PartialEq, Eq, Structural)]
pub enum ElementsDestination {
    /// The array the caller named.
    Caller,
    /// A single descriptor slot of the bridge's own, discarded afterwards.
    ScratchDescriptor,
    /// A single pointer slot of the bridge's own, discarded afterwards.
    ScratchPointer,
    /// A descriptor array of the bridge's own with as many slots as were
    /// asked for.  What MIOpen puts there is moved into the caller's
    /// envelopes afterwards.
    Descriptors,
}

/// A call into MIOpen that the bridge asks for.
#[derive(Clone, Copy, Debug, PartialEq, Eq, Structural)]
pub enum BackendCall {
    DestroyDescriptor(usize),
    Finalize(usize),
    Execute { execution_plan: usize, variant_pack: usize },
    GetAttribute {
        descriptor: usize,
        requested_element_count: i64,
        count: CountDestination,
        elements: ElementsDestination,
    },
}

/// What an entry point decided.
#[derive(Clone, Copy, Debug, PartialEq, Eq, Structural)]
pub enum Decision {
    /// Report this status; MIOpen is not called.
    Reply(CudnnStatus),
    /// Make this call and report its result.
    Forward(BackendCall),
}

/// A step in the creation of a graph descriptor.
#[derive(Clone, Copy, Debug, PartialEq, Eq, Structural)]
pub enum CreateStep {
    /// Have MIOpen create a descriptor of this kind.
    Create(MiopenBackendDescriptorType),
    /// Have MIOpen destroy the graph root that just left the sticky cache.
    /// `pending` is the envelope to hand out once that is done.
    Evict { handle: usize, pending: BackendDescriptor },
    /// Creation is over.  On success the caller receives the envelope.
    Return { status: CudnnStatus, envelope: Option<BackendDescriptor> },
}

/// The first step: knob choices have no counterpart in MIOpen and get an
/// empty envelope at once; everything else is created by MIOpen.
pub open spec fn create_spec(descriptor_type: CudnnBackendDescriptorType) -> CreateStep {
    if descriptor_type == CudnnBackendDescriptorType::KnobChoice {
        CreateStep::Return {
            status: CudnnStatus::Success,
            envelope: Some(BackendDescriptor::wrap(0, BackendDescriptorKind::Dummy)),
        }
    } else {
        CreateStep::Create(backend_descriptor_type_spec(descriptor_type)->0)
    }
}

/// Begins the creation of a graph descriptor of a kind that the bridge
/// knows.
pub fn backend_create_descriptor(descriptor_type: CudnnBackendDescriptorType) -> (step: CreateStep)
    requires
        backend_descriptor_type_spec(descriptor_type) is Some,
    ensures
        step == create_spec(descriptor_type),
{
    let descriptor_type = to_backend_descriptor_type(descriptor_type);
    if descriptor_type == MiopenBackendDescriptorType::KnobChoice {
        return CreateStep::Return {
            status: CudnnStatus::Success,
            envelope: Some(BackendDescriptor::dummy()),
        };
    }
    CreateStep::Create(descriptor_type)
}

/// The step after MIOpen answered the request to create a descriptor.
///
/// A failure is reported as it is.  A graph root is parked in the sticky
/// cache and wrapped as sticky; if that pushed an older root out, the older
/// one is destroyed before the envelope is handed out.  Any other descriptor
/// is wrapped as owned.
pub open spec fn created_spec(
    kind: MiopenBackendDescriptorType,
    result: MiopenStatus,
    descriptor: usize,
    cache: Seq<usize>,
) -> CreateStep {
    if result != MiopenStatus::Success {
        CreateStep::Return { status: to_cudnn_spec(result), envelope: None }
    } else if kind == MiopenBackendDescriptorType::OperationGraph {
        let pending = BackendDescriptor::wrap(descriptor, BackendDescriptorKind::Sticky);
        match evicted(cache) {
            Some(handle) => CreateStep::Evict { handle, pending },
            None => CreateStep::Return { status: CudnnStatus::Success, envelope: Some(pending) },
        }
    } else {
        CreateStep::Return {
            status: CudnnStatus::Success,
            envelope: Some(BackendDescriptor::wrap(descriptor, BackendDescriptorKind::Owned)),
        }
    }
}

/// Continues the creation once MIOpen has answered.  `descriptor` is what
/// MIOpen created, if it succeeded.
pub fn backend_descriptor_created(
    kind: MiopenBackendDescriptorType,
    result: MiopenStatus,
    descriptor: usize,
    cache: &mut StickyCache,
    last_error: &mut LastError,
) -> (step: CreateStep)
    requires
        result != MiopenStatus::Unrecognized,
    ensures
        step == created_spec(kind, result, descriptor, old(cache)@),
        *final(last_error) == recorded(*old(last_error), result),
        final(cache)@ == if result == MiopenStatus::Success && kind
            == MiopenBackendDescriptorType::OperationGraph {
            parked(old(cache)@, descriptor)
        } else {
            old(cache)@
        },
{
    let status = call(last_error, result);
    if status != CudnnStatus::Success {
        return CreateStep::Return { status, envelope: None };
    }
    if kind == MiopenBackendDescriptorType::OperationGraph {
        let pending = BackendDescriptor::sticky(descriptor);
        match cache.park(descriptor) {
            Some(handle) => CreateStep::Evict { handle, pending },
            None => CreateStep::Return { status, envelope: Some(pending) },
        }
    } else {
        CreateStep::Return { status, envelope: Some(BackendDescriptor::new(descriptor)) }
    }
}

/// The last step of a creation that pushed a graph root out of the cache:
/// if MIOpen could not destroy that root, its failure is what the creation
/// reports, and no envelope is handed out.
pub open spec fn evicted_spec(pending: BackendDescriptor, result: MiopenStatus) -> CreateStep {
    if result == MiopenStatus::Success {
        CreateStep::Return { status: CudnnStatus::Success, envelope: Some(pending) }
    } else {
        CreateStep::Return { status: to_cudnn_spec(result), envelope: None }
    }
}

/// Finishes a creation once MIOpen has answered the request to destroy the
/// graph root that left the cache.
pub fn backend_descriptor_evicted(
    pending: BackendDescriptor,
    result: MiopenStatus,
    last_error: &mut LastError,
) -> (step: CreateStep)
    requires
        result != MiopenStatus::Unrecognized,
    ensures
        step == evicted_spec(pending, result),
        *final(last_error) == recorded(*old(last_error), result),
{
    let status = call(last_error, result);
    if status != CudnnStatus::Success {
        return CreateStep::Return { status, envelope: None };
    }
    CreateStep::Return { status, envelope: Some(pending) }
}

/// What destroying a value does.  Anything that is not an envelope is
/// refused.  Only a descriptor that the caller owns is destroyed with its
/// envelope; one that MIOpen owns, a parked graph root and the empty
/// descriptor are left alone.
pub open spec fn destroy_spec(raw: BackendDescriptor) -> Decision {
    if !raw.is_envelope() {
        Decision::Reply(CudnnStatus::BadParam)
    } else if raw.kind == BackendDescriptorKind::Owned {
        Decision::Forward(BackendCall::DestroyDescriptor(raw.internal))
    } else {
        Decision::Reply(CudnnStatus::Success)
    }
}

/// Decides how a descriptor is destroyed.  The envelope itself is given up
/// whenever the value was one.
pub fn backend_destroy_descriptor(raw: &BackendDescriptor) -> (decision: Decision)
    ensures
        decision == destroy_spec(*raw),
{
    match BackendDescriptor::try_from(raw) {
        Some(descriptor) => {
            match descriptor.kind {
                BackendDescriptorKind::Owned => Decision::Forward(
                    BackendCall::DestroyDescriptor(descriptor.internal),
                ),
                _ => Decision::Reply(CudnnStatus::Success),
            }
        },
        None => Decision::Reply(CudnnStatus::BadParam),
    }
}

/// Whether a value is an envelope whose descriptor may be used.
pub open spec fn usable(raw: BackendDescriptor, cache: Seq<usize>) -> bool {
    raw.is_envelope() && alive(raw, cache)
}

/// Executable form of [`usable`].  Nothing but the tag is looked at unless
/// the tag is right.
pub fn is_usable(raw: &BackendDescriptor, cache: &StickyCache) -> (ok: bool)
    ensures
        ok == usable(*raw, cache@),
{
    match BackendDescriptor::try_from(raw) {
        Some(descriptor) => is_descriptor_alive(descriptor, cache),
        None => false,
    }
}

/// Finalizing is passed on for a usable envelope and refused for anything
/// else.
pub open spec fn finalize_spec(raw: BackendDescriptor, cache: Seq<usize>) -> Decision {
    if usable(raw, cache) {
        Decision::Forward(BackendCall::Finalize(raw.internal))
    } else {
        Decision::Reply(CudnnStatus::BadParam)
    }
}

/// Decides how a descriptor is finalized.
pub fn backend_finalize(raw: &BackendDescriptor, cache: &StickyCache) -> (decision: Decision)
    ensures
        decision == finalize_spec(*raw, cache@),
{
    if !is_usable(raw, cache) {
        return Decision::Reply(CudnnStatus::BadParam);
    }
    Decision::Forward(BackendCall::Finalize(raw.internal))
}

/// Executing is passed on if both the plan and the variant pack are usable
/// envelopes, and refused otherwise.
pub open spec fn execute_spec(
    execution_plan: BackendDescriptor,
    variant_pack: BackendDescriptor,
    cache: Seq<usize>,
) -> Decision {
    if usable(execution_plan, cache) && usable(variant_pack, cache) {
        Decision::Forward(
            BackendCall::Execute {
                execution_plan: execution_plan.internal,
                variant_pack: variant_pack.internal,
            },
        )
    } else {
        Decision::Reply(CudnnStatus::BadParam)
    }
}

/// Decides how a plan is executed on a variant pack.
pub fn backend_execute(
    execution_plan: &BackendDescriptor,
    variant_pack: &BackendDescriptor,
    cache: &StickyCache,
) -> (decision: Decision)
    ensures
        decision == execute_spec(*execution_plan, *variant_pack, cache@),
{
    if !is_usable(execution_plan, cache) || !is_usable(variant_pack, cache) {
        return Decision::Reply(CudnnStatus::BadParam);
    }
    Decision::Forward(
        BackendCall::Execute {
            execution_plan: execution_plan.internal,
            variant_pack: variant_pack.internal,
        },
    )
}

/// Destroying an envelope never fails on the bridge's side.  A descriptor
/// that MIOpen owns and the empty descriptor are never destroyed; a parked
/// graph root is left to the cache; a descriptor that the caller owns is
/// destroyed by exactly the one call that the decision names.
pub proof fn lemma_destroy_by_owner(envelope: BackendDescriptor)
    requires
        envelope.is_envelope(),
    ensures
        envelope.kind != BackendDescriptorKind::Owned ==> destroy_spec(envelope) == Decision::Reply(
            CudnnStatus::Success,
        ),
        envelope.kind == BackendDescriptorKind::Owned ==> destroy_spec(envelope)
            == Decision::Forward(BackendCall::DestroyDescriptor(envelope.internal)),
{
}

/// A graph root that was pushed out of the cache is destroyed by the very
/// creation that pushed it out, before that creation hands out its envelope;
/// and whatever refers to it afterwards is refused.
pub proof fn lemma_evicted_root_is_destroyed(
    result: MiopenStatus,
    descriptor: usize,
    cache: Seq<usize>,
    stale: BackendDescriptor,
)
    requires
        result == MiopenStatus::Success,
        evicted(cache) is Some,
        stale.is_envelope(),
        stale.kind == BackendDescriptorKind::Sticky,
        stale.internal == evicted(cache)->0,
        !parked(cache, descriptor).contains(stale.internal),
    ensures
        created_spec(MiopenBackendDescriptorType::OperationGraph, result, descriptor, cache)
            == (CreateStep::Evict {
            handle: stale.internal,
            pending: BackendDescriptor::wrap(descriptor, BackendDescriptorKind::Sticky),
        }),
        finalize_spec(stale, parked(cache, descriptor)) == Decision::Reply(CudnnStatus::BadParam),
{
}

} // verus!
