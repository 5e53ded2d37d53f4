use zluda_dnn::envelope::{BackendDescriptor, BackendDescriptorKind};
use zluda_dnn::graph::{
    backend_create_descriptor, backend_descriptor_created, backend_descriptor_evicted,
    backend_destroy_descriptor, backend_execute, backend_finalize, is_usable, BackendCall,
    CreateStep, Decision,
};
use zluda_dnn::status::{CudnnStatus, LastError, MiopenStatus};
use zluda_dnn::sticky::StickyCache;
use zluda_dnn::convert::{CudnnBackendDescriptorType, MiopenBackendDescriptorType};

fn untagged(internal: usize, kind: BackendDescriptorKind) -> BackendDescriptor {
    BackendDescriptor { magic: 0, kind, flags: 0xff, internal }
}

fn system(internal: usize) -> BackendDescriptor {
    let mut envelope = BackendDescriptor::new(0);
    envelope.adopt(internal);
    envelope
}

#[test]
fn knob_choice_gets_a_dummy_without_a_call() {
    assert_eq!(
        backend_create_descriptor(CudnnBackendDescriptorType::KnobChoice),
        CreateStep::Return {
            status: CudnnStatus::Success,
            envelope: Some(BackendDescriptor::dummy()),
        }
    );
}

#[test]
fn other_kinds_are_created_by_the_backend() {
    assert_eq!(
        backend_create_descriptor(CudnnBackendDescriptorType::Tensor),
        CreateStep::Create(MiopenBackendDescriptorType::Tensor)
    );
    assert_eq!(
        backend_create_descriptor(CudnnBackendDescriptorType::OperationGraph),
        CreateStep::Create(MiopenBackendDescriptorType::OperationGraph)
    );
}

#[test]
fn created_descriptor_is_wrapped_as_owned() {
    let mut cache = StickyCache::new();
    let mut last_error = LastError::new();
    let step = backend_descriptor_created(
        MiopenBackendDescriptorType::Tensor,
        MiopenStatus::Success,
        0x40,
        &mut cache,
        &mut last_error,
    );
    assert_eq!(
        step,
        CreateStep::Return {
            status: CudnnStatus::Success,
            envelope: Some(BackendDescriptor::new(0x40)),
        }
    );
    assert_eq!(cache.len(), 0);
    assert_eq!(last_error, LastError::new());
}

#[test]
fn failed_creation_hands_out_nothing() {
    let mut cache = StickyCache::new();
    let mut last_error = LastError::new();
    let step = backend_descriptor_created(
        MiopenBackendDescriptorType::OperationGraph,
        MiopenStatus::NotImplemented,
        0x40,
        &mut cache,
        &mut last_error,
    );
    assert_eq!(step, CreateStep::Return { status: CudnnStatus::NotSupported, envelope: None });
    assert_eq!(cache.len(), 0);
    assert_eq!(last_error.code, Some(MiopenStatus::NotImplemented));
}

#[test]
fn graph_root_is_parked_and_wrapped_as_sticky() {
    let mut cache = StickyCache::new();
    let mut last_error = LastError::new();
    let step = backend_descriptor_created(
        MiopenBackendDescriptorType::OperationGraph,
        MiopenStatus::Success,
        0x40,
        &mut cache,
        &mut last_error,
    );
    assert_eq!(
        step,
        CreateStep::Return {
            status: CudnnStatus::Success,
            envelope: Some(BackendDescriptor::sticky(0x40)),
        }
    );
    assert!(cache.contains(0x40));
    assert_eq!(cache.len(), 1);
}

#[test]
fn third_graph_root_evicts_the_first() {
    let mut cache = StickyCache::new();
    let mut last_error = LastError::new();
    for handle in [0x10, 0x20] {
        let step = backend_descriptor_created(
            MiopenBackendDescriptorType::OperationGraph,
            MiopenStatus::Success,
            handle,
            &mut cache,
            &mut last_error,
        );
        assert_eq!(
            step,
            CreateStep::Return {
                status: CudnnStatus::Success,
                envelope: Some(BackendDescriptor::sticky(handle)),
            }
        );
    }
    let step = backend_descriptor_created(
        MiopenBackendDescriptorType::OperationGraph,
        MiopenStatus::Success,
        0x30,
        &mut cache,
        &mut last_error,
    );
    assert_eq!(
        step,
        CreateStep::Evict { handle: 0x10, pending: BackendDescriptor::sticky(0x30) }
    );
    assert!(!cache.contains(0x10));
    assert!(cache.contains(0x20));
    assert!(cache.contains(0x30));
    let first = BackendDescriptor::sticky(0x10);
    assert_eq!(backend_finalize(&first, &cache), Decision::Reply(CudnnStatus::BadParam));
}

#[test]
fn eviction_that_succeeds_hands_out_the_envelope() {
    let mut last_error = LastError::new();
    let pending = BackendDescriptor::sticky(0x30);
    assert_eq!(
        backend_descriptor_evicted(pending, MiopenStatus::Success, &mut last_error),
        CreateStep::Return { status: CudnnStatus::Success, envelope: Some(pending) }
    );
    assert_eq!(last_error.code, None);
}

#[test]
fn eviction_that_fails_is_what_creation_reports() {
    let mut last_error = LastError::new();
    let pending = BackendDescriptor::sticky(0x30);
    assert_eq!(
        backend_descriptor_evicted(pending, MiopenStatus::InternalError, &mut last_error),
        CreateStep::Return { status: CudnnStatus::InternalError, envelope: None }
    );
    assert_eq!(last_error.code, Some(MiopenStatus::InternalError));
}

#[test]
fn destroying_an_owned_descriptor_calls_the_backend_once() {
    assert_eq!(
        backend_destroy_descriptor(&BackendDescriptor::new(0x77)),
        Decision::Forward(BackendCall::DestroyDescriptor(0x77))
    );
}

#[test]
fn destroying_a_system_descriptor_is_a_successful_no_op() {
    assert_eq!(backend_destroy_descriptor(&system(0x77)), Decision::Reply(CudnnStatus::Success));
}

#[test]
fn destroying_a_dummy_is_a_successful_no_op() {
    assert_eq!(
        backend_destroy_descriptor(&BackendDescriptor::dummy()),
        Decision::Reply(CudnnStatus::Success)
    );
}

#[test]
fn destroying_a_sticky_descriptor_is_left_to_the_cache() {
    assert_eq!(
        backend_destroy_descriptor(&BackendDescriptor::sticky(0x77)),
        Decision::Reply(CudnnStatus::Success)
    );
}

#[test]
fn destroying_a_foreign_value_is_a_bad_parameter() {
    for kind in [
        BackendDescriptorKind::Owned,
        BackendDescriptorKind::System,
        BackendDescriptorKind::Sticky,
        BackendDescriptorKind::Dummy,
    ] {
        assert_eq!(
            backend_destroy_descriptor(&untagged(0x77, kind)),
            Decision::Reply(CudnnStatus::BadParam)
        );
    }
}

#[test]
fn finalize_forwards_the_inner_descriptor() {
    let cache = StickyCache::new();
    assert_eq!(
        backend_finalize(&BackendDescriptor::new(0x55), &cache),
        Decision::Forward(BackendCall::Finalize(0x55))
    );
}

#[test]
fn finalize_refuses_foreign_and_dead_values() {
    let mut cache = StickyCache::new();
    assert_eq!(
        backend_finalize(&untagged(0x55, BackendDescriptorKind::Owned), &cache),
        Decision::Reply(CudnnStatus::BadParam)
    );
    assert_eq!(
        backend_finalize(&BackendDescriptor::sticky(0x55), &cache),
        Decision::Reply(CudnnStatus::BadParam)
    );
    cache.park(0x55);
    assert_eq!(
        backend_finalize(&BackendDescriptor::sticky(0x55), &cache),
        Decision::Forward(BackendCall::Finalize(0x55))
    );
}

#[test]
fn execute_forwards_both_inner_descriptors() {
    let cache = StickyCache::new();
    assert_eq!(
        backend_execute(&BackendDescriptor::new(1), &BackendDescriptor::new(2), &cache),
        Decision::Forward(BackendCall::Execute { execution_plan: 1, variant_pack: 2 })
    );
}

#[test]
fn execute_refuses_if_either_value_is_foreign() {
    let cache = StickyCache::new();
    let good = BackendDescriptor::new(1);
    let bad = untagged(2, BackendDescriptorKind::Owned);
    assert_eq!(backend_execute(&bad, &good, &cache), Decision::Reply(CudnnStatus::BadParam));
    assert_eq!(backend_execute(&good, &bad, &cache), Decision::Reply(CudnnStatus::BadParam));
    assert_eq!(backend_execute(&bad, &bad, &cache), Decision::Reply(CudnnStatus::BadParam));
}

#[test]
fn usable_means_tagged_and_alive() {
    let mut cache = StickyCache::new();
    assert!(is_usable(&BackendDescriptor::new(1), &cache));
    assert!(!is_usable(&untagged(1, BackendDescriptorKind::Owned), &cache));
    assert!(!is_usable(&BackendDescriptor::sticky(1), &cache));
    cache.park(1);
    assert!(is_usable(&BackendDescriptor::sticky(1), &cache));
    assert!(!is_usable(&untagged(1, BackendDescriptorKind::Sticky), &cache));
}
