use zluda_dnn::envelope::{
    BackendDescriptor, BackendDescriptorFlag, BackendDescriptorKind, ZLUDA_DESCRIPTOR_MAGIC,
};
use zluda_dnn::sticky::{is_descriptor_alive, StickyCache, STICKY_DESCRIPTORS_CAPACITY};

fn foreign(internal: usize) -> BackendDescriptor {
    BackendDescriptor {
        magic: 0xDEADBEEF,
        kind: BackendDescriptorKind::Owned,
        flags: 0,
        internal,
    }
}

#[test]
fn magic_has_its_value() {
    assert_eq!(ZLUDA_DESCRIPTOR_MAGIC, 0x1B950F42);
}

#[test]
fn new_envelope_is_owned_and_unmarked() {
    let envelope = BackendDescriptor::new(0x1000);
    assert_eq!(envelope.magic, ZLUDA_DESCRIPTOR_MAGIC);
    assert_eq!(envelope.kind, BackendDescriptorKind::Owned);
    assert_eq!(envelope.flags, 0);
    assert_eq!(envelope.internal, 0x1000);
}

#[test]
fn sticky_envelope_is_sticky() {
    let envelope = BackendDescriptor::sticky(0x2000);
    assert_eq!(envelope.magic, ZLUDA_DESCRIPTOR_MAGIC);
    assert_eq!(envelope.kind, BackendDescriptorKind::Sticky);
    assert_eq!(envelope.flags, 0);
    assert_eq!(envelope.internal, 0x2000);
}

#[test]
fn dummy_envelope_is_empty() {
    let envelope = BackendDescriptor::dummy();
    assert_eq!(envelope.magic, ZLUDA_DESCRIPTOR_MAGIC);
    assert_eq!(envelope.kind, BackendDescriptorKind::Dummy);
    assert_eq!(envelope.flags, 0);
    assert_eq!(envelope.internal, 0);
}

#[test]
fn wrapping_sets_the_tag_and_the_owner() {
    let envelope = BackendDescriptor::wrap(0x3000, BackendDescriptorKind::System);
    assert_eq!(
        envelope,
        BackendDescriptor {
            magic: ZLUDA_DESCRIPTOR_MAGIC,
            kind: BackendDescriptorKind::System,
            flags: 0,
            internal: 0x3000,
        }
    );
    assert_eq!(BackendDescriptor::new(5), BackendDescriptor::wrap(5, BackendDescriptorKind::Owned));
    assert_eq!(
        BackendDescriptor::sticky(5),
        BackendDescriptor::wrap(5, BackendDescriptorKind::Sticky)
    );
    assert_eq!(BackendDescriptor::dummy(), BackendDescriptor::wrap(0, BackendDescriptorKind::Dummy));
}

#[test]
fn flag_is_clear_until_set() {
    let mut envelope = BackendDescriptor::new(1);
    assert!(!envelope.get_flag(BackendDescriptorFlag::PointwiseAlpha2NotSupported));
    envelope.set_flag(BackendDescriptorFlag::PointwiseAlpha2NotSupported);
    assert!(envelope.get_flag(BackendDescriptorFlag::PointwiseAlpha2NotSupported));
    assert_eq!(envelope.flags, 0b1);
}

#[test]
fn setting_a_flag_twice_changes_nothing_more() {
    let mut envelope = BackendDescriptor::new(1);
    envelope.set_flag(BackendDescriptorFlag::PointwiseAlpha2NotSupported);
    let once = envelope;
    envelope.set_flag(BackendDescriptorFlag::PointwiseAlpha2NotSupported);
    assert_eq!(envelope, once);
}

#[test]
fn setting_a_flag_keeps_other_bits() {
    let mut envelope = BackendDescriptor::new(7);
    envelope.flags = 0b1010;
    envelope.set_flag(BackendDescriptorFlag::PointwiseAlpha2NotSupported);
    assert_eq!(envelope.flags, 0b1011);
    assert_eq!(envelope.internal, 7);
    assert_eq!(envelope.kind, BackendDescriptorKind::Owned);
    assert_eq!(envelope.magic, ZLUDA_DESCRIPTOR_MAGIC);
}

#[test]
fn flag_mask_is_the_lowest_bit() {
    assert_eq!(BackendDescriptorFlag::PointwiseAlpha2NotSupported.mask(), 0b1);
}

#[test]
fn tagged_value_resolves() {
    let envelope = BackendDescriptor::new(5);
    assert_eq!(BackendDescriptor::try_from(&envelope), Some(&envelope));
    assert_eq!(BackendDescriptor::try_retrieve(envelope), Some(envelope));
}

#[test]
fn untagged_value_does_not_resolve() {
    let raw = foreign(5);
    assert_eq!(BackendDescriptor::try_from(&raw), None);
    assert_eq!(BackendDescriptor::try_retrieve(raw), None);
}

#[test]
fn a_tag_off_by_one_bit_does_not_resolve() {
    let mut raw = BackendDescriptor::new(5);
    raw.magic = ZLUDA_DESCRIPTOR_MAGIC ^ 1;
    assert_eq!(BackendDescriptor::try_from(&raw), None);
}

#[test]
fn adopting_makes_the_envelope_system_owned() {
    let mut envelope = BackendDescriptor::new(5);
    envelope.set_flag(BackendDescriptorFlag::PointwiseAlpha2NotSupported);
    envelope.adopt(9);
    assert_eq!(envelope.kind, BackendDescriptorKind::System);
    assert_eq!(envelope.internal, 9);
    assert_eq!(envelope.flags, 0b1);
    assert_eq!(envelope.magic, ZLUDA_DESCRIPTOR_MAGIC);
}

#[test]
fn capacity_is_two() {
    assert_eq!(STICKY_DESCRIPTORS_CAPACITY, 2);
}

#[test]
fn empty_cache_holds_nothing() {
    let cache = StickyCache::new();
    assert_eq!(cache.len(), 0);
    assert!(!cache.contains(0));
    assert!(!cache.contains(1));
}

#[test]
fn cache_fills_without_eviction() {
    let mut cache = StickyCache::new();
    assert_eq!(cache.park(10), None);
    assert_eq!(cache.park(20), None);
    assert_eq!(cache.len(), 2);
    assert!(cache.contains(10));
    assert!(cache.contains(20));
}

#[test]
fn one_more_than_capacity_evicts_the_first() {
    let mut cache = StickyCache::new();
    assert_eq!(cache.park(10), None);
    assert_eq!(cache.park(20), None);
    assert_eq!(cache.park(30), Some(10));
    assert_eq!(cache.len(), 2);
    assert!(!cache.contains(10));
    assert!(cache.contains(20));
    assert!(cache.contains(30));
}

#[test]
fn eviction_goes_by_age_not_by_use() {
    let mut cache = StickyCache::new();
    cache.park(10);
    cache.park(20);
    assert!(cache.contains(10));
    assert!(cache.contains(10));
    assert_eq!(cache.park(30), Some(10));
    assert_eq!(cache.park(40), Some(20));
    assert_eq!(cache.park(50), Some(30));
    assert!(cache.contains(40));
    assert!(cache.contains(50));
    assert_eq!(cache.len(), 2);
}

#[test]
fn a_descriptor_parked_twice_survives_one_eviction() {
    let mut cache = StickyCache::new();
    cache.park(10);
    cache.park(10);
    assert_eq!(cache.park(30), Some(10));
    assert!(cache.contains(10));
}

#[test]
fn evicted_root_is_not_alive() {
    let mut cache = StickyCache::new();
    let first = BackendDescriptor::sticky(10);
    cache.park(10);
    assert!(is_descriptor_alive(&first, &cache));
    cache.park(20);
    assert!(is_descriptor_alive(&first, &cache));
    assert_eq!(cache.park(30), Some(10));
    assert!(!is_descriptor_alive(&first, &cache));
    assert!(is_descriptor_alive(&BackendDescriptor::sticky(20), &cache));
    assert!(is_descriptor_alive(&BackendDescriptor::sticky(30), &cache));
}

#[test]
fn other_kinds_are_always_alive() {
    let cache = StickyCache::new();
    assert!(is_descriptor_alive(&BackendDescriptor::new(10), &cache));
    assert!(is_descriptor_alive(&BackendDescriptor::dummy(), &cache));
    let mut system = BackendDescriptor::new(10);
    system.adopt(11);
    assert!(is_descriptor_alive(&system, &cache));
    assert!(!is_descriptor_alive(&BackendDescriptor::sticky(10), &cache));
}
