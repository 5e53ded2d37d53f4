//! The tagged envelope that every graph descriptor travels in.
//!
//! A caller of the graph interface only ever holds envelopes.  The envelope
//! says who owns the MIOpen descriptor inside it, carries the capabilities
//! derived for it, and starts with a tag by which the bridge tells its own
//! envelopes from anything else a caller may hand in.

use vstd::prelude::*;

verus! {

/// The tag at the start of every envelope.
pub const ZLUDA_DESCRIPTOR_MAGIC: u32 = 0x1B950F42;

/// Who owns the descriptor inside an envelope.
#[derive(Clone, Copy, Debug, PartialEq, Eq, Structural)]
pub enum BackendDescriptorKind {
    /// Created on behalf of the caller; destroying the envelope destroys it.
    Owned,
    /// Handed out by MIOpen as part of another object, which owns it.
    System,
    /// A graph root that must outlive its envelope; the sticky cache decides
    /// when it is destroyed.
    Sticky,
    /// Stands for a descriptor kind that MIOpen does not have.
    Dummy,
}

/// A capability derived for a descriptor.
#[derive(Clone, Copy, Debug, PartialEq, Eq, Structural)]
pub enum BackendDescriptorFlag {
    /// The second scaling parameter of a pointwise operation cannot be set.
    PointwiseAlpha2NotSupported,
}

impl BackendDescriptorFlag {
    /// The bit that records this capability.
    pub open spec fn mask_spec(self) -> u8 {
        1
    }

    /// The bit that records this capability.
    #[verifier::when_used_as_spec(mask_spec)]
    pub fn mask(self) -> (bit: u8)
        ensures
            bit == self.mask_spec(),
    {
        1
    }
}

/// An envelope, or whatever else was found where a caller claimed one to be.
#[derive(Clone, Copy, Debug, PartialEq, Eq, Structural)]
pub struct BackendDescriptor {
    pub magic: u32,
    pub kind: BackendDescriptorKind,
    pub flags: u8,
    /// The MIOpen descriptor inside; null in a dummy.
    pub internal: usize,
}

impl BackendDescriptor {
    /// Whether this value carries the tag, and so is an envelope at all.
    pub open spec fn is_envelope(self) -> bool {
        self.magic == ZLUDA_DESCRIPTOR_MAGIC
    }

    /// Whether the capability is recorded in the flags.
    pub open spec fn has_flag(self, flag: BackendDescriptorFlag) -> bool {
        self.flags & flag.mask() == flag.mask()
    }

    /// The envelope made of a descriptor, a kind and no capabilities.
    pub open spec fn wrap_spec(internal: usize, kind: BackendDescriptorKind) -> BackendDescriptor {
        BackendDescriptor { magic: ZLUDA_DESCRIPTOR_MAGIC, kind, flags: 0, internal }
    }

    /// Wraps a descriptor: the envelope carries the tag, says who owns the
    /// descriptor, and has no capability recorded.
    #[verifier::when_used_as_spec(wrap_spec)]
    pub fn wrap(internal: usize, kind: BackendDescriptorKind) -> (envelope: BackendDescriptor)
        ensures
            envelope == Self::wrap_spec(internal, kind),
            envelope.is_envelope(),
    {
        BackendDescriptor { magic: ZLUDA_DESCRIPTOR_MAGIC, kind, flags: 0, internal }
    }

    /// This envelope with the capability recorded.
    pub open spec fn with_flag(self, flag: BackendDescriptorFlag) -> BackendDescriptor {
        BackendDescriptor { flags: self.flags | flag.mask(), ..self }
    }

    /// Wraps a descriptor created on behalf of the caller.
    pub fn new(internal: usize) -> (envelope: BackendDescriptor)
        ensures
            envelope == Self::wrap(internal, BackendDescriptorKind::Owned),
    {
        Self::wrap(internal, BackendDescriptorKind::Owned)
    }

    /// Wraps a graph root.
    pub fn sticky(internal: usize) -> (envelope: BackendDescriptor)
        ensures
            envelope == Self::wrap(internal, BackendDescriptorKind::Sticky),
    {
        Self::wrap(internal, BackendDescriptorKind::Sticky)
    }

    /// The envelope with nothing inside.
    pub fn dummy() -> (envelope: BackendDescriptor)
        ensures
            envelope == Self::wrap(0, BackendDescriptorKind::Dummy),
    {
        Self::wrap(0, BackendDescriptorKind::Dummy)
    }

    /// Records a capability.  Nothing else changes, and a capability once
    /// recorded stays.
    pub fn set_flag(&mut self, flag: BackendDescriptorFlag)
        ensures
            *final(self) == old(self).with_flag(flag),
            final(self).has_flag(flag),
    {
        let bit = flag.mask();
        let before = self.flags;
        assert((before | bit) & bit == bit) by (bit_vector);
        self.flags = before | bit;
    }

    /// Whether a capability is recorded.
    pub fn get_flag(&self, flag: BackendDescriptorFlag) -> (set: bool)
        ensures
            set == self.has_flag(flag),
    {
        let bit = flag.mask();
        self.flags & bit == bit
    }

    /// Hands the value back if it is an envelope.  Only the tag is looked
    /// at.
    pub fn try_from(raw: &BackendDescriptor) -> (envelope: Option<&BackendDescriptor>)
        ensures
            raw.is_envelope() ==> envelope == Some(raw),
            !raw.is_envelope() ==> envelope is None,
    {
        if raw.magic != ZLUDA_DESCRIPTOR_MAGIC {
            return None;
        }
        Some(raw)
    }

    /// Takes the value over if it is an envelope.  Only the tag is looked
    /// at.
    pub fn try_retrieve(raw: BackendDescriptor) -> (envelope: Option<BackendDescriptor>)
        ensures
            raw.is_envelope() ==> envelope == Some(raw),
            !raw.is_envelope() ==> envelope is None,
    {
        if raw.magic != ZLUDA_DESCRIPTOR_MAGIC {
            return None;
        }
        Some(raw)
    }

    /// Puts a descriptor that MIOpen handed out into this envelope.  The
    /// envelope keeps its capabilities.
    pub fn adopt(&mut self, internal: usize)
        ensures
            *final(self) == (BackendDescriptor {
                kind: BackendDescriptorKind::System,
                internal,
                ..*old(self)
            }),
    {
        self.kind = BackendDescriptorKind::System;
        self.internal = internal;
    }
}

/// A fresh envelope has no capability, recording one is idempotent, and
/// neither the tag nor the owner nor the descriptor inside is touched by it.
pub proof fn lemma_flags(envelope: BackendDescriptor, flag: BackendDescriptorFlag)
    ensures
        !BackendDescriptor::wrap(envelope.internal, envelope.kind).has_flag(flag),
        envelope.with_flag(flag).has_flag(flag),
        envelope.with_flag(flag).with_flag(flag) == envelope.with_flag(flag),
        envelope.has_flag(flag) ==> envelope.with_flag(flag) == envelope,
        envelope.with_flag(flag).is_envelope() == envelope.is_envelope(),
{
    let f = envelope.flags;
    let m = flag.mask();
    assert(0u8 & m != m) by (bit_vector)
        requires
            m == 1,
    ;
    assert((f | m) & m == m) by (bit_vector);
    assert((f | m) | m == f | m) by (bit_vector);
    assert(f & m == m ==> f | m == f) by (bit_vector);
}

} // verus!
