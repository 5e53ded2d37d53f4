//! Setting and reading the attributes of graph descriptors.
//!
//! Attribute values cross the bridge in one of three ways.  Values of an
//! enumeration are converted element by element.  Values that are graph
//! descriptors arrive as envelopes and leave as the MIOpen descriptors
//! inside them.  Everything else passes through untouched.  A few attributes
//! are not passed on at all, because MIOpen has no use for them.

use crate::envelope::{BackendDescriptor, BackendDescriptorFlag, BackendDescriptorKind};
use crate::graph::{
    is_usable, usable, BackendCall, CountDestination, Decision, ElementsDestination,
};
use crate::status::{call, recorded, to_cudnn_spec, CudnnStatus, LastError, MiopenStatus};
use crate::sticky::StickyCache;
use crate::convert::{
    conv_mode_spec, data_type_spec, pointwise_mode_spec, reduce_tensor_op_spec, to_conv_mode,
    to_data_type, to_pointwise_mode, to_reduce_tensor_op, CudnnConvolutionMode, CudnnDataType,
    CudnnPointwiseMode, CudnnReduceTensorOp, MiopenConvolutionMode, MiopenDataType,
    MiopenPointwiseMode, MiopenReduceTensorOp,
};
use vstd::prelude::*;

verus! {

/// The attribute names that the bridge treats specially.  Every other name
/// is `Other`.
#[derive(Clone, Copy, Debug, PartialEq, Eq, Structural)]
pub enum AttributeName {
    TensorByteAlignment,
    TensorIsByValue,
    MatmulPaddingValue,
    OperationPointwiseAlpha2,
    EngineHeurResults,
    ExecutionPlanWorkspaceSize,
    Other,
}

/// The element types of attributes.  `Other` stands for every type the
/// bridge has no name for.
#[derive(Clone, Copy, Debug, PartialEq, Eq, Structural)]
pub enum AttributeType {
    Handle,
    DataType,
    Boolean,
    Int64,
    Float,
    Double,
    VoidPtr,
    ConvolutionMode,
    HeurMode,
    PointwiseMode,
    BackendDescriptor,
    ReductionOperatorType,
    NumericalNote,
    BehaviorNote,
    Other,
}

/// What was read from the array of elements that a caller wants to set.
#[derive(Debug, PartialEq, Eq)]
pub enum AttributeElements {
    /// Nothing was read.
    Untouched,
    DataType(CudnnDataType),
    ConvolutionMode(CudnnConvolutionMode),
    PointwiseMode(CudnnPointwiseMode),
    ReductionOperator(CudnnReduceTensorOp),
    /// What the descriptors in the array lead to, in the array's order.
    Descriptors(Vec<BackendDescriptor>),
}

/// The mathematical content of [`AttributeElements`].
pub enum AttributeElementsView {
    Untouched,
    DataType(CudnnDataType),
    ConvolutionMode(CudnnConvolutionMode),
    PointwiseMode(CudnnPointwiseMode),
    ReductionOperator(CudnnReduceTensorOp),
    Descriptors(Seq<BackendDescriptor>),
}

impl View for AttributeElements {
    type V = AttributeElementsView;

    open spec fn view(&self) -> AttributeElementsView {
        match self {
            AttributeElements::Untouched => AttributeElementsView::Untouched,
            AttributeElements::DataType(v) => AttributeElementsView::DataType(*v),
            AttributeElements::ConvolutionMode(v) => AttributeElementsView::ConvolutionMode(*v),
            AttributeElements::PointwiseMode(v) => AttributeElementsView::PointwiseMode(*v),
            AttributeElements::ReductionOperator(v) => AttributeElementsView::ReductionOperator(*v),
            AttributeElements::Descriptors(v) => AttributeElementsView::Descriptors(v@),
        }
    }
}

/// The array of elements that MIOpen is given.
#[derive(Debug, PartialEq, Eq)]
pub enum ForwardedElements {
    /// The caller's array, as it is.
    Unchanged,
    DataType(MiopenDataType),
    ConvolutionMode(MiopenConvolutionMode),
    PointwiseMode(MiopenPointwiseMode),
    ReductionOperator(MiopenReduceTensorOp),
    /// The MIOpen descriptors inside the caller's envelopes, in the same
    /// order.
    Descriptors(Vec<usize>),
}

/// The mathematical content of [`ForwardedElements`].
pub enum ForwardedElementsView {
    Unchanged,
    DataType(MiopenDataType),
    ConvolutionMode(MiopenConvolutionMode),
    PointwiseMode(MiopenPointwiseMode),
    ReductionOperator(MiopenReduceTensorOp),
    Descriptors(Seq<usize>),
}

impl View for ForwardedElements {
    type V = ForwardedElementsView;

    open spec fn view(&self) -> ForwardedElementsView {
        match self {
            ForwardedElements::Unchanged => ForwardedElementsView::Unchanged,
            ForwardedElements::DataType(v) => ForwardedElementsView::DataType(*v),
            ForwardedElements::ConvolutionMode(v) => ForwardedElementsView::ConvolutionMode(*v),
            ForwardedElements::PointwiseMode(v) => ForwardedElementsView::PointwiseMode(*v),
            ForwardedElements::ReductionOperator(v) => ForwardedElementsView::ReductionOperator(*v),
            ForwardedElements::Descriptors(v) => ForwardedElementsView::Descriptors(v@),
        }
    }
}

/// What setting an attribute comes to.
#[derive(Debug, PartialEq, Eq)]
pub enum SetAttribute {
    /// Report this status; MIOpen is not called.
    Reply(CudnnStatus),
    /// Set the attribute of this MIOpen descriptor to these elements, under
    /// the name, type and count that the caller gave, and report the result.
    Forward { descriptor: usize, elements: ForwardedElements },
}

/// The mathematical content of a [`SetAttribute`].
pub enum SetAttributeView {
    Reply(CudnnStatus),
    Forward { descriptor: usize, elements: ForwardedElementsView },
}

impl View for SetAttribute {
    type V = SetAttributeView;

    open spec fn view(&self) -> SetAttributeView {
        match self {
            SetAttribute::Reply(status) => SetAttributeView::Reply(*status),
            SetAttribute::Forward { descriptor, elements } => SetAttributeView::Forward {
                descriptor: *descriptor,
                elements: elements@,
            },
        }
    }
}

/// What has to happen to the caller's array before an attribute can be set.
#[derive(Clone, Copy, Debug, PartialEq, Eq, Structural)]
pub enum ElementsUse {
    /// The array is not looked at.
    Untouched,
    /// The array is read, as many elements of the attribute's type as the
    /// caller gave.
    Read,
    /// The request breaks the contract of the interface.
    Refused,
}

/// Attributes that MIOpen has no use for.
pub open spec fn ignored(name: AttributeName) -> bool {
    name == AttributeName::TensorByteAlignment || name == AttributeName::TensorIsByValue || name
        == AttributeName::MatmulPaddingValue
}

/// Attributes that are dropped on this descriptor: the ignored ones, and
/// the second scaling parameter where it is marked as unsupported.
pub open spec fn suppressed(descriptor: BackendDescriptor, name: AttributeName) -> bool {
    ignored(name) || (name == AttributeName::OperationPointwiseAlpha2 && descriptor.has_flag(
        BackendDescriptorFlag::PointwiseAlpha2NotSupported,
    ))
}

/// Attribute types whose single element is converted.
pub open spec fn converted(attribute_type: AttributeType) -> bool {
    attribute_type == AttributeType::DataType || attribute_type == AttributeType::ConvolutionMode
        || attribute_type == AttributeType::PointwiseMode || attribute_type
        == AttributeType::ReductionOperatorType
}

/// Attribute types whose elements pass through as they are.
pub open spec fn passed_through(attribute_type: AttributeType) -> bool {
    attribute_type == AttributeType::Handle || attribute_type == AttributeType::Boolean
        || attribute_type == AttributeType::Int64 || attribute_type == AttributeType::Float
        || attribute_type == AttributeType::Double || attribute_type == AttributeType::VoidPtr
}

/// What setting an attribute on an envelope needs of the caller's array.
///
/// A dropped attribute needs nothing, whatever its type and count.  An
/// attribute of an enumeration has exactly one element.  An unknown type
/// cannot be set.
pub open spec fn elements_use_spec(
    descriptor: BackendDescriptor,
    attribute_name: AttributeName,
    attribute_type: AttributeType,
    element_count: i64,
) -> ElementsUse {
    if suppressed(descriptor, attribute_name) {
        ElementsUse::Untouched
    } else if converted(attribute_type) {
        if element_count == 1 {
            ElementsUse::Read
        } else {
            ElementsUse::Refused
        }
    } else if attribute_type == AttributeType::HeurMode {
        if element_count == 1 {
            ElementsUse::Untouched
        } else {
            ElementsUse::Refused
        }
    } else if attribute_type == AttributeType::BackendDescriptor {
        if element_count >= 0 {
            ElementsUse::Read
        } else {
            ElementsUse::Refused
        }
    } else if passed_through(attribute_type) {
        ElementsUse::Untouched
    } else {
        ElementsUse::Refused
    }
}

/// Whether what was read fits the attribute: the right kind of elements,
/// as many as announced, and each with a counterpart in MIOpen.
pub open spec fn elements_fit(
    attribute_type: AttributeType,
    element_count: i64,
    elements: AttributeElementsView,
) -> bool {
    match elements {
        AttributeElementsView::DataType(v) => attribute_type == AttributeType::DataType
            && data_type_spec(v) is Some,
        AttributeElementsView::ConvolutionMode(v) => attribute_type
            == AttributeType::ConvolutionMode && conv_mode_spec(v) is Some,
        AttributeElementsView::PointwiseMode(v) => attribute_type == AttributeType::PointwiseMode
            && pointwise_mode_spec(v) is Some,
        AttributeElementsView::ReductionOperator(v) => attribute_type
            == AttributeType::ReductionOperatorType && reduce_tensor_op_spec(v) is Some,
        AttributeElementsView::Descriptors(v) => attribute_type == AttributeType::BackendDescriptor
            && v.len() == element_count,
        AttributeElementsView::Untouched => false,
    }
}

/// The requests to set an attribute that keep to the contract of the
/// interface.
pub open spec fn well_formed(
    descriptor: BackendDescriptor,
    attribute_name: AttributeName,
    attribute_type: AttributeType,
    element_count: i64,
    elements: AttributeElementsView,
) -> bool {
    match elements_use_spec(descriptor, attribute_name, attribute_type, element_count) {
        ElementsUse::Untouched => true,
        ElementsUse::Read => elements_fit(attribute_type, element_count, elements),
        ElementsUse::Refused => false,
    }
}

/// The MIOpen descriptors inside a run of envelopes.
pub open spec fn internals(envelopes: Seq<BackendDescriptor>) -> Seq<usize> {
    Seq::new(envelopes.len(), |i: int| envelopes[i].internal)
}

/// Whether every value of a run is an envelope.
pub open spec fn all_envelopes(values: Seq<BackendDescriptor>) -> bool {
    forall|i: int| 0 <= i < values.len() ==> (#[trigger] values[i]).is_envelope()
}

/// What MIOpen is given for elements that were read.
pub open spec fn forwarded_spec(elements: AttributeElementsView) -> ForwardedElementsView {
    match elements {
        AttributeElementsView::DataType(v) => ForwardedElementsView::DataType(
            data_type_spec(v)->0,
        ),
        AttributeElementsView::ConvolutionMode(v) => ForwardedElementsView::ConvolutionMode(
            conv_mode_spec(v)->0,
        ),
        AttributeElementsView::PointwiseMode(v) => ForwardedElementsView::PointwiseMode(
            pointwise_mode_spec(v)->0,
        ),
        AttributeElementsView::ReductionOperator(v) => ForwardedElementsView::ReductionOperator(
            reduce_tensor_op_spec(v)->0,
        ),
        AttributeElementsView::Descriptors(v) => ForwardedElementsView::Descriptors(internals(v)),
        AttributeElementsView::Untouched => ForwardedElementsView::Unchanged,
    }
}

/// What setting an attribute on an envelope comes to, for a request that
/// keeps to the contract of the interface.
///
/// A dropped attribute succeeds without a call.  If one of the descriptors
/// to be set is not an envelope, the request is a bad parameter and nothing
/// is passed on.  Otherwise MIOpen is given the converted elements.
pub open spec fn set_attribute_impl_spec(
    descriptor: BackendDescriptor,
    attribute_name: AttributeName,
    attribute_type: AttributeType,
    element_count: i64,
    elements: AttributeElementsView,
) -> SetAttributeView {
    match elements_use_spec(descriptor, attribute_name, attribute_type, element_count) {
        ElementsUse::Read => {
            if elements matches AttributeElementsView::Descriptors(v) && !all_envelopes(v) {
                SetAttributeView::Reply(CudnnStatus::BadParam)
            } else {
                SetAttributeView::Forward {
                    descriptor: descriptor.internal,
                    elements: forwarded_spec(elements),
                }
            }
        },
        ElementsUse::Untouched => {
            if suppressed(descriptor, attribute_name) {
                SetAttributeView::Reply(CudnnStatus::Success)
            } else {
                SetAttributeView::Forward {
                    descriptor: descriptor.internal,
                    elements: ForwardedElementsView::Unchanged,
                }
            }
        },
        ElementsUse::Refused => arbitrary(),
    }
}

/// Whether setting these elements marks the envelope: an exponential or a
/// logarithm as the operator of a pointwise node does, and so does a first
/// dependency that is marked itself.
pub open spec fn marks(elements: AttributeElementsView) -> bool {
    match elements {
        AttributeElementsView::PointwiseMode(v) => v == CudnnPointwiseMode::Exp || v
            == CudnnPointwiseMode::Log,
        AttributeElementsView::Descriptors(v) => all_envelopes(v) && v.len() > 0 && v[0].has_flag(
            BackendDescriptorFlag::PointwiseAlpha2NotSupported,
        ),
        _ => false,
    }
}

/// The envelope after an attribute has been set on it.
pub open spec fn set_attribute_envelope_spec(
    descriptor: BackendDescriptor,
    attribute_name: AttributeName,
    attribute_type: AttributeType,
    element_count: i64,
    elements: AttributeElementsView,
) -> BackendDescriptor {
    if elements_use_spec(descriptor, attribute_name, attribute_type, element_count)
        == ElementsUse::Read && marks(elements) {
        descriptor.with_flag(BackendDescriptorFlag::PointwiseAlpha2NotSupported)
    } else {
        descriptor
    }
}

/// Whether an attribute is dropped on this descriptor.
fn is_suppressed(descriptor: &BackendDescriptor, attribute_name: AttributeName) -> (dropped: bool)
    ensures
        dropped == suppressed(*descriptor, attribute_name),
{
    match attribute_name {
        AttributeName::TensorByteAlignment
        | AttributeName::TensorIsByValue
        | AttributeName::MatmulPaddingValue => true,
        AttributeName::OperationPointwiseAlpha2 => descriptor.get_flag(
            BackendDescriptorFlag::PointwiseAlpha2NotSupported,
        ),
        _ => false,
    }
}

/// Says what setting an attribute on an envelope needs of the caller's
/// array, before anything is read from it.
pub fn set_attribute_elements_use(
    descriptor: &BackendDescriptor,
    attribute_name: AttributeName,
    attribute_type: AttributeType,
    element_count: i64,
) -> (what: ElementsUse)
    ensures
        what == elements_use_spec(*descriptor, attribute_name, attribute_type, element_count),
{
    if is_suppressed(descriptor, attribute_name) {
        return ElementsUse::Untouched;
    }
    match attribute_type {
        AttributeType::DataType
        | AttributeType::ConvolutionMode
        | AttributeType::PointwiseMode
        | AttributeType::ReductionOperatorType => {
            if element_count == 1 {
                ElementsUse::Read
            } else {
                ElementsUse::Refused
            }
        },
        AttributeType::HeurMode => {
            if element_count == 1 {
                ElementsUse::Untouched
            } else {
                ElementsUse::Refused
            }
        },
        AttributeType::BackendDescriptor => {
            if element_count >= 0 {
                ElementsUse::Read
            } else {
                ElementsUse::Refused
            }
        },
        AttributeType::Handle
        | AttributeType::Boolean
        | AttributeType::Int64
        | AttributeType::Float
        | AttributeType::Double
        | AttributeType::VoidPtr => ElementsUse::Untouched,
        _ => ElementsUse::Refused,
    }
}

/// Resolves the envelopes of an attribute whose elements are descriptors.
/// The result holds the MIOpen descriptors inside them, or nothing if one of
/// the values is not an envelope.
fn resolve_all(values: &Vec<BackendDescriptor>) -> (handles: Option<Vec<usize>>)
    ensures
        all_envelopes(values@) ==> handles is Some && handles->0@ == internals(values@),
        !all_envelopes(values@) ==> handles is None,
{
    let mut handles: Vec<usize> = Vec::new();
    let mut i: usize = 0;
    while i < values.len()
        invariant
            i <= values.len(),
            handles@.len() == i,
            forall|j: int| 0 <= j < i ==> (#[trigger] values@[j]).is_envelope(),
            forall|j: int| 0 <= j < i ==> handles@[j] == values@[j].internal,
        decreases values.len() - i,
    {
        match BackendDescriptor::try_from(&values[i]) {
            Some(envelope) => handles.push(envelope.internal),
            None => {
                assert(!values@[i as int].is_envelope());
                return None;
            },
        }
        i += 1;
    }
    assert(handles@ =~= internals(values@));
    Some(handles)
}

/// Sets an attribute on an envelope that has been found usable.
///
/// The status of a request that is answered without MIOpen is remembered
/// like the result of a call.
pub fn backend_set_attribute_impl(
    descriptor: &mut BackendDescriptor,
    last_error: &mut LastError,
    attribute_name: AttributeName,
    attribute_type: AttributeType,
    element_count: i64,
    elements: &AttributeElements,
) -> (outcome: SetAttribute)
    requires
        old(descriptor).is_envelope(),
        well_formed(*old(descriptor), attribute_name, attribute_type, element_count, elements@),
    ensures
        outcome@ == set_attribute_impl_spec(
            *old(descriptor),
            attribute_name,
            attribute_type,
            element_count,
            elements@,
        ),
        *final(descriptor) == set_attribute_envelope_spec(
            *old(descriptor),
            attribute_name,
            attribute_type,
            element_count,
            elements@,
        ),
        *final(last_error) == if outcome@ == SetAttributeView::Reply(CudnnStatus::BadParam) {
            recorded(*old(last_error), MiopenStatus::BadParm)
        } else {
            *old(last_error)
        },
{
    let internal = descriptor.internal;
    match set_attribute_elements_use(descriptor, attribute_name, attribute_type, element_count) {
        ElementsUse::Untouched => {
            if is_suppressed(descriptor, attribute_name) {
                SetAttribute::Reply(call(last_error, MiopenStatus::Success))
            } else {
                SetAttribute::Forward {
                    descriptor: internal,
                    elements: ForwardedElements::Unchanged,
                }
            }
        },
        ElementsUse::Read => {
            match elements {
                AttributeElements::DataType(v) => SetAttribute::Forward {
                    descriptor: internal,
                    elements: ForwardedElements::DataType(to_data_type(*v)),
                },
                AttributeElements::ConvolutionMode(v) => SetAttribute::Forward {
                    descriptor: internal,
                    elements: ForwardedElements::ConvolutionMode(to_conv_mode(*v)),
                },
                AttributeElements::PointwiseMode(v) => {
                    let pointwise_mode = to_pointwise_mode(*v);
                    if matches!(
                        pointwise_mode,
                        MiopenPointwiseMode::Exp | MiopenPointwiseMode::Log
                    ) {
                        descriptor.set_flag(BackendDescriptorFlag::PointwiseAlpha2NotSupported);
                    }
                    SetAttribute::Forward {
                        descriptor: internal,
                        elements: ForwardedElements::PointwiseMode(pointwise_mode),
                    }
                },
                AttributeElements::ReductionOperator(v) => SetAttribute::Forward {
                    descriptor: internal,
                    elements: ForwardedElements::ReductionOperator(to_reduce_tensor_op(*v)),
                },
                AttributeElements::Descriptors(values) => {
                    match resolve_all(values) {
                        Some(handles) => {
                            if values.len() > 0 && values[0].get_flag(
                                BackendDescriptorFlag::PointwiseAlpha2NotSupported,
                            ) {
                                descriptor.set_flag(
                                    BackendDescriptorFlag::PointwiseAlpha2NotSupported,
                                );
                            }
                            SetAttribute::Forward {
                                descriptor: internal,
                                elements: ForwardedElements::Descriptors(handles),
                            }
                        },
                        None => SetAttribute::Reply(call(last_error, MiopenStatus::BadParm)),
                    }
                },
                AttributeElements::Untouched => {
                    assert(false);
                    SetAttribute::Reply(CudnnStatus::BadParam)
                },
            }
        },
        ElementsUse::Refused => {
            assert(false);
            SetAttribute::Reply(CudnnStatus::BadParam)
        },
    }
}

/// What setting an attribute comes to, seen from the caller: a value that is
/// not an envelope, or an envelope whose graph root has left the cache, is a
/// bad parameter; for everything else see [`set_attribute_impl_spec`].
pub open spec fn set_attribute_spec(
    raw: BackendDescriptor,
    cache: Seq<usize>,
    attribute_name: AttributeName,
    attribute_type: AttributeType,
    element_count: i64,
    elements: AttributeElementsView,
) -> SetAttributeView {
    if usable(raw, cache) {
        set_attribute_impl_spec(raw, attribute_name, attribute_type, element_count, elements)
    } else {
        SetAttributeView::Reply(CudnnStatus::BadParam)
    }
}

/// Says what a request to set an attribute needs of the caller's array,
/// before anything is read from it.  Nothing is read for a value that will
/// be refused anyway.
pub fn backend_set_attribute_elements_use(
    raw: &BackendDescriptor,
    cache: &StickyCache,
    attribute_name: AttributeName,
    attribute_type: AttributeType,
    element_count: i64,
) -> (what: ElementsUse)
    ensures
        what == if usable(*raw, cache@) {
            elements_use_spec(*raw, attribute_name, attribute_type, element_count)
        } else {
            ElementsUse::Untouched
        },
{
    if !is_usable(raw, cache) {
        return ElementsUse::Untouched;
    }
    set_attribute_elements_use(raw, attribute_name, attribute_type, element_count)
}

/// Sets an attribute on whatever the caller handed in as a descriptor.
pub fn backend_set_attribute(
    raw: &mut BackendDescriptor,
    cache: &StickyCache,
    last_error: &mut LastError,
    attribute_name: AttributeName,
    attribute_type: AttributeType,
    element_count: i64,
    elements: &AttributeElements,
) -> (outcome: SetAttribute)
    requires
        usable(*old(raw), cache@) ==> well_formed(
            *old(raw),
            attribute_name,
            attribute_type,
            element_count,
            elements@,
        ),
    ensures
        outcome@ == set_attribute_spec(
            *old(raw),
            cache@,
            attribute_name,
            attribute_type,
            element_count,
            elements@,
        ),
        *final(raw) == if usable(*old(raw), cache@) {
            set_attribute_envelope_spec(
                *old(raw),
                attribute_name,
                attribute_type,
                element_count,
                elements@,
            )
        } else {
            *old(raw)
        },
        *final(last_error) == if usable(*old(raw), cache@) && outcome@ == SetAttributeView::Reply(
            CudnnStatus::BadParam,
        ) {
            recorded(*old(last_error), MiopenStatus::BadParm)
        } else {
            *old(last_error)
        },
{
    if !is_usable(raw, cache) {
        return SetAttribute::Reply(CudnnStatus::BadParam);
    }
    backend_set_attribute_impl(
        raw,
        last_error,
        attribute_name,
        attribute_type,
        element_count,
        elements,
    )
}

/// The requests to read an attribute that keep to the contract of the
/// interface: descriptors cannot be asked for in a negative number, and a
/// workspace size that is read without a place for the count is a single
/// element.
pub open spec fn readable(
    raw: BackendDescriptor,
    cache: Seq<usize>,
    attribute_name: AttributeName,
    attribute_type: AttributeType,
    requested_element_count: i64,
    has_element_count: bool,
) -> bool {
    if !usable(raw, cache) || (requested_element_count == 0 && attribute_name
        == AttributeName::EngineHeurResults) {
        true
    } else if attribute_type == AttributeType::BackendDescriptor {
        requested_element_count >= 0
    } else if !has_element_count && attribute_name == AttributeName::ExecutionPlanWorkspaceSize {
        requested_element_count == 1
    } else {
        true
    }
}

/// What reading an attribute comes to.
///
/// A probe for the number of engine configurations, made with a request
/// for no elements, still asks MIOpen for one element, into a slot of the
/// bridge's own.  Descriptors are read into an array of the bridge's own.
/// A workspace size read without a place for the count gets a counter of
/// the bridge's own.  Notes read without a place for the elements ask for
/// one element, into a slot of the bridge's own.  Everything else is passed
/// on as the caller asked.
pub open spec fn get_attribute_spec(
    raw: BackendDescriptor,
    cache: Seq<usize>,
    attribute_name: AttributeName,
    attribute_type: AttributeType,
    requested_element_count: i64,
    has_element_count: bool,
    has_elements: bool,
) -> Decision {
    if !usable(raw, cache) {
        Decision::Reply(CudnnStatus::BadParam)
    } else if requested_element_count == 0 && attribute_name == AttributeName::EngineHeurResults {
        Decision::Forward(
            BackendCall::GetAttribute {
                descriptor: raw.internal,
                requested_element_count: 1,
                count: CountDestination::Caller,
                elements: ElementsDestination::ScratchDescriptor,
            },
        )
    } else if attribute_type == AttributeType::BackendDescriptor {
        Decision::Forward(
            BackendCall::GetAttribute {
                descriptor: raw.internal,
                requested_element_count,
                count: CountDestination::Caller,
                elements: ElementsDestination::Descriptors,
            },
        )
    } else if !has_element_count && attribute_name == AttributeName::ExecutionPlanWorkspaceSize {
        Decision::Forward(
            BackendCall::GetAttribute {
                descriptor: raw.internal,
                requested_element_count,
                count: CountDestination::Internal,
                elements: ElementsDestination::Caller,
            },
        )
    } else if !has_elements && (attribute_type == AttributeType::NumericalNote || attribute_type
        == AttributeType::BehaviorNote) {
        Decision::Forward(
            BackendCall::GetAttribute {
                descriptor: raw.internal,
                requested_element_count: 1,
                count: CountDestination::Caller,
                elements: ElementsDestination::ScratchPointer,
            },
        )
    } else {
        Decision::Forward(
            BackendCall::GetAttribute {
                descriptor: raw.internal,
                requested_element_count,
                count: CountDestination::Caller,
                elements: ElementsDestination::Caller,
            },
        )
    }
}

/// Executable form of [`readable`].
pub fn is_readable(
    raw: &BackendDescriptor,
    cache: &StickyCache,
    attribute_name: AttributeName,
    attribute_type: AttributeType,
    requested_element_count: i64,
    has_element_count: bool,
) -> (ok: bool)
    ensures
        ok == readable(
            *raw,
            cache@,
            attribute_name,
            attribute_type,
            requested_element_count,
            has_element_count,
        ),
{
    if !is_usable(raw, cache) || (requested_element_count == 0 && matches!(
        attribute_name,
        AttributeName::EngineHeurResults
    )) {
        true
    } else if matches!(attribute_type, AttributeType::BackendDescriptor) {
        requested_element_count >= 0
    } else if !has_element_count && matches!(
        attribute_name,
        AttributeName::ExecutionPlanWorkspaceSize
    ) {
        requested_element_count == 1
    } else {
        true
    }
}

/// Decides how an attribute is read.  `has_element_count` and
/// `has_elements` say whether the caller named a place for the count and
/// for the elements.
pub fn backend_get_attribute(
    raw: &BackendDescriptor,
    cache: &StickyCache,
    attribute_name: AttributeName,
    attribute_type: AttributeType,
    requested_element_count: i64,
    has_element_count: bool,
    has_elements: bool,
) -> (decision: Decision)
    requires
        readable(
            *raw,
            cache@,
            attribute_name,
            attribute_type,
            requested_element_count,
            has_element_count,
        ),
    ensures
        decision == get_attribute_spec(
            *raw,
            cache@,
            attribute_name,
            attribute_type,
            requested_element_count,
            has_element_count,
            has_elements,
        ),
{
    if !is_usable(raw, cache) {
        return Decision::Reply(CudnnStatus::BadParam);
    }
    let descriptor = raw.internal;
    if requested_element_count == 0 && matches!(attribute_name, AttributeName::EngineHeurResults) {
        return Decision::Forward(
            BackendCall::GetAttribute {
                descriptor,
                requested_element_count: 1,
                count: CountDestination::Caller,
                elements: ElementsDestination::ScratchDescriptor,
            },
        );
    }
    if matches!(attribute_type, AttributeType::BackendDescriptor) {
        return Decision::Forward(
            BackendCall::GetAttribute {
                descriptor,
                requested_element_count,
                count: CountDestination::Caller,
                elements: ElementsDestination::Descriptors,
            },
        );
    }
    if !has_element_count && matches!(attribute_name, AttributeName::ExecutionPlanWorkspaceSize) {
        return Decision::Forward(
            BackendCall::GetAttribute {
                descriptor,
                requested_element_count,
                count: CountDestination::Internal,
                elements: ElementsDestination::Caller,
            },
        );
    }
    if !has_elements && matches!(
        attribute_type,
        AttributeType::NumericalNote | AttributeType::BehaviorNote
    ) {
        return Decision::Forward(
            BackendCall::GetAttribute {
                descriptor,
                requested_element_count: 1,
                count: CountDestination::Caller,
                elements: ElementsDestination::ScratchPointer,
            },
        );
    }
    Decision::Forward(
        BackendCall::GetAttribute {
            descriptor,
            requested_element_count,
            count: CountDestination::Caller,
            elements: ElementsDestination::Caller,
        },
    )
}

/// What has to happen to a slot of the caller's array before a descriptor
/// that MIOpen handed out can be put into it.
#[derive(Clone, Copy, Debug, PartialEq, Eq, Structural)]
pub enum SlotStep {
    /// The slot does not hold an envelope: the read fails with a bad
    /// parameter.
    Refuse,
    /// The envelope owns a descriptor, which has to be destroyed first.
    Release(usize),
    /// The envelope can take the new descriptor at once.
    Adopt,
}

/// How a slot receives a descriptor: not at all unless it holds an envelope,
/// and after its own descriptor is destroyed if it owns one.
pub open spec fn slot_spec(slot: BackendDescriptor) -> SlotStep {
    if !slot.is_envelope() {
        SlotStep::Refuse
    } else if slot.kind == BackendDescriptorKind::Owned {
        SlotStep::Release(slot.internal)
    } else {
        SlotStep::Adopt
    }
}

/// Decides how a slot of the caller's array receives a descriptor that was
/// read.
pub fn backend_get_attribute_slot(slot: &BackendDescriptor) -> (step: SlotStep)
    ensures
        step == slot_spec(*slot),
{
    match BackendDescriptor::try_from(slot) {
        Some(envelope) => {
            match envelope.kind {
                BackendDescriptorKind::Owned => SlotStep::Release(envelope.internal),
                _ => SlotStep::Adopt,
            }
        },
        None => SlotStep::Refuse,
    }
}

/// Puts a descriptor that was read into an envelope whose own descriptor
/// MIOpen was asked to destroy.  If that failed, the envelope stays as it is
/// and the failure is the status of the read.
pub fn backend_get_attribute_released(
    slot: &mut BackendDescriptor,
    last_error: &mut LastError,
    result: MiopenStatus,
    internal: usize,
) -> (status: CudnnStatus)
    requires
        result != MiopenStatus::Unrecognized,
    ensures
        status == to_cudnn_spec(result),
        *final(last_error) == recorded(*old(last_error), result),
        *final(slot) == if result == MiopenStatus::Success {
            BackendDescriptor { kind: BackendDescriptorKind::System, internal, ..*old(slot) }
        } else {
            *old(slot)
        },
{
    let status = call(last_error, result);
    if status != CudnnStatus::Success {
        return status;
    }
    slot.adopt(internal);
    status
}

/// Whatever is not an envelope is refused by every entry point that takes a
/// descriptor, with a bad parameter and without a call into MIOpen, and the
/// answer depends on nothing but the tag.
pub proof fn lemma_foreign_values_are_refused(
    raw: BackendDescriptor,
    other: BackendDescriptor,
    cache: Seq<usize>,
    attribute_name: AttributeName,
    attribute_type: AttributeType,
    element_count: i64,
    elements: AttributeElementsView,
    has_element_count: bool,
    has_elements: bool,
)
    requires
        !raw.is_envelope(),
    ensures
        crate::graph::destroy_spec(raw) == Decision::Reply(CudnnStatus::BadParam),
        crate::graph::finalize_spec(raw, cache) == Decision::Reply(CudnnStatus::BadParam),
        crate::graph::execute_spec(raw, other, cache) == Decision::Reply(CudnnStatus::BadParam),
        crate::graph::execute_spec(other, raw, cache) == Decision::Reply(CudnnStatus::BadParam),
        set_attribute_spec(raw, cache, attribute_name, attribute_type, element_count, elements)
            == SetAttributeView::Reply(CudnnStatus::BadParam),
        get_attribute_spec(
            raw,
            cache,
            attribute_name,
            attribute_type,
            element_count,
            has_element_count,
            has_elements,
        ) == Decision::Reply(CudnnStatus::BadParam),
        slot_spec(raw) == SlotStep::Refuse,
{
}

/// A value that is not an envelope is refused among the descriptors to be
/// set, too: nothing is passed on for any of them, and the envelope that
/// was to receive them stays as it is.
pub proof fn lemma_foreign_elements_are_refused(
    descriptor: BackendDescriptor,
    cache: Seq<usize>,
    attribute_name: AttributeName,
    values: Seq<BackendDescriptor>,
    at: int,
)
    requires
        usable(descriptor, cache),
        !suppressed(descriptor, attribute_name),
        values.len() <= i64::MAX,
        0 <= at < values.len(),
        !values[at].is_envelope(),
    ensures
        set_attribute_spec(
            descriptor,
            cache,
            attribute_name,
            AttributeType::BackendDescriptor,
            values.len() as i64,
            AttributeElementsView::Descriptors(values),
        ) == SetAttributeView::Reply(CudnnStatus::BadParam),
        set_attribute_envelope_spec(
            descriptor,
            attribute_name,
            AttributeType::BackendDescriptor,
            values.len() as i64,
            AttributeElementsView::Descriptors(values),
        ) == descriptor,
{
}

/// Only the first dependency passes its mark on.  A container that is not
/// marked stays unmarked when its first dependency is not marked, however
/// the others are.
pub proof fn lemma_only_the_first_dependency_marks(
    container: BackendDescriptor,
    link_name: AttributeName,
    dependencies: Seq<BackendDescriptor>,
)
    requires
        container.is_envelope(),
        !container.has_flag(BackendDescriptorFlag::PointwiseAlpha2NotSupported),
        0 < dependencies.len() <= i64::MAX,
        !dependencies[0].has_flag(BackendDescriptorFlag::PointwiseAlpha2NotSupported),
    ensures
        !set_attribute_envelope_spec(
            container,
            link_name,
            AttributeType::BackendDescriptor,
            dependencies.len() as i64,
            AttributeElementsView::Descriptors(dependencies),
        ).has_flag(BackendDescriptorFlag::PointwiseAlpha2NotSupported),
{
}

/// The mark for an unsupported scaling parameter travels one step.  Give a
/// pointwise node an exponential or a logarithm as its operator, then make
/// that node the first dependency of a container: from then on a request to
/// set the second scaling parameter of the container succeeds without a
/// call into MIOpen and leaves the container as it is, whatever type, count
/// and elements come with it.
pub proof fn lemma_scaling_is_dropped_downstream(
    node: BackendDescriptor,
    container: BackendDescriptor,
    mode: CudnnPointwiseMode,
    mode_name: AttributeName,
    link_name: AttributeName,
    dependencies: Seq<BackendDescriptor>,
    scaling_type: AttributeType,
    scaling_count: i64,
    scaling: AttributeElementsView,
)
    requires
        node.is_envelope(),
        container.is_envelope(),
        mode == CudnnPointwiseMode::Exp || mode == CudnnPointwiseMode::Log,
        !suppressed(node, mode_name),
        !suppressed(container, link_name),
        0 < dependencies.len() <= i64::MAX,
        all_envelopes(dependencies),
        dependencies[0] == set_attribute_envelope_spec(
            node,
            mode_name,
            AttributeType::PointwiseMode,
            1,
            AttributeElementsView::PointwiseMode(mode),
        ),
    ensures
        ({
            let linked = set_attribute_envelope_spec(
                container,
                link_name,
                AttributeType::BackendDescriptor,
                dependencies.len() as i64,
                AttributeElementsView::Descriptors(dependencies),
            );
            &&& linked.has_flag(BackendDescriptorFlag::PointwiseAlpha2NotSupported)
            &&& well_formed(
                linked,
                AttributeName::OperationPointwiseAlpha2,
                scaling_type,
                scaling_count,
                scaling,
            )
            &&& set_attribute_impl_spec(
                linked,
                AttributeName::OperationPointwiseAlpha2,
                scaling_type,
                scaling_count,
                scaling,
            ) == SetAttributeView::Reply(CudnnStatus::Success)
            &&& set_attribute_envelope_spec(
                linked,
                AttributeName::OperationPointwiseAlpha2,
                scaling_type,
                scaling_count,
                scaling,
            ) == linked
        }),
{
    crate::envelope::lemma_flags(node, BackendDescriptorFlag::PointwiseAlpha2NotSupported);
    crate::envelope::lemma_flags(container, BackendDescriptorFlag::PointwiseAlpha2NotSupported);
}

} // verus!
