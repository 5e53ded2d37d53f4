//! Conversions between the enumerations of cuDNN and those of MIOpen.
//!
//! Each conversion is a fixed table.  A cuDNN value without a counterpart has
//! no entry: the model gives `None` for it and the executable function leaves
//! it out of its domain.  The `Other` variant of a cuDNN enumeration stands
//! for every value the bridge has no name for.

use vstd::prelude::*;

verus! {

/// Element types a caller may name.
#[derive(Clone, Copy, Debug, PartialEq, Eq, Structural)]
pub enum CudnnDataType {
    Float,
    Double,
    Half,
    Int32,
    BFloat16,
    Other,
}

/// Element types the bridge asks MIOpen for.
#[derive(Clone, Copy, Debug, PartialEq, Eq, Structural)]
pub enum MiopenDataType {
    Float,
    Double,
    Half,
    Int32,
    BFloat16,
}

/// Every named element type maps onto the type of the same name.
pub open spec fn data_type_spec(data_type: CudnnDataType) -> Option<MiopenDataType> {
    match data_type {
        CudnnDataType::Float => Some(MiopenDataType::Float),
        CudnnDataType::Double => Some(MiopenDataType::Double),
        CudnnDataType::Half => Some(MiopenDataType::Half),
        CudnnDataType::Int32 => Some(MiopenDataType::Int32),
        CudnnDataType::BFloat16 => Some(MiopenDataType::BFloat16),
        CudnnDataType::Other => None,
    }
}

/// Converts an element type.
pub fn to_data_type(data_type: CudnnDataType) -> (converted: MiopenDataType)
    requires
        data_type_spec(data_type) is Some,
    ensures
        Some(converted) == data_type_spec(data_type),
{
    match data_type {
        CudnnDataType::Float => MiopenDataType::Float,
        CudnnDataType::Double => MiopenDataType::Double,
        CudnnDataType::Half => MiopenDataType::Half,
        CudnnDataType::Int32 => MiopenDataType::Int32,
        _ => MiopenDataType::BFloat16,
    }
}

/// Convolution modes a caller may name.
#[derive(Clone, Copy, Debug, PartialEq, Eq, Structural)]
pub enum CudnnConvolutionMode {
    Convolution,
    CrossCorrelation,
    Other,
}

/// Convolution modes the bridge asks MIOpen for.
#[derive(Clone, Copy, Debug, PartialEq, Eq, Structural)]
pub enum MiopenConvolutionMode {
    Convolution,
    Transpose,
}

/// What cuDNN calls a cross-correlation is MIOpen's plain convolution; a true
/// convolution in cuDNN's sense is served by MIOpen's transpose mode.
pub open spec fn conv_mode_spec(mode: CudnnConvolutionMode) -> Option<MiopenConvolutionMode> {
    match mode {
        CudnnConvolutionMode::Convolution => Some(MiopenConvolutionMode::Transpose),
        CudnnConvolutionMode::CrossCorrelation => Some(MiopenConvolutionMode::Convolution),
        CudnnConvolutionMode::Other => None,
    }
}

/// Converts a convolution mode.
pub fn to_conv_mode(mode: CudnnConvolutionMode) -> (converted: MiopenConvolutionMode)
    requires
        conv_mode_spec(mode) is Some,
    ensures
        Some(converted) == conv_mode_spec(mode),
{
    match mode {
        CudnnConvolutionMode::Convolution => MiopenConvolutionMode::Transpose,
        _ => MiopenConvolutionMode::Convolution,
    }
}

/// Operators of a pointwise node a caller may name.
#[derive(Clone, Copy, Debug, PartialEq, Eq, Structural)]
pub enum CudnnPointwiseMode {
    Add,
    Mul,
    Div,
    Sub,
    Exp,
    Log,
    Other,
}

/// Operators of a pointwise node the bridge asks MIOpen for.
#[derive(Clone, Copy, Debug, PartialEq, Eq, Structural)]
pub enum MiopenPointwiseMode {
    Add,
    Mul,
    Div,
    Sub,
    Exp,
    Log,
}

/// Every named operator maps onto the operator of the same name.
pub open spec fn pointwise_mode_spec(mode: CudnnPointwiseMode) -> Option<MiopenPointwiseMode> {
    match mode {
        CudnnPointwiseMode::Add => Some(MiopenPointwiseMode::Add),
        CudnnPointwiseMode::Mul => Some(MiopenPointwiseMode::Mul),
        CudnnPointwiseMode::Div => Some(MiopenPointwiseMode::Div),
        CudnnPointwiseMode::Sub => Some(MiopenPointwiseMode::Sub),
        CudnnPointwiseMode::Exp => Some(MiopenPointwiseMode::Exp),
        CudnnPointwiseMode::Log => Some(MiopenPointwiseMode::Log),
        CudnnPointwiseMode::Other => None,
    }
}

/// Converts the operator of a pointwise node.
pub fn to_pointwise_mode(mode: CudnnPointwiseMode) -> (converted: MiopenPointwiseMode)
    requires
        pointwise_mode_spec(mode) is Some,
    ensures
        Some(converted) == pointwise_mode_spec(mode),
{
    match mode {
        CudnnPointwiseMode::Add => MiopenPointwiseMode::Add,
        CudnnPointwiseMode::Mul => MiopenPointwiseMode::Mul,
        CudnnPointwiseMode::Div => MiopenPointwiseMode::Div,
        CudnnPointwiseMode::Sub => MiopenPointwiseMode::Sub,
        CudnnPointwiseMode::Exp => MiopenPointwiseMode::Exp,
        _ => MiopenPointwiseMode::Log,
    }
}

/// Reduction operators a caller may name.
#[derive(Clone, Copy, Debug, PartialEq, Eq, Structural)]
pub enum CudnnReduceTensorOp {
    Add,
    Max,
    Other,
}

/// Reduction operators the bridge asks MIOpen for.
#[derive(Clone, Copy, Debug, PartialEq, Eq, Structural)]
pub enum MiopenReduceTensorOp {
    Add,
    Max,
}

/// Every named reduction maps onto the reduction of the same name.
pub open spec fn reduce_tensor_op_spec(op: CudnnReduceTensorOp) -> Option<MiopenReduceTensorOp> {
    match op {
        CudnnReduceTensorOp::Add => Some(MiopenReduceTensorOp::Add),
        CudnnReduceTensorOp::Max => Some(MiopenReduceTensorOp::Max),
        CudnnReduceTensorOp::Other => None,
    }
}

/// Converts a reduction operator.
pub fn to_reduce_tensor_op(op: CudnnReduceTensorOp) -> (converted: MiopenReduceTensorOp)
    requires
        reduce_tensor_op_spec(op) is Some,
    ensures
        Some(converted) == reduce_tensor_op_spec(op),
{
    match op {
        CudnnReduceTensorOp::Add => MiopenReduceTensorOp::Add,
        _ => MiopenReduceTensorOp::Max,
    }
}

/// Pooling modes a caller may name.
#[derive(Clone, Copy, Debug, PartialEq, Eq, Structural)]
pub enum CudnnPoolingMode {
    Max,
    AverageCountIncludePadding,
    AverageCountExcludePadding,
    Other,
}

/// Pooling modes the bridge asks MIOpen for.
#[derive(Clone, Copy, Debug, PartialEq, Eq, Structural)]
pub enum MiopenPoolingMode {
    Max,
    Average,
    AverageInclusive,
}

/// An average that counts the padding is MIOpen's inclusive average; one
/// that does not is its plain average.
pub open spec fn pooling_spec(mode: CudnnPoolingMode) -> Option<MiopenPoolingMode> {
    match mode {
        CudnnPoolingMode::Max => Some(MiopenPoolingMode::Max),
        CudnnPoolingMode::AverageCountIncludePadding => Some(MiopenPoolingMode::AverageInclusive),
        CudnnPoolingMode::AverageCountExcludePadding => Some(MiopenPoolingMode::Average),
        CudnnPoolingMode::Other => None,
    }
}

/// Converts a pooling mode.
pub fn pooling_from_cudnn(mode: CudnnPoolingMode) -> (converted: MiopenPoolingMode)
    requires
        pooling_spec(mode) is Some,
    ensures
        Some(converted) == pooling_spec(mode),
{
    match mode {
        CudnnPoolingMode::Max => MiopenPoolingMode::Max,
        CudnnPoolingMode::AverageCountIncludePadding => MiopenPoolingMode::AverageInclusive,
        _ => MiopenPoolingMode::Average,
    }
}

/// Activation functions a caller may name.
#[derive(Clone, Copy, Debug, PartialEq, Eq, Structural)]
pub enum CudnnActivationMode {
    Sigmoid,
    Relu,
    Tanh,
    ClippedRelu,
    Elu,
    Identity,
    Other,
}

/// Activation functions the bridge asks MIOpen for.
#[derive(Clone, Copy, Debug, PartialEq, Eq, Structural)]
pub enum MiopenActivationMode {
    PassThru,
    Logistic,
    Tanh,
    Relu,
    ClippedRelu,
    Elu,
}

/// The sigmoid is MIOpen's logistic function and the identity its
/// pass-through; the others keep their names.
pub open spec fn activation_mode_spec(mode: CudnnActivationMode) -> Option<MiopenActivationMode> {
    match mode {
        CudnnActivationMode::Sigmoid => Some(MiopenActivationMode::Logistic),
        CudnnActivationMode::Relu => Some(MiopenActivationMode::Relu),
        CudnnActivationMode::Tanh => Some(MiopenActivationMode::Tanh),
        CudnnActivationMode::ClippedRelu => Some(MiopenActivationMode::ClippedRelu),
        CudnnActivationMode::Elu => Some(MiopenActivationMode::Elu),
        CudnnActivationMode::Identity => Some(MiopenActivationMode::PassThru),
        CudnnActivationMode::Other => None,
    }
}

/// Converts an activation function.
pub fn activation_mode(mode: CudnnActivationMode) -> (converted: MiopenActivationMode)
    requires
        activation_mode_spec(mode) is Some,
    ensures
        Some(converted) == activation_mode_spec(mode),
{
    match mode {
        CudnnActivationMode::Sigmoid => MiopenActivationMode::Logistic,
        CudnnActivationMode::Relu => MiopenActivationMode::Relu,
        CudnnActivationMode::Tanh => MiopenActivationMode::Tanh,
        CudnnActivationMode::ClippedRelu => MiopenActivationMode::ClippedRelu,
        CudnnActivationMode::Elu => MiopenActivationMode::Elu,
        _ => MiopenActivationMode::PassThru,
    }
}

/// Batch normalization modes a caller may name.
#[derive(Clone, Copy, Debug, PartialEq, Eq, Structural)]
pub enum CudnnBatchNormMode {
    PerActivation,
    Spatial,
    SpatialPersistent,
    Other,
}

/// Batch normalization modes the bridge asks MIOpen for.
#[derive(Clone, Copy, Debug, PartialEq, Eq, Structural)]
pub enum MiopenBatchNormMode {
    PerActivation,
    Spatial,
}

/// The persistent spatial mode has no counterpart.
pub open spec fn batch_norm_mode_spec(mode: CudnnBatchNormMode) -> Option<MiopenBatchNormMode> {
    match mode {
        CudnnBatchNormMode::PerActivation => Some(MiopenBatchNormMode::PerActivation),
        CudnnBatchNormMode::Spatial => Some(MiopenBatchNormMode::Spatial),
        _ => None,
    }
}

/// Converts a batch normalization mode.
pub fn batch_norm_mode(mode: CudnnBatchNormMode) -> (converted: MiopenBatchNormMode)
    requires
        batch_norm_mode_spec(mode) is Some,
    ensures
        Some(converted) == batch_norm_mode_spec(mode),
{
    match mode {
        CudnnBatchNormMode::PerActivation => MiopenBatchNormMode::PerActivation,
        _ => MiopenBatchNormMode::Spatial,
    }
}

/// Softmax algorithms a caller may name.
#[derive(Clone, Copy, Debug, PartialEq, Eq, Structural)]
pub enum CudnnSoftmaxAlgorithm {
    Fast,
    Accurate,
    Log,
    Other,
}

/// Softmax algorithms the bridge asks MIOpen for.
#[derive(Clone, Copy, Debug, PartialEq, Eq, Structural)]
pub enum MiopenSoftmaxAlgorithm {
    Fast,
    Accurate,
    Log,
}

/// Every named algorithm maps onto the algorithm of the same name.
pub open spec fn softmax_algo_spec(algo: CudnnSoftmaxAlgorithm) -> Option<MiopenSoftmaxAlgorithm> {
    match algo {
        CudnnSoftmaxAlgorithm::Fast => Some(MiopenSoftmaxAlgorithm::Fast),
        CudnnSoftmaxAlgorithm::Accurate => Some(MiopenSoftmaxAlgorithm::Accurate),
        CudnnSoftmaxAlgorithm::Log => Some(MiopenSoftmaxAlgorithm::Log),
        CudnnSoftmaxAlgorithm::Other => None,
    }
}

/// Converts a softmax algorithm.
pub fn softmax_algo(algo: CudnnSoftmaxAlgorithm) -> (converted: MiopenSoftmaxAlgorithm)
    requires
        softmax_algo_spec(algo) is Some,
    ensures
        Some(converted) == softmax_algo_spec(algo),
{
    match algo {
        CudnnSoftmaxAlgorithm::Fast => MiopenSoftmaxAlgorithm::Fast,
        CudnnSoftmaxAlgorithm::Accurate => MiopenSoftmaxAlgorithm::Accurate,
        _ => MiopenSoftmaxAlgorithm::Log,
    }
}

/// Softmax modes a caller may name.
#[derive(Clone, Copy, Debug, PartialEq, Eq, Structural)]
pub enum CudnnSoftmaxMode {
    Instance,
    Channel,
    Other,
}

/// Softmax modes the bridge asks MIOpen for.
#[derive(Clone, Copy, Debug, PartialEq, Eq, Structural)]
pub enum MiopenSoftmaxMode {
    Instance,
    Channel,
}

/// Every named mode maps onto the mode of the same name.
pub open spec fn softmax_mode_spec(mode: CudnnSoftmaxMode) -> Option<MiopenSoftmaxMode> {
    match mode {
        CudnnSoftmaxMode::Instance => Some(MiopenSoftmaxMode::Instance),
        CudnnSoftmaxMode::Channel => Some(MiopenSoftmaxMode::Channel),
        CudnnSoftmaxMode::Other => None,
    }
}

/// Converts a softmax mode.
pub fn softmax_mode(mode: CudnnSoftmaxMode) -> (converted: MiopenSoftmaxMode)
    requires
        softmax_mode_spec(mode) is Some,
    ensures
        Some(converted) == softmax_mode_spec(mode),
{
    match mode {
        CudnnSoftmaxMode::Instance => MiopenSoftmaxMode::Instance,
        _ => MiopenSoftmaxMode::Channel,
    }
}

/// The kinds of graph descriptors a caller may create.
#[derive(Clone, Copy, Debug, PartialEq, Eq, Structural)]
pub enum CudnnBackendDescriptorType {
    Pointwise,
    Convolution,
    Engine,
    EngineCfg,
    EngineHeur,
    ExecutionPlan,
    KnobChoice,
    OperationConvolutionForward,
    OperationConvolutionBackwardFilter,
    OperationConvolutionBackwardData,
    OperationPointwise,
    OperationGraph,
    VariantPack,
    Tensor,
    Matmul,
    OperationMatmul,
    Reduction,
    OperationReduction,
    Other,
}

/// The kinds of graph descriptors the bridge asks MIOpen for.
#[derive(Clone, Copy, Debug, PartialEq, Eq, Structural)]
pub enum MiopenBackendDescriptorType {
    Pointwise,
    Convolution,
    Engine,
    EngineCfg,
    EngineHeur,
    ExecutionPlan,
    KnobChoice,
    OperationConvolutionForward,
    OperationConvolutionBackwardFilter,
    OperationConvolutionBackwardData,
    OperationPointwise,
    OperationGraph,
    VariantPack,
    Tensor,
    Matmul,
    OperationMatmul,
    Reduction,
    OperationReduction,
}

/// Every named kind maps onto the kind of the same name.
pub open spec fn backend_descriptor_type_spec(
    descriptor_type: CudnnBackendDescriptorType,
) -> Option<MiopenBackendDescriptorType> {
    match descriptor_type {
        CudnnBackendDescriptorType::Pointwise => Some(MiopenBackendDescriptorType::Pointwise),
        CudnnBackendDescriptorType::Convolution => Some(MiopenBackendDescriptorType::Convolution),
        CudnnBackendDescriptorType::Engine => Some(MiopenBackendDescriptorType::Engine),
        CudnnBackendDescriptorType::EngineCfg => Some(MiopenBackendDescriptorType::EngineCfg),
        CudnnBackendDescriptorType::EngineHeur => Some(MiopenBackendDescriptorType::EngineHeur),
        CudnnBackendDescriptorType::ExecutionPlan => Some(
            MiopenBackendDescriptorType::ExecutionPlan,
        ),
        CudnnBackendDescriptorType::KnobChoice => Some(MiopenBackendDescriptorType::KnobChoice),
        CudnnBackendDescriptorType::OperationConvolutionForward => Some(
            MiopenBackendDescriptorType::OperationConvolutionForward,
        ),
        CudnnBackendDescriptorType::OperationConvolutionBackwardFilter => Some(
            MiopenBackendDescriptorType::OperationConvolutionBackwardFilter,
        ),
        CudnnBackendDescriptorType::OperationConvolutionBackwardData => Some(
            MiopenBackendDescriptorType::OperationConvolutionBackwardData,
        ),
        CudnnBackendDescriptorType::OperationPointwise => Some(
            MiopenBackendDescriptorType::OperationPointwise,
        ),
        CudnnBackendDescriptorType::OperationGraph => Some(
            MiopenBackendDescriptorType::OperationGraph,
        ),
        CudnnBackendDescriptorType::VariantPack => Some(MiopenBackendDescriptorType::VariantPack),
        CudnnBackendDescriptorType::Tensor => Some(MiopenBackendDescriptorType::Tensor),
        CudnnBackendDescriptorType::Matmul => Some(MiopenBackendDescriptorType::Matmul),
        CudnnBackendDescriptorType::OperationMatmul => Some(
            MiopenBackendDescriptorType::OperationMatmul,
        ),
        CudnnBackendDescriptorType::Reduction => Some(MiopenBackendDescriptorType::Reduction),
        CudnnBackendDescriptorType::OperationReduction => Some(
            MiopenBackendDescriptorType::OperationReduction,
        ),
        CudnnBackendDescriptorType::Other => None,
    }
}

/// Converts the kind of a graph descriptor.
pub fn to_backend_descriptor_type(descriptor_type: CudnnBackendDescriptorType) -> (converted:
    MiopenBackendDescriptorType)
    requires
        backend_descriptor_type_spec(descriptor_type) is Some,
    ensures
        Some(converted) == backend_descriptor_type_spec(descriptor_type),
{
    match descriptor_type {
        CudnnBackendDescriptorType::Pointwise => MiopenBackendDescriptorType::Pointwise,
        CudnnBackendDescriptorType::Convolution => MiopenBackendDescriptorType::Convolution,
        CudnnBackendDescriptorType::Engine => MiopenBackendDescriptorType::Engine,
        CudnnBackendDescriptorType::EngineCfg => MiopenBackendDescriptorType::EngineCfg,
        CudnnBackendDescriptorType::EngineHeur => MiopenBackendDescriptorType::EngineHeur,
        CudnnBackendDescriptorType::ExecutionPlan => MiopenBackendDescriptorType::ExecutionPlan,
        CudnnBackendDescriptorType::KnobChoice => MiopenBackendDescriptorType::KnobChoice,
        CudnnBackendDescriptorType::OperationConvolutionForward => {
            MiopenBackendDescriptorType::OperationConvolutionForward
        },
        CudnnBackendDescriptorType::OperationConvolutionBackwardFilter => {
            MiopenBackendDescriptorType::OperationConvolutionBackwardFilter
        },
        CudnnBackendDescriptorType::OperationConvolutionBackwardData => {
            MiopenBackendDescriptorType::OperationConvolutionBackwardData
        },
        CudnnBackendDescriptorType::OperationPointwise => {
            MiopenBackendDescriptorType::OperationPointwise
        },
        CudnnBackendDescriptorType::OperationGraph => MiopenBackendDescriptorType::OperationGraph,
        CudnnBackendDescriptorType::VariantPack => MiopenBackendDescriptorType::VariantPack,
        CudnnBackendDescriptorType::Tensor => MiopenBackendDescriptorType::Tensor,
        CudnnBackendDescriptorType::Matmul => MiopenBackendDescriptorType::Matmul,
        CudnnBackendDescriptorType::OperationMatmul => MiopenBackendDescriptorType::OperationMatmul,
        CudnnBackendDescriptorType::Reduction => MiopenBackendDescriptorType::Reduction,
        _ => MiopenBackendDescriptorType::OperationReduction,
    }
}

/// Forward convolution algorithms a caller may name.
#[derive(Clone, Copy, Debug, PartialEq, Eq, Structural)]
pub enum CudnnConvolutionFwdAlgo {
    ImplicitGemm,
    ImplicitPrecompGemm,
    Gemm,
    Direct,
    Fft,
    FftTiling,
    Winograd,
    WinogradNonfused,
    Other,
}

/// Forward convolution algorithms of MIOpen.  `Other` stands for a value
/// found in a performance record that is none of the five.
#[derive(Clone, Copy, Debug, PartialEq, Eq, Structural)]
pub enum MiopenConvFwdAlgorithm {
    Gemm,
    Direct,
    Fft,
    Winograd,
    ImplicitGemm,
    Other,
}

/// Several cuDNN algorithms share one MIOpen algorithm; whatever has no
/// closer match is served by the matrix-multiplication algorithm.
pub open spec fn algo_from_cudnn_spec(algo: CudnnConvolutionFwdAlgo) -> MiopenConvFwdAlgorithm {
    match algo {
        CudnnConvolutionFwdAlgo::ImplicitGemm => MiopenConvFwdAlgorithm::ImplicitGemm,
        CudnnConvolutionFwdAlgo::Direct => MiopenConvFwdAlgorithm::Direct,
        CudnnConvolutionFwdAlgo::Fft | CudnnConvolutionFwdAlgo::FftTiling => {
            MiopenConvFwdAlgorithm::Fft
        },
        CudnnConvolutionFwdAlgo::Winograd | CudnnConvolutionFwdAlgo::WinogradNonfused => {
            MiopenConvFwdAlgorithm::Winograd
        },
        _ => MiopenConvFwdAlgorithm::Gemm,
    }
}

/// Converts the forward algorithm a caller asked for.
pub fn algo_from_cudnn(algo: CudnnConvolutionFwdAlgo) -> (converted: MiopenConvFwdAlgorithm)
    ensures
        converted == algo_from_cudnn_spec(algo),
        converted != MiopenConvFwdAlgorithm::Other,
{
    match algo {
        CudnnConvolutionFwdAlgo::ImplicitGemm => MiopenConvFwdAlgorithm::ImplicitGemm,
        CudnnConvolutionFwdAlgo::ImplicitPrecompGemm => MiopenConvFwdAlgorithm::Gemm,
        CudnnConvolutionFwdAlgo::Gemm => MiopenConvFwdAlgorithm::Gemm,
        CudnnConvolutionFwdAlgo::Direct => MiopenConvFwdAlgorithm::Direct,
        CudnnConvolutionFwdAlgo::Fft => MiopenConvFwdAlgorithm::Fft,
        CudnnConvolutionFwdAlgo::FftTiling => MiopenConvFwdAlgorithm::Fft,
        CudnnConvolutionFwdAlgo::Winograd => MiopenConvFwdAlgorithm::Winograd,
        CudnnConvolutionFwdAlgo::WinogradNonfused => MiopenConvFwdAlgorithm::Winograd,
        CudnnConvolutionFwdAlgo::Other => MiopenConvFwdAlgorithm::Gemm,
    }
}

/// Every algorithm of MIOpen has a namesake in cuDNN; a value that is none
/// of them is presented as the matrix-multiplication algorithm.
pub open spec fn algo_to_cudnn_spec(algo: MiopenConvFwdAlgorithm) -> CudnnConvolutionFwdAlgo {
    match algo {
        MiopenConvFwdAlgorithm::Direct => CudnnConvolutionFwdAlgo::Direct,
        MiopenConvFwdAlgorithm::Fft => CudnnConvolutionFwdAlgo::Fft,
        MiopenConvFwdAlgorithm::Winograd => CudnnConvolutionFwdAlgo::Winograd,
        MiopenConvFwdAlgorithm::ImplicitGemm => CudnnConvolutionFwdAlgo::ImplicitGemm,
        _ => CudnnConvolutionFwdAlgo::Gemm,
    }
}

/// Names a forward algorithm of MIOpen in cuDNN terms.
pub fn algo_to_cudnn(algo: MiopenConvFwdAlgorithm) -> (converted: CudnnConvolutionFwdAlgo)
    ensures
        converted == algo_to_cudnn_spec(algo),
        converted != CudnnConvolutionFwdAlgo::Other,
{
    match algo {
        MiopenConvFwdAlgorithm::Gemm => CudnnConvolutionFwdAlgo::Gemm,
        MiopenConvFwdAlgorithm::Direct => CudnnConvolutionFwdAlgo::Direct,
        MiopenConvFwdAlgorithm::Fft => CudnnConvolutionFwdAlgo::Fft,
        MiopenConvFwdAlgorithm::Winograd => CudnnConvolutionFwdAlgo::Winograd,
        MiopenConvFwdAlgorithm::ImplicitGemm => CudnnConvolutionFwdAlgo::ImplicitGemm,
        MiopenConvFwdAlgorithm::Other => CudnnConvolutionFwdAlgo::Gemm,
    }
}

/// Backward-data convolution algorithms a caller may name.
#[derive(Clone, Copy, Debug, PartialEq, Eq, Structural)]
pub enum CudnnConvolutionBwdDataAlgo {
    Algo0,
    Algo1,
    Fft,
    FftTiling,
    Winograd,
    WinogradNonfused,
    Other,
}

/// Backward-data convolution algorithms of MIOpen.
#[derive(Clone, Copy, Debug, PartialEq, Eq, Structural)]
pub enum MiopenConvBwdDataAlgorithm {
    Gemm,
    Direct,
    Fft,
    Winograd,
    TransposeGemm,
    ImplicitGemm,
    Other,
}

/// All three matrix-multiplication algorithms of MIOpen are presented as
/// cuDNN's algorithm 0, the direct algorithm as its algorithm 1.
pub open spec fn bwd_data_algo_to_cudnn_spec(algo: MiopenConvBwdDataAlgorithm) -> Option<
    CudnnConvolutionBwdDataAlgo,
> {
    match algo {
        MiopenConvBwdDataAlgorithm::Gemm
        | MiopenConvBwdDataAlgorithm::TransposeGemm
        | MiopenConvBwdDataAlgorithm::ImplicitGemm => Some(CudnnConvolutionBwdDataAlgo::Algo0),
        MiopenConvBwdDataAlgorithm::Direct => Some(CudnnConvolutionBwdDataAlgo::Algo1),
        MiopenConvBwdDataAlgorithm::Winograd => Some(CudnnConvolutionBwdDataAlgo::Winograd),
        MiopenConvBwdDataAlgorithm::Fft => Some(CudnnConvolutionBwdDataAlgo::Fft),
        MiopenConvBwdDataAlgorithm::Other => None,
    }
}

/// Names a backward-data algorithm of MIOpen in cuDNN terms.
pub fn bwd_data_algo_to_cudnn(algo: MiopenConvBwdDataAlgorithm) -> (converted:
    CudnnConvolutionBwdDataAlgo)
    requires
        bwd_data_algo_to_cudnn_spec(algo) is Some,
    ensures
        Some(converted) == bwd_data_algo_to_cudnn_spec(algo),
{
    match algo {
        MiopenConvBwdDataAlgorithm::Gemm => CudnnConvolutionBwdDataAlgo::Algo0,
        MiopenConvBwdDataAlgorithm::Direct => CudnnConvolutionBwdDataAlgo::Algo1,
        MiopenConvBwdDataAlgorithm::Winograd => CudnnConvolutionBwdDataAlgo::Winograd,
        MiopenConvBwdDataAlgorithm::Fft => CudnnConvolutionBwdDataAlgo::Fft,
        MiopenConvBwdDataAlgorithm::TransposeGemm => CudnnConvolutionBwdDataAlgo::Algo0,
        _ => CudnnConvolutionBwdDataAlgo::Algo0,
    }
}

/// Both variants of the Fourier and of the Winograd algorithm share one
/// algorithm of MIOpen.
pub open spec fn bwd_data_algo_from_cudnn_spec(algo: CudnnConvolutionBwdDataAlgo) -> Option<
    MiopenConvBwdDataAlgorithm,
> {
    match algo {
        CudnnConvolutionBwdDataAlgo::Algo0 => Some(MiopenConvBwdDataAlgorithm::Gemm),
        CudnnConvolutionBwdDataAlgo::Algo1 => Some(MiopenConvBwdDataAlgorithm::Direct),
        CudnnConvolutionBwdDataAlgo::Fft | CudnnConvolutionBwdDataAlgo::FftTiling => Some(
            MiopenConvBwdDataAlgorithm::Fft,
        ),
        CudnnConvolutionBwdDataAlgo::Winograd | CudnnConvolutionBwdDataAlgo::WinogradNonfused => {
            Some(MiopenConvBwdDataAlgorithm::Winograd)
        },
        CudnnConvolutionBwdDataAlgo::Other => None,
    }
}

/// Converts the backward-data algorithm a caller asked for.
pub fn bwd_data_algo_from_cudnn(algo: CudnnConvolutionBwdDataAlgo) -> (converted:
    MiopenConvBwdDataAlgorithm)
    requires
        bwd_data_algo_from_cudnn_spec(algo) is Some,
    ensures
        Some(converted) == bwd_data_algo_from_cudnn_spec(algo),
{
    match algo {
        CudnnConvolutionBwdDataAlgo::Algo0 => MiopenConvBwdDataAlgorithm::Gemm,
        CudnnConvolutionBwdDataAlgo::Algo1 => MiopenConvBwdDataAlgorithm::Direct,
        CudnnConvolutionBwdDataAlgo::Fft => MiopenConvBwdDataAlgorithm::Fft,
        CudnnConvolutionBwdDataAlgo::FftTiling => MiopenConvBwdDataAlgorithm::Fft,
        CudnnConvolutionBwdDataAlgo::Winograd => MiopenConvBwdDataAlgorithm::Winograd,
        _ => MiopenConvBwdDataAlgorithm::Winograd,
    }
}

/// An algorithm that MIOpen reports, named in cuDNN terms and handed back to
/// MIOpen, is the same algorithm again.
pub proof fn lemma_forward_algorithm_round_trip(algo: MiopenConvFwdAlgorithm)
    requires
        algo != MiopenConvFwdAlgorithm::Other,
    ensures
        algo_from_cudnn_spec(algo_to_cudnn_spec(algo)) == algo,
{
}

} // verus!
