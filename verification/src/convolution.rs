//! Convolutions: finding algorithms, choosing one, and the descriptors
//! that go with them; and the other operations that need more than a
//! conversion of their arguments.

use crate::negotiation::{Negotiation, Request, State};
use crate::status::CudnnStatus;
use crate::convert::{
    algo_from_cudnn, algo_from_cudnn_spec, algo_to_cudnn, algo_to_cudnn_spec, batch_norm_mode,
    batch_norm_mode_spec, bwd_data_algo_to_cudnn, bwd_data_algo_to_cudnn_spec, conv_mode_spec,
    to_conv_mode, CudnnBatchNormMode, CudnnConvolutionBwdDataAlgo, CudnnConvolutionFwdAlgo,
    CudnnConvolutionMode, MiopenBatchNormMode, MiopenConvBwdDataAlgorithm, MiopenConvFwdAlgorithm,
    MiopenConvolutionMode,
};
use vstd::prelude::*;

verus! {

/// How many candidates a convolution asks for when it looks for its
/// algorithm.
pub const FORWARD_CANDIDATES: i32 = 32;

/// One candidate found by a search of MIOpen.
///
/// MIOpen keeps the algorithm in one field for all directions; it is held
/// here in both readings.  `time` is the bit pattern of the estimated time,
/// a single-precision number.
#[derive(Clone, Copy, Debug, PartialEq, Eq, Structural)]
pub struct MiopenConvAlgoPerf {
    pub fwd_algo: MiopenConvFwdAlgorithm,
    pub bwd_data_algo: MiopenConvBwdDataAlgorithm,
    pub time: u32,
    pub memory: usize,
}

/// Whether an algorithm gives the same result on every run.
#[derive(Clone, Copy, Debug, PartialEq, Eq, Structural)]
pub enum CudnnDeterminism {
    NonDeterministic,
    Deterministic,
}

/// The arithmetic an algorithm may use.
#[derive(Clone, Copy, Debug, PartialEq, Eq, Structural)]
pub enum CudnnMathType {
    Default,
    TensorOp,
    TensorOpAllowConversion,
    Fma,
}

/// One candidate for a forward convolution, as cuDNN's callers see it.
#[derive(Clone, Copy, Debug, PartialEq, Eq, Structural)]
pub struct CudnnConvolutionFwdAlgoPerf {
    pub algo: CudnnConvolutionFwdAlgo,
    pub status: CudnnStatus,
    pub time: u32,
    pub memory: usize,
    pub determinism: CudnnDeterminism,
    pub math_type: CudnnMathType,
}

/// One candidate for a backward-data convolution, as cuDNN's callers see
/// it.
#[derive(Clone, Copy, Debug, PartialEq, Eq, Structural)]
pub struct CudnnConvolutionBwdDataAlgoPerf {
    pub algo: CudnnConvolutionBwdDataAlgo,
    pub status: CudnnStatus,
    pub time: u32,
    pub memory: usize,
    pub determinism: CudnnDeterminism,
    pub math_type: CudnnMathType,
}

/// Time and memory are MIOpen's estimates.  MIOpen says nothing about
/// determinism and math modes, so every candidate is presented as not
/// deterministic and as using the default math.
pub open spec fn algoperf_to_cudnn_spec(result: MiopenConvAlgoPerf) -> CudnnConvolutionFwdAlgoPerf {
    CudnnConvolutionFwdAlgoPerf {
        algo: algo_to_cudnn_spec(result.fwd_algo),
        status: CudnnStatus::Success,
        time: result.time,
        memory: result.memory,
        determinism: CudnnDeterminism::NonDeterministic,
        math_type: CudnnMathType::Default,
    }
}

/// Presents a candidate for a forward convolution to cuDNN's callers.
pub fn algoperf_to_cudnn(result: MiopenConvAlgoPerf) -> (converted: CudnnConvolutionFwdAlgoPerf)
    ensures
        converted == algoperf_to_cudnn_spec(result),
{
    CudnnConvolutionFwdAlgoPerf {
        algo: algo_to_cudnn(result.fwd_algo),
        status: CudnnStatus::Success,
        time: result.time,
        memory: result.memory,
        determinism: CudnnDeterminism::NonDeterministic,
        math_type: CudnnMathType::Default,
    }
}

/// As for a forward candidate: MIOpen's estimates, not deterministic, default
/// math.
pub open spec fn convert_bwd_algo_spec(
    result: MiopenConvAlgoPerf,
) -> CudnnConvolutionBwdDataAlgoPerf {
    CudnnConvolutionBwdDataAlgoPerf {
        algo: bwd_data_algo_to_cudnn_spec(result.bwd_data_algo)->0,
        status: CudnnStatus::Success,
        time: result.time,
        memory: result.memory,
        determinism: CudnnDeterminism::NonDeterministic,
        math_type: CudnnMathType::Default,
    }
}

/// Presents a candidate for a backward-data convolution to cuDNN's
/// callers.
pub fn convert_bwd_algo(result: MiopenConvAlgoPerf) -> (converted: CudnnConvolutionBwdDataAlgoPerf)
    requires
        bwd_data_algo_to_cudnn_spec(result.bwd_data_algo) is Some,
    ensures
        converted == convert_bwd_algo_spec(result),
{
    CudnnConvolutionBwdDataAlgoPerf {
        algo: bwd_data_algo_to_cudnn(result.bwd_data_algo),
        status: CudnnStatus::Success,
        time: result.time,
        memory: result.memory,
        determinism: CudnnDeterminism::NonDeterministic,
        math_type: CudnnMathType::Default,
    }
}

/// How many of the records of a search hold a candidate: as many as MIOpen
/// says it returned, but no more than there are records.
pub open spec fn returned(records: int, returned_algo_count: i32) -> int {
    if returned_algo_count < 0 {
        0
    } else if returned_algo_count > records {
        records
    } else {
        returned_algo_count as int
    }
}

fn returned_records(records: usize, returned_algo_count: i32) -> (count: usize)
    ensures
        count == returned(records as int, returned_algo_count),
{
    if returned_algo_count < 0 {
        0
    } else if returned_algo_count as usize > records {
        records
    } else {
        returned_algo_count as usize
    }
}

/// Begins the search for the algorithms of a forward convolution when the
/// caller supplied no buffers: input, filter and output get a buffer each,
/// and the workspace is as large as MIOpen asks.
pub fn find_convolution_forward_algorithm() -> (begun: (Negotiation, Request))
    ensures
        begun.0@ == State::start(3, None),
        begun.0@.wf(),
        begun.1 == Request::TensorBytes(0),
{
    let negotiation = Negotiation::new(3, None);
    let request = negotiation.pending();
    (negotiation, request)
}

/// Presents the candidates that a search for forward algorithms returned,
/// best first as MIOpen ranked them.
pub fn find_convolution_forward_algorithm_ex(
    perf_results: &Vec<MiopenConvAlgoPerf>,
    returned_algo_count: i32,
) -> (converted: Vec<CudnnConvolutionFwdAlgoPerf>)
    ensures
        converted@.len() == returned(perf_results@.len() as int, returned_algo_count),
        forall|i: int|
            0 <= i < converted@.len() ==> converted@[i] == algoperf_to_cudnn_spec(
                perf_results@[i],
            ),
{
    let count = returned_records(perf_results.len(), returned_algo_count);
    let mut converted: Vec<CudnnConvolutionFwdAlgoPerf> = Vec::new();
    let mut i: usize = 0;
    while i < count
        invariant
            i <= count <= perf_results@.len(),
            converted@.len() == i,
            forall|j: int|
                0 <= j < i ==> converted@[j] == algoperf_to_cudnn_spec(perf_results@[j]),
        decreases count - i,
    {
        converted.push(algoperf_to_cudnn(perf_results[i]));
        i += 1;
    }
    converted
}

/// Begins the search for the algorithms of a backward-data convolution:
/// output gradient, filter and input gradient get a buffer each, and the
/// workspace keeps within the caller's limit.
pub fn get_convolution_backward_data_algorithm_v7(memory_limit_in_bytes: usize) -> (begun: (
    Negotiation,
    Request,
))
    ensures
        begun.0@ == State::start(3, Some(memory_limit_in_bytes)),
        begun.0@.wf(),
        begun.1 == Request::TensorBytes(0),
{
    let negotiation = Negotiation::new(3, Some(memory_limit_in_bytes));
    let request = negotiation.pending();
    (negotiation, request)
}

/// Whether the candidates that a search returned all name an algorithm
/// that has a cuDNN counterpart.
pub open spec fn presentable(perf_results: Seq<MiopenConvAlgoPerf>, returned_algo_count: i32) -> bool {
    forall|i: int|
        0 <= i < returned(perf_results.len() as int, returned_algo_count)
            ==> bwd_data_algo_to_cudnn_spec((#[trigger] perf_results[i]).bwd_data_algo) is Some
}

/// Executable form of [`presentable`].
pub fn is_presentable(perf_results: &Vec<MiopenConvAlgoPerf>, returned_algo_count: i32) -> (ok:
    bool)
    ensures
        ok == presentable(perf_results@, returned_algo_count),
{
    let count = returned_records(perf_results.len(), returned_algo_count);
    let mut i: usize = 0;
    while i < count
        invariant
            i <= count <= perf_results@.len(),
            count == returned(perf_results@.len() as int, returned_algo_count),
            forall|j: int|
                0 <= j < i ==> bwd_data_algo_to_cudnn_spec(
                    (#[trigger] perf_results@[j]).bwd_data_algo,
                ) is Some,
        decreases count - i,
    {
        if matches!(perf_results[i].bwd_data_algo, MiopenConvBwdDataAlgorithm::Other) {
            return false;
        }
        i += 1;
    }
    true
}

/// Presents the candidates that a search for backward-data algorithms
/// returned, best first as MIOpen ranked them.
pub fn backward_data_algorithms_found(
    perf_results: &Vec<MiopenConvAlgoPerf>,
    returned_algo_count: i32,
) -> (converted: Vec<CudnnConvolutionBwdDataAlgoPerf>)
    requires
        presentable(perf_results@, returned_algo_count),
    ensures
        converted@.len() == returned(perf_results@.len() as int, returned_algo_count),
        forall|i: int|
            0 <= i < converted@.len() ==> converted@[i] == convert_bwd_algo_spec(
                perf_results@[i],
            ),
{
    let count = returned_records(perf_results.len(), returned_algo_count);
    let mut converted: Vec<CudnnConvolutionBwdDataAlgoPerf> = Vec::new();
    let mut i: usize = 0;
    while i < count
        invariant
            i <= count <= perf_results@.len(),
            count == returned(perf_results@.len() as int, returned_algo_count),
            presentable(perf_results@, returned_algo_count),
            converted@.len() == i,
            forall|j: int| 0 <= j < i ==> converted@[j] == convert_bwd_algo_spec(perf_results@[j]),
        decreases count - i,
    {
        converted.push(convert_bwd_algo(perf_results[i]));
        i += 1;
    }
    converted
}

/// Whether an algorithm is among the candidates.
pub open spec fn offered(candidates: Seq<MiopenConvAlgoPerf>, algo: MiopenConvFwdAlgorithm) -> bool {
    exists|i: int| 0 <= i < candidates.len() && (#[trigger] candidates[i]).fwd_algo == algo
}

/// The algorithm that a forward convolution runs with: the one that the
/// caller asked for if it is among the candidates for the shapes at hand,
/// and else the candidate that MIOpen ranked first.
pub open spec fn chosen(
    algo: CudnnConvolutionFwdAlgo,
    candidates: Seq<MiopenConvAlgoPerf>,
) -> MiopenConvFwdAlgorithm {
    if offered(candidates, algo_from_cudnn_spec(algo)) {
        algo_from_cudnn_spec(algo)
    } else {
        candidates[0].fwd_algo
    }
}

/// Begins a forward convolution.  The algorithm that the caller names may
/// have been found for other shapes, so the candidates for the shapes at
/// hand are looked for first, on buffers of the bridge's own.
pub fn convolution_forward() -> (begun: (Negotiation, Request))
    ensures
        begun.0@ == State::start(3, None),
        begun.0@.wf(),
        begun.1 == Request::TensorBytes(0),
{
    let negotiation = Negotiation::new(3, None);
    let request = negotiation.pending();
    (negotiation, request)
}

/// Chooses the algorithm of a forward convolution once the search for
/// candidates is over.
///
/// `searched` is the status that the search ended with.  A search that
/// failed is reported with its own status.  A search without candidates
/// means that the convolution is not supported.  Otherwise the convolution
/// runs with the algorithm returned.
pub fn convolution_forward_algorithm(
    searched: CudnnStatus,
    algo: CudnnConvolutionFwdAlgo,
    perf_results: &Vec<MiopenConvAlgoPerf>,
    algo_count: i32,
) -> (choice: Result<MiopenConvFwdAlgorithm, CudnnStatus>)
    requires
        searched == CudnnStatus::Success ==> 0 <= algo_count <= perf_results@.len(),
    ensures
        searched != CudnnStatus::Success ==> choice == Err::<MiopenConvFwdAlgorithm, _>(searched),
        searched == CudnnStatus::Success && algo_count == 0 ==> choice == Err::<
            MiopenConvFwdAlgorithm,
            _,
        >(CudnnStatus::NotSupported),
        searched == CudnnStatus::Success && algo_count > 0 ==> choice == Ok::<_, CudnnStatus>(
            chosen(algo, perf_results@.take(algo_count as int)),
        ),
{
    if searched != CudnnStatus::Success {
        return Err(searched);
    }
    if algo_count == 0 {
        return Err(CudnnStatus::NotSupported);
    }
    let wanted = algo_from_cudnn(algo);
    let count = algo_count as usize;
    let ghost candidates = perf_results@.take(algo_count as int);
    let mut i: usize = 0;
    while i < count
        invariant
            i <= count <= perf_results@.len(),
            searched == CudnnStatus::Success,
            0 < algo_count == count,
            wanted == algo_from_cudnn_spec(algo),
            candidates == perf_results@.take(count as int),
            forall|j: int| 0 <= j < i ==> (#[trigger] candidates[j]).fwd_algo != wanted,
        decreases count - i,
    {
        if perf_results[i].fwd_algo == wanted {
            assert(candidates[i as int].fwd_algo == wanted);
            return Ok(wanted);
        }
        i += 1;
    }
    assert(!offered(candidates, wanted));
    Ok(perf_results[0].fwd_algo)
}

/// The algorithm of a fused convolution with bias and activation.  The
/// fused operation has no Winograd variant and runs the direct algorithm in
/// its place.
pub open spec fn fused_algorithm(algo: CudnnConvolutionFwdAlgo) -> MiopenConvFwdAlgorithm {
    if algo_from_cudnn_spec(algo) == MiopenConvFwdAlgorithm::Winograd {
        MiopenConvFwdAlgorithm::Direct
    } else {
        algo_from_cudnn_spec(algo)
    }
}

/// Chooses the algorithm of a fused convolution with bias and activation.
pub fn convolution_bias_activation_forward(algo: CudnnConvolutionFwdAlgo) -> (converted:
    MiopenConvFwdAlgorithm)
    ensures
        converted == fused_algorithm(algo),
        converted != MiopenConvFwdAlgorithm::Winograd,
{
    let mut algo = algo_from_cudnn(algo);
    if algo == MiopenConvFwdAlgorithm::Winograd {
        algo = MiopenConvFwdAlgorithm::Direct;
    }
    algo
}

/// The arguments with which MIOpen is asked for the workspace of a forward
/// convolution.
#[derive(Clone, Copy, Debug, PartialEq, Eq, Structural)]
pub struct ForwardWorkspaceQuery {
    pub handle: usize,
    pub w_desc: usize,
    pub x_desc: usize,
    pub conv_desc: usize,
    pub y_desc: usize,
}

/// Arranges the question for the workspace of a forward convolution the
/// way MIOpen takes it: the filter comes before the input, and the size
/// does not depend on an algorithm.
pub fn get_convolution_forward_workspace_size(
    handle: usize,
    x_desc: usize,
    w_desc: usize,
    conv_desc: usize,
    y_desc: usize,
    _algo: CudnnConvolutionFwdAlgo,
) -> (query: ForwardWorkspaceQuery)
    ensures
        query == (ForwardWorkspaceQuery { handle, w_desc, x_desc, conv_desc, y_desc }),
{
    ForwardWorkspaceQuery { handle, w_desc, x_desc, conv_desc, y_desc }
}

/// The arguments with which MIOpen is asked for the workspace of a
/// backward-data convolution.
#[derive(Clone, Copy, Debug, PartialEq, Eq, Structural)]
pub struct BackwardDataWorkspaceQuery {
    pub handle: usize,
    pub dy_desc: usize,
    pub w_desc: usize,
    pub conv_desc: usize,
    pub dx_desc: usize,
}

/// Arranges the question for the workspace of a backward-data convolution
/// the way MIOpen takes it: the output gradient comes before the filter.
pub fn get_convolution_backward_data_workspace_size(
    handle: usize,
    w_desc: usize,
    dy_desc: usize,
    conv_desc: usize,
    dx_desc: usize,
    _algo: CudnnConvolutionBwdDataAlgo,
) -> (query: BackwardDataWorkspaceQuery)
    ensures
        query == (BackwardDataWorkspaceQuery { handle, dy_desc, w_desc, conv_desc, dx_desc }),
{
    BackwardDataWorkspaceQuery { handle, dy_desc, w_desc, conv_desc, dx_desc }
}

/// The arguments with which MIOpen sets up a two-dimensional convolution.
#[derive(Clone, Copy, Debug, PartialEq, Eq, Structural)]
pub struct ConvolutionSetup {
    pub mode: MiopenConvolutionMode,
    pub pad_h: i32,
    pub pad_w: i32,
    pub stride_h: i32,
    pub stride_w: i32,
    pub dilation_h: i32,
    pub dilation_w: i32,
}

/// Takes apart the arrays that describe a convolution.  Only convolutions
/// over two spatial dimensions can be set up.
pub fn set_convolution_nd_descriptor(
    array_length: i32,
    pad_a: &[i32],
    filter_stride_a: &[i32],
    dilation_a: &[i32],
    mode: CudnnConvolutionMode,
) -> (setup: ConvolutionSetup)
    requires
        array_length == 2,
        pad_a@.len() == 2,
        filter_stride_a@.len() == 2,
        dilation_a@.len() == 2,
        conv_mode_spec(mode) is Some,
    ensures
        setup == (ConvolutionSetup {
            mode: conv_mode_spec(mode)->0,
            pad_h: pad_a@[0],
            pad_w: pad_a@[1],
            stride_h: filter_stride_a@[0],
            stride_w: filter_stride_a@[1],
            dilation_h: dilation_a@[0],
            dilation_w: dilation_a@[1],
        }),
{
    let pad_h = pad_a[0];
    let pad_w = pad_a[1];
    let u = filter_stride_a[0];
    let v = filter_stride_a[1];
    let d_h = dilation_a[0];
    let d_w = dilation_a[1];
    let mode = to_conv_mode(mode);
    ConvolutionSetup {
        mode,
        pad_h,
        pad_w,
        stride_h: u,
        stride_w: v,
        dilation_h: d_h,
        dilation_w: d_w,
    }
}

/// What a batch normalization layer computes besides the normalization.
#[derive(Clone, Copy, Debug, PartialEq, Eq, Structural)]
pub enum CudnnBatchNormOps {
    Bn,
    BnActivation,
    BnAddActivation,
    Other,
}

/// The mode in which MIOpen runs a batch normalization during training, or
/// the refusal.  The persistent mode and fused activations are not
/// supported.
pub open spec fn batch_normalization_spec(
    mode: CudnnBatchNormMode,
    bn_ops: CudnnBatchNormOps,
) -> Result<MiopenBatchNormMode, CudnnStatus> {
    if mode == CudnnBatchNormMode::SpatialPersistent || bn_ops != CudnnBatchNormOps::Bn {
        Err(CudnnStatus::NotSupported)
    } else {
        Ok(batch_norm_mode_spec(mode)->0)
    }
}

fn batch_normalization(mode: CudnnBatchNormMode, bn_ops: CudnnBatchNormOps) -> (decision: Result<
    MiopenBatchNormMode,
    CudnnStatus,
>)
    requires
        bn_ops == CudnnBatchNormOps::Bn ==> mode != CudnnBatchNormMode::Other,
    ensures
        decision == batch_normalization_spec(mode, bn_ops),
{
    if mode == CudnnBatchNormMode::SpatialPersistent {
        return Err(CudnnStatus::NotSupported);
    }
    if bn_ops != CudnnBatchNormOps::Bn {
        return Err(CudnnStatus::NotSupported);
    }
    Ok(batch_norm_mode(mode))
}

/// Decides how the forward pass of a batch normalization runs during
/// training.
pub fn batch_normalization_forward_training_ex(
    mode: CudnnBatchNormMode,
    bn_ops: CudnnBatchNormOps,
) -> (decision: Result<MiopenBatchNormMode, CudnnStatus>)
    requires
        bn_ops == CudnnBatchNormOps::Bn ==> mode != CudnnBatchNormMode::Other,
    ensures
        decision == batch_normalization_spec(mode, bn_ops),
{
    batch_normalization(mode, bn_ops)
}

/// Decides how the backward pass of a batch normalization runs.
pub fn batch_normalization_backward_ex(mode: CudnnBatchNormMode, bn_ops: CudnnBatchNormOps) -> (decision:
    Result<MiopenBatchNormMode, CudnnStatus>)
    requires
        bn_ops == CudnnBatchNormOps::Bn ==> mode != CudnnBatchNormMode::Other,
    ensures
        decision == batch_normalization_spec(mode, bn_ops),
{
    batch_normalization(mode, bn_ops)
}

/// Decides how a batch normalization runs at inference.
pub fn batch_normalization_forward_inference(mode: CudnnBatchNormMode) -> (decision: Result<
    MiopenBatchNormMode,
    CudnnStatus,
>)
    requires
        mode != CudnnBatchNormMode::Other,
    ensures
        decision == batch_normalization_spec(mode, CudnnBatchNormOps::Bn),
{
    batch_normalization(mode, CudnnBatchNormOps::Bn)
}

/// Begins a pooling.  MIOpen wants a workspace for it, which the caller
/// does not supply.
pub fn pooling_forward() -> (begun: (Negotiation, Request))
    ensures
        begun.0@ == State::start(0, None),
        begun.0@.wf(),
        begun.1 == Request::WorkspaceBytes,
{
    let negotiation = Negotiation::new(0, None);
    let request = negotiation.pending();
    (negotiation, request)
}

/// A convolution never runs with an algorithm that MIOpen did not offer for
/// the shapes at hand.  If the algorithm that the caller asked for is not
/// among the candidates, the convolution runs with the candidate ranked
/// first, which is then not the one asked for.
pub proof fn lemma_substitute_is_top_ranked(
    algo: CudnnConvolutionFwdAlgo,
    candidates: Seq<MiopenConvAlgoPerf>,
)
    requires
        candidates.len() > 0,
    ensures
        offered(candidates, chosen(algo, candidates)),
        !offered(candidates, algo_from_cudnn_spec(algo)) ==> chosen(algo, candidates)
            == candidates[0].fwd_algo && chosen(algo, candidates) != algo_from_cudnn_spec(algo),
        offered(candidates, algo_from_cudnn_spec(algo)) ==> chosen(algo, candidates)
            == algo_from_cudnn_spec(algo),
{
}

} // verus!
