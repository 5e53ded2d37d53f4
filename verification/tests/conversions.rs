use zluda_dnn::convert::{
    activation_mode, algo_from_cudnn, algo_to_cudnn, batch_norm_mode, bwd_data_algo_from_cudnn,
    bwd_data_algo_to_cudnn, pooling_from_cudnn, softmax_algo, softmax_mode,
    to_backend_descriptor_type, to_conv_mode, to_data_type, to_pointwise_mode,
    to_reduce_tensor_op, CudnnActivationMode, CudnnBackendDescriptorType, CudnnBatchNormMode,
    CudnnConvolutionBwdDataAlgo, CudnnConvolutionFwdAlgo, CudnnConvolutionMode, CudnnDataType,
    CudnnPointwiseMode, CudnnPoolingMode, CudnnReduceTensorOp, CudnnSoftmaxAlgorithm,
    CudnnSoftmaxMode, MiopenActivationMode, MiopenBackendDescriptorType, MiopenBatchNormMode,
    MiopenConvBwdDataAlgorithm, MiopenConvFwdAlgorithm, MiopenConvolutionMode, MiopenDataType,
    MiopenPointwiseMode, MiopenPoolingMode, MiopenReduceTensorOp, MiopenSoftmaxAlgorithm,
    MiopenSoftmaxMode,
};

#[test]
fn data_types_keep_their_names() {
    assert_eq!(to_data_type(CudnnDataType::Float), MiopenDataType::Float);
    assert_eq!(to_data_type(CudnnDataType::Double), MiopenDataType::Double);
    assert_eq!(to_data_type(CudnnDataType::Half), MiopenDataType::Half);
    assert_eq!(to_data_type(CudnnDataType::Int32), MiopenDataType::Int32);
    assert_eq!(to_data_type(CudnnDataType::BFloat16), MiopenDataType::BFloat16);
}

#[test]
fn cross_correlation_is_plain_convolution() {
    assert_eq!(
        to_conv_mode(CudnnConvolutionMode::CrossCorrelation),
        MiopenConvolutionMode::Convolution
    );
    assert_eq!(to_conv_mode(CudnnConvolutionMode::Convolution), MiopenConvolutionMode::Transpose);
}

#[test]
fn pointwise_modes_keep_their_names() {
    assert_eq!(to_pointwise_mode(CudnnPointwiseMode::Add), MiopenPointwiseMode::Add);
    assert_eq!(to_pointwise_mode(CudnnPointwiseMode::Mul), MiopenPointwiseMode::Mul);
    assert_eq!(to_pointwise_mode(CudnnPointwiseMode::Div), MiopenPointwiseMode::Div);
    assert_eq!(to_pointwise_mode(CudnnPointwiseMode::Sub), MiopenPointwiseMode::Sub);
    assert_eq!(to_pointwise_mode(CudnnPointwiseMode::Exp), MiopenPointwiseMode::Exp);
    assert_eq!(to_pointwise_mode(CudnnPointwiseMode::Log), MiopenPointwiseMode::Log);
}

#[test]
fn reduction_operators_keep_their_names() {
    assert_eq!(to_reduce_tensor_op(CudnnReduceTensorOp::Add), MiopenReduceTensorOp::Add);
    assert_eq!(to_reduce_tensor_op(CudnnReduceTensorOp::Max), MiopenReduceTensorOp::Max);
}

#[test]
fn average_pooling_modes_are_told_apart() {
    assert_eq!(pooling_from_cudnn(CudnnPoolingMode::Max), MiopenPoolingMode::Max);
    assert_eq!(
        pooling_from_cudnn(CudnnPoolingMode::AverageCountIncludePadding),
        MiopenPoolingMode::AverageInclusive
    );
    assert_eq!(
        pooling_from_cudnn(CudnnPoolingMode::AverageCountExcludePadding),
        MiopenPoolingMode::Average
    );
}

#[test]
fn activation_modes_find_their_counterparts() {
    assert_eq!(activation_mode(CudnnActivationMode::Sigmoid), MiopenActivationMode::Logistic);
    assert_eq!(activation_mode(CudnnActivationMode::Relu), MiopenActivationMode::Relu);
    assert_eq!(activation_mode(CudnnActivationMode::Tanh), MiopenActivationMode::Tanh);
    assert_eq!(
        activation_mode(CudnnActivationMode::ClippedRelu),
        MiopenActivationMode::ClippedRelu
    );
    assert_eq!(activation_mode(CudnnActivationMode::Elu), MiopenActivationMode::Elu);
    assert_eq!(activation_mode(CudnnActivationMode::Identity), MiopenActivationMode::PassThru);
}

#[test]
fn batch_norm_modes_keep_their_names() {
    assert_eq!(
        batch_norm_mode(CudnnBatchNormMode::PerActivation),
        MiopenBatchNormMode::PerActivation
    );
    assert_eq!(batch_norm_mode(CudnnBatchNormMode::Spatial), MiopenBatchNormMode::Spatial);
}

#[test]
fn softmax_settings_keep_their_names() {
    assert_eq!(softmax_algo(CudnnSoftmaxAlgorithm::Fast), MiopenSoftmaxAlgorithm::Fast);
    assert_eq!(softmax_algo(CudnnSoftmaxAlgorithm::Accurate), MiopenSoftmaxAlgorithm::Accurate);
    assert_eq!(softmax_algo(CudnnSoftmaxAlgorithm::Log), MiopenSoftmaxAlgorithm::Log);
    assert_eq!(softmax_mode(CudnnSoftmaxMode::Instance), MiopenSoftmaxMode::Instance);
    assert_eq!(softmax_mode(CudnnSoftmaxMode::Channel), MiopenSoftmaxMode::Channel);
}

#[test]
fn descriptor_types_keep_their_names() {
    let pairs = [
        (CudnnBackendDescriptorType::Pointwise, MiopenBackendDescriptorType::Pointwise),
        (CudnnBackendDescriptorType::Convolution, MiopenBackendDescriptorType::Convolution),
        (CudnnBackendDescriptorType::Engine, MiopenBackendDescriptorType::Engine),
        (CudnnBackendDescriptorType::EngineCfg, MiopenBackendDescriptorType::EngineCfg),
        (CudnnBackendDescriptorType::EngineHeur, MiopenBackendDescriptorType::EngineHeur),
        (CudnnBackendDescriptorType::ExecutionPlan, MiopenBackendDescriptorType::ExecutionPlan),
        (CudnnBackendDescriptorType::KnobChoice, MiopenBackendDescriptorType::KnobChoice),
        (
            CudnnBackendDescriptorType::OperationConvolutionForward,
            MiopenBackendDescriptorType::OperationConvolutionForward,
        ),
        (
            CudnnBackendDescriptorType::OperationConvolutionBackwardFilter,
            MiopenBackendDescriptorType::OperationConvolutionBackwardFilter,
        ),
        (
            CudnnBackendDescriptorType::OperationConvolutionBackwardData,
            MiopenBackendDescriptorType::OperationConvolutionBackwardData,
        ),
        (
            CudnnBackendDescriptorType::OperationPointwise,
            MiopenBackendDescriptorType::OperationPointwise,
        ),
        (CudnnBackendDescriptorType::OperationGraph, MiopenBackendDescriptorType::OperationGraph),
        (CudnnBackendDescriptorType::VariantPack, MiopenBackendDescriptorType::VariantPack),
        (CudnnBackendDescriptorType::Tensor, MiopenBackendDescriptorType::Tensor),
        (CudnnBackendDescriptorType::Matmul, MiopenBackendDescriptorType::Matmul),
        (
            CudnnBackendDescriptorType::OperationMatmul,
            MiopenBackendDescriptorType::OperationMatmul,
        ),
        (CudnnBackendDescriptorType::Reduction, MiopenBackendDescriptorType::Reduction),
        (
            CudnnBackendDescriptorType::OperationReduction,
            MiopenBackendDescriptorType::OperationReduction,
        ),
    ];
    for (from, to) in pairs {
        assert_eq!(to_backend_descriptor_type(from), to);
    }
}

#[test]
fn forward_algorithms_share_their_counterparts() {
    assert_eq!(
        algo_from_cudnn(CudnnConvolutionFwdAlgo::ImplicitGemm),
        MiopenConvFwdAlgorithm::ImplicitGemm
    );
    assert_eq!(
        algo_from_cudnn(CudnnConvolutionFwdAlgo::ImplicitPrecompGemm),
        MiopenConvFwdAlgorithm::Gemm
    );
    assert_eq!(algo_from_cudnn(CudnnConvolutionFwdAlgo::Gemm), MiopenConvFwdAlgorithm::Gemm);
    assert_eq!(algo_from_cudnn(CudnnConvolutionFwdAlgo::Direct), MiopenConvFwdAlgorithm::Direct);
    assert_eq!(algo_from_cudnn(CudnnConvolutionFwdAlgo::Fft), MiopenConvFwdAlgorithm::Fft);
    assert_eq!(algo_from_cudnn(CudnnConvolutionFwdAlgo::FftTiling), MiopenConvFwdAlgorithm::Fft);
    assert_eq!(
        algo_from_cudnn(CudnnConvolutionFwdAlgo::Winograd),
        MiopenConvFwdAlgorithm::Winograd
    );
    assert_eq!(
        algo_from_cudnn(CudnnConvolutionFwdAlgo::WinogradNonfused),
        MiopenConvFwdAlgorithm::Winograd
    );
}

#[test]
fn unknown_forward_algorithm_falls_back_to_gemm() {
    assert_eq!(algo_from_cudnn(CudnnConvolutionFwdAlgo::Other), MiopenConvFwdAlgorithm::Gemm);
    assert_eq!(algo_to_cudnn(MiopenConvFwdAlgorithm::Other), CudnnConvolutionFwdAlgo::Gemm);
}

#[test]
fn forward_algorithms_are_named_in_cudnn_terms() {
    assert_eq!(algo_to_cudnn(MiopenConvFwdAlgorithm::Gemm), CudnnConvolutionFwdAlgo::Gemm);
    assert_eq!(algo_to_cudnn(MiopenConvFwdAlgorithm::Direct), CudnnConvolutionFwdAlgo::Direct);
    assert_eq!(algo_to_cudnn(MiopenConvFwdAlgorithm::Fft), CudnnConvolutionFwdAlgo::Fft);
    assert_eq!(algo_to_cudnn(MiopenConvFwdAlgorithm::Winograd), CudnnConvolutionFwdAlgo::Winograd);
    assert_eq!(
        algo_to_cudnn(MiopenConvFwdAlgorithm::ImplicitGemm),
        CudnnConvolutionFwdAlgo::ImplicitGemm
    );
}

#[test]
fn forward_algorithm_round_trip() {
    let algorithms = [
        MiopenConvFwdAlgorithm::Gemm,
        MiopenConvFwdAlgorithm::Direct,
        MiopenConvFwdAlgorithm::Fft,
        MiopenConvFwdAlgorithm::Winograd,
        MiopenConvFwdAlgorithm::ImplicitGemm,
    ];
    for algorithm in algorithms {
        assert_eq!(algo_from_cudnn(algo_to_cudnn(algorithm)), algorithm);
    }
}

#[test]
fn backward_data_algorithms_are_named_in_cudnn_terms() {
    assert_eq!(
        bwd_data_algo_to_cudnn(MiopenConvBwdDataAlgorithm::Gemm),
        CudnnConvolutionBwdDataAlgo::Algo0
    );
    assert_eq!(
        bwd_data_algo_to_cudnn(MiopenConvBwdDataAlgorithm::Direct),
        CudnnConvolutionBwdDataAlgo::Algo1
    );
    assert_eq!(
        bwd_data_algo_to_cudnn(MiopenConvBwdDataAlgorithm::Winograd),
        CudnnConvolutionBwdDataAlgo::Winograd
    );
    assert_eq!(
        bwd_data_algo_to_cudnn(MiopenConvBwdDataAlgorithm::Fft),
        CudnnConvolutionBwdDataAlgo::Fft
    );
    assert_eq!(
        bwd_data_algo_to_cudnn(MiopenConvBwdDataAlgorithm::TransposeGemm),
        CudnnConvolutionBwdDataAlgo::Algo0
    );
    assert_eq!(
        bwd_data_algo_to_cudnn(MiopenConvBwdDataAlgorithm::ImplicitGemm),
        CudnnConvolutionBwdDataAlgo::Algo0
    );
}

#[test]
fn backward_data_algorithms_find_their_counterparts() {
    assert_eq!(
        bwd_data_algo_from_cudnn(CudnnConvolutionBwdDataAlgo::Algo0),
        MiopenConvBwdDataAlgorithm::Gemm
    );
    assert_eq!(
        bwd_data_algo_from_cudnn(CudnnConvolutionBwdDataAlgo::Algo1),
        MiopenConvBwdDataAlgorithm::Direct
    );
    assert_eq!(
        bwd_data_algo_from_cudnn(CudnnConvolutionBwdDataAlgo::Fft),
        MiopenConvBwdDataAlgorithm::Fft
    );
    assert_eq!(
        bwd_data_algo_from_cudnn(CudnnConvolutionBwdDataAlgo::FftTiling),
        MiopenConvBwdDataAlgorithm::Fft
    );
    assert_eq!(
        bwd_data_algo_from_cudnn(CudnnConvolutionBwdDataAlgo::Winograd),
        MiopenConvBwdDataAlgorithm::Winograd
    );
    assert_eq!(
        bwd_data_algo_from_cudnn(CudnnConvolutionBwdDataAlgo::WinogradNonfused),
        MiopenConvBwdDataAlgorithm::Winograd
    );
}
