//! Cross-checks of the shape algebra against the real tensor engine: the
//! shapes the library predicts are the shapes the engine produces.

use burn::backend::ndarray::NdArrayDevice;
use burn::backend::NdArray;
use burn::nn::conv::Conv2dConfig;
use burn::nn::LinearConfig;
use burn::tensor::activation::softmax;
use burn::tensor::{Distribution, Tensor};

use vit::layers::patch_embedding::PatchEmbeddingConfig;
use vit::layers::primitives::Linear;
use vit::shape::{Shape3, Shape4};

type Engine = NdArray;

#[test]
fn conv_patching_matches_predicted_token_count() {
    let device = NdArrayDevice::Cpu;
    let conv = Conv2dConfig::new([1, 8], [2, 2])
        .with_stride([2, 2])
        .init::<Engine>(&device);
    let image = Tensor::<Engine, 4>::zeros([1, 1, 4, 6], &device);
    let out = conv.forward(image);
    let [b, e, h, w] = out.dims();

    let p = PatchEmbeddingConfig { patch_size: 2, embedding_dim: 8, in_channels: 1 }
        .init()
        .unwrap();
    let predicted = p
        .forward(Shape4 { batch: 1, channels: 1, height: 4, width: 6 })
        .unwrap();
    assert_eq!(predicted, Shape3 { batch: b, seq: h * w, embed: e });
}

#[test]
fn dense_projection_matches_predicted_shape() {
    let device = NdArrayDevice::Cpu;
    let dense = LinearConfig::new(8, 3).init::<Engine>(&device);
    let x = Tensor::<Engine, 3>::zeros([2, 5, 8], &device);
    let [b, s, e] = dense.forward(x).dims();

    let l = Linear { d_input: 8, d_output: 3 };
    let predicted = l.forward(Shape3 { batch: 2, seq: 5, embed: 8 }).unwrap();
    assert_eq!(predicted, Shape3 { batch: b, seq: s, embed: e });
}

#[test]
fn softmax_rows_are_distributions() {
    // The attention-weight matrix is a row softmax of the logits: every
    // row sums to 1, and the shape is untouched, matching the library's
    // shape-preserving softmax step.
    let device = NdArrayDevice::Cpu;
    let logits = Tensor::<Engine, 3>::random(
        [2, 4, 4],
        Distribution::Uniform(-8.0, 8.0),
        &device,
    );
    let weights = softmax(logits, 2);
    assert_eq!(weights.dims(), [2, 4, 4]);
    let sums = weights.sum_dim(2).into_data().to_vec::<f32>().unwrap();
    assert_eq!(sums.len(), 8);
    for s in sums {
        assert!((s - 1.0).abs() < 1e-5);
    }
}
