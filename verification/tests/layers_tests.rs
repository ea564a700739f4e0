use vit::layers::attention::{SelfAttention, SelfAttentionConfig};
use vit::layers::encoder::EncoderConfig;
use vit::layers::mlp::MlpConfig;
use vit::layers::multi_head_attention::MultiHeadAttentionConfig;
use vit::layers::patch_embedding::PatchEmbeddingConfig;
use vit::layers::pooler::PoolerConfig;
use vit::layers::primitives::{matmul, residual_add, transpose_last};
use vit::shape::{ConfigError, Shape3, Shape4, ShapeError, DROPOUT_ONE};

fn head(head_dim: usize, embedding_dim: usize) -> SelfAttention {
    SelfAttentionConfig { head_dim, embedding_dim, dropout: 0 }.init().unwrap()
}

#[test]
fn attention_head_output_shape() {
    let a = head(2, 8);
    let r = a.forward(Shape3 { batch: 2, seq: 5, embed: 8 });
    assert_eq!(r, Ok(Shape3 { batch: 2, seq: 5, embed: 2 }));
}

#[test]
fn attention_head_rejects_wrong_width() {
    let a = head(2, 8);
    let r = a.forward(Shape3 { batch: 2, seq: 5, embed: 7 });
    assert_eq!(r, Err(ShapeError::DimMismatch { expected: 8, found: 7 }));
}

#[test]
fn attention_config_rejects_zero_dim() {
    let r = SelfAttentionConfig { head_dim: 0, embedding_dim: 8, dropout: 0 }.init();
    assert_eq!(r.err(), Some(ConfigError::ZeroDimension));
}

#[test]
fn attention_config_rejects_dropout_of_one() {
    let r = SelfAttentionConfig { head_dim: 2, embedding_dim: 8, dropout: DROPOUT_ONE }.init();
    assert_eq!(r.err(), Some(ConfigError::DropoutOutOfRange));
}

#[test]
fn mha_preserves_shape() {
    let m = MultiHeadAttentionConfig { num_heads: 4, embedding_dim: 8, head_dim: 2, dropout: 0 }
        .init()
        .unwrap();
    let x = Shape3 { batch: 2, seq: 5, embed: 8 };
    assert_eq!(m.forward(x), Ok(x));
    assert_eq!(m.self_attn.len(), 4);
}

#[test]
fn mha_single_head_matches_single_attention() {
    // One head of the full embedding width: the layer and the lone head
    // accept and reject exactly the same inputs with the same shapes.
    let m = MultiHeadAttentionConfig { num_heads: 1, embedding_dim: 6, head_dim: 6, dropout: 0 }
        .init()
        .unwrap();
    let single = head(6, 6);
    let good = Shape3 { batch: 3, seq: 4, embed: 6 };
    let bad = Shape3 { batch: 3, seq: 4, embed: 5 };
    assert_eq!(m.forward(good), single.forward(good));
    assert_eq!(m.forward(bad), single.forward(bad));
}

#[test]
fn mha_config_rejects_uncovered_embedding() {
    let r = MultiHeadAttentionConfig { num_heads: 3, embedding_dim: 8, head_dim: 2, dropout: 0 }
        .init();
    assert_eq!(r.err(), Some(ConfigError::HeadsDoNotDivide));
}

#[test]
fn mlp_preserves_shape() {
    let m = MlpConfig { embedding_dim: 8, hidden_dim: 32, dropout: 0 }.init().unwrap();
    let x = Shape3 { batch: 2, seq: 5, embed: 8 };
    assert_eq!(m.forward(x), Ok(x));
}

#[test]
fn mlp_rejects_wrong_width() {
    let m = MlpConfig { embedding_dim: 8, hidden_dim: 32, dropout: 0 }.init().unwrap();
    let r = m.forward(Shape3 { batch: 2, seq: 5, embed: 32 });
    assert_eq!(r, Err(ShapeError::DimMismatch { expected: 8, found: 32 }));
}

#[test]
fn encoder_preserves_shape_exactly() {
    let e = EncoderConfig { embedding_dim: 8, num_heads: 2, hidden_dim: 32, dropout: 0 }
        .init()
        .unwrap();
    let x = Shape3 { batch: 7, seq: 13, embed: 8 };
    assert_eq!(e.forward(x), Ok(x));
}

#[test]
fn encoder_rejects_wrong_width() {
    let e = EncoderConfig { embedding_dim: 8, num_heads: 2, hidden_dim: 32, dropout: 0 }
        .init()
        .unwrap();
    let r = e.forward(Shape3 { batch: 7, seq: 13, embed: 9 });
    assert_eq!(r, Err(ShapeError::DimMismatch { expected: 8, found: 9 }));
}

#[test]
fn patch_embedding_token_count() {
    let p = PatchEmbeddingConfig { patch_size: 16, embedding_dim: 768, in_channels: 3 }
        .init()
        .unwrap();
    let r = p.forward(Shape4 { batch: 2, channels: 3, height: 224, width: 224 });
    assert_eq!(r, Ok(Shape3 { batch: 2, seq: 196, embed: 768 }));
}

#[test]
fn patch_embedding_rectangular_image() {
    let p = PatchEmbeddingConfig { patch_size: 4, embedding_dim: 8, in_channels: 1 }
        .init()
        .unwrap();
    let r = p.forward(Shape4 { batch: 1, channels: 1, height: 8, width: 12 });
    assert_eq!(r, Ok(Shape3 { batch: 1, seq: 6, embed: 8 }));
}

#[test]
fn patch_embedding_rejects_indivisible_extent() {
    let p = PatchEmbeddingConfig { patch_size: 16, embedding_dim: 768, in_channels: 3 }
        .init()
        .unwrap();
    let r = p.forward(Shape4 { batch: 2, channels: 3, height: 225, width: 224 });
    assert_eq!(r, Err(ShapeError::NotDivisible { extent: 225, divisor: 16 }));
    let r = p.forward(Shape4 { batch: 2, channels: 3, height: 224, width: 100 });
    assert_eq!(r, Err(ShapeError::NotDivisible { extent: 100, divisor: 16 }));
}

#[test]
fn patch_embedding_rejects_channel_mismatch() {
    let p = PatchEmbeddingConfig { patch_size: 16, embedding_dim: 768, in_channels: 3 }
        .init()
        .unwrap();
    let r = p.forward(Shape4 { batch: 2, channels: 4, height: 224, width: 224 });
    assert_eq!(r, Err(ShapeError::DimMismatch { expected: 3, found: 4 }));
}

#[test]
fn pooler_projects_every_position() {
    let p = PoolerConfig { embedding_dim: 8, out_features: 3 }.init().unwrap();
    let r = p.forward(Shape3 { batch: 2, seq: 5, embed: 8 });
    assert_eq!(r, Ok(Shape3 { batch: 2, seq: 5, embed: 3 }));
}

#[test]
fn matmul_shapes() {
    let a = Shape3 { batch: 2, seq: 5, embed: 3 };
    let b = Shape3 { batch: 2, seq: 3, embed: 7 };
    assert_eq!(matmul(a, b), Ok(Shape3 { batch: 2, seq: 5, embed: 7 }));
    assert_eq!(
        matmul(a, a),
        Err(ShapeError::DimMismatch { expected: 3, found: 5 })
    );
}

#[test]
fn transpose_swaps_last_axes() {
    let a = Shape3 { batch: 2, seq: 5, embed: 3 };
    assert_eq!(transpose_last(a), Shape3 { batch: 2, seq: 3, embed: 5 });
}

#[test]
fn residual_add_needs_equal_shapes() {
    let a = Shape3 { batch: 2, seq: 5, embed: 3 };
    let b = Shape3 { batch: 2, seq: 5, embed: 4 };
    assert_eq!(residual_add(a, a), Ok(a));
    assert_eq!(residual_add(a, b), Err(ShapeError::ResidualMismatch));
}
