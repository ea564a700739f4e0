use vit::model::{ViTConfig, ViTModel};
use vit::shape::{ConfigError, Shape3, Shape4, ShapeError};

fn base_config() -> ViTConfig {
    ViTConfig {
        embedding_dim: 768,
        patch_size: 16,
        in_channels: 3,
        max_token_length: 512,
        hidden_dim: 3072,
        num_heads: 12,
        dropout: 0,
        num_encoder_layers: 2,
    }
}

fn small_config() -> ViTConfig {
    ViTConfig {
        embedding_dim: 8,
        patch_size: 2,
        in_channels: 1,
        max_token_length: 16,
        hidden_dim: 32,
        num_heads: 2,
        dropout: 0,
        num_encoder_layers: 3,
    }
}

#[test]
fn end_to_end_shape() {
    let m = base_config().init().unwrap();
    let r = m.forward(Shape4 { batch: 2, channels: 3, height: 224, width: 224 });
    assert_eq!(r, Ok(Shape3 { batch: 2, seq: 196, embed: 768 }));
}

#[test]
fn forward_twice_is_identical() {
    // Zero dropout, identical weights and input: no hidden randomness or
    // state, so a second run returns exactly the same value.
    let m = small_config().init().unwrap();
    let x = Shape4 { batch: 2, channels: 1, height: 8, width: 8 };
    let r1 = m.forward(x);
    let r2 = m.forward(x);
    assert_eq!(r1, r2);
    assert_eq!(r1, Ok(Shape3 { batch: 2, seq: 16, embed: 8 }));
}

#[test]
fn forward_pooled_keeps_token_layout() {
    let m = small_config().init().unwrap();
    let x = Shape4 { batch: 1, channels: 1, height: 4, width: 4 };
    assert_eq!(m.forward_pooled(x), Ok(Shape3 { batch: 1, seq: 4, embed: 8 }));
}

#[test]
fn forward_rejects_oversized_token_sequence() {
    // 2x2 patches of a 32x32 image give 256 tokens, above the table's 16.
    let m = small_config().init().unwrap();
    let x = Shape4 { batch: 1, channels: 1, height: 32, width: 32 };
    assert_eq!(
        m.forward(x),
        Err(ShapeError::SequenceTooLong { seq: 256, max: 16 })
    );
}

#[test]
fn forward_rejects_indivisible_image() {
    let m = small_config().init().unwrap();
    let x = Shape4 { batch: 1, channels: 1, height: 7, width: 8 };
    assert_eq!(
        m.forward(x),
        Err(ShapeError::NotDivisible { extent: 7, divisor: 2 })
    );
}

#[test]
fn forward_rejects_channel_mismatch() {
    let m = small_config().init().unwrap();
    let x = Shape4 { batch: 1, channels: 3, height: 8, width: 8 };
    assert_eq!(
        m.forward(x),
        Err(ShapeError::DimMismatch { expected: 1, found: 3 })
    );
}

#[test]
fn init_builds_requested_stack_depth() {
    let m: ViTModel = small_config().init().unwrap();
    assert_eq!(m.encoders.len(), 3);
    assert_eq!(m.positional_embedding.max_token_length, 16);
    assert_eq!(m.pooler.dense.d_output, 8);
}

#[test]
fn init_rejects_uncovered_embedding() {
    let mut c = small_config();
    c.num_heads = 3;
    assert_eq!(c.init().err(), Some(ConfigError::HeadsDoNotDivide));
}

#[test]
fn init_rejects_odd_embedding() {
    let mut c = small_config();
    c.embedding_dim = 9;
    c.num_heads = 3;
    c.max_token_length = 16;
    assert_eq!(c.init().err(), Some(ConfigError::OddEmbedding));
}

#[test]
fn init_rejects_zero_layers() {
    let mut c = small_config();
    c.num_encoder_layers = 0;
    assert_eq!(c.init().err(), Some(ConfigError::ZeroDimension));
}
