use vit::layers::position_embedding::{
    PosEntry, PositionalEmbedding, PositionalEmbeddingConfig, Wave,
};
use vit::shape::{ConfigError, Shape3, ShapeError, DROPOUT_ONE};

#[test]
fn matrix_cells_follow_sinusoidal_rule() {
    // E = 4, three positions: column 2i holds sin(p / 10000^(2i/4)),
    // column 2i+1 holds cos of the same angle.
    let pe = PositionalEmbedding::new(4, 3, 0).unwrap();
    for p in 0..3 {
        assert_eq!(
            pe.entry(p, 0),
            PosEntry { wave: Wave::Sine, position: p, num: 0, den: 4 }
        );
        assert_eq!(
            pe.entry(p, 1),
            PosEntry { wave: Wave::Cosine, position: p, num: 0, den: 4 }
        );
        assert_eq!(
            pe.entry(p, 2),
            PosEntry { wave: Wave::Sine, position: p, num: 2, den: 4 }
        );
        assert_eq!(
            pe.entry(p, 3),
            PosEntry { wave: Wave::Cosine, position: p, num: 2, den: 4 }
        );
    }
}

#[test]
fn matrix_is_deterministic_across_constructions() {
    let a = PositionalEmbedding::new(8, 5, 0).unwrap();
    let b = PositionalEmbedding::new(8, 5, 0).unwrap();
    assert_eq!(a.table, b.table);
    assert_eq!(a.table.len(), 40);
}

#[test]
fn angles_evaluate_to_expected_floats() {
    // Evaluating the symbolic cells of row p = 1 with E = 4 gives the
    // classic interleaved waves: sin(1), cos(1), sin(1/100), cos(1/100).
    let pe = PositionalEmbedding::new(4, 2, 0).unwrap();
    let expected = [
        (1f64).sin(),
        (1f64).cos(),
        (0.01f64).sin(),
        (0.01f64).cos(),
    ];
    for c in 0..4 {
        let cell = pe.entry(1, c);
        let angle = cell.position as f64
            / 10000f64.powf(cell.num as f64 / cell.den as f64);
        let value = match cell.wave {
            Wave::Sine => angle.sin(),
            Wave::Cosine => angle.cos(),
        };
        assert!((value - expected[c]).abs() < 1e-12);
    }
}

#[test]
fn forward_at_the_boundary_succeeds() {
    let pe = PositionalEmbedding::new(4, 7, 0).unwrap();
    let x = Shape3 { batch: 2, seq: 7, embed: 4 };
    assert_eq!(pe.forward(x), Ok(x));
}

#[test]
fn forward_past_the_boundary_fails() {
    let pe = PositionalEmbedding::new(4, 7, 0).unwrap();
    let x = Shape3 { batch: 2, seq: 8, embed: 4 };
    assert_eq!(pe.forward(x), Err(ShapeError::SequenceTooLong { seq: 8, max: 7 }));
}

#[test]
fn forward_rejects_wrong_width() {
    let pe = PositionalEmbedding::new(4, 7, 0).unwrap();
    let x = Shape3 { batch: 2, seq: 3, embed: 6 };
    assert_eq!(pe.forward(x), Err(ShapeError::DimMismatch { expected: 4, found: 6 }));
}

#[test]
fn config_init_matches_new() {
    let a = PositionalEmbeddingConfig { embedding_dim: 6, max_token_length: 4, dropout: 0 }
        .init()
        .unwrap();
    let b = PositionalEmbedding::new(6, 4, 0).unwrap();
    assert_eq!(a.table, b.table);
    assert_eq!(a.embedding_dim, 6);
    assert_eq!(a.max_token_length, 4);
}

#[test]
fn config_rejects_odd_embedding() {
    assert_eq!(
        PositionalEmbedding::new(5, 4, 0).err(),
        Some(ConfigError::OddEmbedding)
    );
}

#[test]
fn config_rejects_zero_dimensions() {
    assert_eq!(
        PositionalEmbedding::new(0, 4, 0).err(),
        Some(ConfigError::ZeroDimension)
    );
    assert_eq!(
        PositionalEmbedding::new(4, 0, 0).err(),
        Some(ConfigError::ZeroDimension)
    );
}

#[test]
fn config_rejects_dropout_of_one_or_more() {
    assert_eq!(
        PositionalEmbedding::new(4, 4, DROPOUT_ONE).err(),
        Some(ConfigError::DropoutOutOfRange)
    );
}

#[test]
fn config_defaults() {
    let c = PositionalEmbeddingConfig::default();
    assert_eq!(c.embedding_dim, 768);
    assert_eq!(c.max_token_length, 512);
    assert_eq!(c.dropout, 0);
}
