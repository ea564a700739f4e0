pub mod attention;
pub mod encoder;
pub mod mlp;
pub mod multi_head_attention;
pub mod patch_embedding;
pub mod pooler;
pub mod position_embedding;
pub mod primitives;
