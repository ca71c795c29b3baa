//! Music theory: notes, scales, keys, and quantization to scale.

pub mod scale;
