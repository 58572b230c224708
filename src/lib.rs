//! Verified core of an RWKV-based text-to-speech engine: the token vocabulary,
//! prefill construction, the two-phase decoder state machine, reference-audio
//! index arithmetic, tokenizer tensor binding and the pipeline's routing decisions.

pub mod audio;
pub mod decoder;
pub mod formats;
pub mod pipeline;
pub mod sampling;
pub mod tensors;
pub mod tokens;
