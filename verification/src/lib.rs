//! An in-process boundary around a pretrained text tokenizer: load a
//! tokenizer definition once, then turn text into fixed-length token-id and
//! attention-mask arrays written into caller-owned buffers.
//!
//! The tokenizer itself comes from the `tokenizers` crate. What this crate
//! adds is the slot that holds the loaded tokenizer, the rules for
//! replacing it, and the bounded delivery of an encoding into buffers that
//! the caller owns.
//!
//! Parsing a definition and encoding a text are left to the caller, who
//! hands in what they gave: both can panic on what a definition holds, and
//! only the caller can contain that.

pub mod bench;
pub mod buffer;
pub mod codec;
pub mod collaborator;
pub mod diagnostics;
pub mod encoding;
pub mod handle;
pub mod laws;
pub mod processing;
pub mod service;
pub mod text;

pub use crate::encoding::Encoding;
pub use crate::handle::{Definition, EncodeError, LoadError, TokenizerHandle, PAD_ID};
pub use crate::service::{
    load_tokenizer, tokenize_and_get_ids, EncodeRequest, TokenizeReport, TokenizeStatus,
    TokenizerService,
};
