//! The result of encoding one text.

use vstd::prelude::*;
use vstd::slice::slice_to_vec;

verus! {

/// Token ids and attention mask produced for one input text.
#[derive(Debug, PartialEq, Eq)]
pub struct Encoding {
    /// One id per token.
    pub ids: Vec<u32>,
    /// One entry per token: 1 for a real token, 0 for padding.
    pub attention_mask: Vec<u32>,
}

impl Encoding {
    /// Copies ids and mask out of what a tokenizer handed out.
    pub fn from_slices(ids: &[u32], attention_mask: &[u32]) -> (encoding: Self)
        ensures
            encoding.ids@ == ids@,
            encoding.attention_mask@ == attention_mask@,
    {
        Encoding { ids: slice_to_vec(ids), attention_mask: slice_to_vec(attention_mask) }
    }

    /// True when ids and mask both have exactly `length` entries.
    pub open spec fn has_length(&self, length: nat) -> bool {
        self.ids@.len() == length && self.attention_mask@.len() == length
    }
}

} // verus!
