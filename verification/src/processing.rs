//! Which post-processors can be applied to the encoding of a single text:
//! the shape of a post-processor, read as plain values, and the check that
//! decides whether a handle is usable.
//!
//! A post-processor takes the encodings of the input (one, for a single
//! text) and hands on a list of encodings that is merged at the end. A
//! template can only be applied to one encoding or to two, with every
//! special token it names defined and, for one encoding, no piece that
//! stands for a second text; a sequence applies its members one after
//! another.

use tokenizers::processors::PostProcessorWrapper;
use tokenizers::Tokenizer;
use vstd::prelude::*;

use crate::collaborator::{
    added_tokens_of, defines_token, pair_template, pair_template_of, post_processor_of,
    processor_kind, processor_kind_of, sequence_members, sequence_members_of, single_template,
    single_template_of, token_is_defined,
};

verus! {

/// How deep sequences of post-processors may be nested.
pub const MAX_NESTING: usize = 128;

/// The variants of a post-processor.
#[derive(Clone, Copy, Debug, PartialEq, Eq, Structural)]
pub enum ProcessorKind {
    /// Adds the two RoBERTa tokens to each encoding.
    Roberta,
    /// Adds the two BERT tokens to each encoding.
    Bert,
    /// Adjusts offsets and adds nothing.
    ByteLevel,
    /// Lays the encodings out after a template.
    Template,
    /// Applies other post-processors one after another.
    Sequence,
}

/// One piece of a template.
#[derive(Debug, PartialEq, Eq)]
pub enum TemplatePiece {
    /// Stands for the first text.
    First,
    /// Stands for the second text of a pair.
    Second,
    /// Stands for the special token that the template names by this id.
    Special(String),
}

/// A piece of the template of `step` that can be filled in from `count`
/// encodings: a text that is there, or a special token that the table of
/// `step` defines.
pub open spec fn piece_applies(step: PostProcessorWrapper, piece: TemplatePiece, count: nat) -> bool {
    match piece {
        TemplatePiece::First => count >= 1,
        TemplatePiece::Second => count >= 2,
        TemplatePiece::Special(id) => defines_token(step, id@),
    }
}

/// A template of which every piece can be filled in from `count` encodings.
pub open spec fn template_applies(
    step: PostProcessorWrapper,
    pieces: Seq<TemplatePiece>,
    count: nat,
) -> bool {
    forall|i: int| 0 <= i < pieces.len() ==> piece_applies(step, #[trigger] pieces[i], count)
}

/// The template that a `TemplateProcessing` picks for `count` encodings:
/// its single template for one, its pair template for two, none otherwise.
pub open spec fn template_for(step: PostProcessorWrapper, count: nat) -> Option<Seq<TemplatePiece>> {
    if count == 1 {
        single_template_of(step)
    } else if count == 2 {
        pair_template_of(step)
    } else {
        None
    }
}

/// The number of encodings that `steps`, applied in order to `count`
/// encodings, hand on, or `None` where one of them cannot be applied.
///
/// A template needs one encoding or two and hands on one per piece; a
/// sequence applies its members, nested no deeper than `nesting` allows;
/// every other post-processor hands on as many encodings as it got.
pub open spec fn encodings_after(steps: Seq<PostProcessorWrapper>, count: nat, nesting: nat) -> Option<
    nat,
>
    decreases nesting, steps.len(),
{
    if steps.len() == 0 {
        Some(count)
    } else {
        match step_result(steps[0], count, nesting) {
            Some(next) => encodings_after(steps.drop_first(), next, nesting),
            None => None,
        }
    }
}

/// The number of encodings that one post-processor hands on.
pub open spec fn step_result(step: PostProcessorWrapper, count: nat, nesting: nat) -> Option<nat>
    decreases nesting, 0nat,
{
    match processor_kind_of(step) {
        ProcessorKind::Sequence => match sequence_members_of(step) {
            Some(members) => if nesting == 0 {
                None
            } else {
                encodings_after(members, count, (nesting - 1) as nat)
            },
            None => None,
        },
        ProcessorKind::Template => match template_for(step, count) {
            Some(pieces) => if template_applies(step, pieces, count) {
                Some(pieces.len())
            } else {
                None
            },
            None => None,
        },
        _ => Some(count),
    }
}

/// A tokenizer whose post-processor, if it has one, can be applied to the
/// encoding of a single text.
pub open spec fn processes_single_text(tokenizer: Tokenizer) -> bool {
    match post_processor_of(tokenizer) {
        Some(processor) => step_result(processor, 1, MAX_NESTING as nat) is Some,
        None => true,
    }
}

/// The number of positions of every encoding that special tokens take up.
pub open spec fn reserved_tokens(tokenizer: Tokenizer) -> nat {
    match post_processor_of(tokenizer) {
        Some(processor) => added_tokens_of(processor),
        None => 0,
    }
}

/// Checks that every piece of a template of `step` can be filled in from
/// `count` encodings.
pub fn check_template(step: &PostProcessorWrapper, pieces: &Vec<TemplatePiece>, count: usize) -> (ok:
    bool)
    ensures
        ok == template_applies(*step, pieces@, count as nat),
{
    let mut i: usize = 0;
    while i < pieces.len()
        invariant
            i <= pieces@.len(),
            forall|k: int| 0 <= k < i ==> piece_applies(*step, #[trigger] pieces@[k], count as nat),
        decreases pieces@.len() - i,
    {
        let applies = match &pieces[i] {
            TemplatePiece::First => count >= 1,
            TemplatePiece::Second => count >= 2,
            TemplatePiece::Special(id) => token_is_defined(step, id.as_str()),
        };
        if !applies {
            return false;
        }
        i += 1;
    }
    true
}

/// Counts the encodings that one post-processor hands on when it is given
/// `count` of them.
pub fn run_step(step: &PostProcessorWrapper, count: usize, nesting: usize) -> (r: Option<usize>)
    ensures
        match r {
            Some(next) => step_result(*step, count as nat, nesting as nat) == Some(next as nat),
            None => step_result(*step, count as nat, nesting as nat) is None,
        },
    decreases nesting, 0nat,
{
    match processor_kind(step) {
        ProcessorKind::Sequence => match sequence_members(step) {
            Some(members) => if nesting == 0 {
                None
            } else {
                run_steps(members, count, nesting - 1)
            },
            None => None,
        },
        ProcessorKind::Template => {
            let template = if count == 1 {
                single_template(step)
            } else if count == 2 {
                pair_template(step)
            } else {
                None
            };
            match template {
                Some(pieces) => if check_template(step, &pieces, count) {
                    Some(pieces.len())
                } else {
                    None
                },
                None => None,
            }
        },
        ProcessorKind::Roberta => Some(count),
        ProcessorKind::Bert => Some(count),
        ProcessorKind::ByteLevel => Some(count),
    }
}

/// Counts the encodings that `steps`, applied in order, hand on.
pub fn run_steps(steps: &[PostProcessorWrapper], count: usize, nesting: usize) -> (r: Option<usize>)
    ensures
        match r {
            Some(next) => encodings_after(steps@, count as nat, nesting as nat) == Some(next as nat),
            None => encodings_after(steps@, count as nat, nesting as nat) is None,
        },
    decreases nesting, steps@.len() + 1,
{
    let mut current: usize = count;
    let mut i: usize = 0;
    assert(steps@.skip(0) =~= steps@);
    while i < steps.len()
        invariant
            i <= steps@.len(),
            encodings_after(steps@, count as nat, nesting as nat) == encodings_after(
                steps@.skip(i as int),
                current as nat,
                nesting as nat,
            ),
        decreases steps@.len() - i,
    {
        assert(steps@.skip(i as int).drop_first() =~= steps@.skip(i + 1));
        match run_step(&steps[i], current, nesting) {
            Some(next) => {
                current = next;
            },
            None => {
                return None;
            },
        }
        i += 1;
    }
    Some(current)
}

} // verus!
