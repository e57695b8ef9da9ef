//! The tokenizer collaborator: what this crate relies on from the
//! `tokenizers` crate, stated as contracts that are taken on trust.
//!
//! A `Tokenizer` and its post-processor are opaque here. What the boundary
//! depends on (the truncation a tokenizer carries, the shape of its
//! post-processor, what configuring leaves behind) is named below, and each
//! call into the crate says what it does in those terms.
//!
//! Two calls are not made from here: parsing a definition and encoding a
//! text. Both can panic on what a definition holds, which this crate has no
//! way to rule out or to contain, so the caller makes them and hands in
//! what they gave.

use tokenizers::processors::template::{Piece, Sequence};
use tokenizers::processors::PostProcessorWrapper;
use tokenizers::{PaddingParams, PaddingStrategy, PostProcessor, Tokenizer, TruncationParams};
use vstd::prelude::*;

use crate::processing::{ProcessorKind, TemplatePiece};

verus! {

/// `tokenizers::Tokenizer`, carried through as an opaque value.
#[verifier::external_type_specification]
#[verifier::external_body]
pub struct ExTokenizer(Tokenizer);

/// `tokenizers::processors::PostProcessorWrapper`, the post-processor of a
/// tokenizer, carried through as an opaque value.
#[verifier::external_type_specification]
#[verifier::external_body]
pub struct ExPostProcessorWrapper(PostProcessorWrapper);

/// The post-processor that `get_post_processor` finds in a tokenizer.
pub uninterp spec fn post_processor_of(tokenizer: Tokenizer) -> Option<PostProcessorWrapper>;

/// The number of special tokens that a post-processor's `added_tokens`
/// reports for a single sequence.
pub uninterp spec fn added_tokens_of(processor: PostProcessorWrapper) -> nat;

/// The variant of a post-processor.
pub uninterp spec fn processor_kind_of(processor: PostProcessorWrapper) -> ProcessorKind;

/// The post-processors that a `Sequence` post-processor applies, in its
/// order, or `None` where the post-processor is of another variant.
pub uninterp spec fn sequence_members_of(processor: PostProcessorWrapper) -> Option<
    Seq<PostProcessorWrapper>,
>;

/// The pieces of the template that a `TemplateProcessing` post-processor
/// applies to a single sequence, each special token with the id by which
/// the template names it, or `None` where the post-processor is of another
/// variant or its template cannot be read.
pub uninterp spec fn single_template_of(processor: PostProcessorWrapper) -> Option<
    Seq<TemplatePiece>,
>;

/// The pieces of the template that a `TemplateProcessing` post-processor
/// applies to a pair of sequences, or `None` where the post-processor is of
/// another variant or its template cannot be read.
pub uninterp spec fn pair_template_of(processor: PostProcessorWrapper) -> Option<
    Seq<TemplatePiece>,
>;

/// Whether the table of special tokens of a `TemplateProcessing`
/// post-processor has an entry under `id`; false for every other variant.
pub uninterp spec fn defines_token(processor: PostProcessorWrapper, id: Seq<char>) -> bool;

/// The maximum length and the stride of the truncation that the tokenizer
/// carries, or `None` where it does not truncate.
pub uninterp spec fn truncation_of(tokenizer: Tokenizer) -> Option<(nat, nat)>;

/// The tokenizer that `with_truncation` leaves behind when it is given
/// `max_length` and the crate's defaults for strategy, direction and stride.
pub uninterp spec fn with_truncation_limit(tokenizer: Tokenizer, max_length: usize) -> Tokenizer;

/// The tokenizer that `with_padding` leaves behind when it is given
/// `PaddingStrategy::Fixed(length)`, the fill id `pad_id` and the crate's
/// defaults for side, multiple, type id and token.
pub uninterp spec fn with_fixed_padding(tokenizer: Tokenizer, length: usize, pad_id: u32) -> Tokenizer;

/// Calls `get_post_processor`.
/// Trusted: the reference is to the post-processor named by
/// `post_processor_of`.
#[verifier::external_body]
pub(crate) fn post_processor(tokenizer: &Tokenizer) -> (r: Option<&PostProcessorWrapper>)
    ensures
        r is Some <==> post_processor_of(*tokenizer) is Some,
        r matches Some(processor) ==> post_processor_of(*tokenizer) == Some(*processor),
{
    tokenizer.get_post_processor()
}

/// Calls `PostProcessor::added_tokens` for a single sequence.
#[verifier::external_body]
pub(crate) fn added_tokens(processor: &PostProcessorWrapper) -> (n: usize)
    ensures
        n == added_tokens_of(*processor),
{
    processor.added_tokens(false)
}

/// Tells the variants of `PostProcessorWrapper` apart.
#[verifier::external_body]
pub(crate) fn processor_kind(processor: &PostProcessorWrapper) -> (kind: ProcessorKind)
    ensures
        kind == processor_kind_of(*processor),
{
    match processor {
        PostProcessorWrapper::Roberta(_) => ProcessorKind::Roberta,
        PostProcessorWrapper::Bert(_) => ProcessorKind::Bert,
        PostProcessorWrapper::ByteLevel(_) => ProcessorKind::ByteLevel,
        PostProcessorWrapper::Template(_) => ProcessorKind::Template,
        PostProcessorWrapper::Sequence(_) => ProcessorKind::Sequence,
    }
}

/// Borrows the members of a `Sequence` post-processor through its `as_ref`.
/// Trusted: the slice holds the members in the order in which the sequence
/// applies them.
#[verifier::external_body]
pub(crate) fn sequence_members(processor: &PostProcessorWrapper) -> (r: Option<
    &[PostProcessorWrapper],
>)
    ensures
        r is Some <==> sequence_members_of(*processor) is Some,
        r matches Some(members) ==> sequence_members_of(*processor) == Some(members@),
{
    match processor {
        PostProcessorWrapper::Sequence(sequence) => Some(sequence.as_ref()),
        PostProcessorWrapper::Roberta(_) => None,
        PostProcessorWrapper::Bert(_) => None,
        PostProcessorWrapper::ByteLevel(_) => None,
        PostProcessorWrapper::Template(_) => None,
    }
}

/// Reads the single-sequence template of a `TemplateProcessing`: its pieces
/// are private, so they are taken through the template's own serialization
/// (`serde_json::to_value`, then `from_value` for a list of `Piece`).
/// Trusted: one entry per piece, in the template's order, each saying which
/// sequence the piece stands for or which special token it names.
#[verifier::external_body]
pub(crate) fn single_template(processor: &PostProcessorWrapper) -> (r: Option<Vec<TemplatePiece>>)
    ensures
        r is Some <==> single_template_of(*processor) is Some,
        r matches Some(pieces) ==> single_template_of(*processor) == Some(pieces@),
{
    let PostProcessorWrapper::Template(template) = processor else { return None };
    let pieces: Vec<Piece> = serde_json::from_value(serde_json::to_value(&template.single).ok()?).ok()?;
    Some(pieces.into_iter().map(|piece| match piece {
        Piece::Sequence { id: Sequence::A, .. } => TemplatePiece::First,
        Piece::Sequence { id: Sequence::B, .. } => TemplatePiece::Second,
        Piece::SpecialToken { id, .. } => TemplatePiece::Special(id),
    }).collect())
}

/// Reads the pair template of a `TemplateProcessing`, which `get_pair`
/// hands out, in the way in which `single_template` reads the other one.
/// Trusted: one entry per piece, in the template's order, each saying which
/// sequence the piece stands for or which special token it names.
#[verifier::external_body]
pub(crate) fn pair_template(processor: &PostProcessorWrapper) -> (r: Option<Vec<TemplatePiece>>)
    ensures
        r is Some <==> pair_template_of(*processor) is Some,
        r matches Some(pieces) ==> pair_template_of(*processor) == Some(pieces@),
{
    let PostProcessorWrapper::Template(template) = processor else { return None };
    let pieces: Vec<Piece> = serde_json::from_value(serde_json::to_value(template.get_pair()).ok()?).ok()?;
    Some(pieces.into_iter().map(|piece| match piece {
        Piece::Sequence { id: Sequence::A, .. } => TemplatePiece::First,
        Piece::Sequence { id: Sequence::B, .. } => TemplatePiece::Second,
        Piece::SpecialToken { id, .. } => TemplatePiece::Special(id),
    }).collect())
}

/// Looks `id` up in the table that `get_special_tokens` hands out.
/// Trusted: true exactly where the table of a `TemplateProcessing` has an
/// entry under `id`.
#[verifier::external_body]
pub(crate) fn token_is_defined(processor: &PostProcessorWrapper, id: &str) -> (defined: bool)
    ensures
        defined == defines_token(*processor, id@),
{
    match processor {
        PostProcessorWrapper::Template(template) => template.get_special_tokens().0.contains_key(id),
        PostProcessorWrapper::Roberta(_) => false,
        PostProcessorWrapper::Bert(_) => false,
        PostProcessorWrapper::ByteLevel(_) => false,
        PostProcessorWrapper::Sequence(_) => false,
    }
}

/// Calls `with_truncation` with `max_length` and the crate's defaults for
/// strategy, direction and stride, and says whether the call accepted them.
/// Trusted: with a stride of zero and a limit that leaves room for the
/// special tokens the call reports no error and stores the parameters; it
/// touches nothing else. A smaller limit is left out because the call
/// subtracts the special-token count from it.
#[verifier::external_body]
pub(crate) fn set_truncation(tokenizer: &mut Tokenizer, max_length: usize) -> (accepted: bool)
    requires
        match post_processor_of(*old(tokenizer)) {
            Some(processor) => added_tokens_of(processor) <= max_length,
            None => true,
        },
    ensures
        accepted,
        *final(tokenizer) == with_truncation_limit(*old(tokenizer), max_length),
        truncation_of(*final(tokenizer)) == Some((max_length as nat, 0nat)),
        post_processor_of(*final(tokenizer)) == post_processor_of(*old(tokenizer)),
{
    let params = TruncationParams { max_length, ..Default::default() };
    tokenizer.with_truncation(Some(params)).is_ok()
}

/// Calls `with_padding` with `PaddingStrategy::Fixed(length)`, the given
/// fill id and the crate's defaults for the rest.
/// Trusted: the call stores the padding and touches nothing else.
#[verifier::external_body]
pub(crate) fn set_fixed_padding(tokenizer: &mut Tokenizer, length: usize, pad_id: u32)
    ensures
        *final(tokenizer) == with_fixed_padding(*old(tokenizer), length, pad_id),
        truncation_of(*final(tokenizer)) == truncation_of(*old(tokenizer)),
        post_processor_of(*final(tokenizer)) == post_processor_of(*old(tokenizer)),
{
    let strategy = PaddingStrategy::Fixed(length);
    tokenizer.with_padding(Some(PaddingParams { strategy, pad_id, ..Default::default() }));
}

} // verus!
