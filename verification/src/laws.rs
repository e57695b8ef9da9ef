//! What holds of the service across calls, proved from the contracts of
//! loading and encoding.

use vstd::prelude::*;
use vstd::utf8::valid_utf8;

use crate::buffer::{fitting, overwritten};
use crate::encoding::Encoding;
use crate::handle::{configured, load_failure, Definition};
use crate::processing::{processes_single_text, reserved_tokens};
use crate::service::{
    asks, load_post, load_result, request_diagnostic, request_outcome, tokenize_post, Delivery,
    TokenizeStatus, TokenizerService,
};

verus! {

/// An encoding of `length` entries is what `outcome` shows in the buffers
/// that held `ids` and `mask`: each buffer starts with as much of it as it
/// has room for and is unchanged behind that.
pub open spec fn shows_encoding_of(
    outcome: Delivery,
    ids: Seq<u32>,
    mask: Seq<u32>,
    length: nat,
) -> bool {
    exists|encoding: Encoding|
        {
            &&& #[trigger] encoding.has_length(length)
            &&& outcome.ids == overwritten(ids, encoding.ids@)
            &&& outcome.mask == overwritten(mask, encoding.attention_mask@)
        }
}

/// A request that writes anything delivers an encoding of exactly the
/// installed handle's sequence length, whatever the input text: ids and
/// mask are equally long, the status is `Written` exactly when both buffers
/// have room for that length, and no position behind it changes.
pub proof fn written_has_sequence_length(
    service: TokenizerService,
    input: Seq<u8>,
    ids: Seq<u32>,
    mask: Seq<u32>,
    outcome: Delivery,
)
    requires
        tokenize_post(service, input, ids, mask, outcome),
        outcome.status.has_written(),
    ensures
        service.installed() matches Some(handle) && {
            let length = handle.spec_sequence_length() as nat;
            &&& shows_encoding_of(outcome, ids, mask, length)
            &&& outcome.status == TokenizeStatus::Written <==> length <= ids.len() && length
                <= mask.len()
            &&& outcome.ids.len() == ids.len()
            &&& outcome.mask.len() == mask.len()
            &&& forall|i: int| length <= i < ids.len() ==> outcome.ids[i] == ids[i]
            &&& forall|i: int| length <= i < mask.len() ==> outcome.mask[i] == mask[i]
        },
{
}

/// After a successful load for `sequence_length`, every request that
/// succeeds has written ids and mask of exactly `sequence_length` entries:
/// both buffers have room for them, begin with them, and are unchanged
/// behind them.
pub proof fn load_then_tokenize_has_loaded_length(
    before: TokenizerService,
    definition: Definition,
    sequence_length: usize,
    after: TokenizerService,
    input: Seq<u8>,
    ids: Seq<u32>,
    mask: Seq<u32>,
    outcome: Delivery,
)
    requires
        load_failure(definition, sequence_length) is None,
        load_post(before, definition, sequence_length, after),
        tokenize_post(after, input, ids, mask, outcome),
        outcome.status.is_success(),
    ensures
        sequence_length <= ids.len(),
        sequence_length <= mask.len(),
        exists|encoding: Encoding|
            {
                &&& #[trigger] encoding.has_length(sequence_length as nat)
                &&& outcome.ids == encoding.ids@ + ids.skip(sequence_length as int)
                &&& outcome.mask == encoding.attention_mask@ + mask.skip(sequence_length as int)
            },
{
    written_has_sequence_length(after, input, ids, mask, outcome);
    let encoding = choose|encoding: Encoding|
        {
            &&& #[trigger] encoding.has_length(sequence_length as nat)
            &&& outcome.ids == overwritten(ids, encoding.ids@)
            &&& outcome.mask == overwritten(mask, encoding.attention_mask@)
        };
    assert(outcome.ids =~= encoding.ids@ + ids.skip(sequence_length as int));
    assert(outcome.mask =~= encoding.attention_mask@ + mask.skip(sequence_length as int));
}

/// Whenever the tokenizer of a usable handle answers valid input with an
/// encoding of the installed sequence length and both buffers have room for
/// it, the request succeeds: both buffers begin with the encoding and are
/// unchanged behind it, and nothing is logged.
pub proof fn answer_of_sequence_length_is_written(
    service: TokenizerService,
    input: Seq<u8>,
    ids: Seq<u32>,
    mask: Seq<u32>,
    encoding: Encoding,
)
    requires
        valid_utf8(input),
        service.installed() matches Some(handle) && {
            &&& handle.spec_is_usable()
            &&& encoding.has_length(handle.spec_sequence_length() as nat)
            &&& handle.spec_sequence_length() <= ids.len()
            &&& handle.spec_sequence_length() <= mask.len()
        },
    ensures
        ({
            let outcome = request_outcome(service, input, ids, mask, Some(Ok(encoding)));
            let length = service.installed().unwrap().spec_sequence_length() as int;
            &&& outcome.status == TokenizeStatus::Written
            &&& outcome.ids == encoding.ids@ + ids.skip(length)
            &&& outcome.mask == encoding.attention_mask@ + mask.skip(length)
            &&& request_diagnostic(service, input, Some(Ok(encoding)), None)
        }),
{
    let outcome = request_outcome(service, input, ids, mask, Some(Ok(encoding)));
    let length = service.installed().unwrap().spec_sequence_length() as int;
    assert(outcome.ids =~= encoding.ids@ + ids.skip(length));
    assert(outcome.mask =~= encoding.attention_mask@ + mask.skip(length));
}

/// Whenever there is no encoding of the installed length for valid input
/// (the handle is not usable, there is no answer, the tokenizer rejects the
/// text or answers with another length), the request fails as an encode
/// failure and leaves both buffers as they were.
pub proof fn other_answers_fail(
    service: TokenizerService,
    input: Seq<u8>,
    ids: Seq<u32>,
    mask: Seq<u32>,
    answer: Option<Result<Encoding, String>>,
)
    requires
        valid_utf8(input),
        service.installed() matches Some(handle) && !(handle.spec_is_usable() && (
        answer matches Some(Ok(encoding)) && encoding.has_length(
            handle.spec_sequence_length() as nat,
        ))),
    ensures
        request_outcome(service, input, ids, mask, answer) == (Delivery {
            status: TokenizeStatus::EncodeFailed,
            ids,
            mask,
        }),
{
}

/// A handle that is not usable is installed like any other, and a request
/// against it fails without the tokenizer being asked: whatever is handed
/// in as answer, the outcome is an encode failure with both buffers as they
/// were.
pub proof fn unusable_handle_is_never_asked(
    before: TokenizerService,
    definition: Definition,
    sequence_length: usize,
    after: TokenizerService,
    input: Seq<u8>,
    ids: Seq<u32>,
    mask: Seq<u32>,
    answer: Option<Result<Encoding, String>>,
)
    requires
        load_failure(definition, sequence_length) is None,
        load_post(before, definition, sequence_length, after),
        definition matches Definition::Parsed(tokenizer) && !processes_single_text(tokenizer),
    ensures
        after.installed() is Some,
        !asks(after, input),
        valid_utf8(input) ==> request_outcome(after, input, ids, mask, answer) == (Delivery {
            status: TokenizeStatus::EncodeFailed,
            ids,
            mask,
        }),
{
}

/// Loading succeeds exactly on a definition that was read and parsed and
/// whose special tokens fit into the sequence length, whatever else the
/// definition holds; and then it installs that definition's tokenizer,
/// configured for the sequence length.
pub proof fn load_succeeds_on_what_parses_and_fits(
    before: TokenizerService,
    definition: Definition,
    sequence_length: usize,
    after: TokenizerService,
)
    requires
        load_post(before, definition, sequence_length, after),
    ensures
        load_result(definition, sequence_length) is Ok <==> (definition matches Definition::Parsed(
            tokenizer,
        ) && reserved_tokens(tokenizer) <= sequence_length),
        load_result(definition, sequence_length) is Ok ==> (definition matches Definition::Parsed(
            tokenizer,
        ) && after.installed() matches Some(handle) && handle.tokenizer() == configured(
            tokenizer,
            sequence_length,
        )),
        load_result(definition, sequence_length) is Err ==> after == before,
{
}

/// With nothing installed every request fails and leaves both buffers as
/// they were.
pub proof fn tokenize_without_handle_fails(
    service: TokenizerService,
    input: Seq<u8>,
    ids: Seq<u32>,
    mask: Seq<u32>,
    outcome: Delivery,
)
    requires
        service.installed() is None,
        tokenize_post(service, input, ids, mask, outcome),
    ensures
        !outcome.status.has_written(),
        outcome.ids == ids,
        outcome.mask == mask,
{
}

/// A run of loads: load number `i` takes the service from `states[i]` to
/// `states[i + 1]`.
pub open spec fn load_history(
    states: Seq<TokenizerService>,
    attempts: Seq<(Definition, usize)>,
) -> bool {
    &&& states.len() == attempts.len() + 1
    &&& forall|i: int|
        0 <= i < attempts.len() ==> load_post(
            states[i],
            (#[trigger] attempts[i]).0,
            attempts[i].1,
            states[i + 1],
        )
}

/// As long as no load succeeds the service stays as it started: after any
/// run of failed loads on a service with nothing installed, nothing is
/// installed, and every request fails and writes nothing.
pub proof fn failed_loads_install_nothing(
    states: Seq<TokenizerService>,
    attempts: Seq<(Definition, usize)>,
    upto: int,
)
    requires
        load_history(states, attempts),
        forall|i: int|
            0 <= i < attempts.len() ==> load_failure(
                (#[trigger] attempts[i]).0,
                attempts[i].1,
            ) is Some,
        states[0].installed() is None,
        0 <= upto < states.len(),
    ensures
        states[upto] == states[0],
        states[upto].installed() is None,
        forall|input: Seq<u8>, ids: Seq<u32>, mask: Seq<u32>, outcome: Delivery| #[trigger]
            tokenize_post(states[upto], input, ids, mask, outcome) ==> {
                &&& !outcome.status.has_written()
                &&& outcome.ids == ids
                &&& outcome.mask == mask
            },
    decreases upto,
{
    if upto > 0 {
        failed_loads_install_nothing(states, attempts, upto - 1);
        assert(load_failure(attempts[upto - 1].0, attempts[upto - 1].1) is Some);
    }
}

/// Every request that ends without an encoding, for whatever reason,
/// leaves both buffers as they were.
pub proof fn failure_writes_nothing(
    service: TokenizerService,
    input: Seq<u8>,
    ids: Seq<u32>,
    mask: Seq<u32>,
    outcome: Delivery,
)
    requires
        tokenize_post(service, input, ids, mask, outcome),
        !outcome.status.has_written(),
    ensures
        outcome.ids == ids,
        outcome.mask == mask,
{
}

/// A failed load leaves the service as it was, so a request after it is
/// answered as it would have been before: by the handle installed earlier,
/// or with a failure where there was none.
pub proof fn failed_load_keeps_handle(
    before: TokenizerService,
    definition: Definition,
    sequence_length: usize,
    after: TokenizerService,
    input: Seq<u8>,
    ids: Seq<u32>,
    mask: Seq<u32>,
    outcome: Delivery,
)
    requires
        load_failure(definition, sequence_length) is Some,
        load_post(before, definition, sequence_length, after),
    ensures
        after == before,
        tokenize_post(after, input, ids, mask, outcome) <==> tokenize_post(
            before,
            input,
            ids,
            mask,
            outcome,
        ),
        before.installed() is None && tokenize_post(after, input, ids, mask, outcome)
            ==> !outcome.status.has_written(),
{
}

/// Loading again replaces the handle: after two successful loads the
/// service holds the second definition's tokenizer, configured for the
/// second length, and a request that writes anything delivers ids and mask
/// of that length, both equally long, whatever was loaded first.
pub proof fn reload_changes_length(
    start: TokenizerService,
    first_definition: Definition,
    first_length: usize,
    between: TokenizerService,
    second_definition: Definition,
    second_length: usize,
    after: TokenizerService,
    input: Seq<u8>,
    ids: Seq<u32>,
    mask: Seq<u32>,
    outcome: Delivery,
)
    requires
        load_failure(first_definition, first_length) is None,
        load_post(start, first_definition, first_length, between),
        load_failure(second_definition, second_length) is None,
        load_post(between, second_definition, second_length, after),
        tokenize_post(after, input, ids, mask, outcome),
        outcome.status.has_written(),
    ensures
        second_definition matches Definition::Parsed(tokenizer) && after.installed() matches Some(
            handle,
        ) && handle.spec_sequence_length() == second_length && handle.tokenizer() == configured(
            tokenizer,
            second_length,
        ),
        shows_encoding_of(outcome, ids, mask, second_length as nat),
        outcome.status == TokenizeStatus::Written <==> second_length <= ids.len() && second_length
            <= mask.len(),
{
    written_has_sequence_length(after, input, ids, mask, outcome);
}

/// Asking twice with the same input gives the same output twice, wherever
/// the tokenizer gives the same answer twice: status and written positions
/// depend on the service, the input and that answer alone, not on what the
/// buffers held before. With equal buffers the whole outcome is equal.
pub proof fn same_answer_same_output(
    service: TokenizerService,
    input: Seq<u8>,
    answer: Option<Result<Encoding, String>>,
    first_ids: Seq<u32>,
    first_mask: Seq<u32>,
    second_ids: Seq<u32>,
    second_mask: Seq<u32>,
)
    requires
        first_ids.len() == second_ids.len(),
        first_mask.len() == second_mask.len(),
    ensures
        ({
            let first = request_outcome(service, input, first_ids, first_mask, answer);
            let second = request_outcome(service, input, second_ids, second_mask, answer);
            &&& first.status == second.status
            &&& first.status.has_written() ==> {
                let length = service.installed().unwrap().spec_sequence_length() as nat;
                &&& first.ids.take(fitting(length, first_ids.len()) as int) == second.ids.take(
                    fitting(length, first_ids.len()) as int,
                )
                &&& first.mask.take(fitting(length, first_mask.len()) as int) == second.mask.take(
                    fitting(length, first_mask.len()) as int,
                )
            }
            &&& first_ids == second_ids && first_mask == second_mask ==> first == second
        }),
{
}

} // verus!
