//! The boundary service: one slot that holds the installed tokenizer, loading
//! into it, and encoding through it into caller-owned buffers.
//!
//! The service never calls the tokenizer itself. It says whether the
//! tokenizer is to be asked and with what (`encode_request`), and it takes
//! the answer together with the caller's buffers (`tokenize`).

use tokenizers::Tokenizer;
use vstd::prelude::*;
use vstd::string::StringExecFns;
use vstd::utf8::{decode_utf8, valid_utf8};

use crate::buffer::{copy_clamped, overwritten};
use crate::encoding::Encoding;
use crate::handle::{
    configured, load_failure, Definition, EncodeError, LoadError, TokenizerHandle,
};
use crate::processing::processes_single_text;
use crate::text::decode_text;

verus! {

/// How a request to encode ended.
#[derive(Clone, Copy, Debug, PartialEq, Eq, Structural)]
pub enum TokenizeStatus {
    /// The whole encoding was written to both buffers.
    Written,
    /// The encoding did not fit: each buffer holds as much of it as it has
    /// room for.
    Truncated,
    /// No tokenizer is installed.
    NoHandle,
    /// The input is not valid UTF-8.
    InvalidText,
    /// There is no encoding of the sequence length: the tokenizer rejected
    /// the text or answered with another length, or it could not be asked.
    EncodeFailed,
}

impl TokenizeStatus {
    /// True for the one outcome in which the whole encoding was written.
    pub open spec fn spec_is_success(self) -> bool {
        self == TokenizeStatus::Written
    }

    /// True for the one outcome in which the whole encoding was written.
    #[verifier::when_used_as_spec(spec_is_success)]
    pub fn is_success(self) -> (b: bool)
        ensures
            b == self.spec_is_success(),
    {
        match self {
            TokenizeStatus::Written => true,
            TokenizeStatus::Truncated => false,
            TokenizeStatus::NoHandle => false,
            TokenizeStatus::InvalidText => false,
            TokenizeStatus::EncodeFailed => false,
        }
    }

    /// True for the outcomes in which an encoding reached the buffers, in
    /// whole or in part.
    pub open spec fn spec_has_written(self) -> bool {
        self == TokenizeStatus::Written || self == TokenizeStatus::Truncated
    }

    /// True for the outcomes in which an encoding reached the buffers, in
    /// whole or in part.
    #[verifier::when_used_as_spec(spec_has_written)]
    pub fn has_written(self) -> (b: bool)
        ensures
            b == self.spec_has_written(),
    {
        match self {
            TokenizeStatus::Written => true,
            TokenizeStatus::Truncated => true,
            TokenizeStatus::NoHandle => false,
            TokenizeStatus::InvalidText => false,
            TokenizeStatus::EncodeFailed => false,
        }
    }
}

/// What a request to encode reports back.
#[derive(Debug)]
pub struct TokenizeReport {
    /// How the request ended.
    pub status: TokenizeStatus,
    /// The message for the diagnostic log, for the failures that are logged.
    pub diagnostic: Option<String>,
}

/// What the tokenizer is to be asked.
pub struct EncodeRequest<'a> {
    /// The tokenizer to ask.
    pub tokenizer: &'a Tokenizer,
    /// The text to encode.
    pub text: &'a str,
    /// Whether special tokens are to be added; always true.
    pub add_special_tokens: bool,
}

/// The state of both buffers and the status after a request.
pub ghost struct Delivery {
    /// How the request ended.
    pub status: TokenizeStatus,
    /// What the ids buffer holds afterwards.
    pub ids: Seq<u32>,
    /// What the mask buffer holds afterwards.
    pub mask: Seq<u32>,
}

/// What delivering `result` does to buffers that hold `ids` and `mask`.
///
/// An encoding is written over the front of each buffer as far as the
/// buffer reaches; the status says whether all of it fit. A failure leaves
/// both buffers as they were.
pub open spec fn delivered(
    result: Result<Encoding, EncodeError>,
    ids: Seq<u32>,
    mask: Seq<u32>,
) -> Delivery {
    match result {
        Ok(encoding) => Delivery {
            status: if encoding.ids@.len() <= ids.len() && encoding.attention_mask@.len()
                <= mask.len() {
                TokenizeStatus::Written
            } else {
                TokenizeStatus::Truncated
            },
            ids: overwritten(ids, encoding.ids@),
            mask: overwritten(mask, encoding.attention_mask@),
        },
        Err(_) => Delivery { status: TokenizeStatus::EncodeFailed, ids, mask },
    }
}

/// The message that is logged for a failed encoding.
pub open spec fn encode_failure_message(error: EncodeError) -> Seq<char> {
    "Failed to tokenize: "@ + match error {
        EncodeError::Unusable => "the post-processor cannot be applied to a single text"@,
        EncodeError::Unanswered => "the tokenizer gave no answer"@,
        EncodeError::Rejected(message) => message@,
        EncodeError::WrongLength => "encoding length differs from the sequence length"@,
    }
}

/// Writes an encoding into the caller's buffers, or reports why there is
/// none.
///
/// Never writes past the end of a buffer and never changes what lies behind
/// the written prefix.
pub fn deliver(result: Result<Encoding, EncodeError>, ids: &mut [u32], mask: &mut [u32]) -> (report:
    TokenizeReport)
    ensures
        (Delivery { status: report.status, ids: final(ids)@, mask: final(mask)@ }) == delivered(
            result,
            old(ids)@,
            old(mask)@,
        ),
        match result {
            Ok(_) => report.diagnostic is None,
            Err(error) => report.diagnostic matches Some(text) && text@ == encode_failure_message(
                error,
            ),
        },
        logged(report.status, report.diagnostic),
{
    match result {
        Ok(encoding) => {
            let fits = encoding.ids.len() <= ids.len() && encoding.attention_mask.len()
                <= mask.len();
            copy_clamped(encoding.ids.as_slice(), ids);
            copy_clamped(encoding.attention_mask.as_slice(), mask);
            let status = if fits {
                TokenizeStatus::Written
            } else {
                TokenizeStatus::Truncated
            };
            TokenizeReport { status, diagnostic: None }
        },
        Err(error) => {
            let mut text = "Failed to tokenize: ".to_owned();
            match error {
                EncodeError::Unusable => {
                    text.append("the post-processor cannot be applied to a single text");
                },
                EncodeError::Unanswered => {
                    text.append("the tokenizer gave no answer");
                },
                EncodeError::Rejected(message) => {
                    text.append(message.as_str());
                },
                EncodeError::WrongLength => {
                    text.append("encoding length differs from the sequence length");
                },
            }
            TokenizeReport { status: TokenizeStatus::EncodeFailed, diagnostic: Some(text) }
        },
    }
}

/// The slot that holds the installed tokenizer, if any.
pub struct TokenizerService {
    handle: Option<TokenizerHandle>,
}

/// The signal that loading `definition` for `sequence_length` gives.
pub open spec fn load_result(definition: Definition, sequence_length: usize) -> Result<
    (),
    LoadError,
> {
    match load_failure(definition, sequence_length) {
        Some(e) => Err(e),
        None => Ok(()),
    }
}

/// How loading `definition` for `sequence_length` takes a service from
/// `before` to `after`: a failed load changes nothing, a successful one
/// installs a handle that holds the definition's tokenizer, configured for
/// `sequence_length`.
pub open spec fn load_post(
    before: TokenizerService,
    definition: Definition,
    sequence_length: usize,
    after: TokenizerService,
) -> bool {
    match load_failure(definition, sequence_length) {
        Some(_) => after == before,
        None => {
            &&& definition matches Definition::Parsed(tokenizer)
            &&& after.installed() matches Some(handle)
            &&& handle.wf()
            &&& handle.spec_sequence_length() == sequence_length
            &&& handle.tokenizer() == configured(tokenizer, sequence_length)
            &&& handle.spec_is_usable() == processes_single_text(tokenizer)
        },
    }
}

/// Whether the tokenizer is to be asked for `input`: the input is text,
/// a handle is installed, and the handle is usable.
pub open spec fn asks(service: TokenizerService, input: Seq<u8>) -> bool {
    valid_utf8(input) && (service.installed() matches Some(handle) && handle.spec_is_usable())
}

/// The outcome of a request, given the tokenizer's answer where there is
/// one.
///
/// Input that is not UTF-8 and a missing handle are reported as such and
/// leave the buffers alone, whatever is handed in as answer. Otherwise what
/// the handle makes of the answer is delivered.
pub open spec fn request_outcome(
    service: TokenizerService,
    input: Seq<u8>,
    ids: Seq<u32>,
    mask: Seq<u32>,
    answer: Option<Result<Encoding, String>>,
) -> Delivery {
    if !valid_utf8(input) {
        Delivery { status: TokenizeStatus::InvalidText, ids, mask }
    } else {
        match service.installed() {
            None => Delivery { status: TokenizeStatus::NoHandle, ids, mask },
            Some(handle) => delivered(handle.accepted(answer), ids, mask),
        }
    }
}

/// The message that a request hands to the diagnostic log: none for a
/// missing handle and for an encoding that is delivered, the exact text for
/// an encoding that failed, and for input that is not UTF-8 a text that
/// begins as stated and goes on with the decoder's description.
pub open spec fn request_diagnostic(
    service: TokenizerService,
    input: Seq<u8>,
    answer: Option<Result<Encoding, String>>,
    diagnostic: Option<String>,
) -> bool {
    if !valid_utf8(input) {
        diagnostic matches Some(text) && "Failed to convert CStr to Rust string: "@.is_prefix_of(
            text@,
        )
    } else {
        match service.installed() {
            None => diagnostic is None,
            Some(handle) => match handle.accepted(answer) {
                Ok(_) => diagnostic is None,
                Err(error) => diagnostic matches Some(text) && text@ == encode_failure_message(
                    error,
                ),
            },
        }
    }
}

/// The outcomes that a request can have: those that belong to some answer.
pub open spec fn tokenize_post(
    service: TokenizerService,
    input: Seq<u8>,
    ids: Seq<u32>,
    mask: Seq<u32>,
    outcome: Delivery,
) -> bool {
    exists|answer: Option<Result<Encoding, String>>|
        outcome == #[trigger] request_outcome(service, input, ids, mask, answer)
}

/// Which failures come with a message for the diagnostic log, and how the
/// message begins. A missing handle is reported without one.
pub open spec fn logged(status: TokenizeStatus, diagnostic: Option<String>) -> bool {
    match status {
        TokenizeStatus::InvalidText => diagnostic matches Some(text)
            && "Failed to convert CStr to Rust string: "@.is_prefix_of(text@),
        TokenizeStatus::EncodeFailed => diagnostic matches Some(text)
            && "Failed to tokenize: "@.is_prefix_of(text@),
        _ => diagnostic is None,
    }
}

impl TokenizerService {
    /// The installed handle.
    pub closed spec fn installed(&self) -> Option<TokenizerHandle> {
        self.handle
    }

    /// Every installed handle is configured.
    pub open spec fn wf(&self) -> bool {
        self.installed() matches Some(handle) ==> handle.wf()
    }

    /// A service with nothing installed.
    pub fn new() -> (service: Self)
        ensures
            service.installed() is None,
            service.wf(),
    {
        TokenizerService { handle: None }
    }

    /// Installs `handle`, replacing whatever was installed.
    pub fn install(&mut self, handle: TokenizerHandle)
        ensures
            final(self).installed() == Some(handle),
            final(self).wf(),
    {
        proof {
            use_type_invariant(&handle);
        }
        self.handle = Some(handle);
    }

    /// The sequence length of the installed handle.
    pub fn sequence_length(&self) -> (n: Option<usize>)
        ensures
            n == match self.installed() {
                Some(handle) => Some(handle.spec_sequence_length()),
                None => None,
            },
    {
        match &self.handle {
            Some(handle) => Some(handle.sequence_length()),
            None => None,
        }
    }

    /// Loads what reading and parsing a definition gave, and installs it.
    ///
    /// A failed load changes nothing: what was installed stays installed.
    pub fn load(&mut self, definition: Definition, sequence_length: usize) -> (result: Result<
        (),
        LoadError,
    >)
        ensures
            result == load_result(definition, sequence_length),
            load_post(*old(self), definition, sequence_length, *final(self)),
            old(self).wf() ==> final(self).wf(),
    {
        match TokenizerHandle::load(definition, sequence_length) {
            Ok(handle) => {
                self.install(handle);
                Ok(())
            },
            Err(e) => Err(e),
        }
    }

    /// Says whether the tokenizer is to be asked for `input`, and with
    /// what: the installed tokenizer, the decoded text, special tokens
    /// added.
    pub fn encode_request<'a>(&'a self, input: &'a [u8]) -> (r: Option<EncodeRequest<'a>>)
        ensures
            r is Some <==> asks(*self, input@),
            r matches Some(request) ==> {
                &&& *request.tokenizer == self.installed().unwrap().tokenizer()
                &&& request.text@ == decode_utf8(input@)
                &&& request.add_special_tokens
            },
    {
        let text = match decode_text(input) {
            Ok(text) => text,
            Err(_) => { return None; },
        };
        match &self.handle {
            Some(handle) => {
                if handle.is_usable() {
                    Some(
                        EncodeRequest {
                            tokenizer: handle.as_tokenizer(),
                            text,
                            add_special_tokens: true,
                        },
                    )
                } else {
                    None
                }
            },
            None => None,
        }
    }

    /// Takes the tokenizer's answer to the request for `input`, where there
    /// was one, and delivers it into `ids` and `mask`.
    ///
    /// The input is checked first, then the handle; both failures leave the
    /// buffers untouched, and only the first is logged. An answer that was
    /// not asked for is ignored.
    pub fn tokenize(
        &self,
        input: &[u8],
        answer: Option<Result<Encoding, String>>,
        ids: &mut [u32],
        mask: &mut [u32],
    ) -> (report: TokenizeReport)
        ensures
            (Delivery { status: report.status, ids: final(ids)@, mask: final(mask)@ })
                == request_outcome(*self, input@, old(ids)@, old(mask)@, answer),
            tokenize_post(
                *self,
                input@,
                old(ids)@,
                old(mask)@,
                Delivery { status: report.status, ids: final(ids)@, mask: final(mask)@ },
            ),
            request_diagnostic(*self, input@, answer, report.diagnostic),
            logged(report.status, report.diagnostic),
    {
        match decode_text(input) {
            Ok(_) => {},
            Err(detail) => {
                let mut message = "Failed to convert CStr to Rust string: ".to_owned();
                message.append(detail.as_str());
                return TokenizeReport {
                    status: TokenizeStatus::InvalidText,
                    diagnostic: Some(message),
                };
            },
        }
        match &self.handle {
            None => TokenizeReport { status: TokenizeStatus::NoHandle, diagnostic: None },
            Some(handle) => deliver(handle.accept(answer), ids, mask),
        }
    }
}

impl Default for TokenizerService {
    /// A service with nothing installed.
    fn default() -> (service: Self)
        ensures
            service.installed() is None,
            service.wf(),
    {
        TokenizerService::new()
    }
}

/// Loads what reading and parsing a definition gave into `service`; true on
/// success. A failed load leaves the service as it was.
pub fn load_tokenizer(service: &mut TokenizerService, definition: Definition, sequence_length: usize) -> (ok:
    bool)
    ensures
        ok == load_result(definition, sequence_length) is Ok,
        load_post(*old(service), definition, sequence_length, *final(service)),
        old(service).wf() ==> final(service).wf(),
{
    service.load(definition, sequence_length).is_ok()
}

/// Delivers the tokenizer's answer for `input` into `ids` and `mask`; true
/// exactly when the whole encoding was written. Where it is false for want
/// of room, each buffer holds as much of the encoding as fits; on every
/// other failure both are left as they were.
pub fn tokenize_and_get_ids(
    service: &TokenizerService,
    input: &[u8],
    answer: Option<Result<Encoding, String>>,
    ids: &mut [u32],
    mask: &mut [u32],
) -> (ok: bool)
    ensures
        ok == request_outcome(*service, input@, old(ids)@, old(mask)@, answer).status.is_success(),
        final(ids)@ == request_outcome(*service, input@, old(ids)@, old(mask)@, answer).ids,
        final(mask)@ == request_outcome(*service, input@, old(ids)@, old(mask)@, answer).mask,
{
    service.tokenize(input, answer, ids, mask).status.is_success()
}

} // verus!
