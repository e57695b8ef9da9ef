//! The loaded, configured tokenizer.

use tokenizers::Tokenizer;
use vstd::prelude::*;
use vstd::utf8::{decode_utf8, valid_utf8};

use crate::collaborator::{
    added_tokens, post_processor, set_fixed_padding, set_truncation,
    truncation_of, with_fixed_padding, with_truncation_limit,
};
use crate::encoding::Encoding;
use crate::processing::{processes_single_text, reserved_tokens, run_step, MAX_NESTING};
use crate::text::decode_text;

verus! {

/// The id that fills padding positions.
pub const PAD_ID: u32 = 0;

/// What reading and parsing a tokenizer definition gave.
pub enum Definition {
    /// The definition could not be read.
    Unreadable,
    /// What was read is not a serialized tokenizer; the parser's message.
    Malformed(String),
    /// The tokenizer that the definition describes.
    Parsed(Tokenizer),
}

/// Why a tokenizer could not be loaded.
#[derive(Clone, Copy, Debug, PartialEq, Eq, Structural)]
pub enum LoadError {
    /// The path of the definition is not valid UTF-8.
    InvalidPath,
    /// The definition could not be read.
    Unreadable,
    /// What was read is not a serialized tokenizer definition.
    Malformed,
    /// The sequence length leaves no room for the special tokens that the
    /// definition adds to every encoding.
    SequenceTooShort,
}

/// Why a text could not be encoded.
#[derive(Debug)]
pub enum EncodeError {
    /// The handle's post-processor cannot be applied to a single text: a
    /// template names a special token that it does not define, or stands
    /// where it gets a text that is not there or more than two encodings.
    /// The tokenizer is not asked.
    Unusable,
    /// The tokenizer was to be asked and no answer was handed in.
    Unanswered,
    /// The tokenizer rejected the text; its message is kept.
    Rejected(String),
    /// The tokenizer returned ids or a mask of another length than the
    /// handle's sequence length.
    WrongLength,
}

/// A tokenizer together with the sequence length it was configured for.
///
/// Every handle truncates to its sequence length and pads to it with
/// `PAD_ID`, and its sequence length leaves room for the special tokens. A
/// handle knows whether its post-processor can be applied to a single text;
/// one on which it cannot is never asked to encode.
pub struct TokenizerHandle {
    tokenizer: Tokenizer,
    sequence_length: usize,
    usable: bool,
}

/// The tokenizer that configuring `tokenizer` for `sequence_length` gives:
/// truncation to that length first, then padding to it with `PAD_ID`.
pub open spec fn configured(tokenizer: Tokenizer, sequence_length: usize) -> Tokenizer {
    with_fixed_padding(with_truncation_limit(tokenizer, sequence_length), sequence_length, PAD_ID)
}

/// What `TokenizerHandle::load` does with a definition and a sequence
/// length: `None` where it succeeds, else the error it reports.
pub open spec fn load_failure(definition: Definition, sequence_length: usize) -> Option<LoadError> {
    match definition {
        Definition::Unreadable => Some(LoadError::Unreadable),
        Definition::Malformed(_) => Some(LoadError::Malformed),
        Definition::Parsed(tokenizer) => if sequence_length < reserved_tokens(tokenizer) {
            Some(LoadError::SequenceTooShort)
        } else {
            None
        },
    }
}

/// What becomes of a tokenizer's answer under a handle of the given
/// sequence length: an encoding of exactly that length is kept, one of any
/// other length is a fault, and so is a rejection.
pub open spec fn checked(sequence_length: usize, produced: Result<Encoding, String>) -> Result<
    Encoding,
    EncodeError,
> {
    match produced {
        Ok(encoding) => if encoding.has_length(sequence_length as nat) {
            Ok(encoding)
        } else {
            Err(EncodeError::WrongLength)
        },
        Err(message) => Err(EncodeError::Rejected(message)),
    }
}

impl TokenizerHandle {
    /// The configured tokenizer.
    pub closed spec fn tokenizer(&self) -> Tokenizer {
        self.tokenizer
    }

    /// The length that every encoding of this handle has.
    pub closed spec fn spec_sequence_length(&self) -> usize {
        self.sequence_length
    }

    /// Whether the handle may be asked to encode.
    pub closed spec fn spec_is_usable(&self) -> bool {
        self.usable
    }

    /// What holds of every handle: its tokenizer truncates to the sequence
    /// length without stride, the sequence length leaves room for the
    /// special tokens, and the handle is usable exactly when its
    /// post-processor can be applied to a single text.
    #[verifier::type_invariant]
    pub open spec fn wf(&self) -> bool {
        &&& truncation_of(self.tokenizer()) == Some((self.spec_sequence_length() as nat, 0nat))
        &&& reserved_tokens(self.tokenizer()) <= self.spec_sequence_length()
        &&& self.spec_is_usable() == processes_single_text(self.tokenizer())
    }

    /// What a handle makes of the answer to its request: nothing is asked
    /// of an unusable handle, a usable one needs an answer, and the answer
    /// is held to the sequence length.
    pub open spec fn accepted(&self, answer: Option<Result<Encoding, String>>) -> Result<
        Encoding,
        EncodeError,
    > {
        if !self.spec_is_usable() {
            Err(EncodeError::Unusable)
        } else {
            match answer {
                None => Err(EncodeError::Unanswered),
                Some(produced) => checked(self.spec_sequence_length(), produced),
            }
        }
    }

    /// Configures a tokenizer to truncate and to pad to `sequence_length`,
    /// replacing whatever truncation and padding it had.
    ///
    /// Fails with `SequenceTooShort` exactly when the tokenizer adds more
    /// special tokens than `sequence_length` has room for. A tokenizer whose
    /// post-processor cannot be applied to a single text is configured all
    /// the same; its handle is not usable.
    pub fn configure(tokenizer: Tokenizer, sequence_length: usize) -> (r: Result<Self, LoadError>)
        ensures
            match r {
                Ok(handle) => {
                    &&& reserved_tokens(tokenizer) <= sequence_length
                    &&& handle.wf()
                    &&& handle.spec_sequence_length() == sequence_length
                    &&& handle.tokenizer() == configured(tokenizer, sequence_length)
                    &&& handle.spec_is_usable() == processes_single_text(tokenizer)
                },
                Err(e) => sequence_length < reserved_tokens(tokenizer) && e
                    == LoadError::SequenceTooShort,
            },
    {
        let mut tokenizer = tokenizer;
        let mut usable = true;
        let mut reserved: usize = 0;
        match post_processor(&tokenizer) {
            Some(processor) => {
                usable = run_step(processor, 1, MAX_NESTING).is_some();
                reserved = added_tokens(processor);
            },
            None => {},
        }
        if sequence_length < reserved {
            return Err(LoadError::SequenceTooShort);
        }
        if !set_truncation(&mut tokenizer, sequence_length) {
            return Err(LoadError::SequenceTooShort);
        }
        set_fixed_padding(&mut tokenizer, sequence_length, PAD_ID);
        Ok(TokenizerHandle { tokenizer, sequence_length, usable })
    }

    /// Makes a handle of what reading and parsing a definition gave.
    ///
    /// Fails with `Unreadable` and `Malformed` exactly on those outcomes;
    /// on a parsed tokenizer `configure` decides.
    pub fn load(definition: Definition, sequence_length: usize) -> (r: Result<Self, LoadError>)
        ensures
            match r {
                Ok(handle) => {
                    &&& load_failure(definition, sequence_length) is None
                    &&& definition matches Definition::Parsed(tokenizer)
                    &&& handle.wf()
                    &&& handle.spec_sequence_length() == sequence_length
                    &&& handle.tokenizer() == configured(tokenizer, sequence_length)
                    &&& handle.spec_is_usable() == processes_single_text(tokenizer)
                },
                Err(e) => load_failure(definition, sequence_length) == Some(e),
            },
    {
        match definition {
            Definition::Unreadable => Err(LoadError::Unreadable),
            Definition::Malformed(_) => Err(LoadError::Malformed),
            Definition::Parsed(tokenizer) => TokenizerHandle::configure(tokenizer, sequence_length),
        }
    }

    /// The length that every encoding of this handle has.
    pub fn sequence_length(&self) -> (n: usize)
        ensures
            n == self.spec_sequence_length(),
    {
        self.sequence_length
    }

    /// Whether the handle may be asked to encode.
    #[verifier::when_used_as_spec(spec_is_usable)]
    pub fn is_usable(&self) -> (usable: bool)
        ensures
            usable == self.spec_is_usable(),
    {
        self.usable
    }

    /// The configured tokenizer, for the caller to ask.
    pub fn as_tokenizer(&self) -> (tokenizer: &Tokenizer)
        ensures
            *tokenizer == self.tokenizer(),
    {
        &self.tokenizer
    }

    /// Takes the answer to a request: keeps an encoding of exactly the
    /// sequence length and turns everything else into the error that says
    /// why there is none.
    pub fn accept(&self, answer: Option<Result<Encoding, String>>) -> (r: Result<
        Encoding,
        EncodeError,
    >)
        ensures
            r == self.accepted(answer),
            r matches Ok(encoding) ==> encoding.has_length(self.spec_sequence_length() as nat),
    {
        if !self.usable {
            return Err(EncodeError::Unusable);
        }
        match answer {
            None => Err(EncodeError::Unanswered),
            Some(produced) => check_encoding(self.sequence_length, produced),
        }
    }
}

/// Reads the path of a definition file from the bytes a caller handed in.
///
/// Fails with `InvalidPath` exactly when the bytes are not valid UTF-8.
pub fn definition_path(path: &[u8]) -> (r: Result<&str, LoadError>)
    ensures
        match r {
            Ok(text) => valid_utf8(path@) && text@ == decode_utf8(path@),
            Err(e) => !valid_utf8(path@) && e == LoadError::InvalidPath,
        },
{
    match decode_text(path) {
        Ok(text) => Ok(text),
        Err(_) => Err(LoadError::InvalidPath),
    }
}

/// Holds a tokenizer's answer to the sequence length: keeps an encoding of
/// exactly that length and turns every other answer into a fault.
pub fn check_encoding(sequence_length: usize, produced: Result<Encoding, String>) -> (r: Result<
    Encoding,
    EncodeError,
>)
    ensures
        r == checked(sequence_length, produced),
{
    match produced {
        Ok(encoding) => {
            if encoding.ids.len() == sequence_length && encoding.attention_mask.len()
                == sequence_length {
                Ok(encoding)
            } else {
                Err(EncodeError::WrongLength)
            }
        },
        Err(message) => Err(EncodeError::Rejected(message)),
    }
}

} // verus!
