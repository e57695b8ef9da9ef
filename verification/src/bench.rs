//! Loading what a benchmark run works on: a corpus of article texts and a
//! tokenizer that pads to a fixed length.

use serde_json::Value;
use tokenizers::Tokenizer;
use vstd::prelude::*;

use crate::codec::{
    brotli_decoded, brotli_decompress, member_values, object_members, parse_json, parsed_json,
    string_text,
};
use crate::collaborator::{set_fixed_padding, with_fixed_padding};
use crate::handle::PAD_ID;

verus! {

/// The size of the buffer through which the corpus is decompressed.
pub const DECOMPRESSION_BUFFER: usize = 4096;

/// The length that a benchmark tokenizer pads to.
pub const BENCH_PADDING: usize = 512;

/// What went wrong with benchmark data.
#[derive(Clone, Copy, Debug, PartialEq, Eq, Structural)]
pub enum DataFault {
    /// The corpus is not a brotli stream.
    BadCompression,
    /// The decompressed corpus is not JSON.
    BadJson,
    /// The tokenizer definition does not parse.
    BadDefinition,
}

/// Why benchmark data could not be loaded: what went wrong, and what the
/// decompressor, the JSON reader or the tokenizer said of it.
#[derive(Debug, PartialEq, Eq)]
pub struct DataError {
    /// What went wrong.
    pub fault: DataFault,
    /// The message of the error that was met.
    pub message: String,
}

/// The texts among `members`, in their order: every member that is a JSON
/// string contributes its text, every other member is passed over.
pub open spec fn texts(members: Seq<Value>) -> Seq<Seq<char>>
    decreases members.len(),
{
    if members.len() == 0 {
        Seq::empty()
    } else {
        let front = texts(members.drop_last());
        match string_text(members.last()) {
            Some(text) => front.push(text),
            None => front,
        }
    }
}

/// The article texts of a JSON document: the string members of an object,
/// and nothing for a document that is not an object.
pub open spec fn article_texts(document: Value) -> Seq<Seq<char>> {
    match object_members(document) {
        Some(members) => texts(members),
        None => Seq::empty(),
    }
}

/// What a compressed corpus holds.
pub open spec fn wikidata_contents(compressed: Seq<u8>) -> Result<Seq<Seq<char>>, DataFault> {
    match brotli_decoded(compressed, DECOMPRESSION_BUFFER) {
        None => Err(DataFault::BadCompression),
        Some(json) => match parsed_json(json) {
            None => Err(DataFault::BadJson),
            Some(document) => Ok(article_texts(document)),
        },
    }
}

/// The characters of each string.
pub open spec fn views(strings: Seq<String>) -> Seq<Seq<char>> {
    strings.map_values(|s: String| s@)
}

/// Collects the article texts of a JSON document.
pub fn collect_articles(document: &Value) -> (contents: Vec<String>)
    ensures
        views(contents@) == article_texts(*document),
{
    let mut contents: Vec<String> = Vec::new();
    match member_values(document) {
        None => {},
        Some(members) => {
            let ghost all = object_members(*document).unwrap();
            let mut i: usize = 0;
            while i < members.len()
                invariant
                    i <= members@.len(),
                    members@.len() == all.len(),
                    forall|k: int| 0 <= k < members@.len() ==> *members@[k] == all[k],
                    views(contents@) == texts(all.take(i as int)),
                decreases members@.len() - i,
            {
                assert(all.take(i + 1).drop_last() =~= all.take(i as int));
                match members[i].as_str() {
                    Some(text) => {
                        contents.push(text.to_owned());
                    },
                    None => {},
                }
                i += 1;
            }
            assert(all.take(i as int) =~= all);
        },
    }
    contents
}

/// Reads the article texts out of a brotli-compressed JSON corpus.
///
/// Fails with `BadCompression` exactly when the bytes do not decompress and
/// with `BadJson` exactly when they do but what comes out is not JSON; the
/// error carries the message of the decompressor or of the JSON reader.
pub fn load_wikidata_from_brotli_json(compressed: &[u8]) -> (r: Result<Vec<String>, DataError>)
    ensures
        match r {
            Ok(contents) => wikidata_contents(compressed@) == Ok::<Seq<Seq<char>>, DataFault>(
                views(contents@),
            ),
            Err(e) => wikidata_contents(compressed@) == Err::<Seq<Seq<char>>, DataFault>(e.fault),
        },
{
    let json = match brotli_decompress(compressed, DECOMPRESSION_BUFFER) {
        Ok(json) => json,
        Err(message) => {
            return Err(DataError { fault: DataFault::BadCompression, message });
        },
    };
    let document = match parse_json(json.as_slice()) {
        Ok(document) => document,
        Err(message) => {
            return Err(DataError { fault: DataFault::BadJson, message });
        },
    };
    Ok(collect_articles(&document))
}

/// Makes a parsed tokenizer pad every encoding to `pad_to` with `PAD_ID`.
/// Everything else is left as the definition has it.
///
/// Fails exactly when parsing failed, with the parser's message.
pub fn load_tokenizer(parsed: Result<Tokenizer, String>, pad_to: usize) -> (r: Result<
    Tokenizer,
    DataError,
>)
    ensures
        match parsed {
            Ok(tokenizer) => r == Ok::<Tokenizer, DataError>(
                with_fixed_padding(tokenizer, pad_to, PAD_ID),
            ),
            Err(message) => r == Err::<Tokenizer, DataError>(
                DataError { fault: DataFault::BadDefinition, message },
            ),
        },
{
    match parsed {
        Ok(tokenizer) => {
            let mut tokenizer = tokenizer;
            set_fixed_padding(&mut tokenizer, pad_to, PAD_ID);
            Ok(tokenizer)
        },
        Err(message) => Err(DataError { fault: DataFault::BadDefinition, message }),
    }
}

/// What `load` reports for a parsed definition and a corpus: `None` where
/// both load, else the first failure, the corpus being read first.
pub open spec fn load_error(parsed: Result<Tokenizer, String>, compressed: Seq<u8>) -> Option<
    DataFault,
> {
    match wikidata_contents(compressed) {
        Err(e) => Some(e),
        Ok(_) => if parsed is Err {
            Some(DataFault::BadDefinition)
        } else {
            None
        },
    }
}

/// Loads the corpus and a tokenizer that pads to `BENCH_PADDING`.
pub fn load(parsed: Result<Tokenizer, String>, compressed: &[u8]) -> (r: Result<
    (Tokenizer, Vec<String>),
    DataError,
>)
    ensures
        match r {
            Ok((tokenizer, articles)) => {
                &&& load_error(parsed, compressed@) is None
                &&& wikidata_contents(compressed@) == Ok::<Seq<Seq<char>>, DataFault>(
                    views(articles@),
                )
                &&& parsed matches Ok(given)
                &&& tokenizer == with_fixed_padding(given, BENCH_PADDING, PAD_ID)
            },
            Err(e) => load_error(parsed, compressed@) == Some(e.fault),
        },
{
    let articles = match load_wikidata_from_brotli_json(compressed) {
        Ok(articles) => articles,
        Err(e) => { return Err(e); },
    };
    match load_tokenizer(parsed, BENCH_PADDING) {
        Ok(tokenizer) => Ok((tokenizer, articles)),
        Err(e) => Err(e),
    }
}

} // verus!
