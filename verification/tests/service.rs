use hf_tokenizer::{
    Definition, EncodeError, Encoding, LoadError, TokenizeReport, TokenizeStatus,
    TokenizerHandle, TokenizerService,
};

fn parse(definition: &[u8]) -> Definition {
    match tokenizers::Tokenizer::from_bytes(definition) {
        Ok(tokenizer) => Definition::Parsed(tokenizer),
        Err(e) => Definition::Malformed(e.to_string()),
    }
}

fn ask(service: &TokenizerService, input: &[u8]) -> Option<Result<Encoding, String>> {
    service.encode_request(input).map(|request| {
        match request.tokenizer.encode(request.text, request.add_special_tokens) {
            Ok(encoding) => {
                Ok(Encoding::from_slices(encoding.get_ids(), encoding.get_attention_mask()))
            }
            Err(e) => Err(e.to_string()),
        }
    })
}

fn load(service: &mut TokenizerService, definition: &[u8], n: usize) -> Result<(), LoadError> {
    service.load(parse(definition), n)
}

fn load_tokenizer(service: &mut TokenizerService, definition: &[u8], n: usize) -> bool {
    hf_tokenizer::load_tokenizer(service, parse(definition), n)
}

fn tokenize(
    service: &TokenizerService,
    input: &[u8],
    ids: &mut [u32],
    mask: &mut [u32],
) -> TokenizeReport {
    service.tokenize(input, ask(service, input), ids, mask)
}

fn tokenize_and_get_ids(
    service: &TokenizerService,
    input: &[u8],
    ids: &mut [u32],
    mask: &mut [u32],
) -> bool {
    hf_tokenizer::tokenize_and_get_ids(service, input, ask(service, input), ids, mask)
}

fn load_handle(definition: &[u8], n: usize) -> Result<TokenizerHandle, LoadError> {
    let definition = match tokenizers::Tokenizer::from_bytes(definition) {
        Ok(tokenizer) => Definition::Parsed(tokenizer),
        Err(e) => Definition::Malformed(e.to_string()),
    };
    TokenizerHandle::load(definition, n)
}

fn encode(handle: &TokenizerHandle, text: &str) -> Result<Encoding, EncodeError> {
    let answer = if handle.is_usable() {
        Some(match handle.as_tokenizer().encode(text, true) {
            Ok(encoding) => {
                Ok(Encoding::from_slices(encoding.get_ids(), encoding.get_attention_mask()))
            }
            Err(e) => Err(e.to_string()),
        })
    } else {
        None
    };
    handle.accept(answer)
}

const DEFINITION: &str = r#"{
  "version": "1.0",
  "truncation": null,
  "padding": null,
  "added_tokens": [],
  "normalizer": null,
  "pre_tokenizer": {"type": "Whitespace"},
  "post_processor": {"type": "BertProcessing", "sep": ["[SEP]", 3], "cls": ["[CLS]", 2]},
  "decoder": null,
  "model": {
    "type": "WordLevel",
    "vocab": {"[PAD]": 0, "[UNK]": 1, "[CLS]": 2, "[SEP]": 3, "hello": 4, "world": 5},
    "unk_token": "[UNK]"
  }
}"#;

fn loaded(sequence_length: usize) -> TokenizerService {
    let mut service = TokenizerService::new();
    assert!(load_tokenizer(&mut service, DEFINITION.as_bytes(), sequence_length));
    service
}

#[test]
fn hello_world_is_padded_to_eight() {
    let service = loaded(8);
    let mut ids = [77u32; 8];
    let mut mask = [77u32; 8];
    assert!(tokenize_and_get_ids(&service, b"hello world", &mut ids, &mut mask));
    assert_eq!(ids, [2, 4, 5, 3, 0, 0, 0, 0]);
    assert_eq!(mask, [1, 1, 1, 1, 0, 0, 0, 0]);
}

#[test]
fn mask_is_ones_then_zeros() {
    let service = loaded(8);
    let mut ids = [77u32; 8];
    let mut mask = [77u32; 8];
    assert!(tokenize_and_get_ids(&service, b"hello world", &mut ids, &mut mask));
    let real = mask.iter().take_while(|m| **m == 1).count();
    assert!(real > 0);
    assert!(mask[real..].iter().all(|m| *m == 0));
    assert!(ids[real..].iter().all(|id| *id == 0));
}

#[test]
fn tokenize_before_load_fails_and_writes_nothing() {
    let service = TokenizerService::new();
    let mut ids = [11u32, 12, 13];
    let mut mask = [21u32, 22, 23];
    assert!(!tokenize_and_get_ids(&service, b"hello world", &mut ids, &mut mask));
    assert_eq!(ids, [11, 12, 13]);
    assert_eq!(mask, [21, 22, 23]);
}

#[test]
fn missing_handle_is_reported_without_a_message() {
    let service = TokenizerService::new();
    let mut ids = [11u32; 4];
    let mut mask = [21u32; 4];
    let report = tokenize(&service, b"hello", &mut ids, &mut mask);
    assert_eq!(report.status, TokenizeStatus::NoHandle);
    assert!(report.diagnostic.is_none());
    assert_eq!(ids, [11; 4]);
    assert_eq!(mask, [21; 4]);
}

#[test]
fn empty_text_has_sequence_length() {
    let service = loaded(6);
    let mut ids = [77u32; 6];
    let mut mask = [77u32; 6];
    let report = tokenize(&service, b"", &mut ids, &mut mask);
    assert_eq!(report.status, TokenizeStatus::Written);
    assert_eq!(ids, [2, 3, 0, 0, 0, 0]);
    assert_eq!(mask, [1, 1, 0, 0, 0, 0]);
}

#[test]
fn long_text_is_truncated_to_sequence_length() {
    let service = loaded(5);
    let text = "hello world ".repeat(2000);
    let mut ids = [77u32; 9];
    let mut mask = [77u32; 9];
    let report = tokenize(&service, text.as_bytes(), &mut ids, &mut mask);
    assert_eq!(report.status, TokenizeStatus::Written);
    assert_eq!(ids, [2, 4, 5, 4, 3, 77, 77, 77, 77]);
    assert_eq!(mask, [1, 1, 1, 1, 1, 77, 77, 77, 77]);
}

#[test]
fn unknown_words_map_to_the_unknown_token() {
    let service = loaded(4);
    let mut ids = [77u32; 4];
    let mut mask = [77u32; 4];
    assert!(tokenize_and_get_ids(&service, b"goodbye world", &mut ids, &mut mask));
    assert_eq!(ids, [2, 1, 5, 3]);
    assert_eq!(mask, [1, 1, 1, 1]);
}

#[test]
fn short_buffers_are_filled_and_reported_as_truncated() {
    let service = loaded(8);
    let mut ids = [77u32; 3];
    let mut mask = [77u32; 10];
    let report = tokenize(&service, b"hello world", &mut ids, &mut mask);
    assert_eq!(report.status, TokenizeStatus::Truncated);
    assert!(report.diagnostic.is_none());
    assert_eq!(ids, [2, 4, 5]);
    assert_eq!(mask, [1, 1, 1, 1, 0, 0, 0, 0, 77, 77]);
    assert!(report.status.has_written());
    assert!(!report.status.is_success());
    let mut ids = [77u32; 3];
    let mut mask = [77u32; 10];
    assert!(!tokenize_and_get_ids(&service, b"hello world", &mut ids, &mut mask));
    assert_eq!(ids, [2, 4, 5]);
    assert_eq!(mask, [1, 1, 1, 1, 0, 0, 0, 0, 77, 77]);
}

#[test]
fn short_mask_buffer_alone_is_reported_too() {
    let service = loaded(4);
    let mut ids = [77u32; 4];
    let mut mask = [78u32; 3];
    let report = tokenize(&service, b"hello world", &mut ids, &mut mask);
    assert_eq!(report.status, TokenizeStatus::Truncated);
    assert_eq!(ids, [2, 4, 5, 3]);
    assert_eq!(mask, [1, 1, 1]);
    let mut exact_ids = [77u32; 4];
    let mut exact_mask = [78u32; 4];
    assert!(tokenize_and_get_ids(&service, b"hello world", &mut exact_ids, &mut exact_mask));
    assert_eq!(exact_mask, [1, 1, 1, 1]);
}

#[test]
fn invalid_text_is_rejected_and_logged() {
    let service = loaded(8);
    let mut ids = [77u32; 8];
    let mut mask = [78u32; 8];
    let report = tokenize(&service, &[b'h', 0xff, b'i'], &mut ids, &mut mask);
    assert_eq!(report.status, TokenizeStatus::InvalidText);
    let message = report.diagnostic.unwrap();
    assert!(message.starts_with("Failed to convert CStr to Rust string: "));
    assert!(message.len() > "Failed to convert CStr to Rust string: ".len());
    assert_eq!(ids, [77; 8]);
    assert_eq!(mask, [78; 8]);
    assert!(!tokenize_and_get_ids(&service, &[0xc0], &mut ids, &mut mask));
}

#[test]
fn invalid_text_comes_before_the_missing_handle() {
    let service = TokenizerService::new();
    let mut ids = [77u32; 2];
    let mut mask = [78u32; 2];
    let report = tokenize(&service, &[0x80], &mut ids, &mut mask);
    assert_eq!(report.status, TokenizeStatus::InvalidText);
    assert!(report.diagnostic.is_some());
}

#[test]
fn failed_load_keeps_the_installed_handle() {
    let mut service = loaded(6);
    assert!(!load_tokenizer(&mut service, b"{ not a definition", 3));
    assert_eq!(service.sequence_length(), Some(6));
    let mut ids = [77u32; 6];
    let mut mask = [77u32; 6];
    assert!(tokenize_and_get_ids(&service, b"hello", &mut ids, &mut mask));
    assert_eq!(ids, [2, 4, 3, 0, 0, 0]);
    assert_eq!(mask, [1, 1, 1, 0, 0, 0]);
}

#[test]
fn failed_load_into_an_empty_service_leaves_it_empty() {
    let mut service = TokenizerService::new();
    assert!(!load_tokenizer(&mut service, b"", 8));
    assert_eq!(load(&mut service, b"[1, 2]", 8), Err(LoadError::Malformed));
    assert_eq!(service.sequence_length(), None);
    let mut ids = [5u32; 8];
    let mut mask = [6u32; 8];
    assert!(!tokenize_and_get_ids(&service, b"hello", &mut ids, &mut mask));
    assert_eq!(ids, [5; 8]);
    assert_eq!(mask, [6; 8]);
}

#[test]
fn sequence_length_below_the_special_tokens_is_refused() {
    let mut service = loaded(4);
    assert_eq!(load(&mut service, DEFINITION.as_bytes(), 1), Err(LoadError::SequenceTooShort));
    assert_eq!(service.sequence_length(), Some(4));
    assert_eq!(load(&mut service, DEFINITION.as_bytes(), 2), Ok(()));
    assert_eq!(service.sequence_length(), Some(2));
    let mut ids = [77u32; 2];
    let mut mask = [77u32; 2];
    assert!(tokenize_and_get_ids(&service, b"hello world", &mut ids, &mut mask));
    assert_eq!(ids, [2, 3]);
    assert_eq!(mask, [1, 1]);
}

#[test]
fn reload_changes_the_output_length() {
    let mut service = loaded(8);
    let mut ids = [77u32; 8];
    let mut mask = [77u32; 8];
    assert!(tokenize_and_get_ids(&service, b"hello world", &mut ids, &mut mask));
    assert_eq!(ids, [2, 4, 5, 3, 0, 0, 0, 0]);
    assert!(load_tokenizer(&mut service, DEFINITION.as_bytes(), 3));
    assert_eq!(service.sequence_length(), Some(3));
    let mut ids = [77u32; 8];
    let mut mask = [77u32; 8];
    let report = tokenize(&service, b"hello world", &mut ids, &mut mask);
    assert_eq!(report.status, TokenizeStatus::Written);
    assert_eq!(ids, [2, 4, 3, 77, 77, 77, 77, 77]);
    assert_eq!(mask, [1, 1, 1, 77, 77, 77, 77, 77]);
}

#[test]
fn tokenize_twice_gives_identical_output() {
    let service = loaded(8);
    let mut first_ids = [1u32; 8];
    let mut first_mask = [2u32; 8];
    let mut second_ids = [3u32; 8];
    let mut second_mask = [4u32; 8];
    assert!(tokenize_and_get_ids(&service, b"hello hello world", &mut first_ids, &mut first_mask));
    assert!(tokenize_and_get_ids(&service, b"hello hello world", &mut second_ids, &mut second_mask));
    assert_eq!(first_ids, second_ids);
    assert_eq!(first_mask, second_mask);
    assert_eq!(first_ids, [2, 4, 4, 5, 3, 0, 0, 0]);
}

#[test]
fn sequence_length_zero_gives_empty_encodings() {
    let definition = DEFINITION.replace(
        r#"{"type": "BertProcessing", "sep": ["[SEP]", 3], "cls": ["[CLS]", 2]}"#,
        "null",
    );
    let mut service = TokenizerService::new();
    assert!(load_tokenizer(&mut service, definition.as_bytes(), 0));
    let mut ids = [77u32; 2];
    let mut mask = [78u32; 2];
    let report = tokenize(&service, b"hello world", &mut ids, &mut mask);
    assert_eq!(report.status, TokenizeStatus::Written);
    assert_eq!(ids, [77, 77]);
    assert_eq!(mask, [78, 78]);
}

#[test]
fn interleaved_requests_do_not_disturb_one_another() {
    let service = loaded(6);
    let texts: [&[u8]; 4] = [b"hello", b"world hello", b"", b"zebra world"];
    let mut alone = Vec::new();
    for text in texts.iter() {
        let mut ids = [9u32; 6];
        let mut mask = [9u32; 6];
        assert!(tokenize_and_get_ids(&service, text, &mut ids, &mut mask));
        alone.push((ids, mask));
    }
    for round in 0..40 {
        let pick = (round * 3 + 1) % texts.len();
        let mut ids = [round as u32; 6];
        let mut mask = [round as u32 + 1; 6];
        assert!(tokenize_and_get_ids(&service, texts[pick], &mut ids, &mut mask));
        assert_eq!((ids, mask), alone[pick]);
    }
    assert_eq!(alone[0].0, [2, 4, 3, 0, 0, 0]);
    assert_eq!(alone[3].0, [2, 1, 5, 3, 0, 0]);
    assert_eq!(alone[2].1, [1, 1, 0, 0, 0, 0]);
}

#[test]
fn default_service_has_nothing_installed() {
    let service = TokenizerService::default();
    assert_eq!(service.sequence_length(), None);
}

#[test]
fn install_replaces_the_handle() {
    let mut service = loaded(8);
    let handle = load_handle(DEFINITION.as_bytes(), 5).unwrap();
    service.install(handle);
    assert_eq!(service.sequence_length(), Some(5));
    let mut ids = [77u32; 5];
    let mut mask = [77u32; 5];
    assert!(tokenize_and_get_ids(&service, b"hello world", &mut ids, &mut mask));
    assert_eq!(ids, [2, 4, 5, 3, 0]);
    assert_eq!(mask, [1, 1, 1, 1, 0]);
}

#[test]
fn rejected_text_is_reported_and_logged() {
    let definition = r#"{
      "version": "1.0",
      "truncation": null,
      "padding": null,
      "added_tokens": [],
      "normalizer": null,
      "pre_tokenizer": {"type": "Whitespace"},
      "post_processor": null,
      "decoder": null,
      "model": {
        "type": "WordLevel",
        "vocab": {"[PAD]": 0, "hello": 4, "world": 5},
        "unk_token": "[UNK]"
      }
    }"#;
    let mut service = TokenizerService::new();
    assert!(load_tokenizer(&mut service, definition.as_bytes(), 4));
    let mut ids = [77u32; 4];
    let mut mask = [78u32; 4];
    let report = tokenize(&service, b"hello zebra", &mut ids, &mut mask);
    assert_eq!(report.status, TokenizeStatus::EncodeFailed);
    let message = report.diagnostic.unwrap();
    assert!(message.starts_with("Failed to tokenize: "));
    assert!(message.len() > "Failed to tokenize: ".len());
    assert_eq!(ids, [77; 4]);
    assert_eq!(mask, [78; 4]);
    assert!(!tokenize_and_get_ids(&service, b"zebra", &mut ids, &mut mask));
    let report = tokenize(&service, b"hello world", &mut ids, &mut mask);
    assert_eq!(report.status, TokenizeStatus::Written);
    assert_eq!(ids, [4, 5, 0, 0]);
}

#[test]
fn request_names_tokenizer_text_and_special_tokens() {
    let service = loaded(8);
    let request = service.encode_request("hello wörld".as_bytes()).unwrap();
    assert_eq!(request.text, "hello wörld");
    assert!(request.add_special_tokens);
    assert_eq!(request.tokenizer.get_truncation().unwrap().max_length, 8);
    assert!(service.encode_request(&[0xff]).is_none());
    assert!(TokenizerService::new().encode_request(b"hello").is_none());
}

#[test]
fn missing_answer_is_an_encode_failure() {
    let service = loaded(4);
    let mut ids = [7u32; 4];
    let mut mask = [8u32; 4];
    let report = service.tokenize(b"hello", None, &mut ids, &mut mask);
    assert_eq!(report.status, TokenizeStatus::EncodeFailed);
    assert_eq!(report.diagnostic.as_deref(), Some("Failed to tokenize: the tokenizer gave no answer"));
    assert_eq!(ids, [7; 4]);
    assert_eq!(mask, [8; 4]);
}

#[test]
fn answer_of_another_length_is_an_encode_failure() {
    let service = loaded(4);
    let mut ids = [7u32; 4];
    let mut mask = [8u32; 4];
    let answer = Some(Ok(Encoding::from_slices(&[2, 4, 3, 0, 0], &[1, 1, 1, 0, 0])));
    let report = service.tokenize(b"hello", answer, &mut ids, &mut mask);
    assert_eq!(report.status, TokenizeStatus::EncodeFailed);
    assert_eq!(
        report.diagnostic.as_deref(),
        Some("Failed to tokenize: encoding length differs from the sequence length")
    );
    assert_eq!(ids, [7; 4]);
    let answer = Some(Ok(Encoding::from_slices(&[2, 4, 3, 0], &[1, 1, 1, 0])));
    assert!(hf_tokenizer::tokenize_and_get_ids(&service, b"hello", answer, &mut ids, &mut mask));
    assert_eq!(ids, [2, 4, 3, 0]);
    assert_eq!(mask, [1, 1, 1, 0]);
}

#[test]
fn answer_is_ignored_where_nothing_was_asked() {
    let service = TokenizerService::new();
    let mut ids = [7u32; 2];
    let mut mask = [8u32; 2];
    let answer = Some(Ok(Encoding::from_slices(&[1, 2], &[1, 1])));
    let report = service.tokenize(b"hello", answer, &mut ids, &mut mask);
    assert_eq!(report.status, TokenizeStatus::NoHandle);
    assert_eq!(ids, [7, 7]);
    let service = loaded(2);
    let answer = Some(Ok(Encoding::from_slices(&[1, 2], &[1, 1])));
    let report = service.tokenize(&[0xff], answer, &mut ids, &mut mask);
    assert_eq!(report.status, TokenizeStatus::InvalidText);
    assert_eq!(mask, [8, 8]);
}

#[test]
fn unreadable_definition_leaves_the_service_as_it_was() {
    let mut service = loaded(6);
    assert_eq!(service.load(Definition::Unreadable, 3), Err(LoadError::Unreadable));
    assert!(!hf_tokenizer::load_tokenizer(&mut service, Definition::Unreadable, 3));
    assert_eq!(service.sequence_length(), Some(6));
}
