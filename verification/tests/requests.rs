use semembed::error::ApiError;
use semembed::handler::{begin_request, create_embeddings, finish_request, reject_request, Step};
use semembed::request::{normalize, EmbeddingRequest, EncodingFormat, InputType};
use semembed::response::assemble_response;
use semembed::telemetry::Recorded;

fn request(input: InputType) -> EmbeddingRequest {
    EmbeddingRequest { input, model: None, encoding_format: EncodingFormat::Float }
}

fn texts_of(items: &[&str]) -> Vec<String> {
    items.iter().map(|s| s.to_string()).collect()
}

/// A stand-in for the engine: the vector of a text holds its length in
/// bytes and its position in the batch.
fn fake_engine(texts: &Vec<String>) -> Result<Vec<Vec<f32>>, String> {
    Ok(texts.iter().enumerate().map(|(i, t)| vec![t.len() as f32, i as f32]).collect())
}

#[test]
fn single_text_normalizes_to_a_batch_of_one() {
    let texts = InputType::Single("hello".to_string()).into_texts();
    assert_eq!(texts, texts_of(&["hello"]));
}

#[test]
fn batch_normalizes_to_itself_in_order() {
    let texts = InputType::Batch(texts_of(&["c", "a", "b"])).into_texts();
    assert_eq!(texts, texts_of(&["c", "a", "b"]));
}

#[test]
fn normalize_rejects_the_empty_batch() {
    let r = normalize(InputType::Batch(Vec::new()));
    assert!(matches!(r, Err(ApiError::EmptyInput)));
}

#[test]
fn normalize_accepts_empty_texts_in_a_batch() {
    let r = normalize(InputType::Batch(texts_of(&["", "x"])));
    assert_eq!(r.unwrap(), texts_of(&["", "x"]));
    let r = normalize(InputType::Single(String::new()));
    assert_eq!(r.unwrap(), texts_of(&[""]));
}

#[test]
fn encoding_format_defaults_to_float() {
    assert_eq!(EncodingFormat::default(), EncodingFormat::Float);
}

#[test]
fn empty_batch_is_rejected_and_recorded() {
    let started = begin_request(InputType::Batch(Vec::new()));
    assert_eq!(
        started.recorded,
        Recorded { requests: 1, errors: 1, tokens: 0, observations: 1 }
    );
    match started.step {
        Step::Reject(e) => {
            assert!(matches!(e, ApiError::EmptyInput));
            assert_eq!(e.status(), 400);
            assert_eq!(e.document().error.error_type, "invalid_request_error");
        }
        Step::Embed(_) => panic!("an empty batch must not reach the engine"),
    }
}

#[test]
fn valid_batch_is_admitted_with_its_token_count() {
    let started = begin_request(InputType::Batch(texts_of(&["hello world", "foo"])));
    assert_eq!(
        started.recorded,
        Recorded { requests: 1, errors: 0, tokens: 3, observations: 0 }
    );
    match started.step {
        Step::Embed(batch) => {
            assert_eq!(batch.texts(), &texts_of(&["hello world", "foo"]));
            assert_eq!(batch.token_count(), 3);
        }
        Step::Reject(_) => panic!("a batch of two texts must be admitted"),
    }
}

#[test]
fn finish_assembles_the_response_in_order() {
    let started = begin_request(InputType::Batch(texts_of(&["hello world", "foo", "bar baz"])));
    let batch = match started.step {
        Step::Embed(batch) => batch,
        Step::Reject(_) => panic!("admitted"),
    };
    let vectors: Vec<Vec<f32>> = vec![vec![0.5, 1.5], vec![2.5], vec![-1.0, 0.0, 1.0]];
    let reply = finish_request(batch, "test-model", Ok(vectors.clone()));
    assert_eq!(
        reply.recorded,
        Recorded { requests: 0, errors: 0, tokens: 0, observations: 1 }
    );
    let response = reply.outcome.unwrap();
    assert_eq!(response.object, "list");
    assert_eq!(response.model, "test-model");
    assert_eq!(response.usage.prompt_tokens, 5);
    assert_eq!(response.usage.total_tokens, 5);
    assert_eq!(response.data.len(), 3);
    for (i, record) in response.data.iter().enumerate() {
        assert_eq!(record.object, "embedding");
        assert_eq!(record.index, i);
        assert_eq!(record.embedding, vectors[i]);
    }
}

#[test]
fn finish_reports_an_engine_failure() {
    let started = begin_request(InputType::Single("hello".to_string()));
    let batch = match started.step {
        Step::Embed(batch) => batch,
        Step::Reject(_) => panic!("admitted"),
    };
    let reply = finish_request::<Vec<f32>>(batch, "m", Err("out of memory".to_string()));
    assert_eq!(
        reply.recorded,
        Recorded { requests: 0, errors: 1, tokens: 0, observations: 1 }
    );
    let e = reply.outcome.unwrap_err();
    assert_eq!(e.status(), 500);
    assert_eq!(e.error_type(), "internal_error");
    assert_eq!(e.message(), "Failed to generate embeddings: out of memory");
}

#[test]
fn usage_counts_whitespace_tokens() {
    let reply = create_embeddings(
        "m",
        request(InputType::Batch(texts_of(&["hello world", "foo"]))),
        fake_engine,
    );
    let response = reply.outcome.unwrap();
    assert_eq!(response.usage.prompt_tokens, 3);
    assert_eq!(response.usage.total_tokens, 3);
}

#[test]
fn response_has_one_record_per_text_in_order() {
    let texts = texts_of(&["a", "bb", "ccc", "dddd", ""]);
    let reply = create_embeddings("m", request(InputType::Batch(texts.clone())), fake_engine);
    assert_eq!(
        reply.recorded,
        Recorded { requests: 1, errors: 0, tokens: 4, observations: 1 }
    );
    let response = reply.outcome.unwrap();
    assert_eq!(response.data.len(), texts.len());
    for (i, record) in response.data.iter().enumerate() {
        assert_eq!(record.index, i);
        assert_eq!(record.embedding, vec![texts[i].len() as f32, i as f32]);
    }
}

#[test]
fn single_text_is_handled_as_a_batch_of_one() {
    let single =
        create_embeddings("m", request(InputType::Single("hello".to_string())), fake_engine);
    let batch =
        create_embeddings("m", request(InputType::Batch(texts_of(&["hello"]))), fake_engine);
    assert_eq!(single.recorded, batch.recorded);
    let single = single.outcome.unwrap();
    let batch = batch.outcome.unwrap();
    assert_eq!(single.data.len(), 1);
    assert_eq!(batch.data.len(), 1);
    assert_eq!(single.data[0].embedding, batch.data[0].embedding);
    assert_eq!(single.data[0].index, batch.data[0].index);
    assert_eq!(single.usage, batch.usage);
    assert_eq!(single.usage.prompt_tokens, 1);
}

#[test]
fn engine_receives_the_normalized_batch() {
    let seen = std::cell::RefCell::new(Vec::new());
    let input = request(InputType::Single("only one".to_string()));
    let reply = create_embeddings("m", input, |texts| {
        seen.borrow_mut().extend(texts.iter().cloned());
        Ok(vec![vec![1.0f32]])
    });
    assert!(reply.outcome.is_ok());
    assert_eq!(seen.into_inner(), texts_of(&["only one"]));
}

#[test]
fn engine_is_not_called_on_an_empty_batch() {
    let called = std::cell::Cell::new(false);
    let input = request(InputType::Batch(Vec::new()));
    let reply = create_embeddings::<Vec<f32>, _>("m", input, |_texts| {
        called.set(true);
        Ok(Vec::new())
    });
    assert!(!called.get());
    assert_eq!(
        reply.recorded,
        Recorded { requests: 1, errors: 1, tokens: 0, observations: 1 }
    );
    let e = reply.outcome.unwrap_err();
    assert!(matches!(e, ApiError::EmptyInput));
    assert_eq!(e.status(), 400);
    assert_eq!(e.error_type(), "invalid_request_error");
    assert_eq!(e.message(), "Input cannot be empty");
}

#[test]
fn engine_failure_is_recorded_with_the_tokens() {
    let reply = create_embeddings::<Vec<f32>, _>(
        "m",
        request(InputType::Batch(texts_of(&["one two", "three"]))),
        |_texts| Err("inference fault".to_string()),
    );
    assert_eq!(
        reply.recorded,
        Recorded { requests: 1, errors: 1, tokens: 3, observations: 1 }
    );
    let e = reply.outcome.unwrap_err();
    assert!(matches!(e, ApiError::Engine(_)));
    assert_eq!(e.status(), 500);
    assert_eq!(e.message(), "Failed to generate embeddings: inference fault");
}

#[test]
fn request_model_and_encoding_do_not_change_the_reply() {
    let named = EmbeddingRequest {
        input: InputType::Single("hello there".to_string()),
        model: Some("another-model".to_string()),
        encoding_format: EncodingFormat::Base64,
    };
    let plain = request(InputType::Single("hello there".to_string()));
    let named = create_embeddings("configured-model", named, fake_engine);
    let plain = create_embeddings("configured-model", plain, fake_engine);
    assert_eq!(named.recorded, plain.recorded);
    let named = named.outcome.unwrap();
    let plain = plain.outcome.unwrap();
    assert_eq!(named.model, "configured-model");
    assert_eq!(named.data[0].embedding, vec![11.0f32, 0.0]);
    assert_eq!(named.usage.total_tokens, 2);
    assert_eq!(named.model, plain.model);
    assert_eq!(named.data[0].embedding, plain.data[0].embedding);
    assert_eq!(named.usage, plain.usage);
}

#[test]
fn assembled_response_of_no_vectors_has_no_records() {
    let response = assemble_response::<Vec<f32>>(Vec::new(), "m", 0);
    assert_eq!(response.object, "list");
    assert_eq!(response.data.len(), 0);
    assert_eq!(response.usage.prompt_tokens, 0);
}

#[test]
fn assembled_response_keeps_any_vector_type() {
    let response = assemble_response(vec!["x", "y"], "m", 7);
    assert_eq!(response.data[0].embedding, "x");
    assert_eq!(response.data[1].embedding, "y");
    assert_eq!(response.data[1].index, 1);
    assert_eq!(response.usage.total_tokens, 7);
}

#[test]
fn encoding_format_is_decoded_by_its_wire_name() {
    assert_eq!(EncodingFormat::decode(None).unwrap(), EncodingFormat::Float);
    assert_eq!(EncodingFormat::decode(Some("float")).unwrap(), EncodingFormat::Float);
    assert_eq!(EncodingFormat::decode(Some("base64")).unwrap(), EncodingFormat::Base64);
    assert_eq!(EncodingFormat::Float.wire_name(), "float");
    assert_eq!(EncodingFormat::Base64.wire_name(), "base64");
}

#[test]
fn unknown_encoding_format_is_refused() {
    for name in ["", "Float", "BASE64", "hex", "float ", "base32"] {
        let e = EncodingFormat::decode(Some(name)).unwrap_err();
        assert!(matches!(&e, ApiError::UnknownEncoding(n) if n == name));
        assert_eq!(e.status(), 400);
    }
}

#[test]
fn rejected_request_is_recorded_as_request_and_error() {
    let reply = reject_request::<Vec<f32>>(ApiError::Malformed("not json".to_string()));
    assert_eq!(
        reply.recorded,
        Recorded { requests: 1, errors: 1, tokens: 0, observations: 1 }
    );
    let e = reply.outcome.unwrap_err();
    assert!(matches!(&e, ApiError::Malformed(m) if m == "not json"));
    assert_eq!(e.status(), 400);
    assert_eq!(e.document().error.error_type, "invalid_request_error");
    assert_eq!(e.document().error.message, "not json");
}
