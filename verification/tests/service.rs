use embed_server::registry::{LoadOutcome, ModelHandle, ModelRegistry};
use embed_server::service::{
    build_response, collect_vectors, finish_request, get_prompt_tokens, resolve_model,
    EmbeddingRequest, ServiceError,
};

fn one_model_registry(name: &str) -> ModelRegistry {
    ModelRegistry::build(&vec![LoadOutcome {
        name: name.to_string(),
        handle: Some(ModelHandle { slot: 0 }),
    }])
}

#[test]
fn missing_model_is_a_client_error() {
    let reg = one_model_registry("m");
    let req = EmbeddingRequest { model: None, input: vec!["a".to_string()] };
    let err = resolve_model(&reg, &req).unwrap_err();
    assert_eq!(err, ServiceError::MissingModel);
    assert_eq!(err.status_code(), 400);
    assert_eq!(err.message(), "Model name is required.");
}

#[test]
fn empty_model_name_is_a_client_error() {
    let reg = one_model_registry("m");
    let req = EmbeddingRequest { model: Some(String::new()), input: Vec::new() };
    let err = resolve_model(&reg, &req).unwrap_err();
    assert_eq!(err, ServiceError::MissingModel);
    assert_eq!(err.status_code(), 400);
}

#[test]
fn unknown_model_is_named_in_the_error() {
    let reg = one_model_registry("m");
    let req = EmbeddingRequest {
        model: Some("does-not-exist".to_string()),
        input: vec!["a".to_string()],
    };
    let err = resolve_model(&reg, &req).unwrap_err();
    assert_eq!(err, ServiceError::ModelNotFound("does-not-exist".to_string()));
    assert_eq!(err.status_code(), 404);
    assert_eq!(err.message(), "Model 'does-not-exist' not found.");
}

#[test]
fn known_model_resolves_to_its_handle() {
    let reg = one_model_registry("m");
    let req = EmbeddingRequest { model: Some("m".to_string()), input: Vec::new() };
    assert_eq!(resolve_model(&reg, &req), Ok(ModelHandle { slot: 0 }));
}

#[test]
fn round_trip_preserves_order_and_length() {
    let reg = one_model_registry("m");
    let req = EmbeddingRequest {
        model: Some("m".to_string()),
        input: vec!["a".to_string(), "b".to_string()],
    };
    let handle = resolve_model(&reg, &req).unwrap();
    assert_eq!(handle.slot, 0);
    let outcomes: Vec<Result<Vec<f32>, String>> =
        vec![Ok(vec![1.0, 2.0]), Ok(vec![3.0, 4.0])];
    let resp = finish_request("m".to_string(), req.input.clone(), outcomes).unwrap();
    assert_eq!(resp.object, "list");
    assert_eq!(resp.model, "m");
    assert_eq!(resp.data.len(), 2);
    assert_eq!(resp.data[0].index, 0);
    assert_eq!(resp.data[0].object, "embedding");
    assert_eq!(resp.data[0].embedding, vec![1.0, 2.0]);
    assert_eq!(resp.data[1].index, 1);
    assert_eq!(resp.data[1].embedding, vec![3.0, 4.0]);
    assert_eq!(resp.usage.prompt_tokens, 0);
    assert_eq!(resp.usage.total_tokens, 0);
}

#[test]
fn empty_input_yields_empty_data() {
    let resp = finish_request::<Vec<f32>>("m".to_string(), Vec::new(), Vec::new()).unwrap();
    assert_eq!(resp.data.len(), 0);
    assert_eq!(resp.model, "m");
    assert_eq!(resp.usage.prompt_tokens, 0);
    assert_eq!(resp.usage.total_tokens, 0);
}

#[test]
fn first_encode_failure_aborts_the_request() {
    let outcomes: Vec<Result<Vec<f32>, String>> = vec![
        Ok(vec![1.0]),
        Err("tensor shape mismatch".to_string()),
        Ok(vec![2.0]),
    ];
    let input = vec!["a".to_string(), "b".to_string(), "c".to_string()];
    let err = finish_request("m".to_string(), input, outcomes).unwrap_err();
    assert_eq!(err, ServiceError::EncodeFailed(1, "tensor shape mismatch".to_string()));
    assert_eq!(err.status_code(), 500);
    assert_eq!(err.message(), "tensor shape mismatch");
}

#[test]
fn host_may_stop_encoding_at_the_first_failure() {
    let outcomes: Vec<Result<Vec<f32>, String>> = vec![Ok(vec![1.0]), Err("boom".to_string())];
    let input = vec!["a".to_string(), "b".to_string(), "c".to_string()];
    let err = finish_request("m".to_string(), input, outcomes).unwrap_err();
    assert_eq!(err, ServiceError::EncodeFailed(1, "boom".to_string()));
    assert_eq!(err.status_code(), 500);
}

#[test]
fn collect_keeps_vectors_in_input_order() {
    let outcomes: Vec<Result<u64, String>> = vec![Ok(10), Ok(20), Ok(30)];
    assert_eq!(collect_vectors(outcomes), Ok(vec![10, 20, 30]));
}

#[test]
fn assembled_indices_count_from_zero() {
    let vectors: Vec<u64> = vec![7, 8, 9];
    let resp = build_response("m".to_string(), Vec::new(), vectors);
    assert_eq!(resp.data.len(), 3);
    for (i, e) in resp.data.iter().enumerate() {
        assert_eq!(e.index, i as i32);
        assert_eq!(e.object, "embedding");
    }
    assert_eq!(resp.data[0].embedding, 7);
}

#[test]
fn usage_accounting_is_the_placeholder() {
    let (prompt, total) = get_prompt_tokens(vec!["a".to_string(), "bb".to_string()]);
    assert_eq!(prompt, 0);
    assert_eq!(total, 0);
}
