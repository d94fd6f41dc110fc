//! The embedding service: validates a request, resolves the model against
//! the registry, and assembles the wire response from the per-text encode
//! results, preserving input order and aborting whole requests on the first
//! encode failure.
//!
//! Running the inference itself needs the native runtime and is the host's
//! job; the service is generic in the vector payload `V` it assembles, and
//! never looks inside a vector.

use vstd::prelude::*;
use vstd::string::StringExecFns;
use crate::registry::{ModelHandle, ModelRegistry};

verus! {

/// A decoded embeddings request: an optional model name and the ordered
/// batch of texts to encode.
#[derive(Clone, Debug)]
pub struct EmbeddingRequest {
    pub model: Option<String>,
    pub input: Vec<String>,
}

/// The usage accounting returned with every response. The two-field shape
/// is part of the wire contract; the values are a placeholder.
#[derive(Clone, Copy, PartialEq, Eq, Structural, Debug)]
pub struct Usage {
    pub prompt_tokens: i32,
    pub total_tokens: i32,
}

/// One embedding of the response: the 0-based position of its text in the
/// request's input and the vector computed for it.
#[derive(Clone, Debug)]
pub struct Embedding<V> {
    pub object: String,
    pub index: i32,
    pub embedding: V,
}

/// The assembled response: one embedding per input text, in input order,
/// the resolved model's name, and the usage accounting.
#[derive(Clone, Debug)]
pub struct EmbeddingResponse<V> {
    pub object: String,
    pub data: Vec<Embedding<V>>,
    pub model: String,
    pub usage: Usage,
}

/// Why a request failed.
#[derive(Clone, PartialEq, Eq, Debug)]
pub enum ServiceError {
    /// The request named no model, or named it with the empty string.
    MissingModel,
    /// The named model is not in the registry; carries the requested name.
    ModelNotFound(String),
    /// Encoding the text at the carried 0-based position failed, with the
    /// runtime's description of the failure; no partial results are kept.
    EncodeFailed(usize, String),
}

impl ServiceError {
    /// The HTTP status under which this error is surfaced to the caller:
    /// a missing model name is the client's fault, an unknown name is
    /// answered not-found, and an encode failure is a server fault.
    pub fn status_code(&self) -> (code: u16)
        ensures
            code == (match self {
                ServiceError::MissingModel => 400u16,
                ServiceError::ModelNotFound(_) => 404u16,
                ServiceError::EncodeFailed(_, _) => 500u16,
            }),
    {
        match self {
            ServiceError::MissingModel => 400,
            ServiceError::ModelNotFound(_) => 404,
            ServiceError::EncodeFailed(_, _) => 500,
        }
    }

    /// The response body for this error. A not-found answer names the
    /// model the caller asked for; an encode failure repeats the
    /// runtime's description.
    pub fn message(&self) -> (msg: String)
        ensures
            match self {
                ServiceError::MissingModel => msg@ == "Model name is required."@,
                ServiceError::ModelNotFound(name) => msg@ == "Model '"@ + name@
                    + "' not found."@,
                ServiceError::EncodeFailed(_, cause) => msg@ == cause@,
            },
    {
        match self {
            ServiceError::MissingModel => "Model name is required.".to_owned(),
            ServiceError::ModelNotFound(name) => "Model '".to_owned().concat(
                name.as_str(),
            ).concat("' not found."),
            ServiceError::EncodeFailed(_, cause) => cause.clone(),
        }
    }
}

/// The placeholder usage accounting: no tokenizer is wired in, so both
/// counters are zero for any input. The pair shape is kept stable so that
/// real token counting can replace this without a wire-format change.
pub fn get_prompt_tokens(input: Vec<String>) -> (r: (i32, i32))
    ensures
        r.0 == 0,
        r.1 == 0,
{
    let prompt_tokens: i32 = 0;
    let total_tokens: i32 = prompt_tokens;
    (prompt_tokens, total_tokens)
}

/// Validates the request's model name and resolves it in the registry:
/// an absent or empty name is the caller's fault, an unknown one is
/// answered not-found under that very name, and a known one yields the
/// handle the registry binds it to.
pub fn resolve_model(reg: &ModelRegistry, req: &EmbeddingRequest) -> (r: Result<
    ModelHandle,
    ServiceError,
>)
    ensures
        match req.model {
            Option::None => r == Err::<ModelHandle, ServiceError>(ServiceError::MissingModel),
            Option::Some(name) => if name@.len() == 0 {
                r == Err::<ModelHandle, ServiceError>(ServiceError::MissingModel)
            } else if reg@.contains_key(name@) {
                r == Ok::<ModelHandle, ServiceError>(reg@[name@])
            } else {
                r matches Err(ServiceError::ModelNotFound(m)) && m == name
            },
        },
{
    match &req.model {
        Option::None => Err(ServiceError::MissingModel),
        Option::Some(name) => {
            if name.as_str().is_empty() {
                Err(ServiceError::MissingModel)
            } else {
                match reg.lookup(name) {
                    Option::Some(h) => Ok(h),
                    Option::None => Err(ServiceError::ModelNotFound(name.clone())),
                }
            }
        },
    }
}

/// Gathers the per-text encode results, all-or-nothing: if every text was
/// encoded, the vectors come back in input order; at the first failure the
/// whole batch is dropped and the failing position and cause are reported.
#[verifier::loop_isolation(false)]
pub fn collect_vectors<V>(outcomes: Vec<Result<V, String>>) -> (r: Result<Vec<V>, ServiceError>)
    ensures
        match r {
            Ok(vs) => {
                &&& vs@.len() == outcomes@.len()
                &&& forall|i: int|
                    0 <= i < outcomes@.len() ==> ((#[trigger] outcomes@[i]) matches Ok(v)
                        && vs@[i] == v)
            },
            Err(e) => e matches ServiceError::EncodeFailed(idx, cause) && {
                &&& idx < outcomes@.len()
                &&& outcomes@[idx as int] == Result::<V, String>::Err(cause)
                &&& forall|j: int| 0 <= j < idx ==> (#[trigger] outcomes@[j]) is Ok
            },
        },
{
    let ghost all = outcomes@;
    let mut rest = outcomes;
    let mut vs: Vec<V> = Vec::new();
    while rest.len() > 0
        invariant
            vs@.len() + rest@.len() == all.len(),
            rest@ == all.skip(vs@.len() as int),
            forall|j: int|
                0 <= j < vs@.len() ==> ((#[trigger] all[j]) matches Ok(v) && vs@[j] == v),
        decreases rest@.len(),
    {
        let ghost done = vs@.len() as int;
        let x = rest.remove(0);
        proof {
            assert(x == all[done]);
            assert(rest@ =~= all.skip(done + 1));
        }
        match x {
            Ok(v) => {
                vs.push(v);
            },
            Err(cause) => {
                let idx = vs.len();
                proof {
                    assert(all[idx as int] == Result::<V, String>::Err(cause));
                }
                return Err(ServiceError::EncodeFailed(idx, cause));
            },
        }
    }
    Ok(vs)
}

/// Assembles the wire response: one embedding per vector, in the vectors'
/// order, embedding `i` carrying index `i`; the resolved model's name is
/// echoed and the usage accounting is attached.
pub fn build_response<V>(model_name: String, input: Vec<String>, vectors: Vec<V>) -> (resp:
    EmbeddingResponse<V>)
    requires
        vectors@.len() <= i32::MAX,
    ensures
        resp.model == model_name,
        resp.object@ == "list"@,
        resp.data@.len() == vectors@.len(),
        forall|i: int|
            0 <= i < vectors@.len() ==> {
                &&& (#[trigger] resp.data@[i]).index == i
                &&& resp.data@[i].embedding == vectors@[i]
                &&& resp.data@[i].object@ == "embedding"@
            },
        resp.usage.prompt_tokens == 0,
        resp.usage.total_tokens == 0,
{
    let ghost vs = vectors@;
    let mut rest = vectors;
    let mut data: Vec<Embedding<V>> = Vec::new();
    while rest.len() > 0
        invariant
            data@.len() + rest@.len() == vs.len(),
            vs.len() <= i32::MAX,
            rest@ == vs.skip(data@.len() as int),
            forall|j: int|
                0 <= j < data@.len() ==> {
                    &&& (#[trigger] data@[j]).index == j
                    &&& data@[j].embedding == vs[j]
                    &&& data@[j].object@ == "embedding"@
                },
        decreases rest@.len(),
    {
        let ghost done = data@.len() as int;
        let v = rest.remove(0);
        proof {
            assert(v == vs[done]);
            assert(rest@ =~= vs.skip(done + 1));
        }
        let index = data.len() as i32;
        data.push(Embedding { object: "embedding".to_owned(), index, embedding: v });
    }
    let (prompt_tokens, total_tokens) = get_prompt_tokens(input);
    EmbeddingResponse {
        object: "list".to_owned(),
        data,
        model: model_name,
        usage: Usage { prompt_tokens, total_tokens },
    }
}

/// Finishes a resolved request from the host's per-text encode results,
/// one per input text in input order; the host may stop encoding at its
/// first failure, so the results may also be a shorter batch whose last
/// entry is that failure. If every text was encoded, the response carries
/// one embedding per text in input order, embedding `i` at index `i`
/// holding text `i`'s vector, under the resolved model's name; otherwise
/// the whole request fails with the first failing position and cause.
pub fn finish_request<V>(
    model_name: String,
    input: Vec<String>,
    outcomes: Vec<Result<V, String>>,
) -> (r: Result<EmbeddingResponse<V>, ServiceError>)
    requires
        input@.len() <= i32::MAX,
        outcomes@.len() <= input@.len(),
        outcomes@.len() == input@.len() || (outcomes@.len() > 0 && outcomes@.last() is Err),
    ensures
        match r {
            Ok(resp) => {
                &&& resp.model == model_name
                &&& resp.object@ == "list"@
                &&& resp.data@.len() == input@.len()
                &&& forall|i: int|
                    0 <= i < input@.len() ==> {
                        &&& (#[trigger] resp.data@[i]).index == i
                        &&& resp.data@[i].object@ == "embedding"@
                        &&& outcomes@[i] matches Ok(v) && resp.data@[i].embedding == v
                    }
                &&& resp.usage.prompt_tokens == 0
                &&& resp.usage.total_tokens == 0
            },
            Err(e) => e matches ServiceError::EncodeFailed(idx, cause) && {
                &&& idx < outcomes@.len()
                &&& outcomes@[idx as int] == Result::<V, String>::Err(cause)
                &&& forall|j: int| 0 <= j < idx ==> (#[trigger] outcomes@[j]) is Ok
            },
        },
{
    let ghost all = outcomes@;
    match collect_vectors(outcomes) {
        Ok(vs) => {
            proof {
                if all.len() != input@.len() {
                    assert(all[all.len() - 1] is Ok);
                    assert(false);
                }
            }
            Ok(build_response(model_name, input, vs))
        },
        Err(e) => Err(e),
    }
}

} // verus!
