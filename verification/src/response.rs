//! The documents sent on success, and how the embeddings response is assembled.
//!
//! The type `V` of one embedding vector is left open: a vector passes through
//! from the engine to the response untouched, so nothing here depends on what
//! its components are.

use vstd::prelude::*;

verus! {

/// One embedding of the response, tagged with the position of its text.
#[derive(Debug)]
pub struct EmbeddingObject<V> {
    pub object: String,
    pub embedding: V,
    pub index: usize,
}

/// Approximate token accounting of one request.
#[derive(Clone, Copy, Debug, PartialEq, Eq, Structural)]
pub struct Usage {
    pub prompt_tokens: u128,
    pub total_tokens: u128,
}

/// The embeddings response document.
#[derive(Debug)]
pub struct EmbeddingResponse<V> {
    pub object: String,
    pub data: Vec<EmbeddingObject<V>>,
    pub model: String,
    pub usage: Usage,
}

/// What one embedding record says.
pub struct EmbeddingObjectView<V> {
    pub object: Seq<char>,
    pub embedding: V,
    pub index: nat,
}

/// What an embeddings response says.
pub struct EmbeddingResponseView<V> {
    pub object: Seq<char>,
    pub data: Seq<EmbeddingObjectView<V>>,
    pub model: Seq<char>,
    pub usage: Usage,
}

impl<V> View for EmbeddingObject<V> {
    type V = EmbeddingObjectView<V>;

    open spec fn view(&self) -> EmbeddingObjectView<V> {
        EmbeddingObjectView {
            object: self.object@,
            embedding: self.embedding,
            index: self.index as nat,
        }
    }
}

impl<V> View for EmbeddingResponse<V> {
    type V = EmbeddingResponseView<V>;

    open spec fn view(&self) -> EmbeddingResponseView<V> {
        EmbeddingResponseView {
            object: self.object@,
            data: Seq::new(self.data@.len(), |i: int| self.data@[i]@),
            model: self.model@,
            usage: self.usage,
        }
    }
}

/// The record for the vector at position `index`.
pub open spec fn embedding_record<V>(vector: V, index: int) -> EmbeddingObjectView<V> {
    EmbeddingObjectView { object: "embedding"@, embedding: vector, index: index as nat }
}

/// The response for `vectors`, in their order: record `i` holds vector `i`
/// and the index `i`; both usage fields hold `tokens`.
pub open spec fn response_for<V>(vectors: Seq<V>, model: Seq<char>, tokens: u128)
    -> EmbeddingResponseView<V> {
    EmbeddingResponseView {
        object: "list"@,
        data: Seq::new(vectors.len(), |i: int| embedding_record(vectors[i], i)),
        model,
        usage: Usage { prompt_tokens: tokens, total_tokens: tokens },
    }
}

/// Assembles the response document from the engine's vectors.
pub fn assemble_response<V>(
    vectors: Vec<V>,
    model_name: &str,
    token_count: u128,
) -> (response: EmbeddingResponse<V>)
    ensures
        response@ == response_for(vectors@, model_name@, token_count),
{
    let ghost all = vectors@;
    let mut data: Vec<EmbeddingObject<V>> = Vec::new();
    for vector in it: vectors
        invariant
            it.seq() == all,
            data@.len() == it.index(),
            forall|i: int|
                0 <= i < data@.len() ==> (#[trigger] data@[i])@ == embedding_record(all[i], i),
    {
        let index = data.len();
        data.push(EmbeddingObject { object: "embedding".to_owned(), embedding: vector, index });
    }
    let response = EmbeddingResponse {
        object: "list".to_owned(),
        data,
        model: model_name.to_owned(),
        usage: Usage { prompt_tokens: token_count, total_tokens: token_count },
    };
    assert(response@.data =~= response_for(all, model_name@, token_count).data);
    response
}

/// A response holds one record for each vector, in the vectors' order:
/// record `i` carries the index `i` and the vector `i`. Where the engine
/// returns one vector for each text, in the texts' order, record `i` is
/// therefore the embedding of text `i`.
pub proof fn law_records_follow_vectors<V>(vectors: Seq<V>, model: Seq<char>, tokens: u128)
    ensures
        response_for(vectors, model, tokens).data.len() == vectors.len(),
        forall|i: int|
            0 <= i < vectors.len() ==> {
                &&& (#[trigger] response_for(vectors, model, tokens).data[i]).index == i
                &&& response_for(vectors, model, tokens).data[i].embedding == vectors[i]
            },
{
}

/// Both usage fields of a response hold the token count it was made with.
pub proof fn law_usage_is_token_count<V>(vectors: Seq<V>, model: Seq<char>, tokens: u128)
    ensures
        response_for(vectors, model, tokens).usage.prompt_tokens == tokens,
        response_for(vectors, model, tokens).usage.total_tokens == tokens,
{
}

} // verus!
