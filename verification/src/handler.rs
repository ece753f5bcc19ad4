//! The handling of one embeddings request.
//!
//! A request is handled in two steps with the engine's work between them.
//! [`begin_request`] validates the input and counts its tokens;
//! [`finish_request`] turns what the engine returned into the reply.
//! [`create_embeddings`] is the two with the engine call in the middle.

use vstd::prelude::*;
use crate::error::{ApiError, ApiErrorView};
use crate::request::{normalize, EmbeddingRequest, InputType};
use crate::response::{assemble_response, response_for, EmbeddingResponse};
use crate::telemetry::{Ending, Recorded};
use crate::tokens::{count_batch_tokens, total_tokens};

verus! {

/// A batch that has passed validation, with its token count.
#[derive(Debug)]
pub struct Batch {
    texts: Vec<String>,
    tokens: u128,
}

impl Batch {
    #[verifier::type_invariant]
    spec fn well_formed(self) -> bool {
        &&& self.texts@.len() > 0
        &&& self.tokens == total_tokens(self.texts.deep_view())
    }

    /// The texts of the batch, in order.
    pub closed spec fn view_texts(&self) -> Seq<Seq<char>> {
        self.texts.deep_view()
    }

    /// The approximate number of tokens in the batch.
    pub closed spec fn view_tokens(&self) -> u128 {
        self.tokens
    }

    /// The texts to hand to the engine, in order. There is at least one.
    pub fn texts(&self) -> (texts: &Vec<String>)
        ensures
            texts.deep_view() == self.view_texts(),
            texts@.len() > 0,
    {
        proof {
            use_type_invariant(self);
        }
        &self.texts
    }

    /// The approximate number of tokens in the batch.
    pub fn token_count(&self) -> (tokens: u128)
        ensures
            tokens == self.view_tokens(),
            tokens == total_tokens(self.view_texts()),
    {
        proof {
            use_type_invariant(self);
        }
        self.tokens
    }
}

/// What is to be done after validation.
#[derive(Debug)]
pub enum Step {
    /// Answer with this failure; the engine is not called.
    Reject(ApiError),
    /// Run the engine on this batch, then call [`finish_request`].
    Embed(Batch),
}

/// The first step's decision, and what it adds to the instruments.
#[derive(Debug)]
pub struct Started {
    pub step: Step,
    pub recorded: Recorded,
}

/// The reply to a request, and what producing it adds to the instruments.
#[derive(Debug)]
pub struct Reply<V> {
    pub outcome: Result<EmbeddingResponse<V>, ApiError>,
    pub recorded: Recorded,
}

/// What the arrival of a valid batch of `tokens` tokens records: the
/// request and its tokens.
pub open spec fn recorded_on_admission(tokens: u128) -> Recorded {
    Recorded { requests: 1, errors: 0, tokens, observations: 0 }
}

/// What a successful engine call records: the request's duration.
pub open spec fn recorded_on_success() -> Recorded {
    Recorded { requests: 0, errors: 0, tokens: 0, observations: 1 }
}

/// What a failed engine call records: an error, and the request's duration.
pub open spec fn recorded_on_engine_failure() -> Recorded {
    Recorded { requests: 0, errors: 1, tokens: 0, observations: 1 }
}

/// The two steps of a request that reached the engine record together what
/// its ending is defined to record.
pub proof fn law_steps_record_the_ending(tokens: u128)
    ensures
        recorded_on_admission(tokens).spec_plus(recorded_on_success()) == Ending::Served(
            tokens,
        ).recorded(),
        recorded_on_admission(tokens).spec_plus(recorded_on_engine_failure())
            == Ending::EngineFailed(tokens).recorded(),
{
}

/// Answers a request that could not be decoded, or that failed a check made
/// while decoding. It is recorded as a request, and its failure as an error.
pub fn reject_request<V>(error: ApiError) -> (reply: Reply<V>)
    ensures
        reply.outcome == Err::<EmbeddingResponse<V>, ApiError>(error),
        reply.recorded == Ending::Rejected.recorded(),
{
    Reply {
        outcome: Err(error),
        recorded: Recorded { requests: 1, errors: 1, tokens: 0, observations: 1 },
    }
}

/// Validates the input of a request and counts its tokens.
///
/// The request is recorded whether or not the input is valid. An empty
/// batch is rejected, and the rejection recorded as an error.
pub fn begin_request(input: InputType) -> (started: Started)
    ensures
        input.normalized().len() == 0 ==> {
            &&& started.step matches Step::Reject(e)
            &&& e@ == ApiErrorView::EmptyInput
            &&& started.recorded == Ending::Rejected.recorded()
        },
        input.normalized().len() > 0 ==> {
            &&& started.step matches Step::Embed(batch)
            &&& batch.view_texts() == input.normalized()
            &&& batch.view_tokens() == total_tokens(input.normalized())
            &&& started.recorded == recorded_on_admission(batch.view_tokens())
        },
{
    match normalize(input) {
        Err(e) => Started {
            step: Step::Reject(e),
            recorded: Recorded { requests: 1, errors: 1, tokens: 0, observations: 1 },
        },
        Ok(texts) => {
            let tokens = count_batch_tokens(&texts);
            Started {
                step: Step::Embed(Batch { texts, tokens }),
                recorded: Recorded { requests: 1, errors: 0, tokens, observations: 0 },
            }
        },
    }
}

/// Turns the engine's result for `batch` into the reply.
///
/// The engine's vectors become the records of the response in the order in
/// which they came, each with its position as index. A failure of the
/// engine is reported with the engine's message and is not retried.
pub fn finish_request<V>(
    batch: Batch,
    model_name: &str,
    outcome: Result<Vec<V>, String>,
) -> (reply: Reply<V>)
    ensures
        outcome matches Ok(vectors) ==> {
            &&& reply.outcome matches Ok(response)
            &&& response@ == response_for(vectors@, model_name@, batch.view_tokens())
            &&& reply.recorded == recorded_on_success()
        },
        outcome matches Err(reason) ==> {
            &&& reply.outcome matches Err(e)
            &&& e@ == ApiErrorView::Engine(reason@)
            &&& reply.recorded == recorded_on_engine_failure()
        },
{
    match outcome {
        Ok(vectors) => Reply {
            outcome: Ok(assemble_response(vectors, model_name, batch.token_count())),
            recorded: Recorded { requests: 0, errors: 0, tokens: 0, observations: 1 },
        },
        Err(reason) => Reply {
            outcome: Err(ApiError::Engine(reason)),
            recorded: Recorded { requests: 0, errors: 1, tokens: 0, observations: 1 },
        },
    }
}

/// Whether `reply` is the reply to a valid batch of `tokens` tokens on which
/// the engine returned `result`: the assembled response, or the engine's
/// failure, each with all that such a request records.
pub open spec fn answers<V>(
    reply: Reply<V>,
    model: Seq<char>,
    tokens: u128,
    result: Result<Vec<V>, String>,
) -> bool {
    match result {
        Ok(vectors) => {
            &&& reply.outcome matches Ok(response)
            &&& response@ == response_for(vectors@, model, tokens)
            &&& reply.recorded == Ending::Served(tokens).recorded()
        },
        Err(reason) => {
            &&& reply.outcome matches Err(e)
            &&& e@ == ApiErrorView::Engine(reason@)
            &&& reply.recorded == Ending::EngineFailed(tokens).recorded()
        },
    }
}

/// In a reply made of the engine's vectors, record `i` holds the index `i`
/// and vector `i`, and both usage fields hold the batch's token count. So
/// where the engine returns one vector for each text, in the texts' order,
/// the response has one record for each text, and record `i` is the
/// embedding of text `i`.
pub proof fn law_reply_follows_engine<V>(
    reply: Reply<V>,
    model: Seq<char>,
    tokens: u128,
    vectors: Vec<V>,
)
    requires
        answers(reply, model, tokens, Ok(vectors)),
    ensures
        reply.outcome matches Ok(response) && {
            &&& response@.data.len() == vectors@.len()
            &&& forall|i: int|
                0 <= i < vectors@.len() ==> {
                    &&& (#[trigger] response@.data[i]).index == i
                    &&& response@.data[i].embedding == vectors@[i]
                }
            &&& response@.model == model
            &&& response@.usage.prompt_tokens == tokens
            &&& response@.usage.total_tokens == tokens
        },
{
}

/// The reply is determined by the model name, the batch's token count and
/// what the engine returned: two replies to the same are the same document
/// or the same failure, and record the same.
pub proof fn law_reply_is_determined<V>(
    first: Reply<V>,
    second: Reply<V>,
    model: Seq<char>,
    tokens: u128,
    result: Result<Vec<V>, String>,
)
    requires
        answers(first, model, tokens, result),
        answers(second, model, tokens, result),
    ensures
        first.recorded == second.recorded,
        match result {
            Ok(_) => first.outcome matches Ok(a) && second.outcome matches Ok(b) && a@ == b@,
            Err(_) => first.outcome matches Err(a) && second.outcome matches Err(b) && a@ == b@,
        },
{
}

/// Handles one embeddings request from its input to its reply.
///
/// `embed` stands for the engine: it is called on the normalized batch
/// where that batch is not empty, and the reply is made of what it
/// returned. The model and the encoding format that the request names have
/// no part in the reply.
pub fn create_embeddings<V, F>(
    model_name: &str,
    request: EmbeddingRequest,
    embed: F,
) -> (reply: Reply<V>) where F: FnOnce(&Vec<String>) -> Result<Vec<V>, String>
    requires
        forall|texts: &Vec<String>|
            texts.deep_view() == request.input.normalized() && texts@.len() > 0 ==> call_requires(
                embed,
                (texts,),
            ),
    ensures
        request.input.normalized().len() == 0 ==> {
            &&& reply.outcome matches Err(e)
            &&& e@ == ApiErrorView::EmptyInput
            &&& reply.recorded == Ending::Rejected.recorded()
        },
        request.input.normalized().len() > 0 ==> {
            &&& total_tokens(request.input.normalized()) <= u128::MAX
            &&& exists|texts: &Vec<String>, result: Result<Vec<V>, String>|
                {
                    &&& texts.deep_view() == request.input.normalized()
                    &&& call_ensures(embed, (texts,), result)
                    &&& answers(
                        reply,
                        model_name@,
                        total_tokens(request.input.normalized()) as u128,
                        result,
                    )
                }
        },
{
    let started = begin_request(request.input);
    match started.step {
        Step::Reject(e) => Reply { outcome: Err(e), recorded: started.recorded },
        Step::Embed(batch) => {
            let texts = batch.texts();
            let ghost given = texts;
            let result = embed(texts);
            let ghost returned = result;
            let finished = finish_request(batch, model_name, result);
            let reply = Reply {
                outcome: finished.outcome,
                recorded: Recorded {
                    requests: 1,
                    errors: finished.recorded.errors,
                    tokens: started.recorded.tokens,
                    observations: 1,
                },
            };
            assert(call_ensures(embed, (given,), returned));
            assert(answers(
                reply,
                model_name@,
                total_tokens(request.input.normalized()) as u128,
                returned,
            ));
            reply
        },
    }
}

} // verus!
