//! The read-only endpoints of the service.

use vstd::prelude::*;

verus! {

/// The answer of the health endpoint.
#[derive(Debug)]
pub struct HealthResponse {
    pub status: String,
    pub model: String,
}

/// The answer of the model listing.
#[derive(Debug)]
pub struct ModelsResponse {
    pub models: Vec<String>,
}

/// Answers the health endpoint: the service is healthy once it serves, and
/// runs the configured model. Nothing that happened to earlier requests
/// enters into the answer.
pub fn health_check(model_name: &str) -> (health: HealthResponse)
    ensures
        health.status@ == "healthy"@,
        health.model@ == model_name@,
{
    HealthResponse { status: "healthy".to_owned(), model: model_name.to_owned() }
}

/// Lists the models of the service: the configured one, and no other.
pub fn list_models(model_name: &str) -> (listing: ModelsResponse)
    ensures
        listing.models.deep_view() == seq![model_name@],
{
    let mut models: Vec<String> = Vec::new();
    models.push(model_name.to_owned());
    assert(models.deep_view() =~= seq![model_name@]);
    ModelsResponse { models }
}

} // verus!
