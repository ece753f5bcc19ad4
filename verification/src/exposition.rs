//! The metrics endpoint: a snapshot of a registry in the text exposition
//! format.
//!
//! The text encoder has no encoding for a family of no type and does not
//! return on one. Every family is therefore looked at before the encoder is
//! called, and a snapshot that holds such a family is an encoding failure.

use vstd::prelude::*;
use vstd::utf8::{decode_utf8, valid_utf8};
use prometheus::Encoder;
use crate::error::ApiError;
use crate::telemetry::Recorded;

verus! {

/// `prometheus::Registry`, carried through as it is: nothing here looks
/// inside one.
#[verifier::external_type_specification]
#[verifier::external_body]
pub struct ExRegistry(prometheus::Registry);

/// `prometheus::proto::MetricFamily`, carried from the registry to the
/// encoder as it is.
#[verifier::external_type_specification]
#[verifier::external_body]
pub struct ExMetricFamily(prometheus::proto::MetricFamily);

/// The types that a metric family can have.
#[derive(Clone, Copy, Debug, PartialEq, Eq, Structural)]
pub enum FamilyType {
    Counter,
    Gauge,
    Summary,
    Untyped,
    Histogram,
}

/// The type of a metric family, as `MetricFamily::get_field_type` gives it.
pub uninterp spec fn family_type(family: prometheus::proto::MetricFamily) -> FamilyType;

/// What `TextEncoder::encode` writes for the given families: the bytes, or
/// `None` where it reports an error.
pub uninterp spec fn text_encoding(families: Seq<prometheus::proto::MetricFamily>) -> Option<
    Seq<u8>,
>;

/// `prometheus::Registry::gather`: the current metric families of all
/// registered collectors. Nothing is claimed of them: they change whenever
/// an instrument is touched, from any thread. The call runs the `collect`
/// of each registered collector.
#[verifier::external_body]
fn gather(registry: &prometheus::Registry) -> (families: Vec<prometheus::proto::MetricFamily>) {
    registry.gather()
}

/// `prometheus::proto::MetricFamily::get_field_type`: the type of the
/// family, variant for variant.
#[verifier::external_body]
fn field_type(family: &prometheus::proto::MetricFamily) -> (kind: FamilyType)
    ensures
        kind == family_type(*family),
{
    match family.get_field_type() {
        prometheus::proto::MetricType::COUNTER => FamilyType::Counter,
        prometheus::proto::MetricType::GAUGE => FamilyType::Gauge,
        prometheus::proto::MetricType::SUMMARY => FamilyType::Summary,
        prometheus::proto::MetricType::UNTYPED => FamilyType::Untyped,
        prometheus::proto::MetricType::HISTOGRAM => FamilyType::Histogram,
    }
}

/// `prometheus::TextEncoder::encode` into a fresh buffer: the bytes written,
/// or `None` where the encoder reports an error. The bytes depend on the
/// families alone. A family of no type is left out: the encoder does not
/// return on one.
#[verifier::external_body]
fn encode_text(families: &Vec<prometheus::proto::MetricFamily>) -> (encoded: Option<Vec<u8>>)
    requires
        encodable(families@),
    ensures
        match encoded {
            Some(bytes) => text_encoding(families@) == Some(bytes@),
            None => text_encoding(families@) is None,
        },
{
    let mut buffer: Vec<u8> = Vec::new();
    match prometheus::TextEncoder::new().encode(families, &mut buffer) {
        Ok(()) => Some(buffer),
        Err(_) => None,
    }
}

/// `String::from_utf8`: the text that the bytes encode, or `None` where
/// they are not valid UTF-8.
#[verifier::external_body]
fn text_from_utf8(bytes: Vec<u8>) -> (text: Option<String>)
    ensures
        match text {
            Some(s) => valid_utf8(bytes@) && s@ == decode_utf8(bytes@),
            None => !valid_utf8(bytes@),
        },
{
    match String::from_utf8(bytes) {
        Ok(text) => Some(text),
        Err(_) => None,
    }
}

/// The answer of the metrics endpoint, and what giving it adds to the
/// instruments.
#[derive(Debug)]
pub struct Exported {
    pub outcome: Result<String, ApiError>,
    pub recorded: Recorded,
}

/// What an export records: nothing where it succeeds, and an error where
/// it fails.
pub open spec fn recorded_on_export(failed: bool) -> Recorded {
    Recorded { requests: 0, errors: if failed { 1 } else { 0 }, tokens: 0, observations: 0 }
}

/// Whether the encoder can be given these families: each has a type.
pub open spec fn encodable(families: Seq<prometheus::proto::MetricFamily>) -> bool {
    forall|i: int|
        0 <= i < families.len() ==> family_type(#[trigger] families[i]) != FamilyType::Untyped
}

/// The exposition document for the encoder's output, if there is one.
pub open spec fn exposition_of(encoded: Option<Seq<u8>>) -> Result<Seq<char>, ApiError> {
    match encoded {
        None => Err(ApiError::MetricsEncoding),
        Some(bytes) => if valid_utf8(bytes) {
            Ok(decode_utf8(bytes))
        } else {
            Err(ApiError::MetricsConversion)
        },
    }
}

/// The answer of the metrics endpoint for what the encoder produced:
/// the encoded families as text, or an internal error where the encoder
/// failed (`None`) or its output is not valid UTF-8.
pub fn metrics_reply(encoded: Option<Vec<u8>>) -> (reply: Exported)
    ensures
        match exposition_of(
            match encoded {
                Some(bytes) => Some(bytes@),
                None => None,
            },
        ) {
            Ok(text) => reply.outcome matches Ok(body) && body@ == text,
            Err(e) => reply.outcome == Err::<String, ApiError>(e),
        },
        reply.recorded == recorded_on_export(reply.outcome is Err),
{
    let outcome = match encoded {
        None => Err(ApiError::MetricsEncoding),
        Some(bytes) => match text_from_utf8(bytes) {
            Some(text) => Ok(text),
            None => Err(ApiError::MetricsConversion),
        },
    };
    let errors: u64 = if outcome.is_err() { 1 } else { 0 };
    Exported { outcome, recorded: Recorded { requests: 0, errors, tokens: 0, observations: 0 } }
}

/// The exposition document for a snapshot of these families: what the
/// encoder writes for them, as text, where each of them has a type, and an
/// encoding failure where one has none.
pub open spec fn export_of(families: Seq<prometheus::proto::MetricFamily>) -> Result<
    Seq<char>,
    ApiError,
> {
    if encodable(families) {
        exposition_of(text_encoding(families))
    } else {
        Err(ApiError::MetricsEncoding)
    }
}

/// Whether `reply` is the answer of the metrics endpoint for a snapshot of
/// these families.
pub open spec fn exports(reply: Exported, families: Seq<prometheus::proto::MetricFamily>) -> bool {
    &&& match export_of(families) {
        Ok(text) => reply.outcome matches Ok(body) && body@ == text,
        Err(e) => reply.outcome == Err::<String, ApiError>(e),
    }
    &&& reply.recorded == recorded_on_export(reply.outcome is Err)
}

/// Renders the given families in the text exposition format.
///
/// Where each family has a type, the answer is made of what the encoder
/// writes for them. Where one has none, the answer is an encoding failure.
pub fn export_families(families: &Vec<prometheus::proto::MetricFamily>) -> (reply: Exported)
    ensures
        exports(reply, families@),
{
    let mut i: usize = 0;
    while i < families.len()
        invariant
            i <= families.len(),
            forall|j: int|
                0 <= j < i ==> family_type(#[trigger] families@[j]) != FamilyType::Untyped,
        decreases families.len() - i,
    {
        match field_type(&families[i]) {
            FamilyType::Untyped => {
                return Exported {
                    outcome: Err(ApiError::MetricsEncoding),
                    recorded: Recorded { requests: 0, errors: 1, tokens: 0, observations: 0 },
                };
            },
            _ => {},
        }
        i = i + 1;
    }
    metrics_reply(encode_text(families))
}

/// Renders a snapshot of `registry` in the text exposition format.
///
/// The registry is only read: the answer is the export of the families
/// gathered from it, whatever they are. A failure is one of the two
/// internal errors of the export, and is recorded as an error.
pub fn metrics_handler(registry: &prometheus::Registry) -> (reply: Exported)
    ensures
        exists|families: Seq<prometheus::proto::MetricFamily>| #[trigger] exports(reply, families),
        reply.outcome matches Err(e) ==> e == ApiError::MetricsEncoding || e
            == ApiError::MetricsConversion,
{
    let families = gather(registry);
    let reply = export_families(&families);
    assert(exports(reply, families@));
    reply
}

} // verus!
