//! What a request adds to the service's instruments, and what the
//! instruments read after a history of requests.
//!
//! The instruments themselves live with the caller. This module fixes their
//! names and says by how much each one moves.

use vstd::prelude::*;

verus! {

/// The four instruments of the service.
#[derive(Clone, Copy, Debug, PartialEq, Eq, Structural)]
pub enum Instrument {
    /// Counts the embeddings requests received.
    Requests,
    /// The distribution of the requests' durations.
    Duration,
    /// Counts the tokens handed to the engine.
    Tokens,
    /// Counts the requests that ended in a failure.
    Errors,
}

/// The name under which each instrument is exported.
pub open spec fn name_of(instrument: Instrument) -> Seq<char> {
    match instrument {
        Instrument::Requests => "semembed_requests_total"@,
        Instrument::Duration => "semembed_request_duration_seconds"@,
        Instrument::Tokens => "semembed_tokens_processed_total"@,
        Instrument::Errors => "semembed_errors_total"@,
    }
}

/// The help text of each instrument.
pub open spec fn help_of(instrument: Instrument) -> Seq<char> {
    match instrument {
        Instrument::Requests => "Total number of embedding requests"@,
        Instrument::Duration => "Request duration in seconds"@,
        Instrument::Tokens => "Total number of tokens processed"@,
        Instrument::Errors => "Total number of errors"@,
    }
}

impl Instrument {
    /// The name under which this instrument is exported.
    pub fn name(self) -> (name: &'static str)
        ensures
            name@ == name_of(self),
    {
        match self {
            Instrument::Requests => "semembed_requests_total",
            Instrument::Duration => "semembed_request_duration_seconds",
            Instrument::Tokens => "semembed_tokens_processed_total",
            Instrument::Errors => "semembed_errors_total",
        }
    }

    /// The help text of this instrument.
    pub fn help(self) -> (help: &'static str)
        ensures
            help@ == help_of(self),
    {
        match self {
            Instrument::Requests => "Total number of embedding requests",
            Instrument::Duration => "Request duration in seconds",
            Instrument::Tokens => "Total number of tokens processed",
            Instrument::Errors => "Total number of errors",
        }
    }

    /// Whether this instrument is a monotonic counter; the one that is not
    /// is the histogram of durations.
    pub fn is_counter(self) -> (counter: bool)
        ensures
            counter == !(self is Duration),
    {
        match self {
            Instrument::Duration => false,
            _ => true,
        }
    }
}

/// What handling adds to the instruments: to the three counters, and the
/// number of durations put into the histogram.
#[derive(Clone, Copy, Debug, PartialEq, Eq, Structural)]
pub struct Recorded {
    pub requests: u64,
    pub errors: u64,
    pub tokens: u128,
    pub observations: u64,
}

/// How a request ended.
#[derive(Clone, Copy, Debug, PartialEq, Eq, Structural)]
pub enum Ending {
    /// A response was sent; the batch had this many tokens.
    Served(u128),
    /// The engine failed on a batch of this many tokens.
    EngineFailed(u128),
    /// The request was invalid and never reached the engine.
    Rejected,
}

impl Ending {
    /// Whether the request ended in a failure.
    pub open spec fn failed(self) -> bool {
        !(self is Served)
    }

    /// The tokens that were counted for the request.
    pub open spec fn tokens(self) -> nat {
        match self {
            Ending::Served(n) => n as nat,
            Ending::EngineFailed(n) => n as nat,
            Ending::Rejected => 0,
        }
    }

    /// All that a request with this ending adds to the instruments: always
    /// one request and one duration, one error if it failed, and the tokens
    /// of a batch that passed validation.
    pub open spec fn recorded(self) -> Recorded {
        match self {
            Ending::Served(n) => Recorded { requests: 1, errors: 0, tokens: n, observations: 1 },
            Ending::EngineFailed(n) => Recorded {
                requests: 1,
                errors: 1,
                tokens: n,
                observations: 1,
            },
            Ending::Rejected => Recorded { requests: 1, errors: 1, tokens: 0, observations: 1 },
        }
    }
}

/// The readings of the instruments: the three counters, and the number of
/// durations in the histogram.
pub struct Readings {
    pub requests: nat,
    pub errors: nat,
    pub tokens: nat,
    pub observations: nat,
}

impl Readings {
    /// The readings at startup.
    pub open spec fn zero() -> Readings {
        Readings { requests: 0, errors: 0, tokens: 0, observations: 0 }
    }

    /// The readings after `added` has been recorded.
    pub open spec fn record(self, added: Recorded) -> Readings {
        Readings {
            requests: self.requests + added.requests as nat,
            errors: self.errors + added.errors as nat,
            tokens: self.tokens + added.tokens as nat,
            observations: self.observations + added.observations as nat,
        }
    }

    /// The readings after each request of `history` has been recorded.
    pub open spec fn after(self, history: Seq<Ending>) -> Readings
        decreases history.len(),
    {
        if history.len() == 0 {
            self
        } else {
            self.after(history.drop_last()).record(history.last().recorded())
        }
    }

    /// Whether no instrument reads less than in `earlier`.
    pub open spec fn at_least(self, earlier: Readings) -> bool {
        &&& self.requests >= earlier.requests
        &&& self.errors >= earlier.errors
        &&& self.tokens >= earlier.tokens
        &&& self.observations >= earlier.observations
    }
}

impl Recorded {
    /// The sum of two records, field by field.
    pub open spec fn spec_plus(self, other: Recorded) -> Recorded {
        Recorded {
            requests: (self.requests + other.requests) as u64,
            errors: (self.errors + other.errors) as u64,
            tokens: (self.tokens + other.tokens) as u128,
            observations: (self.observations + other.observations) as u64,
        }
    }
}

/// The requests of `history` that ended in a failure.
pub open spec fn failures(history: Seq<Ending>) -> nat
    decreases history.len(),
{
    if history.len() == 0 {
        0
    } else {
        failures(history.drop_last()) + if history.last().failed() {
            1nat
        } else {
            0nat
        }
    }
}

/// The requests of `history` that were served.
pub open spec fn successes(history: Seq<Ending>) -> nat
    decreases history.len(),
{
    if history.len() == 0 {
        0
    } else {
        successes(history.drop_last()) + if history.last().failed() {
            0nat
        } else {
            1nat
        }
    }
}

/// The tokens counted over `history`.
pub open spec fn tokens_counted(history: Seq<Ending>) -> nat
    decreases history.len(),
{
    if history.len() == 0 {
        0
    } else {
        tokens_counted(history.drop_last()) + history.last().tokens()
    }
}

/// After any history of requests, the request counter has moved by the
/// number of requests served plus the number failed, the error counter by
/// the number failed, the token counter by the tokens counted, and the
/// histogram holds one duration for each request.
pub proof fn law_counters_follow_history(start: Readings, history: Seq<Ending>)
    ensures
        successes(history) + failures(history) == history.len(),
        start.after(history).requests == start.requests + successes(history) + failures(history),
        start.after(history).errors == start.errors + failures(history),
        start.after(history).tokens == start.tokens + tokens_counted(history),
        start.after(history).observations == start.observations + history.len(),
    decreases history.len(),
{
    if history.len() > 0 {
        law_counters_follow_history(start, history.drop_last());
    }
}

/// No instrument ever reads less than before: the readings after a longer
/// history are at least those after any of its beginnings.
pub proof fn law_readings_never_decrease(start: Readings, history: Seq<Ending>, n: int)
    requires
        0 <= n <= history.len(),
    ensures
        start.after(history).at_least(start.after(history.take(n))),
    decreases history.len(),
{
    if n == history.len() {
        assert(history.take(n) =~= history);
    } else {
        law_readings_never_decrease(start, history.drop_last(), n);
        assert(history.drop_last().take(n) =~= history.take(n));
    }
}

} // verus!
