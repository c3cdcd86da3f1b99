//! The client's error taxonomy and its retry policy: up to three retried
//! attempts on transient faults, with an exponential backoff that starts at
//! one second and doubles.

use vstd::prelude::*;

verus! {

/// Everything that can go wrong between the client and the endpoint.
#[derive(Debug)]
pub enum GeminiError {
    /// The server answered with a failing status.
    Api { code: String, message: String },
    /// The transport failed.
    Http(String),
    /// A body failed to decode.
    Serde(String),
    /// Reading the stream failed.
    Io(String),
    /// The stream broke midway.
    Stream(String),
    /// Line framing failed.
    Codec(String),
    /// Anything else.
    Other(String),
}

pub enum GeminiErrorV {
    Api { code: Seq<char>, message: Seq<char> },
    Http(Seq<char>),
    Serde(Seq<char>),
    Io(Seq<char>),
    Stream(Seq<char>),
    Codec(Seq<char>),
    Other(Seq<char>),
}

impl View for GeminiError {
    type V = GeminiErrorV;

    open spec fn view(&self) -> GeminiErrorV {
        match *self {
            GeminiError::Api { code, message } => GeminiErrorV::Api { code: code@, message: message@ },
            GeminiError::Http(s) => GeminiErrorV::Http(s@),
            GeminiError::Serde(s) => GeminiErrorV::Serde(s@),
            GeminiError::Io(s) => GeminiErrorV::Io(s@),
            GeminiError::Stream(s) => GeminiErrorV::Stream(s@),
            GeminiError::Codec(s) => GeminiErrorV::Codec(s@),
            GeminiError::Other(s) => GeminiErrorV::Other(s@),
        }
    }
}

/// How an error reads when shown.
pub open spec fn error_text(e: GeminiErrorV) -> Seq<char> {
    match e {
        GeminiErrorV::Api { code, message } =>
            "API Error: "@ + message + " (code: "@ + code + ")"@,
        GeminiErrorV::Http(s) => "HTTP Error: "@ + s,
        GeminiErrorV::Serde(s) => "Serialization Error: "@ + s,
        GeminiErrorV::Io(s) => "IO Error: "@ + s,
        GeminiErrorV::Stream(s) => "Stream Error: "@ + s,
        GeminiErrorV::Codec(s) => "Codec Error: "@ + s,
        GeminiErrorV::Other(s) => "Generic Error: "@ + s,
    }
}

impl GeminiError {
    /// The error as one line of text.
    pub fn describe(&self) -> (r: String)
        ensures
            r@ == error_text(self@),
    {
        match self {
            GeminiError::Api { code, message } => {
                let mut s = "API Error: ".to_owned();
                s.append(message.as_str());
                s.append(" (code: ");
                s.append(code.as_str());
                s.append(")");
                s
            }
            GeminiError::Http(m) => {
                let mut s = "HTTP Error: ".to_owned();
                s.append(m.as_str());
                s
            }
            GeminiError::Serde(m) => {
                let mut s = "Serialization Error: ".to_owned();
                s.append(m.as_str());
                s
            }
            GeminiError::Io(m) => {
                let mut s = "IO Error: ".to_owned();
                s.append(m.as_str());
                s
            }
            GeminiError::Stream(m) => {
                let mut s = "Stream Error: ".to_owned();
                s.append(m.as_str());
                s
            }
            GeminiError::Codec(m) => {
                let mut s = "Codec Error: ".to_owned();
                s.append(m.as_str());
                s
            }
            GeminiError::Other(m) => {
                let mut s = "Generic Error: ".to_owned();
                s.append(m.as_str());
                s
            }
        }
    }
}

/// The statuses worth retrying: too many requests, server fault, unavailable.
pub open spec fn is_retryable_status(status: u16) -> bool {
    status == 429 || status == 500 || status == 503
}

/// Whether a failing status is worth retrying.
pub fn retryable_status(status: u16) -> (r: bool)
    ensures
        r == is_retryable_status(status),
{
    status == 429 || status == 500 || status == 503
}

/// How one attempt ended, as the policy sees it.
#[derive(Debug, Clone, Copy, PartialEq, Eq, Structural)]
pub enum AttemptOutcome {
    /// The transport failed before a status arrived.
    NetworkError,
    /// The server answered with this status.
    Status(u16),
}

/// What to do after one attempt.
#[derive(Debug, Clone, Copy, PartialEq, Eq, Structural)]
pub enum RetryDecision {
    /// Sleep this long, then try again.
    RetryAfterMs(u64),
    /// Hand the outcome back to the caller.
    GiveUp,
}

/// How many attempts may be retried.
pub const MAX_RETRIES: u32 = 3;

/// The backoff before retrying attempt `attempt`: one second for the first,
/// doubling with each one after.
pub open spec fn backoff_ms(attempt: int) -> int
    decreases attempt,
{
    if attempt <= 1 {
        1000
    } else {
        2 * backoff_ms(attempt - 1)
    }
}

/// The policy: an attempt is retried exactly when the request could be
/// cloned, no more than three attempts have run, and the outcome was a
/// network fault or a retryable status.
pub open spec fn spec_retry_decision(attempt: u32, cloneable: bool, outcome: AttemptOutcome) -> RetryDecision {
    let transient = match outcome {
        AttemptOutcome::NetworkError => true,
        AttemptOutcome::Status(s) => is_retryable_status(s),
    };
    if cloneable && 1 <= attempt <= MAX_RETRIES && transient {
        RetryDecision::RetryAfterMs(backoff_ms(attempt as int) as u64)
    } else {
        RetryDecision::GiveUp
    }
}

/// Decides what follows attempt number `attempt` (counted from one).
pub fn retry_decision(attempt: u32, cloneable: bool, outcome: AttemptOutcome) -> (r: RetryDecision)
    ensures
        r == spec_retry_decision(attempt, cloneable, outcome),
{
    let transient = match outcome {
        AttemptOutcome::NetworkError => true,
        AttemptOutcome::Status(s) => retryable_status(s),
    };
    if cloneable && 1 <= attempt && attempt <= MAX_RETRIES && transient {
        let mut delay: u64 = 1000;
        let mut k: u32 = 1;
        while k < attempt
            invariant
                1 <= k <= attempt <= MAX_RETRIES,
                delay == backoff_ms(k as int),
                delay <= 4000,
            decreases attempt - k,
        {
            proof {
                assert(backoff_ms(1) == 1000);
                assert(backoff_ms(2) == 2 * backoff_ms(1));
                assert(backoff_ms(3) == 2 * backoff_ms(2));
            }
            delay = delay * 2;
            k = k + 1;
        }
        RetryDecision::RetryAfterMs(delay)
    } else {
        RetryDecision::GiveUp
    }
}

/// Law: the backoff doubles from one retry to the next, starting at one
/// second.
pub proof fn lemma_backoff_doubles(attempt: int)
    requires
        attempt >= 1,
    ensures
        backoff_ms(1) == 1000,
        backoff_ms(attempt + 1) == 2 * backoff_ms(attempt),
{
}

} // verus!
