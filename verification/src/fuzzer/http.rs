use vstd::prelude::*;
use vstd::string::*;
use crate::fuzzer::config::Configuration;
use crate::text::{contains_in_either_case, has_word_in_either_case};

verus! {

/// A planner of HTTP scenarios built from a configuration.
pub struct HttpPlanner {
    pub config: Configuration,
}

impl From<Configuration> for HttpPlanner {
    /// The planner for `config`.
    fn from(config: Configuration) -> (p: HttpPlanner) {
        HttpPlanner { config }
    }
}

impl vstd::std_specs::convert::FromSpecImpl<Configuration> for HttpPlanner {
    open spec fn obeys_from_spec() -> bool {
        true
    }

    open spec fn from_spec(config: Configuration) -> HttpPlanner {
        HttpPlanner { config }
    }
}

/// Categorized request errors (zero-allocation).
///
/// Used for efficient error tracking without heap allocations.
#[derive(Debug, Clone, Copy, PartialEq, Eq, Hash, Structural)]
pub enum RequestError {
    /// Connection-related errors (DNS, TCP, socket errors, etc.)
    Connection,
    /// Request timeout (exceeded configured duration)
    Timeout,
    /// TLS/SSL handshake or certificate errors
    Tls,
    /// HTTP protocol errors (invalid response, etc.)
    Protocol,
    /// Failed to read or decode response body
    BodyRead,
    /// Request was cancelled or aborted
    Cancelled,
    /// Other/unknown errors
    Other,
}

/// What the HTTP client reports of a failed request: the kinds it belongs to.
#[derive(Debug, Clone, Copy, PartialEq, Eq, Structural)]
pub struct ErrorKinds {
    pub is_timeout: bool,
    /// The failure came from the TLS layer (handshake or certificate).
    pub is_tls: bool,
    pub is_connect: bool,
    pub is_request: bool,
    pub is_body: bool,
}

/// A message from an error's chain of causes speaks of the TLS layer: it holds
/// one of the words "tls", "ssl", "certificate" or "handshake", in any mix of
/// small letters and capitals.
pub open spec fn mentions_tls(message: Seq<char>) -> bool {
    ||| has_word_in_either_case(message, "tls"@, "TLS"@)
    ||| has_word_in_either_case(message, "ssl"@, "SSL"@)
    ||| has_word_in_either_case(message, "certificate"@, "CERTIFICATE"@)
    ||| has_word_in_either_case(message, "handshake"@, "HANDSHAKE"@)
}

/// Whether a failure came from the TLS layer, judged by the messages of the
/// error's chain of causes: whether any of them speaks of TLS.
pub fn is_tls_failure(messages: &Vec<String>) -> (b: bool)
    ensures
        b == exists|k: int| 0 <= k < messages@.len() && #[trigger] mentions_tls(messages@[k]@),
{
    proof {
        reveal_strlit("tls");
        reveal_strlit("TLS");
        reveal_strlit("ssl");
        reveal_strlit("SSL");
        reveal_strlit("certificate");
        reveal_strlit("CERTIFICATE");
        reveal_strlit("handshake");
        reveal_strlit("HANDSHAKE");
    }
    let mut k: usize = 0;
    while k < messages.len()
        invariant
            k <= messages@.len(),
            "tls"@.len() == "TLS"@.len(),
            "ssl"@.len() == "SSL"@.len(),
            "certificate"@.len() == "CERTIFICATE"@.len(),
            "handshake"@.len() == "HANDSHAKE"@.len(),
            forall|j: int| 0 <= j < k ==> !#[trigger] mentions_tls(messages@[j]@),
        decreases messages@.len() - k,
    {
        let m = messages[k].as_str();
        if contains_in_either_case(m, "tls", "TLS") || contains_in_either_case(m, "ssl", "SSL")
            || contains_in_either_case(m, "certificate", "CERTIFICATE")
            || contains_in_either_case(m, "handshake", "HANDSHAKE") {
            assert(mentions_tls(messages@[k as int]@));
            return true;
        }
        k = k + 1;
    }
    false
}

/// The category of a failed request: a timeout first, then a TLS failure,
/// then a connection failure, then a failure to send the request, then a body
/// failure.
pub open spec fn category(kinds: ErrorKinds) -> RequestError {
    if kinds.is_timeout {
        RequestError::Timeout
    } else if kinds.is_tls {
        RequestError::Tls
    } else if kinds.is_connect {
        RequestError::Connection
    } else if kinds.is_request {
        RequestError::Protocol
    } else if kinds.is_body {
        RequestError::BodyRead
    } else {
        RequestError::Other
    }
}

impl RequestError {
    /// The lowercase name under which an error category is displayed.
    pub open spec fn text(self) -> Seq<char> {
        match self {
            RequestError::Connection => "connection"@,
            RequestError::Timeout => "timeout"@,
            RequestError::Tls => "tls"@,
            RequestError::Protocol => "protocol"@,
            RequestError::BodyRead => "body_read"@,
            RequestError::Cancelled => "cancelled"@,
            RequestError::Other => "other"@,
        }
    }

    /// The display name of this category.
    pub fn as_str(&self) -> (s: &'static str)
        ensures
            s@ == self.text(),
    {
        match self {
            RequestError::Connection => "connection",
            RequestError::Timeout => "timeout",
            RequestError::Tls => "tls",
            RequestError::Protocol => "protocol",
            RequestError::BodyRead => "body_read",
            RequestError::Cancelled => "cancelled",
            RequestError::Other => "other",
        }
    }

    /// The display name of this category, as an owned string.
    pub fn to_string(&self) -> (s: String)
        ensures
            s@ == self.text(),
    {
        self.as_str().to_owned()
    }

    /// Categorizes a failed request from the kinds the client reports.
    pub fn from_error_kinds(kinds: ErrorKinds) -> (e: RequestError)
        ensures
            e == category(kinds),
    {
        if kinds.is_timeout {
            RequestError::Timeout
        } else if kinds.is_tls {
            RequestError::Tls
        } else if kinds.is_connect {
            RequestError::Connection
        } else if kinds.is_request {
            RequestError::Protocol
        } else if kinds.is_body {
            RequestError::BodyRead
        } else {
            RequestError::Other
        }
    }
}

/// Distinct categories are displayed under distinct names.
pub proof fn law_error_names_distinct(a: RequestError, b: RequestError)
    ensures
        a.text() == b.text() ==> a == b,
{
    reveal_strlit("connection");
    reveal_strlit("timeout");
    reveal_strlit("tls");
    reveal_strlit("protocol");
    reveal_strlit("body_read");
    reveal_strlit("cancelled");
    reveal_strlit("other");
    if a != b {
        assert(a.text() != b.text()) by {
            if a.text().len() == b.text().len() {
                assert(a.text()[0] != b.text()[0] || a.text()[1] != b.text()[1]);
            }
        }
    }
}

/// Classification of a failed request never yields the cancellation category;
/// it yields a timeout whenever the client reports one, and a TLS failure
/// whenever the TLS layer failed without a timeout, even if the connection
/// failed with it.
pub proof fn law_classification_range(kinds: ErrorKinds)
    ensures
        category(kinds) != RequestError::Cancelled,
        kinds.is_timeout ==> category(kinds) == RequestError::Timeout,
        kinds.is_tls && !kinds.is_timeout ==> category(kinds) == RequestError::Tls,
        category(kinds) == RequestError::Tls ==> kinds.is_tls,
{
}

/// How each combination of reported kinds is categorised: a timeout wins over
/// everything; else a TLS failure; else a connection failure; else a failure
/// to send the request is a protocol error; else a body failure is a body-read
/// error; a failure of none of these kinds is "other".
pub proof fn law_category_by_kinds(kinds: ErrorKinds)
    ensures
        kinds.is_timeout ==> category(kinds) == RequestError::Timeout,
        !kinds.is_timeout && kinds.is_tls ==> category(kinds) == RequestError::Tls,
        !kinds.is_timeout && !kinds.is_tls && kinds.is_connect ==> category(kinds)
            == RequestError::Connection,
        !kinds.is_timeout && !kinds.is_tls && !kinds.is_connect && kinds.is_request
            ==> category(kinds) == RequestError::Protocol,
        !kinds.is_timeout && !kinds.is_tls && !kinds.is_connect && !kinds.is_request
            && kinds.is_body ==> category(kinds) == RequestError::BodyRead,
        !kinds.is_timeout && !kinds.is_tls && !kinds.is_connect && !kinds.is_request
            && !kinds.is_body ==> category(kinds) == RequestError::Other,
{
}

/// Whether an HTTP status code reports success (the range 200 to 299).
pub open spec fn status_is_success(code: u16) -> bool {
    200 <= code && code <= 299
}

/// Metrics from an HTTP request: who sent it, how long it took (in
/// nanoseconds) and how it ended.
#[derive(Debug, Clone, Copy, PartialEq, Eq, Structural)]
pub struct HttpMetrics {
    pub vuser_id: u16,
    pub duration_nanos: u64,
    pub status_code: Option<u16>,
    pub error: Option<RequestError>,
}

impl HttpMetrics {
    /// No error, and a status code in the success range.
    pub open spec fn succeeded(self) -> bool {
        &&& self.error is None
        &&& match self.status_code {
            Some(c) => status_is_success(c),
            None => false,
        }
    }

    /// Metrics of a request that got a response with status `status` after
    /// `duration_nanos` nanoseconds.
    pub fn from_status(vuser_id: u16, status: u16, duration_nanos: u64) -> (m: HttpMetrics)
        ensures
            m.vuser_id == vuser_id,
            m.duration_nanos == duration_nanos,
            m.status_code == Some(status),
            m.error is None,
    {
        HttpMetrics { vuser_id, duration_nanos, status_code: Some(status), error: None }
    }

    /// Metrics of a request that failed with `error`, before any response,
    /// after `duration_nanos` nanoseconds.
    pub fn from_error(vuser_id: u16, error: RequestError, duration_nanos: u64) -> (m: HttpMetrics)
        ensures
            m.vuser_id == vuser_id,
            m.duration_nanos == duration_nanos,
            m.status_code is None,
            m.error == Some(error),
    {
        HttpMetrics { vuser_id, duration_nanos, status_code: None, error: Some(error) }
    }

    /// How long the request took, in nanoseconds.
    pub fn duration_nanos(&self) -> (d: u64)
        ensures
            d == self.duration_nanos,
    {
        self.duration_nanos
    }

    /// The virtual user that generated these metrics.
    pub fn vuser_id(&self) -> (id: u16)
        ensures
            id == self.vuser_id,
    {
        self.vuser_id
    }

    /// The request succeeded: no error, and a status code in the success range.
    pub fn is_success(&self) -> (b: bool)
        ensures
            b == self.succeeded(),
    {
        match self.error {
            Some(_) => false,
            None => match self.status_code {
                Some(c) => 200 <= c && c <= 299,
                None => false,
            },
        }
    }

    /// The HTTP status code, if a response arrived.
    pub fn status_code(&self) -> (c: Option<u16>)
        ensures
            c == self.status_code,
    {
        self.status_code
    }

    /// The categorized error, if any.
    pub fn error(&self) -> (e: Option<RequestError>)
        ensures
            e == self.error,
    {
        self.error
    }
}

/// A request counts as a success exactly when it got a response whose status
/// lies between 200 and 299, both included, and no error.
pub proof fn law_success_is_2xx(m: HttpMetrics)
    ensures
        m.succeeded() <==> (m.error is None && m.status_code is Some && 200 <= m.status_code->0
            <= 299),
        forall|c: u16| #[trigger] status_is_success(c) <==> 200 <= c <= 299,
{
}

} // verus!
