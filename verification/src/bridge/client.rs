//! The resilient client: where a request goes, what an answer means, and
//! when a failed request is tried again.
//!
//! The client does not talk to the network itself. It describes each request
//! as a [`Request`], interprets what the transport brought back (an
//! [`Exchange`]), and tells the caller after each attempt whether to try
//! again, to wait first, or to stop.

use crate::bridge::{
    bridge_error, BridgeCapabilities, BridgeConfiguration, CreateSceneRequest, HueError,
    HueErrorDetails, Light, Scene, SceneActionRequest,
};
use crate::bridge::auth::AuthRequest;
use crate::error::{agrees, fails_with, ErrorView, HueStatusError, Result};
use crate::json::{json_document, JsonValue};
use crate::seqs::{count_where, first_where, kept, lemma_first_where_found, lemma_first_where_none};
use crate::string_map::StringMap;
use crate::text::{concat2, concat3, decimal, starts_with, u64_to_string};
use vstd::prelude::*;
use vstd::string::*;

verus! {

/// The HTTP methods that the client uses.
#[derive(Debug, Clone, Copy, PartialEq, Eq)]
pub enum HttpMethod {
    Get,
    Post,
    Put,
    Delete,
}

impl HttpMethod {
    /// The method's name on the wire.
    pub open spec fn label(self) -> Seq<char> {
        match self {
            HttpMethod::Get => "GET"@,
            HttpMethod::Post => "POST"@,
            HttpMethod::Put => "PUT"@,
            HttpMethod::Delete => "DELETE"@,
        }
    }

    /// The method's name on the wire.
    pub fn name(self) -> (name: &'static str)
        ensures
            name@ == self.label(),
    {
        match self {
            HttpMethod::Get => "GET",
            HttpMethod::Post => "POST",
            HttpMethod::Put => "PUT",
            HttpMethod::Delete => "DELETE",
        }
    }
}

/// What a request carries in its body.
#[derive(Debug, Clone, PartialEq, Eq)]
pub enum RequestBody {
    /// No body.
    Empty,
    /// A request for a credential.
    Auth(AuthRequest),
    /// A scene to create.
    CreateScene(CreateSceneRequest),
    /// A scene to apply.
    SceneAction(SceneActionRequest),
}

/// One HTTP request, ready to be sent.
#[derive(Debug, Clone, PartialEq, Eq)]
pub struct Request {
    pub method: HttpMethod,
    pub url: String,
    pub body: RequestBody,
}

/// What the transport brought back from one request.
#[derive(Debug, Clone, PartialEq, Eq)]
pub enum Exchange {
    /// No answer arrived within the time limit of the request.
    TimedOut,
    /// The request could not be sent, or its answer could not be received.
    Failed {
        /// The transport's description of the failure.
        description: String,
    },
    /// An answer arrived.
    Answered {
        /// The HTTP status code.
        status: u16,
        /// The status as the transport prints it, such as `404 Not Found`.
        status_text: String,
        /// The body of the answer.
        body: String,
    },
}

impl Exchange {
    /// Whether an answer arrived with a status from 200 to 299.
    pub open spec fn succeeded(&self) -> bool {
        self matches Exchange::Answered { status, .. } && 200 <= *status <= 299
    }

    /// Tells whether an answer arrived with a status from 200 to 299.
    pub fn is_success(&self) -> (yes: bool)
        ensures
            yes == self.succeeded(),
    {
        match self {
            Exchange::Answered { status, .. } => 200 <= *status && *status <= 299,
            _ => false,
        }
    }
}

/// The client for one bridge: its address, the credential if there is one,
/// and the policy for time limits and retries.
#[derive(Debug, Clone, PartialEq, Eq)]
pub struct BridgeClient {
    pub bridge_ip: String,
    pub username: Option<String>,
    /// The time limit of each request, in seconds.
    pub timeout_seconds: u64,
    /// How often a request is attempted before its failure is reported.
    pub retry_attempts: usize,
    /// The pause between two attempts, in seconds.
    pub retry_delay_seconds: u64,
    pub verbose: bool,
}

/// The error that an element of a bridge's error list reports: its code,
/// address and description. An element reports an error when it is an object
/// whose member `error` is an object with a `type` from 0 to 65535 and with
/// strings `address` and `description`.
pub open spec fn reported_error(item: JsonValue) -> Option<(u16, Seq<char>, Seq<char>)> {
    match item.member("error"@) {
        Some(details) => match (
            details.member("type"@),
            details.text_member("address"@),
            details.text_member("description"@),
        ) {
            (Some(code), Some(address), Some(description)) => match code.unsigned() {
                Some(n) => if n <= 65535 {
                    Some((n as u16, address, description))
                } else {
                    None
                },
                None => None,
            },
            _ => None,
        },
        None => None,
    }
}

/// Whether every element of `items` reports an error.
pub open spec fn is_error_list(items: Seq<JsonValue>) -> bool {
    forall|i: int| 0 <= i < items.len() ==> reported_error(#[trigger] items[i]) is Some
}

/// The first error of a bridge's error envelope: `document` is an envelope
/// when it is an array, not empty, whose every element reports an error.
pub open spec fn first_reported(document: JsonValue) -> Option<(u16, Seq<char>, Seq<char>)> {
    match document.elements() {
        Some(items) => if items.len() > 0 && is_error_list(items) {
            reported_error(items[0])
        } else {
            None
        },
        None => None,
    }
}

/// Whether `error` is the error that `item` reports.
pub open spec fn reports(item: JsonValue, error: HueError) -> bool {
    reported_error(item) == Some((error.error.error_type, error.error.address@, error.error.description@))
}

/// Reads the error that `item` reports, if it reports one.
pub fn decode_reported_error(item: &JsonValue) -> (decoded: Option<HueError>)
    ensures
        match decoded {
            Some(error) => reports(*item, error),
            None => reported_error(*item) is None,
        },
{
    let details = match item.get("error") {
        Some(details) => details,
        None => { return None; },
    };
    let code = match details.get("type") {
        Some(code) => code,
        None => { return None; },
    };
    let address = match details.string_member("address") {
        Some(address) => address,
        None => { return None; },
    };
    let description = match details.string_member("description") {
        Some(description) => description,
        None => { return None; },
    };
    match code.as_u64() {
        Some(n) => {
            if n <= 65535 {
                Some(HueError { error: HueErrorDetails { error_type: n as u16, address, description } })
            } else {
                None
            }
        },
        None => None,
    }
}

/// Reads a bridge's error list: the errors that the elements of `document`
/// report, where `document` is an array whose every element reports one.
pub fn error_envelope(document: &JsonValue) -> (decoded: Option<Vec<HueError>>)
    ensures
        match decoded {
            Some(errors) => document.elements() is Some && errors@.len() == document.elements()->0.len()
                && forall|i: int|
                0 <= i < errors@.len() ==> reports(document.elements()->0[i], #[trigger] errors@[i]),
            None => !(document.elements() is Some && is_error_list(document.elements()->0)),
        },
{
    let items = match document.as_array() {
        Some(items) => items,
        None => { return None; },
    };
    let mut errors: Vec<HueError> = Vec::new();
    let mut i: usize = 0;
    while i < items.len()
        invariant
            i <= items.len(),
            errors@.len() == i,
            document.elements() == Some(items@),
            forall|j: int| 0 <= j < i ==> reports(items@[j], #[trigger] errors@[j]),
        decreases items.len() - i,
    {
        match decode_reported_error(&items[i]) {
            Some(error) => {
                errors.push(error);
            },
            None => {
                assert(reported_error(items@[i as int]) is None);
                return None;
            },
        }
        i += 1;
    }
    Some(errors)
}

/// The typed error that a document stands for, where it is a bridge's error
/// envelope.
pub open spec fn document_error(document: JsonValue) -> Option<ErrorView> {
    match first_reported(document) {
        Some((code, _, description)) => Some(bridge_error(code, description)),
        None => None,
    }
}

/// Probes a document for the bridge's error envelope. Where the document is
/// a list of errors that is not empty, the first error is returned as a
/// typed error; any other document passes.
pub fn check_document(document: &JsonValue) -> (result: Result<()>)
    ensures
        match result {
            Ok(()) => document_error(*document) is None,
            Err(error) => document_error(*document) == Some(error@),
        },
{
    match error_envelope(document) {
        Some(errors) => {
            let mut errors = errors;
            if errors.len() > 0 {
                proof {
                    let items = document.elements()->0;
                    assert forall|i: int| 0 <= i < items.len() implies reported_error(
                        #[trigger] items[i],
                    ) is Some by {
                        assert(reports(items[i], errors@[i]));
                    }
                    assert(reports(items[0], errors@[0]));
                }
                let first = errors.remove(0);
                Err(HueStatusError::from_bridge_error(first))
            } else {
                Ok(())
            }
        },
        None => Ok(()),
    }
}

/// What an exchange means for the request `method` `url`: a document, or
/// the error that the transport or the bridge reports.
pub open spec fn exchange_outcome(method: HttpMethod, url: Seq<char>, exchange: Exchange) -> core::result::Result<
    JsonValue,
    ErrorView,
> {
    match exchange {
        Exchange::TimedOut => Err(ErrorView::TimeoutError { operation: method.label() + " "@ + url }),
        Exchange::Failed { description } => Err(ErrorView::NetworkError { source: description@ }),
        Exchange::Answered { status, status_text, body } => if !(200 <= status <= 299) {
            Err(ErrorView::BridgeConnectionFailed { reason: "HTTP "@ + status_text@ })
        } else {
            match json_document(body@) {
                Err(failure) => Err(ErrorView::NetworkError { source: failure.message@ }),
                Ok(document) => match document_error(document) {
                    Some(error) => Err(error),
                    None => Ok(document),
                },
            }
        },
    }
}

/// The state of a request that is being retried.
#[derive(Debug, Clone, Copy, PartialEq, Eq)]
pub struct RetryState {
    /// The number of attempts that have been made.
    pub attempts_made: usize,
}

/// What the caller of a retried request does next.
#[derive(Debug, PartialEq, Eq)]
pub enum RetryStep<T> {
    /// Send the request now.
    Attempt,
    /// Pause for `seconds`, then send the request.
    Wait { seconds: u64 },
    /// Stop: the request is finished with this result.
    Done(Result<T>),
}

/// A finished run of a retried request.
#[derive(Debug, PartialEq, Eq)]
pub struct RetryRun<T> {
    /// What the caller of the request sees.
    pub result: Result<T>,
    /// The number of attempts that were made.
    pub attempts: usize,
    /// The number of pauses between attempts.
    pub waits: usize,
}

/// The run of a request that is attempted at most `attempts` times, from
/// the point where `made` attempts have failed, against a backend whose
/// answer to the attempt number `i` (counted from 0) is `outcomes[i]`.
/// The run ends with the first success, with the first failure that is no
/// connectivity error, or with the last failure when no attempt is left; it
/// is undetermined (`None`) where the backend's answers run out before
/// that. Only a connectivity error is followed by another attempt.
pub open spec fn retried<T>(attempts: usize, outcomes: Seq<Result<T>>, made: usize) -> Option<RetryRun<T>>
    decreases outcomes.len() - made,
{
    if made >= outcomes.len() || made >= attempts {
        None
    } else {
        match outcomes[made as int] {
            Ok(value) => Some(RetryRun { result: Ok(value), attempts: (made + 1) as usize, waits: made }),
            Err(error) => if error@.connectivity() && made + 1 < attempts {
                retried(attempts, outcomes, (made + 1) as usize)
            } else {
                Some(RetryRun { result: Err(error), attempts: (made + 1) as usize, waits: made })
            },
        }
    }
}

/// The failure of a request whose policy allows no attempt.
pub open spec fn no_attempt_allowed() -> ErrorView {
    ErrorView::ApiError { message: "Request failed after all retries"@ }
}

/// Whether `run` is the run of a request whose policy allows no attempt.
pub open spec fn is_refused<T>(run: Option<RetryRun<T>>) -> bool {
    run matches Some(r) && r.attempts == 0 && r.waits == 0 && fails_with(r.result, no_attempt_allowed())
}

/// Whether `step` ends a request because its policy allows no attempt.
pub open spec fn is_refusal<T>(step: RetryStep<T>) -> bool {
    step matches RetryStep::Done(result) && fails_with(result, no_attempt_allowed())
}

/// Whether an outcome is a failure of connectivity.
pub open spec fn is_transient<T>(outcome: Result<T>) -> bool {
    outcome matches Err(error) && error@.connectivity()
}

/// A request that fails with connectivity errors on all attempts but the
/// last one allowed, and succeeds on that one, succeeds: with `attempts`
/// attempts made, no more, and a pause before each attempt but the first.
pub proof fn lemma_retry_succeeds_on_last_attempt<T>(attempts: usize, outcomes: Seq<Result<T>>, value: T)
    requires
        attempts >= 1,
        outcomes.len() >= attempts,
        forall|i: int| 0 <= i < attempts - 1 ==> is_transient(#[trigger] outcomes[i]),
        outcomes[attempts - 1] == Ok::<T, HueStatusError>(value),
    ensures
        retried(attempts, outcomes, 0) == Some(
            RetryRun { result: Ok(value), attempts: attempts, waits: (attempts - 1) as usize },
        ),
{
    lemma_retry_from(attempts, outcomes, 0, (attempts - 1) as usize);
}

/// A request whose every attempt fails with a connectivity error ends with
/// the failure of the last attempt, after `attempts` attempts.
pub proof fn lemma_retry_reports_last_failure<T>(attempts: usize, outcomes: Seq<Result<T>>)
    requires
        attempts >= 1,
        outcomes.len() >= attempts,
        forall|i: int| 0 <= i < attempts ==> is_transient(#[trigger] outcomes[i]),
    ensures
        retried(attempts, outcomes, 0) == Some(
            RetryRun { result: outcomes[attempts - 1], attempts: attempts, waits: (attempts - 1) as usize },
        ),
{
    lemma_retry_from(attempts, outcomes, 0, (attempts - 1) as usize);
}

/// A failure that is no connectivity error ends the request at once: it
/// is returned after the attempt that met it, without a pause after it,
/// however many attempts are left.
pub proof fn lemma_terminal_error_ends_retry<T>(attempts: usize, outcomes: Seq<Result<T>>, last: usize)
    requires
        last < attempts,
        last < outcomes.len(),
        forall|i: int| 0 <= i < last ==> is_transient(#[trigger] outcomes[i]),
        outcomes[last as int] is Err,
        !is_transient(outcomes[last as int]),
    ensures
        retried(attempts, outcomes, 0) == Some(
            RetryRun { result: outcomes[last as int], attempts: (last + 1) as usize, waits: last },
        ),
{
    lemma_retry_from(attempts, outcomes, 0, last);
}

/// Whether an exchange is an answer with a status outside 200 to 299.
pub open spec fn is_server_error(exchange: Exchange) -> bool {
    exchange matches Exchange::Answered { status, .. } && !(200 <= status <= 299)
}

/// Whether `outcome` is what the exchange means for the request `method`
/// `url`.
pub open spec fn is_outcome_of(outcome: Result<JsonValue>, method: HttpMethod, url: Seq<char>, exchange: Exchange) -> bool {
    agrees(outcome, exchange_outcome(method, url, exchange))
}

/// A request that is answered with a status outside 200 to 299 on all
/// attempts but the last one allowed gets, as its result, what the last
/// answer means: after `attempts` requests, with a pause of the configured
/// length before each but the first.
pub proof fn lemma_retry_after_server_errors(
    attempts: usize,
    method: HttpMethod,
    url: Seq<char>,
    exchanges: Seq<Exchange>,
    outcomes: Seq<Result<JsonValue>>,
)
    requires
        attempts >= 1,
        exchanges.len() == attempts,
        outcomes.len() == attempts,
        forall|i: int| 0 <= i < attempts ==> is_outcome_of(#[trigger] outcomes[i], method, url, exchanges[i]),
        forall|i: int| 0 <= i < attempts - 1 ==> is_server_error(#[trigger] exchanges[i]),
    ensures
        retried(attempts, outcomes, 0) == Some(
            RetryRun {
                result: outcomes[attempts - 1],
                attempts: attempts,
                waits: (attempts - 1) as usize,
            },
        ),
{
    assert forall|i: int| 0 <= i < attempts - 1 implies is_transient(#[trigger] outcomes[i]) by {
        assert(is_outcome_of(outcomes[i], method, url, exchanges[i]));
    }
    lemma_retry_from(attempts, outcomes, 0, (attempts - 1) as usize);
}

/// The run of a request ends at the first attempt `last` that does not
/// fail with a connectivity error or is the last one allowed, with that
/// attempt's outcome.
pub proof fn lemma_retry_from<T>(attempts: usize, outcomes: Seq<Result<T>>, made: usize, last: usize)
    requires
        made <= last < attempts,
        last < outcomes.len(),
        forall|i: int| made <= i < last ==> is_transient(#[trigger] outcomes[i]),
        !is_transient(outcomes[last as int]) || last == attempts - 1,
    ensures
        retried(attempts, outcomes, made) == Some(
            RetryRun { result: outcomes[last as int], attempts: (last + 1) as usize, waits: last },
        ),
    decreases last - made,
{
    if made < last {
        assert(is_transient(outcomes[made as int]));
        lemma_retry_from(attempts, outcomes, (made + 1) as usize, last);
    }
}

impl BridgeClient {
    /// A client for the bridge at `bridge_ip`, without a credential, with a
    /// time limit of 10 seconds, 3 attempts and a pause of 1 second.
    pub fn new(bridge_ip: String) -> (client: Result<Self>)
        ensures
            client matches Ok(c) && c.bridge_ip == bridge_ip && c.username is None && c.timeout_seconds == 10
                && c.retry_attempts == 3 && c.retry_delay_seconds == 1 && !c.verbose,
    {
        Ok(
            BridgeClient {
                bridge_ip,
                username: None,
                timeout_seconds: 10,
                retry_attempts: 3,
                retry_delay_seconds: 1,
                verbose: false,
            },
        )
    }

    /// A client for the bridge at `bridge_ip`, without a credential, with
    /// the given policy.
    pub fn with_config(
        bridge_ip: String,
        timeout_seconds: u64,
        retry_attempts: usize,
        retry_delay_seconds: u64,
        verbose: bool,
    ) -> (client: Result<Self>)
        ensures
            client matches Ok(c) && c.bridge_ip == bridge_ip && c.username is None && c.timeout_seconds
                == timeout_seconds && c.retry_attempts == retry_attempts && c.retry_delay_seconds
                == retry_delay_seconds && c.verbose == verbose,
    {
        Ok(BridgeClient { bridge_ip, username: None, timeout_seconds, retry_attempts, retry_delay_seconds, verbose })
    }

    /// The client with the credential `username`.
    pub fn with_username(self, username: String) -> (client: Self)
        ensures
            client == (BridgeClient { username: Some(username), ..self }),
    {
        let mut client = self;
        client.username = Some(username);
        client
    }

    /// The client with verbose mode set.
    pub fn with_verbose(self, verbose: bool) -> (client: Self)
        ensures
            client == (BridgeClient { verbose, ..self }),
    {
        let mut client = self;
        client.verbose = verbose;
        client
    }

    /// The URL under which requests that need no credential are resolved.
    pub open spec fn base(&self) -> Seq<char> {
        "http://"@ + self.bridge_ip@ + "/api"@
    }

    /// The URL of the request for `path`. A path that begins with `/` needs
    /// no credential and is resolved under the base URL; any other path is
    /// resolved under the base URL and the credential, and has no URL where
    /// no credential is set.
    pub open spec fn resolved(&self, path: Seq<char>) -> core::result::Result<Seq<char>, ErrorView> {
        if "/"@.is_prefix_of(path) {
            Ok(self.base() + path)
        } else {
            match self.username {
                Some(username) => Ok(self.base() + "/"@ + username@ + "/"@ + path),
                None => Err(ErrorView::AuthenticationFailed),
            }
        }
    }

    /// The base URL for requests that need no credential.
    pub fn base_url(&self) -> (url: String)
        ensures
            url@ == self.base(),
    {
        concat3("http://", self.bridge_ip.as_str(), "/api")
    }

    /// The base URL for requests that need the credential.
    pub fn authenticated_url(&self) -> (url: Result<String>)
        ensures
            match url {
                Ok(url) => self.username matches Some(username) && url@ == self.base() + "/"@ + username@,
                Err(error) => self.username is None && error@ == ErrorView::AuthenticationFailed,
            },
    {
        match &self.username {
            Some(username) => {
                let mut url = self.base_url();
                url.append("/");
                url.append(username.as_str());
                Ok(url)
            },
            None => Err(HueStatusError::AuthenticationFailed),
        }
    }

    /// Resolves `path` to the URL of its request.
    pub fn request_url(&self, path: &str) -> (url: Result<String>)
        ensures
            match url {
                Ok(url) => self.resolved(path@) == Ok::<Seq<char>, ErrorView>(url@),
                Err(error) => self.resolved(path@) == Err::<Seq<char>, ErrorView>(error@),
            },
    {
        if starts_with(path, "/") {
            let mut url = self.base_url();
            url.append(path);
            Ok(url)
        } else {
            let mut url = self.authenticated_url()?;
            url.append("/");
            url.append(path);
            Ok(url)
        }
    }

    /// The request `method` `path` with `body`, or the error that tells that
    /// the credential is missing.
    pub fn request(&self, method: HttpMethod, path: &str, body: RequestBody) -> (request: Result<Request>)
        ensures
            match request {
                Ok(r) => self.resolved(path@) == Ok::<Seq<char>, ErrorView>(r.url@) && r.method == method
                    && r.body == body,
                Err(error) => self.resolved(path@) == Err::<Seq<char>, ErrorView>(error@),
            },
    {
        let url = self.request_url(path)?;
        Ok(Request { method, url, body })
    }

    /// Interprets what the transport brought back from the request
    /// `method` `url`. A request that ran out of time fails with a timeout
    /// that names the request; an answer with a status outside 200 to 299
    /// fails as a failed connection; a body that is the bridge's error
    /// envelope fails with the typed error of its first element; any other
    /// JSON body is returned as a document.
    pub fn interpret(method: HttpMethod, url: &str, exchange: Exchange) -> (result: Result<JsonValue>)
        ensures
            agrees(result, exchange_outcome(method, url@, exchange)),
    {
        match exchange {
            Exchange::TimedOut => Err(
                HueStatusError::TimeoutError { operation: concat3(method.name(), " ", url) },
            ),
            Exchange::Failed { description } => Err(HueStatusError::NetworkError { source: description }),
            Exchange::Answered { status, status_text, body } => {
                if !(200 <= status && status <= 299) {
                    return Err(
                        HueStatusError::BridgeConnectionFailed { reason: concat2("HTTP ", status_text.as_str()) },
                    );
                }
                match JsonValue::parse(body.as_str()) {
                    Err(failure) => Err(HueStatusError::NetworkError { source: failure.message }),
                    Ok(document) => match check_document(&document) {
                        Err(error) => Err(error),
                        Ok(()) => Ok(document),
                    },
                }
            },
        }
    }

    /// The first step of a retried request: an attempt, unless the policy
    /// allows none.
    pub fn begin_request<T>(&self) -> (start: (RetryState, RetryStep<T>))
        ensures
            start.0.attempts_made == 0,
            match start.1 {
                RetryStep::Attempt => self.retry_attempts > 0,
                RetryStep::Wait { .. } => false,
                RetryStep::Done(result) => self.retry_attempts == 0 && is_refusal(start.1),
            },
    {
        let state = RetryState { attempts_made: 0 };
        if self.retry_attempts == 0 {
            (
                state,
                RetryStep::Done(
                    Err(HueStatusError::ApiError { message: String::from_str("Request failed after all retries") }),
                ),
            )
        } else {
            (state, RetryStep::Attempt)
        }
    }

    /// What follows an attempt with the given outcome: a success ends the
    /// request, and so does a failure that is no connectivity error. A
    /// connectivity error ends it when no attempt is left, and otherwise
    /// calls for a pause of the configured length before the next attempt.
    pub open spec fn after<T>(&self, state: RetryState, outcome: Result<T>) -> (RetryState, RetryStep<T>) {
        let made = if state.attempts_made < usize::MAX {
            (state.attempts_made + 1) as usize
        } else {
            state.attempts_made
        };
        match outcome {
            Ok(value) => (RetryState { attempts_made: made }, RetryStep::Done(Ok(value))),
            Err(error) => if error@.connectivity() && made < self.retry_attempts {
                (RetryState { attempts_made: made }, RetryStep::Wait { seconds: self.retry_delay_seconds })
            } else {
                (RetryState { attempts_made: made }, RetryStep::Done(Err(error)))
            },
        }
    }

    /// Decides what follows an attempt with the given outcome.
    pub fn after_attempt<T>(&self, state: RetryState, outcome: Result<T>) -> (next: (RetryState, RetryStep<T>))
        ensures
            next == self.after(state, outcome),
    {
        let made = if state.attempts_made < usize::MAX {
            state.attempts_made + 1
        } else {
            state.attempts_made
        };
        match outcome {
            Ok(value) => (RetryState { attempts_made: made }, RetryStep::Done(Ok(value))),
            Err(error) => if error.is_connectivity() && made < self.retry_attempts {
                (RetryState { attempts_made: made }, RetryStep::Wait { seconds: self.retry_delay_seconds })
            } else {
                (RetryState { attempts_made: made }, RetryStep::Done(Err(error)))
            },
        }
    }

    /// Runs a retried request against a scripted backend: the attempt
    /// number `i` (counted from 0) gets `outcomes[i]`. Returns the finished
    /// run, or nothing where the script ends while an attempt is due.
    pub fn request_with_retry<T>(&self, outcomes: Vec<Result<T>>) -> (run: Option<RetryRun<T>>)
        ensures
            self.retry_attempts > 0 ==> run == retried(self.retry_attempts, outcomes@, 0),
            self.retry_attempts == 0 ==> is_refused(run),
    {
        let (state, step) = self.begin_request::<T>();
        let mut state = state;
        let mut step = step;
        let mut outcomes = outcomes;
        let ghost script = outcomes@;
        let mut waits: usize = 0;
        loop
            invariant_except_break
                self.retry_attempts > 0 ==> !(step is Done),
                self.retry_attempts == 0 ==> is_refusal(step) && state.attempts_made == 0 && waits == 0,
                state.attempts_made < self.retry_attempts || self.retry_attempts == 0,
                state.attempts_made <= script.len(),
                waits == state.attempts_made,
                outcomes@ == script.skip(state.attempts_made as int),
                retried(self.retry_attempts, script, state.attempts_made) == retried(
                    self.retry_attempts,
                    script,
                    0,
                ),
            ensures
                self.retry_attempts > 0 ==> (match step {
                    RetryStep::Done(result) => retried(self.retry_attempts, script, 0) == Some(
                        RetryRun { result, attempts: state.attempts_made, waits },
                    ),
                    _ => retried(self.retry_attempts, script, 0) is None,
                }),
                self.retry_attempts == 0 ==> is_refusal(step) && state.attempts_made == 0 && waits == 0,
            decreases outcomes@.len(),
        {
            if let RetryStep::Done(_) = step {
                break;
            }
            if outcomes.len() == 0 {
                break;
            }
            let ghost made = state.attempts_made;
            let outcome = outcomes.remove(0);
            assert(outcome == script[made as int]);
            let (next_state, next_step) = self.after_attempt(state, outcome);
            state = next_state;
            step = next_step;
            if let RetryStep::Done(_) = step {
                break;
            }
            waits = waits + 1;
            assert(outcomes@ =~= script.skip(state.attempts_made as int));
        }
        match step {
            RetryStep::Done(result) => Some(RetryRun { result, attempts: state.attempts_made, waits }),
            _ => None,
        }
    }
}

/// The answer to the creation of a scene.
#[derive(Debug, Clone, PartialEq, Eq)]
pub struct CreateSceneResponse {
    pub success: CreateSceneSuccess,
}

/// The identifier that the bridge gave to a new scene.
#[derive(Debug, Clone, PartialEq, Eq)]
pub struct CreateSceneSuccess {
    pub id: String,
}

/// The answer to a deletion.
#[derive(Debug, Clone, PartialEq, Eq)]
pub struct DeleteResponse {
    pub success: String,
}

/// The answer to an action.
#[derive(Debug, PartialEq, Eq)]
pub struct ActionResponse {
    pub success: JsonValue,
}

/// A summary of the state of a bridge.
#[derive(Debug, Clone, PartialEq, Eq)]
pub struct BridgeStatus {
    pub bridge_name: String,
    pub bridge_id: String,
    pub api_version: String,
    pub sw_version: String,
    pub total_lights: usize,
    pub reachable_lights: usize,
    pub suitable_lights: usize,
    pub total_scenes: usize,
    pub available_scenes: usize,
    pub max_scenes: usize,
}

impl BridgeStatus {
    /// The health of the bridge on a scale from 0 to 100: 100, less 50
    /// where no light is reachable (20 where fewer than half are), less 30
    /// where no light is suitable (10 where fewer than half are), less 10
    /// where fewer than 10 scenes can still be stored.
    pub open spec fn health(&self) -> int {
        100 - (if self.reachable_lights == 0 {
            50int
        } else if self.reachable_lights < self.total_lights / 2 {
            20int
        } else {
            0int
        }) - (if self.suitable_lights == 0 {
            30int
        } else if self.suitable_lights < self.total_lights / 2 {
            10int
        } else {
            0int
        }) - (if self.available_scenes < 10 {
            10int
        } else {
            0int
        })
    }

    /// The one-line summary of the status.
    pub open spec fn summary_text(&self) -> Seq<char> {
        "Bridge: "@ + self.bridge_name@ + " ("@ + self.bridge_id@ + "), API: "@ + self.api_version@ + ", SW: "@
            + self.sw_version@ + ", Lights: "@ + decimal(self.reachable_lights as nat) + "/"@ + decimal(
            self.total_lights as nat,
        ) + " reachable, Scenes: "@ + decimal(self.total_scenes as nat) + "/"@ + decimal(self.max_scenes as nat)
    }

    /// Whether the bridge has a reachable and a suitable light.
    pub fn is_healthy(&self) -> (yes: bool)
        ensures
            yes == (self.reachable_lights > 0 && self.suitable_lights > 0),
    {
        self.reachable_lights > 0 && self.suitable_lights > 0
    }

    /// The health of the bridge on a scale from 0 to 100.
    pub fn health_score(&self) -> (score: u8)
        ensures
            score == self.health(),
            10 <= score <= 100,
    {
        let mut score: u8 = 100;
        if self.reachable_lights == 0 {
            score = score - 50;
        } else if self.reachable_lights < self.total_lights / 2 {
            score = score - 20;
        }
        if self.suitable_lights == 0 {
            score = score - 30;
        } else if self.suitable_lights < self.total_lights / 2 {
            score = score - 10;
        }
        if self.available_scenes < 10 {
            score = score - 10;
        }
        score
    }

    /// Renders the one-line summary of the status.
    pub fn summary(&self) -> (text: String)
        ensures
            text@ == self.summary_text(),
    {
        let reachable = u64_to_string(self.reachable_lights as u64);
        let total = u64_to_string(self.total_lights as u64);
        let scenes = u64_to_string(self.total_scenes as u64);
        let max = u64_to_string(self.max_scenes as u64);
        let mut text = String::from_str("Bridge: ");
        text.append(self.bridge_name.as_str());
        text.append(" (");
        text.append(self.bridge_id.as_str());
        text.append("), API: ");
        text.append(self.api_version.as_str());
        text.append(", SW: ");
        text.append(self.sw_version.as_str());
        text.append(", Lights: ");
        text.append(reachable.as_str());
        text.append("/");
        text.append(total.as_str());
        text.append(" reachable, Scenes: ");
        text.append(scenes.as_str());
        text.append("/");
        text.append(max.as_str());
        text
    }
}

/// Whether an entry of a light listing is a light that can indicate a
/// status.
pub open spec fn suitable_entry() -> spec_fn((String, Light)) -> bool {
    |entry: (String, Light)| entry.1.suitable_for_status()
}

/// Whether the light at an index of a listing is reachable.
pub open spec fn reachable_at(lights: Seq<(String, Light)>) -> spec_fn(int) -> bool {
    |i: int| lights[i].1.reachable()
}

/// Whether the light at an index of a listing can indicate a status.
pub open spec fn suitable_at(lights: Seq<(String, Light)>) -> spec_fn(int) -> bool {
    |i: int| lights[i].1.suitable_for_status()
}

/// Whether the light at an index of a scene is missing from the listing or
/// not reachable.
pub open spec fn unready_at(scene: Scene, lights: StringMap<Light>) -> spec_fn(int) -> bool {
    |i: int| !is_ready(lights.value_of(scene.lights@[i]@))
}

/// Whether a light was found and is reachable.
pub open spec fn is_ready(found: Option<Light>) -> bool {
    found matches Some(light) && light.reachable()
}

/// What keeps a scene from being applied, given the lights that the bridge
/// lists: the scene is locked or empty, or one of its lights is unreachable
/// or unknown. The first such light, in the order of the scene, is named.
pub open spec fn scene_defect(scene: Scene, lights: StringMap<Light>) -> Option<ErrorView> {
    if !scene.suitable_for_status() {
        Some(
            ErrorView::ValidationFailed {
                reason: "Scene '"@ + scene.name@ + "' is not suitable for status indication"@,
            },
        )
    } else {
        match first_where(unready_at(scene, lights), scene.lights@.len() as int) {
            Some(i) => match lights.value_of(scene.lights@[i]@) {
                Some(light) => Some(
                    ErrorView::ValidationFailed {
                        reason: "Light '"@ + light.name@ + "' in scene '"@ + scene.name@ + "' is not reachable"@,
                    },
                ),
                None => Some(
                    ErrorView::ValidationFailed {
                        reason: "Light '"@ + scene.lights@[i]@ + "' in scene '"@ + scene.name@ + "' not found"@,
                    },
                ),
            },
            None => None,
        }
    }
}

/// Whether `request` is the request `method` `path` of `client`, or the
/// error that tells that the credential is missing.
pub open spec fn targets(client: BridgeClient, request: Result<Request>, method: HttpMethod, path: Seq<char>) -> bool {
    match request {
        Ok(r) => client.resolved(path) == Ok::<Seq<char>, ErrorView>(r.url@) && r.method == method,
        Err(error) => client.resolved(path) == Err::<Seq<char>, ErrorView>(error@),
    }
}

/// Whether `request`, if there is one, has no body.
pub open spec fn without_body(request: Result<Request>) -> bool {
    request matches Ok(r) ==> r.body == RequestBody::Empty
}

/// Whether `request`, if there is one, asks to apply the scene `scene_id`.
pub open spec fn applies_scene(request: Result<Request>, scene_id: Seq<char>) -> bool {
    request matches Ok(r) ==> (r.body matches RequestBody::SceneAction(action) && action.scene@ == scene_id)
}

impl BridgeClient {
    /// The request that tests whether the bridge answers at all.
    pub fn test_connection_request(&self) -> (request: Request)
        ensures
            request.method == HttpMethod::Get,
            request.url@ == "http://"@ + self.bridge_ip@ + "/api/0/config"@,
            request.body == RequestBody::Empty,
    {
        Request {
            method: HttpMethod::Get,
            url: concat3("http://", self.bridge_ip.as_str(), "/api/0/config"),
            body: RequestBody::Empty,
        }
    }

    /// What the connection test makes of its exchange: any answer passes.
    pub fn test_connection(&self, exchange: &Exchange) -> (result: Result<()>)
        ensures
            match exchange {
                Exchange::TimedOut => fails_with(
                    result,
                    ErrorView::TimeoutError { operation: "Connection test"@ },
                ),
                Exchange::Failed { description } => fails_with(
                    result,
                    ErrorView::BridgeConnectionFailed { reason: description@ },
                ),
                Exchange::Answered { .. } => result is Ok,
            },
    {
        match exchange {
            Exchange::TimedOut => Err(
                HueStatusError::TimeoutError { operation: String::from_str("Connection test") },
            ),
            Exchange::Failed { description } => Err(
                HueStatusError::BridgeConnectionFailed { reason: description.clone() },
            ),
            Exchange::Answered { .. } => Ok(()),
        }
    }

    /// The request for the bridge's configuration.
    pub fn get_config(&self) -> (request: Result<Request>)
        ensures
            targets(*self, request, HttpMethod::Get, "config"@),
            without_body(request),
    {
        self.request(HttpMethod::Get, "config", RequestBody::Empty)
    }

    /// The request for the bridge's capabilities.
    pub fn get_capabilities(&self) -> (request: Result<Request>)
        ensures
            targets(*self, request, HttpMethod::Get, "capabilities"@),
            without_body(request),
    {
        self.request(HttpMethod::Get, "capabilities", RequestBody::Empty)
    }

    /// The request for all lights.
    pub fn get_lights(&self) -> (request: Result<Request>)
        ensures
            targets(*self, request, HttpMethod::Get, "lights"@),
            without_body(request),
    {
        self.request(HttpMethod::Get, "lights", RequestBody::Empty)
    }

    /// The request for one light.
    pub fn get_light(&self, light_id: &str) -> (request: Result<Request>)
        ensures
            targets(*self, request, HttpMethod::Get, "lights/"@ + light_id@),
            without_body(request),
    {
        let path = concat2("lights/", light_id);
        self.request(HttpMethod::Get, path.as_str(), RequestBody::Empty)
    }

    /// The request for all scenes.
    pub fn get_scenes(&self) -> (request: Result<Request>)
        ensures
            targets(*self, request, HttpMethod::Get, "scenes"@),
            without_body(request),
    {
        self.request(HttpMethod::Get, "scenes", RequestBody::Empty)
    }

    /// The request for one scene.
    pub fn get_scene(&self, scene_id: &str) -> (request: Result<Request>)
        ensures
            targets(*self, request, HttpMethod::Get, "scenes/"@ + scene_id@),
            without_body(request),
    {
        let path = concat2("scenes/", scene_id);
        self.request(HttpMethod::Get, path.as_str(), RequestBody::Empty)
    }

    /// The request that creates `scene`. A scene that is not valid is
    /// refused before any request is made.
    pub fn create_scene(&self, scene: CreateSceneRequest) -> (request: Result<Request>)
        ensures
            match scene.defect() {
                Some(defect) => fails_with(request, defect),
                None => targets(*self, request, HttpMethod::Post, "scenes"@) && (request matches Ok(r) ==> r.body
                    == RequestBody::CreateScene(scene)),
            },
    {
        match scene.validate() {
            Ok(()) => {},
            Err(error) => { return Err(error); },
        }
        self.request(HttpMethod::Post, "scenes", RequestBody::CreateScene(scene))
    }

    /// The request that deletes a scene.
    pub fn delete_scene(&self, scene_id: &str) -> (request: Result<Request>)
        ensures
            targets(*self, request, HttpMethod::Delete, "scenes/"@ + scene_id@),
            without_body(request),
    {
        let path = concat2("scenes/", scene_id);
        self.request(HttpMethod::Delete, path.as_str(), RequestBody::Empty)
    }

    /// The request that applies a scene to all lights (group 0).
    pub fn execute_scene(&self, scene_id: &str) -> (request: Result<Request>)
        ensures
            targets(*self, request, HttpMethod::Put, "groups/0/action"@),
            applies_scene(request, scene_id@),
    {
        let action = SceneActionRequest::new(String::from_str(scene_id));
        self.request(HttpMethod::Put, "groups/0/action", RequestBody::SceneAction(action))
    }

    /// The request that applies a scene to one group.
    pub fn execute_scene_on_group(&self, group_id: &str, scene_id: &str) -> (request: Result<Request>)
        ensures
            targets(*self, request, HttpMethod::Put, "groups/"@ + group_id@ + "/action"@),
            applies_scene(request, scene_id@),
    {
        let action = SceneActionRequest::new(String::from_str(scene_id));
        let path = concat3("groups/", group_id, "/action");
        self.request(HttpMethod::Put, path.as_str(), RequestBody::SceneAction(action))
    }

    /// The request for all groups.
    pub fn get_groups(&self) -> (request: Result<Request>)
        ensures
            targets(*self, request, HttpMethod::Get, "groups"@),
            without_body(request),
    {
        self.request(HttpMethod::Get, "groups", RequestBody::Empty)
    }

    /// The request for one group.
    pub fn get_group(&self, group_id: &str) -> (request: Result<Request>)
        ensures
            targets(*self, request, HttpMethod::Get, "groups/"@ + group_id@),
            without_body(request),
    {
        let path = concat2("groups/", group_id);
        self.request(HttpMethod::Get, path.as_str(), RequestBody::Empty)
    }

    /// The lights of a listing that can indicate a status, in the order of
    /// the listing; it is an error if there is none.
    pub fn get_suitable_lights(&self, lights: &StringMap<Light>) -> (suitable: Result<Vec<(String, Light)>>)
        ensures
            match suitable {
                Ok(found) => found@.len() > 0 && found@ == kept(
                    lights.entries@,
                    suitable_entry(),
                    lights.entries@.len() as int,
                ),
                Err(error) => error@ == ErrorView::NoLightsFound && kept(
                    lights.entries@,
                    suitable_entry(),
                    lights.entries@.len() as int,
                ).len() == 0,
            },
    {
        let mut found: Vec<(String, Light)> = Vec::new();
        let mut i: usize = 0;
        while i < lights.entries.len()
            invariant
                i <= lights.entries.len(),
                found@ == kept(lights.entries@, suitable_entry(), i as int),
            decreases lights.entries.len() - i,
        {
            let entry = &lights.entries[i];
            if entry.1.is_suitable_for_status() {
                found.push((entry.0.clone(), entry.1.clone()));
            }
            i += 1;
        }
        if found.len() == 0 {
            Err(HueStatusError::NoLightsFound)
        } else {
            Ok(found)
        }
    }

    /// Whether a scene exists, from the outcome of fetching it: an error of
    /// the bridge's API means that it does not, and any other error is
    /// passed on.
    pub fn scene_exists(&self, fetched: Result<Scene>) -> (exists: Result<bool>)
        ensures
            exists == match fetched {
                Ok(_) => Ok::<bool, HueStatusError>(true),
                Err(error) => if error is ApiError {
                    Ok::<bool, HueStatusError>(false)
                } else {
                    Err::<bool, HueStatusError>(error)
                },
            },
    {
        match fetched {
            Ok(_) => Ok(true),
            Err(HueStatusError::ApiError { message }) => Ok(false),
            Err(error) => Err(error),
        }
    }

    /// Checks that `scene` can be applied, given the lights that the bridge
    /// lists: the scene is unlocked and has a light, and each of its lights
    /// is listed and reachable.
    pub fn validate_scene(&self, scene: &Scene, lights: &StringMap<Light>) -> (result: Result<()>)
        ensures
            match result {
                Ok(()) => scene_defect(*scene, *lights) is None,
                Err(error) => scene_defect(*scene, *lights) == Some(error@),
            },
    {
        if !scene.is_suitable_for_status() {
            return Err(
                HueStatusError::ValidationFailed {
                    reason: concat3("Scene '", scene.name.as_str(), "' is not suitable for status indication"),
                },
            );
        }
        let ghost unready = unready_at(*scene, *lights);
        let mut i: usize = 0;
        while i < scene.lights.len()
            invariant
                i <= scene.lights.len(),
                scene.suitable_for_status(),
                unready == unready_at(*scene, *lights),
                forall|j: int| 0 <= j < i ==> !#[trigger] unready(j),
            decreases scene.lights.len() - i,
        {
            let light_id = scene.lights[i].as_str();
            match lights.get(light_id) {
                Some(light) => {
                    if !light.is_reachable() {
                        proof {
                            assert(unready(i as int));
                            lemma_first_where_found(unready, scene.lights@.len() as int, i as int);
                        }
                        let mut reason = concat3("Light '", light.name.as_str(), "' in scene '");
                        reason.append(scene.name.as_str());
                        reason.append("' is not reachable");
                        return Err(HueStatusError::ValidationFailed { reason });
                    }
                    assert(!unready(i as int));
                },
                None => {
                    proof {
                        assert(unready(i as int));
                        lemma_first_where_found(unready, scene.lights@.len() as int, i as int);
                    }
                    let mut reason = concat3("Light '", light_id, "' in scene '");
                    reason.append(scene.name.as_str());
                    reason.append("' not found");
                    return Err(HueStatusError::ValidationFailed { reason });
                },
            }
            i += 1;
        }
        proof {
            lemma_first_where_none(unready, scene.lights@.len() as int);
        }
        Ok(())
    }

    /// Summarises the state of the bridge from its configuration, its
    /// capabilities, and the lights and scenes that it lists.
    pub fn get_bridge_status(
        &self,
        config: &BridgeConfiguration,
        capabilities: &BridgeCapabilities,
        lights: &StringMap<Light>,
        scenes: &StringMap<Scene>,
    ) -> (status: BridgeStatus)
        ensures
            status.bridge_name == config.name,
            status.bridge_id == config.bridgeid,
            status.api_version == config.apiversion,
            status.sw_version == config.swversion,
            status.total_lights == lights.entries@.len(),
            status.reachable_lights == count_where(reachable_at(lights.entries@), lights.entries@.len() as int),
            status.suitable_lights == count_where(suitable_at(lights.entries@), lights.entries@.len() as int),
            status.total_scenes == scenes.entries@.len(),
            status.available_scenes == capabilities.scenes.available,
            status.max_scenes == capabilities.scenes.total,
    {
        let mut reachable: usize = 0;
        let mut suitable: usize = 0;
        let mut i: usize = 0;
        while i < lights.entries.len()
            invariant
                i <= lights.entries.len(),
                reachable == count_where(reachable_at(lights.entries@), i as int),
                suitable == count_where(suitable_at(lights.entries@), i as int),
                reachable <= i,
                suitable <= i,
            decreases lights.entries.len() - i,
        {
            let light = &lights.entries[i].1;
            if light.is_reachable() {
                reachable += 1;
            }
            if light.is_suitable_for_status() {
                suitable += 1;
            }
            i += 1;
        }
        BridgeStatus {
            bridge_name: config.name.clone(),
            bridge_id: config.bridgeid.clone(),
            api_version: config.apiversion.clone(),
            sw_version: config.swversion.clone(),
            total_lights: lights.len(),
            reachable_lights: reachable,
            suitable_lights: suitable,
            total_scenes: scenes.len(),
            available_scenes: capabilities.scenes.available,
            max_scenes: capabilities.scenes.total,
        }
    }
}

} // verus!
