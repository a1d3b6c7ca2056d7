//! Link-button authentication: the poller that asks the bridge for a
//! credential until the link button has been pressed, a terminal error
//! occurs, or the deadline passes.
//!
//! The poller is a state machine. After each step it tells its caller what
//! to do next: to read the clock, to send the request for a credential, or
//! to stop.

use crate::bridge::client::{
    check_document, decode_reported_error, document_error, reported_error, BridgeClient, Exchange,
    HttpMethod, Request, RequestBody,
};
use crate::bridge::bridge_error;
use crate::clock::current_time_millis;
use crate::error::{fails_with, ErrorView, HueStatusError, Result};
use crate::json::{json_array_document, json_document, JsonValue};
use crate::text::{concat2, concat3, decimal, u64_to_string};
use vstd::prelude::*;
use vstd::string::*;

verus! {

/// The body of the request for a credential.
#[derive(Debug, Clone, PartialEq, Eq)]
pub struct AuthRequest {
    /// The device type, `<application>#<instance>`.
    pub devicetype: String,
}

/// The credential in the bridge's answer.
#[derive(Debug, Clone, PartialEq, Eq)]
pub struct AuthSuccess {
    pub username: String,
}

/// The bridge's answer to a granted request for a credential.
#[derive(Debug, Clone, PartialEq, Eq)]
pub struct AuthResponse {
    pub success: AuthSuccess,
}

/// A credential that the bridge has issued.
#[derive(Debug, Clone, PartialEq, Eq)]
pub struct AuthResult {
    /// The credential.
    pub username: String,
    /// The device type that asked for it.
    pub device_type: String,
    /// When it was issued, in milliseconds since the start of 1970 (UTC).
    pub created_at: i64,
}

/// Where an authentication stands.
#[derive(Debug, Clone, PartialEq, Eq)]
pub enum AuthStatus {
    WaitingForButton,
    ButtonPressed,
    /// The bridge issued this credential.
    Success(String),
    Timeout,
    /// Authentication failed for this reason.
    Error(String),
}

/// The mathematical value of an [`AuthStatus`].
pub ghost enum AuthStatusView {
    WaitingForButton,
    ButtonPressed,
    Success(Seq<char>),
    Timeout,
    Error(Seq<char>),
}

impl View for AuthStatus {
    type V = AuthStatusView;

    open spec fn view(&self) -> AuthStatusView {
        match self {
            AuthStatus::WaitingForButton => AuthStatusView::WaitingForButton,
            AuthStatus::ButtonPressed => AuthStatusView::ButtonPressed,
            AuthStatus::Success(username) => AuthStatusView::Success(username@),
            AuthStatus::Timeout => AuthStatusView::Timeout,
            AuthStatus::Error(reason) => AuthStatusView::Error(reason@),
        }
    }
}

impl AuthStatusView {
    /// The text that describes the status.
    pub open spec fn description(self) -> Seq<char> {
        match self {
            AuthStatusView::WaitingForButton => "Waiting for button press"@,
            AuthStatusView::ButtonPressed => "Button pressed"@,
            AuthStatusView::Success(username) => "Success ("@ + username + ")"@,
            AuthStatusView::Timeout => "Timeout"@,
            AuthStatusView::Error(reason) => "Error: "@ + reason,
        }
    }
}

impl AuthStatus {
    /// Renders the text that describes the status.
    pub fn to_string(&self) -> (text: String)
        ensures
            text@ == self@.description(),
    {
        match self {
            AuthStatus::WaitingForButton => String::from_str("Waiting for button press"),
            AuthStatus::ButtonPressed => String::from_str("Button pressed"),
            AuthStatus::Success(username) => concat3("Success (", username.as_str(), ")"),
            AuthStatus::Timeout => String::from_str("Timeout"),
            AuthStatus::Error(reason) => concat2("Error: ", reason.as_str()),
        }
    }
}

/// The milliseconds in a minute.
pub const MINUTE_MS: i64 = 60_000;

/// The milliseconds in an hour.
pub const HOUR_MS: i64 = 3_600_000;

/// The milliseconds in a day.
pub const DAY_MS: i64 = 86_400_000;

/// The age at `now` of something created at `created_at`, both in
/// milliseconds since the start of 1970; an age that is out of range is
/// the nearest number in range.
pub open spec fn age_between(created_at: i64, now: i64) -> i64 {
    if now - created_at > i64::MAX {
        i64::MAX
    } else if now - created_at < i64::MIN {
        i64::MIN
    } else {
        (now - created_at) as i64
    }
}

/// How an age is put in words: `just now` below a minute, then whole
/// minutes below an hour, whole hours below a day, and whole days.
pub open spec fn age_text(age: i64) -> Seq<char> {
    if age < MINUTE_MS {
        "just now"@
    } else if age < HOUR_MS {
        decimal((age / MINUTE_MS) as nat) + " minutes ago"@
    } else if age < DAY_MS {
        decimal((age / HOUR_MS) as nat) + " hours ago"@
    } else {
        decimal((age / DAY_MS) as nat) + " days ago"@
    }
}

/// The age between two points in time, in milliseconds.
pub fn elapsed_between(created_at: i64, now: i64) -> (age: i64)
    ensures
        age == age_between(created_at, now),
{
    let difference: i128 = now as i128 - created_at as i128;
    if difference > i64::MAX as i128 {
        i64::MAX
    } else if difference < i64::MIN as i128 {
        i64::MIN
    } else {
        difference as i64
    }
}

impl AuthResult {
    /// The summary of the credential as of `now`.
    pub open spec fn summary_text(&self, now: i64) -> Seq<char> {
        "User: "@ + self.username@ + ", Device: "@ + self.device_type@ + ", Created: "@ + age_text(
            age_between(self.created_at, now),
        )
    }

    /// The age of the credential at `now`, in milliseconds.
    pub fn age_at(&self, now: i64) -> (age: i64)
        ensures
            age == age_between(self.created_at, now),
    {
        elapsed_between(self.created_at, now)
    }

    /// Whether the credential is less than an hour old at `now`.
    pub fn is_recent_at(&self, now: i64) -> (yes: bool)
        ensures
            yes == (age_between(self.created_at, now) < HOUR_MS),
    {
        self.age_at(now) < HOUR_MS
    }

    /// Whether the credential is more than 30 days old at `now`.
    pub fn is_old_at(&self, now: i64) -> (yes: bool)
        ensures
            yes == (age_between(self.created_at, now) > 30 * DAY_MS),
    {
        self.age_at(now) > 30 * DAY_MS
    }

    /// Puts the age of the credential at `now` in words.
    pub fn age_string_at(&self, now: i64) -> (text: String)
        ensures
            text@ == age_text(age_between(self.created_at, now)),
    {
        let age = self.age_at(now);
        if age < MINUTE_MS {
            String::from_str("just now")
        } else if age < HOUR_MS {
            let mut text = u64_to_string((age / MINUTE_MS) as u64);
            text.append(" minutes ago");
            text
        } else if age < DAY_MS {
            let mut text = u64_to_string((age / HOUR_MS) as u64);
            text.append(" hours ago");
            text
        } else {
            let mut text = u64_to_string((age / DAY_MS) as u64);
            text.append(" days ago");
            text
        }
    }

    /// Renders the summary of the credential as of `now`.
    pub fn summary_at(&self, now: i64) -> (text: String)
        ensures
            text@ == self.summary_text(now),
    {
        let age = self.age_string_at(now);
        let mut text = concat3("User: ", self.username.as_str(), ", Device: ");
        text.append(self.device_type.as_str());
        text.append(", Created: ");
        text.append(age.as_str());
        text
    }

    /// The age of the credential by the wall clock, in milliseconds.
    pub fn age(&self) -> (age: i64)
        ensures
            exists|now: i64| 0 <= now && age == age_between(self.created_at, now),
    {
        self.age_at(current_time_millis())
    }

    /// Whether the credential is less than an hour old by the wall clock.
    pub fn is_recent(&self) -> (yes: bool)
        ensures
            exists|now: i64| 0 <= now && yes == (age_between(self.created_at, now) < HOUR_MS),
    {
        self.is_recent_at(current_time_millis())
    }

    /// Whether the credential is more than 30 days old by the wall clock.
    pub fn is_old(&self) -> (yes: bool)
        ensures
            exists|now: i64| 0 <= now && yes == (age_between(self.created_at, now) > 30 * DAY_MS),
    {
        self.is_old_at(current_time_millis())
    }

    /// Puts the age of the credential by the wall clock in words.
    pub fn age_string(&self) -> (text: String)
        ensures
            exists|now: i64| 0 <= now && text@ == age_text(age_between(self.created_at, now)),
    {
        self.age_string_at(current_time_millis())
    }

    /// Renders the summary of the credential by the wall clock.
    pub fn summary(&self) -> (text: String)
        ensures
            exists|now: i64| 0 <= now && text@ == self.summary_text(now),
    {
        self.summary_at(current_time_millis())
    }
}

/// The authentication manager for one bridge.
#[derive(Debug, Clone, PartialEq, Eq)]
pub struct BridgeAuth {
    pub bridge_ip: String,
    /// The deadline of the whole polling loop, in seconds.
    pub timeout_seconds: u64,
    pub verbose: bool,
}

/// What the caller of the poller does next.
#[derive(Debug, PartialEq, Eq)]
pub enum AuthStep {
    /// Read the time that has passed since polling began, and hand it to
    /// [`BridgeAuth::check_deadline`].
    ReadClock,
    /// Wait for the next tick of the polling interval, send the request,
    /// and hand what came back to [`BridgeAuth::after_poll`].
    Poll(Request),
    /// Stop: authentication is finished with this result.
    Done(Result<AuthResult>),
}

/// One tick of a scripted polling run.
#[derive(Debug, PartialEq, Eq)]
pub struct AuthTick {
    /// The time that has passed since polling began when the deadline is
    /// checked, in milliseconds.
    pub elapsed_ms: u64,
    /// What the request for a credential yields if it is made at this tick.
    pub reply: Result<String>,
}

/// A finished polling run.
#[derive(Debug, PartialEq, Eq)]
pub struct AuthRun {
    /// What the caller of the authentication sees.
    pub result: Result<AuthResult>,
    /// The number of requests that were made.
    pub requests: usize,
    /// The transitions that were reported, in order.
    pub statuses: Vec<AuthStatus>,
}

/// How a polling run ends.
pub ghost enum PollEnd {
    /// The bridge issued this credential.
    Credential(String),
    /// The deadline passed.
    TimedOut,
    /// A request failed with a terminal error.
    Failed(HueStatusError),
}

/// Whether `elapsed_ms` milliseconds are past a deadline of
/// `timeout_seconds` seconds.
pub open spec fn past_deadline(timeout_seconds: u64, elapsed_ms: u64) -> bool {
    elapsed_ms > timeout_seconds * 1000
}

/// The run of the poller from tick number `k` on: how it ends, and after
/// how many requests. At each tick the deadline is checked first; within
/// the deadline a request is made. A bridge that waits for its link button
/// lets the run go on; a credential or any other error ends it. The run is
/// undetermined (`None`) where the ticks run out before it ends.
pub open spec fn polled(timeout_seconds: u64, ticks: Seq<AuthTick>, k: nat) -> Option<(PollEnd, nat)>
    decreases ticks.len() - k,
{
    if k >= ticks.len() {
        None
    } else if past_deadline(timeout_seconds, ticks[k as int].elapsed_ms) {
        Some((PollEnd::TimedOut, k))
    } else {
        match ticks[k as int].reply {
            Ok(username) => Some((PollEnd::Credential(username), k + 1)),
            Err(HueStatusError::LinkButtonNotPressed) => polled(timeout_seconds, ticks, k + 1),
            Err(error) => Some((PollEnd::Failed(error), k + 1)),
        }
    }
}

/// Whether a tick is within the deadline and finds the bridge waiting for
/// its link button.
pub open spec fn waits_for_button(timeout_seconds: u64, tick: AuthTick) -> bool {
    !past_deadline(timeout_seconds, tick.elapsed_ms) && tick.reply == Err::<String, HueStatusError>(
        HueStatusError::LinkButtonNotPressed,
    )
}

/// A bridge that waits for its link button for the first `k` ticks and then
/// issues a credential, all within the deadline, yields that credential
/// after `k + 1` requests.
pub proof fn lemma_credential_after_waiting(timeout_seconds: u64, ticks: Seq<AuthTick>, k: nat, username: String)
    requires
        k < ticks.len(),
        forall|i: int| 0 <= i < k ==> waits_for_button(timeout_seconds, #[trigger] ticks[i]),
        !past_deadline(timeout_seconds, ticks[k as int].elapsed_ms),
        ticks[k as int].reply == Ok::<String, HueStatusError>(username),
    ensures
        polled(timeout_seconds, ticks, 0) == Some((PollEnd::Credential(username), k + 1)),
{
    lemma_polled_skips_waiting(timeout_seconds, ticks, 0, k);
}

/// A bridge that waits for its link button until the deadline has passed
/// at tick `k` yields a timeout, after `k` requests, and no other error.
pub proof fn lemma_timeout_while_waiting(timeout_seconds: u64, ticks: Seq<AuthTick>, k: nat)
    requires
        k < ticks.len(),
        forall|i: int| 0 <= i < k ==> waits_for_button(timeout_seconds, #[trigger] ticks[i]),
        past_deadline(timeout_seconds, ticks[k as int].elapsed_ms),
    ensures
        polled(timeout_seconds, ticks, 0) == Some((PollEnd::TimedOut, k)),
{
    lemma_polled_skips_waiting(timeout_seconds, ticks, 0, k);
}

/// Ticks at which the bridge waits for its link button do not end the run.
pub proof fn lemma_polled_skips_waiting(timeout_seconds: u64, ticks: Seq<AuthTick>, from: nat, k: nat)
    requires
        from <= k <= ticks.len(),
        forall|i: int| from <= i < k ==> waits_for_button(timeout_seconds, #[trigger] ticks[i]),
    ensures
        polled(timeout_seconds, ticks, from) == polled(timeout_seconds, ticks, k),
    decreases k - from,
{
    if from < k {
        assert(waits_for_button(timeout_seconds, ticks[from as int]));
        lemma_polled_skips_waiting(timeout_seconds, ticks, from + 1, k);
    }
}

/// No request is made past the deadline: every tick at which a run made a
/// request was within the deadline.
pub proof fn lemma_requests_within_deadline(timeout_seconds: u64, ticks: Seq<AuthTick>, from: nat)
    ensures
        match polled(timeout_seconds, ticks, from) {
            Some((_, requests)) => from <= requests <= ticks.len() && forall|i: int|
                from <= i < requests ==> !past_deadline(timeout_seconds, (#[trigger] ticks[i]).elapsed_ms),
            None => true,
        },
    decreases ticks.len() - from,
{
    if from < ticks.len() && !past_deadline(timeout_seconds, ticks[from as int].elapsed_ms) {
        lemma_requests_within_deadline(timeout_seconds, ticks, from + 1);
    }
}

/// What the answer to a request for a credential holds, given the elements
/// of the answer: the credential of the first element, or the error that
/// the first element reports.
pub open spec fn credential_in(items: Seq<JsonValue>) -> core::result::Result<Seq<char>, ErrorView> {
    if items.len() == 0 {
        Err(ErrorView::ApiError { message: "Empty response from bridge"@ })
    } else {
        match granted(items[0]) {
            Some(username) => Ok(username),
            None => if items[0].member("error"@) is Some {
                match reported_error(items[0]) {
                    Some((code, _, description)) => Err(bridge_error(code, description)),
                    None => Err(ErrorView::JsonError { source: "malformed error in bridge response"@ }),
                }
            } else {
                Err(ErrorView::ApiError { message: "Unexpected response format"@ })
            },
        }
    }
}

/// The credential that an element of the bridge's answer grants: the
/// string `username` of its member `success`.
pub open spec fn granted(item: JsonValue) -> Option<Seq<char>> {
    match item.member("success"@) {
        Some(success) => success.text_member("username"@),
        None => None,
    }
}

/// What a request for a credential yields, given what the transport brought
/// back.
pub open spec fn attempt_outcome(exchange: Exchange) -> core::result::Result<Seq<char>, ErrorView> {
    match exchange {
        Exchange::TimedOut => Err(ErrorView::TimeoutError { operation: "Authentication request"@ }),
        Exchange::Failed { description } => Err(ErrorView::NetworkError { source: description@ }),
        Exchange::Answered { body, .. } => match json_array_document(body@) {
            Err(failure) => Err(ErrorView::JsonError { source: failure.message@ }),
            Ok(items) => credential_in(items@),
        },
    }
}

/// What a test of a credential yields, given what the transport brought
/// back: it passes where the answer has a success status and is a JSON
/// document with a member `bridgeid` that is no error envelope.
pub open spec fn credential_test(exchange: Exchange) -> Option<ErrorView> {
    match exchange {
        Exchange::TimedOut => Some(ErrorView::TimeoutError { operation: "Authentication test"@ }),
        Exchange::Failed { description } => Some(ErrorView::NetworkError { source: description@ }),
        Exchange::Answered { status, status_text, body } => if !(200 <= status <= 299) {
            Some(ErrorView::AuthenticationFailed)
        } else {
            match json_document(body@) {
                Err(failure) => Some(ErrorView::NetworkError { source: failure.message@ }),
                Ok(document) => match document_error(document) {
                    Some(error) => Some(error),
                    None => if document.member("bridgeid"@) is Some {
                        None
                    } else {
                        Some(ErrorView::AuthenticationFailed)
                    },
                },
            }
        },
    }
}

/// The status that the outcome of a test of the credential `username`
/// stands for.
pub open spec fn status_of_test(username: Seq<char>, tested: Result<()>) -> AuthStatusView {
    match tested {
        Ok(()) => AuthStatusView::Success(username),
        Err(HueStatusError::AuthenticationFailed) => AuthStatusView::Error("Invalid credentials"@),
        Err(HueStatusError::LinkButtonNotPressed) => AuthStatusView::WaitingForButton,
        Err(error) => AuthStatusView::Error(error@.description()),
    }
}

/// Reads the credential from the elements of the bridge's answer.
pub fn credential_from_items(items: &Vec<JsonValue>) -> (result: Result<String>)
    ensures
        match result {
            Ok(username) => credential_in(items@) == Ok::<Seq<char>, ErrorView>(username@),
            Err(error) => credential_in(items@) == Err::<Seq<char>, ErrorView>(error@),
        },
{
    if items.len() == 0 {
        return Err(HueStatusError::ApiError { message: String::from_str("Empty response from bridge") });
    }
    let first = &items[0];
    if let Some(success) = first.get("success") {
        if let Some(username) = success.string_member("username") {
            return Ok(username);
        }
    }
    if first.get("error").is_some() {
        return match decode_reported_error(first) {
            Some(error) => Err(HueStatusError::from_bridge_error(error)),
            None => Err(
                HueStatusError::JsonError { source: String::from_str("malformed error in bridge response") },
            ),
        };
    }
    Err(HueStatusError::ApiError { message: String::from_str("Unexpected response format") })
}

/// The transition that the outcome of a request for a credential stands
/// for: success with the credential, failure with the description of a
/// terminal error, and none while the bridge waits for its link button.
pub open spec fn poll_transition(attempt: Result<String>) -> Option<AuthStatusView> {
    match attempt {
        Ok(username) => Some(AuthStatusView::Success(username@)),
        Err(HueStatusError::LinkButtonNotPressed) => None,
        Err(error) => Some(AuthStatusView::Error(error@.description())),
    }
}

/// Whether `status` stands for the transition `transition`.
pub open spec fn is_transition(status: Option<AuthStatus>, transition: Option<AuthStatusView>) -> bool {
    match status {
        Some(reported) => transition == Some(reported@),
        None => transition is None,
    }
}

/// The values of a sequence of statuses.
pub open spec fn status_views(statuses: Seq<AuthStatus>) -> Seq<AuthStatusView> {
    statuses.map_values(|status: AuthStatus| status@)
}

/// Whether `run` is the finished run that ends with `end` after `requests`
/// requests, for the device type `device_type`. Two transitions are
/// reported: that the poller waits for the button, and how it ended.
pub open spec fn is_run(run: Option<AuthRun>, end: PollEnd, requests: nat, device_type: Seq<char>) -> bool {
    &&& run is Some
    &&& run->0.requests == requests
    &&& match end {
        PollEnd::Credential(username) => issued_to(run->0.result, username, device_type) && status_views(
            run->0.statuses@,
        ) == seq![AuthStatusView::WaitingForButton, AuthStatusView::Success(username@)],
        PollEnd::TimedOut => fails_with(run->0.result, ErrorView::TimeoutError { operation: "Authentication"@ })
            && status_views(run->0.statuses@) == seq![
            AuthStatusView::WaitingForButton,
            AuthStatusView::Timeout,
        ],
        PollEnd::Failed(error) => run->0.result == Err::<AuthResult, HueStatusError>(error) && status_views(
            run->0.statuses@,
        ) == seq![AuthStatusView::WaitingForButton, AuthStatusView::Error(error@.description())],
    }
}

/// Whether `result` is the credential `username`, issued to `device_type`.
pub open spec fn issued_to(result: Result<AuthResult>, username: String, device_type: Seq<char>) -> bool {
    result matches Ok(issued) && issued.username == username && issued.device_type@ == device_type
}

impl BridgeAuth {
    /// The authentication manager for the bridge at `bridge_ip`, with a
    /// deadline of 30 seconds.
    pub fn new(bridge_ip: String) -> (auth: Result<Self>)
        ensures
            auth == Ok::<Self, HueStatusError>(BridgeAuth { bridge_ip, timeout_seconds: 30, verbose: false }),
    {
        Ok(BridgeAuth { bridge_ip, timeout_seconds: 30, verbose: false })
    }

    /// The manager with the deadline `timeout_seconds`.
    pub fn with_timeout(self, timeout_seconds: u64) -> (auth: Self)
        ensures
            auth == (BridgeAuth { timeout_seconds, ..self }),
    {
        BridgeAuth { bridge_ip: self.bridge_ip, timeout_seconds, verbose: self.verbose }
    }

    /// The manager with verbose mode set.
    pub fn with_verbose(self, verbose: bool) -> (auth: Self)
        ensures
            auth == (BridgeAuth { verbose, ..self }),
    {
        BridgeAuth { bridge_ip: self.bridge_ip, timeout_seconds: self.timeout_seconds, verbose }
    }

    /// The device type of the instance `instance_name` of the application
    /// `app_name`.
    pub fn device_type(app_name: &str, instance_name: &str) -> (device_type: String)
        ensures
            device_type@ == app_name@ + "#"@ + instance_name@,
    {
        concat3(app_name, "#", instance_name)
    }

    /// The request for a credential: a POST to the root of the bridge's
    /// API that carries the device type.
    pub fn credential_request(&self, device_type: &str) -> (request: Request)
        ensures
            request.method == HttpMethod::Post,
            request.url@ == "http://"@ + self.bridge_ip@ + "/api"@,
            request.body matches RequestBody::Auth(body) && body.devicetype@ == device_type@,
    {
        Request {
            method: HttpMethod::Post,
            url: concat3("http://", self.bridge_ip.as_str(), "/api"),
            body: RequestBody::Auth(AuthRequest { devicetype: String::from_str(device_type) }),
        }
    }

    /// Interprets what came back from one request for a credential.
    pub fn try_authenticate(&self, exchange: Exchange) -> (result: Result<String>)
        ensures
            match result {
                Ok(username) => attempt_outcome(exchange) == Ok::<Seq<char>, ErrorView>(username@),
                Err(error) => attempt_outcome(exchange) == Err::<Seq<char>, ErrorView>(error@),
            },
    {
        match exchange {
            Exchange::TimedOut => Err(
                HueStatusError::TimeoutError { operation: String::from_str("Authentication request") },
            ),
            Exchange::Failed { description } => Err(HueStatusError::NetworkError { source: description }),
            Exchange::Answered { status, status_text, body } => match JsonValue::parse_array(body.as_str()) {
                Err(failure) => Err(HueStatusError::JsonError { source: failure.message }),
                Ok(items) => credential_from_items(&items),
            },
        }
    }

    /// The first step of the poller: the deadline is checked before every
    /// request, the first one too.
    pub fn authenticate_begin(&self) -> (step: AuthStep)
        ensures
            step == AuthStep::ReadClock,
    {
        AuthStep::ReadClock
    }

    /// Checks the deadline when `elapsed_ms` milliseconds have passed since
    /// polling began: past the deadline authentication ends with a timeout;
    /// within it the next request is due.
    pub fn check_deadline(&self, device_type: &str, elapsed_ms: u64) -> (step: AuthStep)
        ensures
            match step {
                AuthStep::Done(result) => past_deadline(self.timeout_seconds, elapsed_ms) && fails_with(
                    result,
                    ErrorView::TimeoutError { operation: "Authentication"@ },
                ),
                AuthStep::Poll(request) => !past_deadline(self.timeout_seconds, elapsed_ms) && request.method
                    == HttpMethod::Post && request.url@ == "http://"@ + self.bridge_ip@ + "/api"@ && (
                request.body matches RequestBody::Auth(body) && body.devicetype@ == device_type@),
                AuthStep::ReadClock => false,
            },
    {
        let whole_seconds = elapsed_ms / 1000;
        let past = whole_seconds > self.timeout_seconds || (whole_seconds == self.timeout_seconds && elapsed_ms
            % 1000 > 0);
        assert(past == past_deadline(self.timeout_seconds, elapsed_ms)) by (nonlinear_arith)
            requires
                whole_seconds == elapsed_ms / 1000,
                past == (whole_seconds > self.timeout_seconds || (whole_seconds == self.timeout_seconds
                    && elapsed_ms % 1000 > 0)),
        ;
        if past {
            AuthStep::Done(Err(HueStatusError::TimeoutError { operation: String::from_str("Authentication") }))
        } else {
            AuthStep::Poll(self.credential_request(device_type))
        }
    }

    /// Decides what follows a request for a credential: a credential ends
    /// authentication with success; a bridge that waits for its link button
    /// lets polling go on; any other error ends authentication with that
    /// error.
    pub fn after_poll(&self, device_type: &str, attempt: Result<String>) -> (step: AuthStep)
        ensures
            match attempt {
                Ok(username) => step matches AuthStep::Done(Ok(issued)) && issued.username == username
                    && issued.device_type@ == device_type@ && 0 <= issued.created_at,
                Err(HueStatusError::LinkButtonNotPressed) => step == AuthStep::ReadClock,
                Err(error) => step == AuthStep::Done(Err(error)),
            },
    {
        match attempt {
            Ok(username) => AuthStep::Done(
                Ok(
                    AuthResult {
                        username,
                        device_type: String::from_str(device_type),
                        created_at: current_time_millis(),
                    },
                ),
            ),
            Err(HueStatusError::LinkButtonNotPressed) => AuthStep::ReadClock,
            Err(error) => AuthStep::Done(Err(error)),
        }
    }

    /// A single request for a credential, without polling.
    pub fn quick_authenticate(&self, app_name: &str, instance_name: &str, exchange: Exchange) -> (result: Result<
        AuthResult,
    >)
        ensures
            match result {
                Ok(issued) => attempt_outcome(exchange) == Ok::<Seq<char>, ErrorView>(issued.username@)
                    && issued.device_type@ == app_name@ + "#"@ + instance_name@ && 0 <= issued.created_at,
                Err(error) => attempt_outcome(exchange) == Err::<Seq<char>, ErrorView>(error@),
            },
    {
        let device_type = Self::device_type(app_name, instance_name);
        match self.try_authenticate(exchange) {
            Ok(username) => Ok(AuthResult { username, device_type, created_at: current_time_millis() }),
            Err(error) => Err(error),
        }
    }

    /// The request that tests the credential `username`.
    pub fn test_authentication_request(&self, username: &str) -> (request: Request)
        ensures
            request.method == HttpMethod::Get,
            request.url@ == "http://"@ + self.bridge_ip@ + "/api/"@ + username@ + "/config"@,
            request.body == RequestBody::Empty,
    {
        let mut url = concat3("http://", self.bridge_ip.as_str(), "/api/");
        url.append(username);
        url.append("/config");
        Request { method: HttpMethod::Get, url, body: RequestBody::Empty }
    }

    /// Interprets what came back from the test of a credential.
    pub fn test_authentication(&self, exchange: Exchange) -> (result: Result<()>)
        ensures
            match result {
                Ok(()) => credential_test(exchange) is None,
                Err(error) => credential_test(exchange) == Some(error@),
            },
    {
        match exchange {
            Exchange::TimedOut => Err(
                HueStatusError::TimeoutError { operation: String::from_str("Authentication test") },
            ),
            Exchange::Failed { description } => Err(HueStatusError::NetworkError { source: description }),
            Exchange::Answered { status, status_text, body } => {
                if !(200 <= status && status <= 299) {
                    return Err(HueStatusError::AuthenticationFailed);
                }
                match JsonValue::parse(body.as_str()) {
                    Err(failure) => Err(HueStatusError::NetworkError { source: failure.message }),
                    Ok(document) => {
                        match check_document(&document) {
                            Err(error) => { return Err(error); },
                            Ok(()) => {},
                        }
                        if document.get("bridgeid").is_some() {
                            Ok(())
                        } else {
                            Err(HueStatusError::AuthenticationFailed)
                        }
                    },
                }
            },
        }
    }

    /// The status that the outcome of a test of the credential `username`
    /// stands for.
    pub fn get_auth_status(&self, username: &str, tested: Result<()>) -> (status: AuthStatus)
        ensures
            status@ == status_of_test(username@, tested),
    {
        match tested {
            Ok(()) => AuthStatus::Success(String::from_str(username)),
            Err(HueStatusError::AuthenticationFailed) => AuthStatus::Error(String::from_str("Invalid credentials")),
            Err(HueStatusError::LinkButtonNotPressed) => AuthStatus::WaitingForButton,
            Err(error) => AuthStatus::Error(error.to_string()),
        }
    }

    /// A client for the same bridge that uses the credential `username`.
    pub fn create_authenticated_client(&self, username: String) -> (client: Result<BridgeClient>)
        ensures
            client matches Ok(c) && c.bridge_ip == self.bridge_ip && c.username == Some(username) && c.verbose
                == self.verbose && c.timeout_seconds == 10 && c.retry_attempts == 3 && c.retry_delay_seconds
                == 1,
    {
        match BridgeClient::new(self.bridge_ip.clone()) {
            Ok(client) => Ok(client.with_username(username).with_verbose(self.verbose)),
            Err(error) => Err(error),
        }
    }

    /// The request that checks whether the bridge answers at all.
    pub fn accessibility_request(&self) -> (request: Request)
        ensures
            request.method == HttpMethod::Get,
            request.url@ == "http://"@ + self.bridge_ip@ + "/api/0/config"@,
            request.body == RequestBody::Empty,
    {
        Request {
            method: HttpMethod::Get,
            url: concat3("http://", self.bridge_ip.as_str(), "/api/0/config"),
            body: RequestBody::Empty,
        }
    }

    /// What the accessibility check makes of its exchange: any answer
    /// passes.
    pub fn check_bridge_accessibility(&self, exchange: &Exchange) -> (result: Result<()>)
        ensures
            match exchange {
                Exchange::TimedOut => fails_with(
                    result,
                    ErrorView::TimeoutError { operation: "Bridge accessibility check"@ },
                ),
                Exchange::Failed { description } => fails_with(
                    result,
                    ErrorView::BridgeConnectionFailed { reason: description@ },
                ),
                Exchange::Answered { .. } => result is Ok,
            },
    {
        match exchange {
            Exchange::TimedOut => Err(
                HueStatusError::TimeoutError { operation: String::from_str("Bridge accessibility check") },
            ),
            Exchange::Failed { description } => Err(
                HueStatusError::BridgeConnectionFailed { reason: description.clone() },
            ),
            Exchange::Answered { .. } => Ok(()),
        }
    }

    /// The transition to report after a request for a credential, if there
    /// is one. Repeated waiting for the link button is no transition.
    pub fn transition_after_poll(&self, attempt: &Result<String>) -> (status: Option<AuthStatus>)
        ensures
            is_transition(status, poll_transition(*attempt)),
    {
        match attempt {
            Ok(username) => Some(AuthStatus::Success(username.clone())),
            Err(HueStatusError::LinkButtonNotPressed) => None,
            Err(error) => Some(AuthStatus::Error(error.to_string())),
        }
    }

    /// The transition to report after a check of the deadline, if there is
    /// one: the timeout, where the check ended the authentication.
    pub fn transition_at_deadline(&self, step: &AuthStep) -> (status: Option<AuthStatus>)
        ensures
            status == (if step is Done {
                Some(AuthStatus::Timeout)
            } else {
                None::<AuthStatus>
            }),
    {
        match step {
            AuthStep::Done(_) => Some(AuthStatus::Timeout),
            _ => None,
        }
    }

    /// Runs the poller against a scripted bridge: at tick number `i`
    /// (counted from 0) the clock shows `ticks[i].elapsed_ms`, and a request
    /// made at that tick yields `ticks[i].reply`. Returns the finished run,
    /// or nothing where the script ends while polling goes on.
    pub fn authenticate(&self, app_name: &str, instance_name: &str, ticks: Vec<AuthTick>) -> (run: Option<AuthRun>)
        ensures
            match polled(self.timeout_seconds, ticks@, 0) {
                Some((end, requests)) => is_run(run, end, requests, app_name@ + "#"@ + instance_name@),
                None => run is None,
            },
    {
        let device_type = Self::device_type(app_name, instance_name);
        let ghost script = ticks@;
        let mut remaining = ticks;
        let total = remaining.len();
        let mut statuses: Vec<AuthStatus> = Vec::new();
        statuses.push(AuthStatus::WaitingForButton);
        let mut requests: usize = 0;
        let mut step = self.authenticate_begin();
        assert(status_views(statuses@) =~= seq![AuthStatusView::WaitingForButton]);
        while remaining.len() > 0
            invariant
                step == AuthStep::ReadClock,
                script == ticks@,
                device_type@ == app_name@ + "#"@ + instance_name@,
                requests <= script.len() <= usize::MAX,
                remaining@ == script.skip(requests as int),
                status_views(statuses@) == seq![AuthStatusView::WaitingForButton],
                polled(self.timeout_seconds, script, requests as nat) == polled(self.timeout_seconds, script, 0),
            decreases remaining@.len(),
        {
            let tick = remaining.remove(0);
            assert(tick == script[requests as int]);
            let ghost reported = statuses@;
            assert(reported.len() == 1 && reported[0]@ == AuthStatusView::WaitingForButton) by {
                assert(status_views(reported).len() == 1);
                assert(status_views(reported)[0] == reported[0]@);
            }
            match self.check_deadline(device_type.as_str(), tick.elapsed_ms) {
                AuthStep::Done(result) => {
                    statuses.push(AuthStatus::Timeout);
                    assert(statuses@[0] == reported[0]);
                    assert(status_views(statuses@) =~= seq![
                        AuthStatusView::WaitingForButton,
                        AuthStatusView::Timeout,
                    ]);
                    return Some(AuthRun { result, requests, statuses });
                },
                _ => {},
            }
            requests = requests + 1;
            let ended = self.transition_after_poll(&tick.reply);
            step = self.after_poll(device_type.as_str(), tick.reply);
            match step {
                AuthStep::Done(result) => {
                    match ended {
                        Some(status) => {
                            statuses.push(status);
                            assert(statuses@[0] == reported[0]);
                            assert(status_views(statuses@) =~= seq![AuthStatusView::WaitingForButton, status@]);
                        },
                        None => {},
                    }
                    return Some(AuthRun { result, requests, statuses });
                },
                _ => {},
            }
            assert(remaining@ =~= script.skip(requests as int));
        }
        None
    }

    /// Runs the poller against a scripted bridge, as [`Self::authenticate`]
    /// does, and hands each transition to `callback`: that the poller waits
    /// for the button, once, and how it ended. The callback observes; it
    /// has no effect on the run.
    pub fn authenticate_with_callback<F: Fn(AuthStatus)>(
        &self,
        app_name: &str,
        instance_name: &str,
        ticks: Vec<AuthTick>,
        callback: F,
    ) -> (run: Option<AuthRun>)
        requires
            forall|status: AuthStatus| callback.requires((status,)),
        ensures
            match polled(self.timeout_seconds, ticks@, 0) {
                Some((end, requests)) => is_run(run, end, requests, app_name@ + "#"@ + instance_name@),
                None => run is None,
            },
    {
        callback(AuthStatus::WaitingForButton);
        let run = self.authenticate(app_name, instance_name, ticks);
        match &run {
            Some(finished) => {
                if finished.statuses.len() == 2 {
                    callback(finished.statuses[1].clone());
                }
            },
            None => {},
        }
        run
    }
}

} // verus!
