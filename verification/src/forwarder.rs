//! The command forwarder: which HTTP request stands for a command, and
//! what the outcome of that request means to the caller.
//!
//! A command is turned into a [`RequestPlan`] by [`CommandRequest::plan`].
//! The caller performs the exchange and hands back what happened as an
//! [`Exchange`]; [`CommandRequest::conclude`] classifies it and
//! [`CommandRequest::report`] renders it for the command boundary, where
//! every failure is a text.

use crate::json::{empty_object, insert_text, json_members, JsonMembers};
use crate::text::{decimal, decimal_string, optional_text};
use vstd::prelude::*;

verus! {

/// The port the supervised backend listens on. The supervisor hands it to
/// the child process and the forwarder addresses it.
pub const BACKEND_PORT: u16 = 3000;

/// Seconds after which a full fetch is abandoned.
pub const FULL_FETCH_TIMEOUT_SECS: u64 = 120;

/// Where the backend is reached.
#[derive(Clone, Debug, PartialEq, Eq)]
pub enum BackendEndpoint {
    /// The supervised child process, on the loopback address.
    Local { port: u16 },
    /// A backend that somebody else runs, chosen when the shell is built.
    External { base_url: String },
}

/// The HTTP method of a request.
#[derive(Clone, Copy, Debug, PartialEq, Eq, Structural)]
pub enum HttpMethod {
    Get,
    Post,
}

/// A command of the user interface.
#[derive(Clone, Debug, PartialEq, Eq)]
pub enum CommandRequest {
    /// Fetch the homework the backend has cached for a student.
    FetchCache { student_id: String },
    /// Have the backend fetch a student's homework afresh.
    FetchFull { student_id: String, password: String, finish_status: String },
    /// Ask the backend whether it is alive.
    HealthCheck,
}

/// A command, with its texts as sequences of characters.
pub enum CommandView {
    FetchCache { student_id: Seq<char> },
    FetchFull { student_id: Seq<char>, password: Seq<char>, finish_status: Seq<char> },
    HealthCheck,
}

/// The request that stands for a command.
#[derive(Clone, Debug, PartialEq)]
pub struct RequestPlan {
    pub method: HttpMethod,
    pub url: String,
    /// The JSON object to send as the body, if the request has one.
    pub body: Option<serde_json::Map<String, serde_json::Value>>,
    /// Seconds after which the request is abandoned; `None` leaves the
    /// client's default in place.
    pub timeout_secs: Option<u64>,
}

/// A request plan, with its texts as sequences and its body as a map.
pub struct RequestPlanView {
    pub method: HttpMethod,
    pub url: Seq<char>,
    pub body: Option<JsonMembers>,
    pub timeout_secs: Option<u64>,
}

/// What became of a request.
#[derive(Clone, Debug, PartialEq, Eq)]
pub enum Exchange {
    /// No response arrived: the connection was refused, the name did not
    /// resolve, or the time allowed ran out.
    Failed { cause: String },
    /// A response arrived, but its body could not be read to the end.
    Unreadable { status: u16, cause: String },
    /// A response arrived and its body was read.
    Completed { status: u16, body: String },
}

/// An exchange, with its texts as sequences of characters.
pub enum ExchangeView {
    Failed { cause: Seq<char> },
    Unreadable { status: u16, cause: Seq<char> },
    Completed { status: u16, body: Seq<char> },
}

/// Why a command failed.
#[derive(Clone, Debug, PartialEq, Eq)]
pub enum CommandError {
    /// The backend could not be reached.
    RequestFailed { cause: String },
    /// The backend answered, but its response could not be read.
    ResponseUnreadable { cause: String },
    /// The backend answered a health check with a status outside 200..=299.
    HealthCheckFailed { status: u16 },
}

/// A command error, with its texts as sequences of characters.
pub enum CommandErrorView {
    RequestFailed { cause: Seq<char> },
    ResponseUnreadable { cause: Seq<char> },
    HealthCheckFailed { status: u16 },
}

/// The finish status of a full fetch: the one supplied, or `"all"`.
pub open spec fn finish_status_or_default(supplied: Option<Seq<char>>) -> Seq<char> {
    match supplied {
        Some(status) => status,
        None => "all"@,
    }
}

/// Whether an HTTP status reports success.
pub open spec fn is_success(status: u16) -> bool {
    200 <= status <= 299
}

/// What a body holds, if there is one.
pub open spec fn optional_members(
    body: Option<serde_json::Map<String, serde_json::Value>>,
) -> Option<JsonMembers> {
    match body {
        Some(object) => Some(json_members(object)),
        None => None,
    }
}

/// A classified outcome, with its texts as sequences of characters.
pub open spec fn outcome_view(outcome: Result<String, CommandError>) -> Result<
    Seq<char>,
    CommandErrorView,
> {
    match outcome {
        Ok(body) => Ok(body@),
        Err(error) => Err(error@),
    }
}

/// A reported outcome, with its texts as sequences of characters.
pub open spec fn report_view(outcome: Result<String, String>) -> Result<Seq<char>, Seq<char>> {
    match outcome {
        Ok(body) => Ok(body@),
        Err(message) => Err(message@),
    }
}

impl View for CommandRequest {
    type V = CommandView;

    open spec fn view(&self) -> CommandView {
        match self {
            CommandRequest::FetchCache { student_id } => CommandView::FetchCache {
                student_id: student_id@,
            },
            CommandRequest::FetchFull {
                student_id,
                password,
                finish_status,
            } => CommandView::FetchFull {
                student_id: student_id@,
                password: password@,
                finish_status: finish_status@,
            },
            CommandRequest::HealthCheck => CommandView::HealthCheck,
        }
    }
}

impl View for RequestPlan {
    type V = RequestPlanView;

    open spec fn view(&self) -> RequestPlanView {
        RequestPlanView {
            method: self.method,
            url: self.url@,
            body: optional_members(self.body),
            timeout_secs: self.timeout_secs,
        }
    }
}

impl View for Exchange {
    type V = ExchangeView;

    open spec fn view(&self) -> ExchangeView {
        match self {
            Exchange::Failed { cause } => ExchangeView::Failed { cause: cause@ },
            Exchange::Unreadable { status, cause } => ExchangeView::Unreadable {
                status: *status,
                cause: cause@,
            },
            Exchange::Completed { status, body } => ExchangeView::Completed {
                status: *status,
                body: body@,
            },
        }
    }
}

impl View for CommandError {
    type V = CommandErrorView;

    open spec fn view(&self) -> CommandErrorView {
        match self {
            CommandError::RequestFailed { cause } => CommandErrorView::RequestFailed {
                cause: cause@,
            },
            CommandError::ResponseUnreadable { cause } => CommandErrorView::ResponseUnreadable {
                cause: cause@,
            },
            CommandError::HealthCheckFailed { status } => CommandErrorView::HealthCheckFailed {
                status: *status,
            },
        }
    }
}

impl CommandErrorView {
    /// The text shown to the caller: a fixed phrase for the kind of
    /// failure, then the underlying cause or the status in decimal.
    pub open spec fn message(self) -> Seq<char> {
        match self {
            CommandErrorView::RequestFailed { cause } => "Request failed: "@ + cause,
            CommandErrorView::ResponseUnreadable { cause } => "Failed to read response: "@ + cause,
            CommandErrorView::HealthCheckFailed { status } => "Health check failed with status "@
                + decimal(status as nat),
        }
    }
}

impl CommandView {
    /// A full fetch as the user interface asks for it, the finish status
    /// being optional there.
    pub open spec fn full_fetch(
        student_id: Seq<char>,
        password: Seq<char>,
        finish_status: Option<Seq<char>>,
    ) -> CommandView {
        CommandView::FetchFull {
            student_id,
            password,
            finish_status: finish_status_or_default(finish_status),
        }
    }

    /// The path of the backend route that serves the command.
    pub open spec fn route(self) -> Seq<char> {
        match self {
            CommandView::FetchCache { .. } => "/api/homework-cache"@,
            CommandView::FetchFull { .. } => "/api/homework-query"@,
            CommandView::HealthCheck => "/health"@,
        }
    }

    /// The health check asks with `GET`; the fetches send a body with
    /// `POST`.
    pub open spec fn method(self) -> HttpMethod {
        match self {
            CommandView::HealthCheck => HttpMethod::Get,
            _ => HttpMethod::Post,
        }
    }

    /// Only the full fetch overrides the client's default timeout.
    pub open spec fn timeout_secs(self) -> Option<u64> {
        match self {
            CommandView::FetchFull { .. } => Some(FULL_FETCH_TIMEOUT_SECS),
            _ => None,
        }
    }

    /// The members of the JSON body; `None` where the request has no body.
    pub open spec fn body(self) -> Option<JsonMembers> {
        match self {
            CommandView::FetchCache { student_id } => Some(
                JsonMembers::empty().insert("student_id"@, Some(student_id)),
            ),
            CommandView::FetchFull { student_id, password, finish_status } => Some(
                JsonMembers::empty().insert("student_id"@, Some(student_id)).insert(
                    "password"@,
                    Some(password),
                ).insert("finish_status"@, Some(finish_status)),
            ),
            CommandView::HealthCheck => None,
        }
    }

    /// The request for the command, against a backend at `base`.
    pub open spec fn plan(self, base: Seq<char>) -> RequestPlanView {
        RequestPlanView {
            method: self.method(),
            url: base + self.route(),
            body: self.body(),
            timeout_secs: self.timeout_secs(),
        }
    }

    /// Whether a response with this status is turned into an error before
    /// its body is looked at. Only the health check minds the status.
    pub open spec fn rejects(self, status: u16) -> bool {
        self is HealthCheck && !is_success(status)
    }

    /// What an exchange means for the command.
    pub open spec fn conclude(self, exchange: ExchangeView) -> Result<
        Seq<char>,
        CommandErrorView,
    > {
        match exchange {
            ExchangeView::Failed { cause } => Err(CommandErrorView::RequestFailed { cause }),
            ExchangeView::Unreadable { status, cause } => if self.rejects(status) {
                Err(CommandErrorView::HealthCheckFailed { status })
            } else {
                Err(CommandErrorView::ResponseUnreadable { cause })
            },
            ExchangeView::Completed { status, body } => if self.rejects(status) {
                Err(CommandErrorView::HealthCheckFailed { status })
            } else {
                Ok(body)
            },
        }
    }

    /// What the caller of the command gets: the body as it came, or the
    /// message of the error.
    pub open spec fn report(self, exchange: ExchangeView) -> Result<Seq<char>, Seq<char>> {
        match self.conclude(exchange) {
            Ok(body) => Ok(body),
            Err(error) => Err(error.message()),
        }
    }
}

impl BackendEndpoint {
    /// The base address: everything of a request's URL before the route.
    /// For the local backend that is the loopback address with the port
    /// in decimal; an external address is taken as it was given.
    pub open spec fn base(self) -> Seq<char> {
        match self {
            BackendEndpoint::Local { port } => "http://127.0.0.1:"@ + decimal(port as nat),
            BackendEndpoint::External { base_url } => base_url@,
        }
    }

    /// The supervised backend on this machine.
    pub fn local() -> (endpoint: BackendEndpoint)
        ensures
            endpoint == (BackendEndpoint::Local { port: BACKEND_PORT }),
    {
        BackendEndpoint::Local { port: BACKEND_PORT }
    }

    /// A backend at an address fixed when the shell was built.
    pub fn external(base_url: String) -> (endpoint: BackendEndpoint)
        ensures
            endpoint == (BackendEndpoint::External { base_url }),
    {
        BackendEndpoint::External { base_url }
    }

    /// The base address, to which a route is appended.
    pub fn base_url(&self) -> (url: String)
        ensures
            url@ == self.base(),
    {
        match self {
            BackendEndpoint::Local { port } => {
                let digits = decimal_string(*port as u64);
                String::from_str("http://127.0.0.1:").concat(digits.as_str())
            },
            BackendEndpoint::External { base_url } => base_url.clone(),
        }
    }
}

/// Whether an HTTP status reports success.
pub fn status_is_success(status: u16) -> (success: bool)
    ensures
        success == is_success(status),
{
    200 <= status && status <= 299
}

impl CommandRequest {
    /// The command that fetches what the backend has cached.
    pub fn fetch_cache(student_id: String) -> (request: CommandRequest)
        ensures
            request@ == (CommandView::FetchCache { student_id: student_id@ }),
    {
        CommandRequest::FetchCache { student_id }
    }

    /// The command that has the backend fetch afresh. A finish status that
    /// is not supplied stands for `"all"`.
    pub fn fetch_full(student_id: String, password: String, finish_status: Option<String>) -> (request:
        CommandRequest)
        ensures
            request@ == CommandView::full_fetch(
                student_id@,
                password@,
                optional_text(finish_status),
            ),
    {
        let finish_status = match finish_status {
            Some(status) => status,
            None => String::from_str("all"),
        };
        CommandRequest::FetchFull { student_id, password, finish_status }
    }

    /// The command that asks the backend whether it is alive.
    pub fn health_check() -> (request: CommandRequest)
        ensures
            request@ == CommandView::HealthCheck,
    {
        CommandRequest::HealthCheck
    }

    /// The path of the backend route that serves the command.
    pub fn route(&self) -> (route: &'static str)
        ensures
            route@ == self@.route(),
    {
        match self {
            CommandRequest::FetchCache { .. } => "/api/homework-cache",
            CommandRequest::FetchFull { .. } => "/api/homework-query",
            CommandRequest::HealthCheck => "/health",
        }
    }

    /// The HTTP method of the command's request.
    pub fn method(&self) -> (method: HttpMethod)
        ensures
            method == self@.method(),
    {
        match self {
            CommandRequest::HealthCheck => HttpMethod::Get,
            _ => HttpMethod::Post,
        }
    }

    /// Seconds after which the request is abandoned, where the command
    /// sets a limit of its own.
    pub fn timeout_secs(&self) -> (timeout: Option<u64>)
        ensures
            timeout == self@.timeout_secs(),
    {
        match self {
            CommandRequest::FetchFull { .. } => Some(FULL_FETCH_TIMEOUT_SECS),
            _ => None,
        }
    }

    /// The JSON object sent as the body. Each text goes into it as it was
    /// given: credentials are passed through, not interpreted.
    pub fn body(&self) -> (body: Option<serde_json::Map<String, serde_json::Value>>)
        ensures
            optional_members(body) == self@.body(),
    {
        match self {
            CommandRequest::FetchCache { student_id } => {
                let mut object = empty_object();
                insert_text(&mut object, "student_id", student_id.as_str());
                Some(object)
            },
            CommandRequest::FetchFull { student_id, password, finish_status } => {
                let mut object = empty_object();
                insert_text(&mut object, "student_id", student_id.as_str());
                insert_text(&mut object, "password", password.as_str());
                insert_text(&mut object, "finish_status", finish_status.as_str());
                Some(object)
            },
            CommandRequest::HealthCheck => None,
        }
    }

    /// The request that stands for the command, against `endpoint`.
    pub fn plan(&self, endpoint: &BackendEndpoint) -> (plan: RequestPlan)
        ensures
            plan@ == self@.plan(endpoint.base()),
    {
        let url = endpoint.base_url().concat(self.route());
        RequestPlan {
            method: self.method(),
            url,
            body: self.body(),
            timeout_secs: self.timeout_secs(),
        }
    }

    /// Classifies what became of the command's request. A body that was
    /// read is handed on as it came; nothing in it is looked at.
    pub fn conclude(&self, exchange: Exchange) -> (outcome: Result<String, CommandError>)
        ensures
            outcome_view(outcome) == self@.conclude(exchange@),
    {
        let minds_status = match self {
            CommandRequest::HealthCheck => true,
            _ => false,
        };
        match exchange {
            Exchange::Failed { cause } => Err(CommandError::RequestFailed { cause }),
            Exchange::Unreadable { status, cause } => {
                if minds_status && !status_is_success(status) {
                    Err(CommandError::HealthCheckFailed { status })
                } else {
                    Err(CommandError::ResponseUnreadable { cause })
                }
            },
            Exchange::Completed { status, body } => {
                if minds_status && !status_is_success(status) {
                    Err(CommandError::HealthCheckFailed { status })
                } else {
                    Ok(body)
                }
            },
        }
    }

    /// What the caller of the command gets: the body as it came, or the
    /// message of the error.
    pub fn report(&self, exchange: Exchange) -> (outcome: Result<String, String>)
        ensures
            report_view(outcome) == self@.report(exchange@),
    {
        match self.conclude(exchange) {
            Ok(body) => Ok(body),
            Err(error) => Err(error.message()),
        }
    }
}

impl CommandError {
    /// The text shown to the caller.
    pub fn message(&self) -> (message: String)
        ensures
            message@ == self@.message(),
    {
        match self {
            CommandError::RequestFailed { cause } => String::from_str("Request failed: ").concat(
                cause.as_str(),
            ),
            CommandError::ResponseUnreadable { cause } => String::from_str(
                "Failed to read response: ",
            ).concat(cause.as_str()),
            CommandError::HealthCheckFailed { status } => {
                let digits = decimal_string(*status as u64);
                String::from_str("Health check failed with status ").concat(digits.as_str())
            },
        }
    }
}

/// A full fetch whose finish status is omitted is the full fetch with the
/// finish status `"all"`: the same command, hence the same request and the
/// same answer to every exchange.
pub proof fn lemma_omitted_finish_status_means_all(
    student_id: Seq<char>,
    password: Seq<char>,
    base: Seq<char>,
    exchange: ExchangeView,
)
    ensures
        CommandView::full_fetch(student_id, password, None) == CommandView::full_fetch(
            student_id,
            password,
            Some("all"@),
        ),
        CommandView::full_fetch(student_id, password, None).plan(base) == CommandView::full_fetch(
            student_id,
            password,
            Some("all"@),
        ).plan(base),
        CommandView::full_fetch(student_id, password, None).report(exchange)
            == CommandView::full_fetch(student_id, password, Some("all"@)).report(exchange),
{
}

/// The body of a full fetch holds the student's id, the password and the
/// finish status, each as it was given, and nothing else; that of a cache
/// fetch holds the student's id and nothing else.
pub proof fn lemma_body_holds_what_was_given(command: CommandView)
    ensures
        command matches CommandView::FetchCache { student_id } ==> {
            &&& command.body() is Some
            &&& command.body()->0.dom() =~= set!["student_id"@]
            &&& command.body()->0["student_id"@] == Some(student_id)
        },
        command matches CommandView::FetchFull { student_id, password, finish_status } ==> {
            &&& command.body() is Some
            &&& command.body()->0.dom() =~= set!["student_id"@, "password"@, "finish_status"@]
            &&& command.body()->0["student_id"@] == Some(student_id)
            &&& command.body()->0["password"@] == Some(password)
            &&& command.body()->0["finish_status"@] == Some(finish_status)
        },
        command is HealthCheck ==> command.body() is None,
{
    reveal_strlit("student_id");
    reveal_strlit("password");
    reveal_strlit("finish_status");
    assert("student_id"@.len() != "password"@.len());
    assert("student_id"@.len() != "finish_status"@.len());
    assert("password"@.len() != "finish_status"@.len());
}

/// A response body that was read comes back as it is, unless the command
/// is the health check and the status reports no success. The fetches
/// hand the body on whatever the status.
pub proof fn lemma_body_comes_back_unmodified(command: CommandView, status: u16, body: Seq<char>)
    ensures
        !command.rejects(status) ==> command.report(ExchangeView::Completed { status, body })
            == Ok::<Seq<char>, Seq<char>>(body),
        command !is HealthCheck ==> !command.rejects(status),
        is_success(status) ==> !command.rejects(status),
{
}

/// A health check answered with a status outside 200..=299 fails, and
/// the failure's message ends in the status in decimal, whether or not
/// the body could be read.
pub proof fn lemma_health_check_reports_status(status: u16, body: Seq<char>, cause: Seq<char>)
    requires
        !is_success(status),
    ensures
        CommandView::HealthCheck.conclude(ExchangeView::Completed { status, body }) == Err::<
            Seq<char>,
            CommandErrorView,
        >(CommandErrorView::HealthCheckFailed { status }),
        CommandView::HealthCheck.conclude(ExchangeView::Unreadable { status, cause }) == Err::<
            Seq<char>,
            CommandErrorView,
        >(CommandErrorView::HealthCheckFailed { status }),
        CommandView::HealthCheck.report(ExchangeView::Completed { status, body }) == Err::<
            Seq<char>,
            Seq<char>,
        >("Health check failed with status "@ + decimal(status as nat)),
{
}

/// A request that got no response fails as a failed request, whatever
/// the command, and the message ends in the cause as it was reported.
pub proof fn lemma_no_response_is_request_failed(command: CommandView, cause: Seq<char>)
    ensures
        command.conclude(ExchangeView::Failed { cause }) == Err::<Seq<char>, CommandErrorView>(
            CommandErrorView::RequestFailed { cause },
        ),
        command.report(ExchangeView::Failed { cause }) == Err::<Seq<char>, Seq<char>>(
            "Request failed: "@ + cause,
        ),
{
}

/// The full fetch is abandoned after 120 seconds, and no other command
/// sets a limit of its own.
pub proof fn lemma_only_full_fetch_sets_timeout(command: CommandView)
    ensures
        command is FetchFull ==> command.timeout_secs() == Some(120u64),
        command !is FetchFull ==> command.timeout_secs() is None,
{
}

} // verus!
