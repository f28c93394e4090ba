//! Task dispatch: the shape of an HTTP task and of the request that puts it
//! on a queue.
use vstd::prelude::*;
use vstd::string::*;
use std::collections::HashMap;
use crate::text::{opt_bytes, opt_text, prefixed};
use crate::{NimbusError, NimbusErrorView};

verus! {

/// What can go wrong while a task is dispatched.
#[derive(Debug, Clone, PartialEq, Eq)]
pub enum Error {
    /// Any other failure, in words.
    Other(String),
    /// The task queue refused the request; the text is its own.
    CloudTasks(String),
}

/// An [`Error`] with its texts as character sequences.
pub enum ErrorView {
    Other(Seq<char>),
    CloudTasks(Seq<char>),
}

impl View for Error {
    type V = ErrorView;

    open spec fn view(&self) -> ErrorView {
        match *self {
            Error::Other(m) => ErrorView::Other(m@),
            Error::CloudTasks(m) => ErrorView::CloudTasks(m@),
        }
    }
}

impl ErrorView {
    /// The text shown for this error.
    pub open spec fn text(self) -> Seq<char> {
        match self {
            ErrorView::Other(m) => "Error: "@ + m,
            ErrorView::CloudTasks(m) => "CloudTasks error: "@ + m,
        }
    }
}

impl Error {
    /// The text shown for this error.
    pub fn message(&self) -> (s: String)
        ensures
            s@ == self@.text(),
    {
        match self {
            Error::Other(m) => prefixed("Error: ", m.as_str()),
            Error::CloudTasks(m) => prefixed("CloudTasks error: ", m.as_str()),
        }
    }
}

/// An identity token that the queue attaches to the request it delivers.
#[derive(Debug, Clone, PartialEq, Eq)]
pub struct OidcToken {
    /// For whom the token is meant.
    pub audience: Option<String>,
    /// The service account in whose name the token is made.
    pub service_account_email: Option<String>,
}

/// An access token that the queue attaches to the request it delivers.
#[derive(Debug, Clone, PartialEq, Eq)]
pub struct OAuthToken {
    /// The scope of the token.
    pub scope: Option<String>,
    /// The service account in whose name the token is made.
    pub service_account_email: Option<String>,
}

/// A point in time: whole seconds since the Unix epoch and the nanoseconds
/// within the second.
#[derive(Debug, Clone, Copy, PartialEq, Eq, Structural)]
pub struct Timestamp {
    pub seconds: i64,
    pub nanos: u32,
}

/// The HTTP request that the queue makes when it delivers a task.
#[derive(Debug, Clone, PartialEq, Eq)]
pub struct HttpRequest {
    pub body: Option<Vec<u8>>,
    pub headers: Option<HashMap<String, String>>,
    pub http_method: Option<String>,
    pub oauth_token: Option<OAuthToken>,
    pub oidc_token: Option<OidcToken>,
    pub url: Option<String>,
}

/// A unit of work for the queue.
#[derive(Debug, Clone, PartialEq, Eq)]
pub struct Task {
    pub name: Option<String>,
    pub http_request: Option<HttpRequest>,
    pub schedule_time: Option<Timestamp>,
}

/// The request that puts a task on a queue.
#[derive(Debug, Clone, PartialEq, Eq)]
pub struct CreateTaskRequest {
    /// Which view of the task the queue is to answer with.
    pub response_view: Option<String>,
    pub task: Option<Task>,
}

/// A token over character sequences: its two texts, in the order of the
/// fields.
pub type TokenView = (Option<Seq<char>>, Option<Seq<char>>);

impl View for OidcToken {
    type V = TokenView;

    open spec fn view(&self) -> TokenView {
        (opt_text(self.audience), opt_text(self.service_account_email))
    }
}

impl View for OAuthToken {
    type V = TokenView;

    open spec fn view(&self) -> TokenView {
        (opt_text(self.scope), opt_text(self.service_account_email))
    }
}

/// An identity token, if any, over character sequences.
pub open spec fn opt_oidc(token: Option<OidcToken>) -> Option<TokenView> {
    match token {
        Some(t) => Some(t@),
        None => None,
    }
}

/// An access token, if any, over character sequences.
pub open spec fn opt_oauth(token: Option<OAuthToken>) -> Option<TokenView> {
    match token {
        Some(t) => Some(t@),
        None => None,
    }
}

/// A header mapping, if any, as a map.
pub open spec fn opt_headers(headers: Option<HashMap<String, String>>) -> Option<
    Map<String, String>,
> {
    match headers {
        Some(h) => Some(h@),
        None => None,
    }
}

/// An [`HttpRequest`] over sequences and maps.
pub struct HttpRequestView {
    pub body: Option<Seq<u8>>,
    pub headers: Option<Map<String, String>>,
    pub http_method: Option<Seq<char>>,
    pub oauth_token: Option<TokenView>,
    pub oidc_token: Option<TokenView>,
    pub url: Option<Seq<char>>,
}

impl View for HttpRequest {
    type V = HttpRequestView;

    open spec fn view(&self) -> HttpRequestView {
        HttpRequestView {
            body: opt_bytes(self.body),
            headers: opt_headers(self.headers),
            http_method: opt_text(self.http_method),
            oauth_token: opt_oauth(self.oauth_token),
            oidc_token: opt_oidc(self.oidc_token),
            url: opt_text(self.url),
        }
    }
}

/// A [`Task`] over sequences and maps.
pub struct TaskView {
    pub name: Option<Seq<char>>,
    pub http_request: Option<HttpRequestView>,
    pub schedule_time: Option<Timestamp>,
}

impl View for Task {
    type V = TaskView;

    open spec fn view(&self) -> TaskView {
        TaskView {
            name: opt_text(self.name),
            http_request: match self.http_request {
                Some(r) => Some(r@),
                None => None,
            },
            schedule_time: self.schedule_time,
        }
    }
}

/// A [`CreateTaskRequest`] over sequences and maps.
pub struct CreateTaskRequestView {
    pub response_view: Option<Seq<char>>,
    pub task: Option<TaskView>,
}

impl View for CreateTaskRequest {
    type V = CreateTaskRequestView;

    open spec fn view(&self) -> CreateTaskRequestView {
        CreateTaskRequestView {
            response_view: opt_text(self.response_view),
            task: match self.task {
                Some(t) => Some(t@),
                None => None,
            },
        }
    }
}

/// The task that asks for `method` on the URL `service`: the request
/// carries the body, the headers and the identity token as given and no
/// access token; the task carries the name and the scheduled time as given.
pub open spec fn http_task(
    service: Seq<char>,
    method: Seq<char>,
    body: Option<Seq<u8>>,
    headers: Option<Map<String, String>>,
    name: Option<Seq<char>>,
    schedule_time: Option<Timestamp>,
    oidc_token: Option<TokenView>,
) -> TaskView {
    TaskView {
        name,
        http_request: Some(
            HttpRequestView {
                body,
                headers,
                http_method: Some(method),
                oauth_token: None,
                oidc_token,
                url: Some(service),
            },
        ),
        schedule_time,
    }
}

/// Construction of tasks.
pub trait TaskHelper {
    /// Creates the task that delivers an HTTP request to `service`.
    fn new_task(
        service: &str,
        method: &str,
        body: Option<Vec<u8>>,
        headers: Option<HashMap<String, String>>,
        name: Option<String>,
        schedule_time: Option<Timestamp>,
        oidc_token: Option<OidcToken>,
    ) -> (task: Task)
        ensures
            task@ == http_task(
                service@,
                method@,
                opt_bytes(body),
                opt_headers(headers),
                opt_text(name),
                schedule_time,
                opt_oidc(oidc_token),
            ),
    {
        let http_request = HttpRequest {
            body,
            headers,
            http_method: Some(String::from_str(method)),
            oauth_token: None,
            oidc_token,
            url: Some(String::from_str(service)),
        };
        Task { name, http_request: Some(http_request), schedule_time }
    }
}

impl TaskHelper for Task {

}

/// The request that puts `task` on a queue and asks for the view `res_view`
/// of it in the answer.
pub fn create_task_request(task: Task, res_view: Option<String>) -> (request: CreateTaskRequest)
    ensures
        request@ == (CreateTaskRequestView { response_view: opt_text(res_view), task: Some(task@) }),
{
    CreateTaskRequest { response_view: res_view, task: Some(task) }
}

/// The request that puts a new HTTP task on a queue: the task of
/// [`TaskHelper::new_task`] for the same arguments, wrapped as by
/// [`create_task_request`].
pub fn push_request(
    service: &str,
    method: &str,
    body: Option<Vec<u8>>,
    headers: Option<HashMap<String, String>>,
    name: Option<String>,
    schedule_time: Option<Timestamp>,
    oidc_token: Option<OidcToken>,
    res_view: Option<String>,
) -> (request: CreateTaskRequest)
    ensures
        request@ == (CreateTaskRequestView {
            response_view: opt_text(res_view),
            task: Some(
                http_task(
                    service@,
                    method@,
                    opt_bytes(body),
                    opt_headers(headers),
                    opt_text(name),
                    schedule_time,
                    opt_oidc(oidc_token),
                ),
            ),
        }),
{
    let task = Task::new_task(service, method, body, headers, name, schedule_time, oidc_token);
    create_task_request(task, res_view)
}

/// The error for a request that the task queue refused with `message`.
pub fn refused(message: String) -> (e: NimbusError)
    ensures
        e@ == NimbusErrorView::TasksClient(ErrorView::CloudTasks(message@)),
{
    NimbusError::TasksClient(Error::CloudTasks(message))
}

/// Reads the queue's reply to a push: what it answered, or the refusal as
/// [`Error::CloudTasks`] with the queue's text.
pub fn read_pushed<T>(reply: Result<T, String>) -> (r: Result<T, NimbusError>)
    ensures
        match reply {
            Ok(answer) => r == Ok::<T, NimbusError>(answer),
            Err(message) => r matches Err(e) && e@ == NimbusErrorView::TasksClient(
                ErrorView::CloudTasks(message@),
            ),
        },
{
    match reply {
        Ok(answer) => Ok(answer),
        Err(message) => Err(refused(message)),
    }
}

} // verus!
