//! A comparison of two documents by address, as a sequence of decisions:
//! the caller does the network work between the steps.

use crate::error::{AppError, AppErrorView};
use crate::matcher::rules_of;
use crate::models::{
    ComparisonView, LoginRequest, UrlComparisonRequest, XmlComparisonRequest,
    XmlComparisonResponse,
};
use crate::service::{compare_xmls_spec, XmlComparisonService};
use crate::text::{clone_optional, clone_texts};
use vstd::prelude::*;

verus! {

/// Where a comparison by address stands.
#[derive(Debug)]
pub enum UrlTaskState {
    /// Nothing was done yet.
    Idle,
    /// A login is under way.
    LoggingIn,
    /// The first document is being fetched.
    FetchingFirst { session: Option<String> },
    /// The second document is being fetched; the first is at hand.
    FetchingSecond { session: Option<String>, xml1: String },
    /// The task has finished.
    Finished,
}

/// What the caller reports back to the task.
#[derive(Debug)]
pub enum UrlTaskEvent {
    /// The task is to begin.
    Started,
    /// The login ended: with a session, or with a failure.
    LoggedIn(Result<String, AppError>),
    /// The fetch ended: with the document's text, or with a failure.
    Fetched(Result<String, AppError>),
}

/// What the caller is to do next.
#[derive(Debug)]
pub enum UrlTaskAction {
    /// Log in and report the session.
    Login(LoginRequest),
    /// Fetch the document at `url`, under the session if there is one, and
    /// report its text.
    Fetch { url: String, session: Option<String> },
    /// Nothing more: this is the outcome of the task.
    Finish(Result<XmlComparisonResponse, AppError>),
}

/// The mathematical content of a [`UrlTaskState`].
pub enum UrlTaskStateView {
    Idle,
    LoggingIn,
    FetchingFirst { session: Option<Seq<char>> },
    FetchingSecond { session: Option<Seq<char>>, xml1: Seq<char> },
    Finished,
}

/// The mathematical content of a [`UrlTaskEvent`].
pub enum UrlTaskEventView {
    Started,
    LoggedIn(Result<Seq<char>, AppErrorView>),
    Fetched(Result<Seq<char>, AppErrorView>),
}

/// The mathematical content of a [`UrlTaskAction`].
pub enum UrlTaskActionView {
    Login { url: Seq<char>, username: Seq<char>, password: Seq<char> },
    Fetch { url: Seq<char>, session: Option<Seq<char>> },
    Finish(Result<ComparisonView, AppErrorView>),
}

/// The mathematical content of a text or a failure.
pub open spec fn text_outcome(outcome: Result<String, AppError>) -> Result<
    Seq<char>,
    AppErrorView,
> {
    match outcome {
        Ok(text) => Ok(text@),
        Err(error) => Err(error@),
    }
}

impl View for UrlTaskState {
    type V = UrlTaskStateView;

    open spec fn view(&self) -> UrlTaskStateView {
        match self {
            UrlTaskState::Idle => UrlTaskStateView::Idle,
            UrlTaskState::LoggingIn => UrlTaskStateView::LoggingIn,
            UrlTaskState::FetchingFirst { session } => UrlTaskStateView::FetchingFirst {
                session: session.deep_view(),
            },
            UrlTaskState::FetchingSecond { session, xml1 } => UrlTaskStateView::FetchingSecond {
                session: session.deep_view(),
                xml1: xml1@,
            },
            UrlTaskState::Finished => UrlTaskStateView::Finished,
        }
    }
}

impl View for UrlTaskEvent {
    type V = UrlTaskEventView;

    open spec fn view(&self) -> UrlTaskEventView {
        match self {
            UrlTaskEvent::Started => UrlTaskEventView::Started,
            UrlTaskEvent::LoggedIn(outcome) => UrlTaskEventView::LoggedIn(text_outcome(*outcome)),
            UrlTaskEvent::Fetched(outcome) => UrlTaskEventView::Fetched(text_outcome(*outcome)),
        }
    }
}

impl View for UrlTaskAction {
    type V = UrlTaskActionView;

    open spec fn view(&self) -> UrlTaskActionView {
        match self {
            UrlTaskAction::Login(request) => UrlTaskActionView::Login {
                url: request.url@,
                username: request.username@,
                password: request.password@,
            },
            UrlTaskAction::Fetch { url, session } => UrlTaskActionView::Fetch {
                url: url@,
                session: session.deep_view(),
            },
            UrlTaskAction::Finish(outcome) => UrlTaskActionView::Finish(
                match outcome {
                    Ok(response) => Ok(response@),
                    Err(error) => Err(error@),
                },
            ),
        }
    }
}

/// The failure with which a task ends when it is told of something that
/// it did not ask for.
pub open spec fn out_of_turn() -> AppErrorView {
    AppErrorView::InternalError("Unexpected event for the state of the comparison"@)
}

/// The next state and the next action of a comparison by address.
///
/// At the start the task logs in at the first address where credentials
/// were given, else fetches the first document without a session. After a
/// login it fetches the first document under the session, after the first
/// document the second under the same session, and after the second it
/// compares the two texts under the request's rules and finishes. A failed
/// login or fetch finishes the task with that failure, as does an event
/// that the state did not ask for.
pub open spec fn url_task_step_spec(
    request: UrlComparisonRequest,
    state: UrlTaskStateView,
    event: UrlTaskEventView,
) -> (UrlTaskStateView, UrlTaskActionView) {
    match (state, event) {
        (UrlTaskStateView::Idle, UrlTaskEventView::Started) => match request.auth_credentials {
            Some(credentials) => (
                UrlTaskStateView::LoggingIn,
                UrlTaskActionView::Login {
                    url: request.url1@,
                    username: credentials.username@,
                    password: credentials.password@,
                },
            ),
            None => (
                UrlTaskStateView::FetchingFirst { session: None },
                UrlTaskActionView::Fetch { url: request.url1@, session: None },
            ),
        },
        (UrlTaskStateView::LoggingIn, UrlTaskEventView::LoggedIn(Ok(session))) => (
            UrlTaskStateView::FetchingFirst { session: Some(session) },
            UrlTaskActionView::Fetch { url: request.url1@, session: Some(session) },
        ),
        (UrlTaskStateView::LoggingIn, UrlTaskEventView::LoggedIn(Err(error))) => (
            UrlTaskStateView::Finished,
            UrlTaskActionView::Finish(Err(error)),
        ),
        (UrlTaskStateView::FetchingFirst { session }, UrlTaskEventView::Fetched(Ok(xml1))) => (
            UrlTaskStateView::FetchingSecond { session, xml1 },
            UrlTaskActionView::Fetch { url: request.url2@, session },
        ),
        (UrlTaskStateView::FetchingFirst { session }, UrlTaskEventView::Fetched(Err(error))) => (
            UrlTaskStateView::Finished,
            UrlTaskActionView::Finish(Err(error)),
        ),
        (
            UrlTaskStateView::FetchingSecond { session, xml1 },
            UrlTaskEventView::Fetched(Ok(xml2)),
        ) => (
            UrlTaskStateView::Finished,
            UrlTaskActionView::Finish(
                compare_xmls_spec(
                    xml1,
                    xml2,
                    rules_of(request.ignore_paths),
                    rules_of(request.ignore_properties),
                ),
            ),
        ),
        (
            UrlTaskStateView::FetchingSecond { session, xml1 },
            UrlTaskEventView::Fetched(Err(error)),
        ) => (UrlTaskStateView::Finished, UrlTaskActionView::Finish(Err(error))),
        _ => (UrlTaskStateView::Finished, UrlTaskActionView::Finish(Err(out_of_turn()))),
    }
}

/// A copy of an optional list of rules.
pub fn clone_rules(rules: &Option<Vec<String>>) -> (out: Option<Vec<String>>)
    ensures
        rules_of(out) == rules_of(*rules),
        out is Some == rules is Some,
{
    match rules {
        Some(list) => Some(clone_texts(list)),
        None => None,
    }
}

/// Takes one event into a comparison by address and says what to do next.
pub fn url_task_step(
    request: &UrlComparisonRequest,
    state: UrlTaskState,
    event: UrlTaskEvent,
) -> (next: (UrlTaskState, UrlTaskAction))
    ensures
        (next.0@, next.1@) == url_task_step_spec(*request, state@, event@),
{
    match (state, event) {
        (UrlTaskState::Idle, UrlTaskEvent::Started) => match &request.auth_credentials {
            Some(credentials) => (
                UrlTaskState::LoggingIn,
                UrlTaskAction::Login(
                    LoginRequest {
                        url: request.url1.clone(),
                        username: credentials.username.clone(),
                        password: credentials.password.clone(),
                    },
                ),
            ),
            None => (
                UrlTaskState::FetchingFirst { session: None },
                UrlTaskAction::Fetch { url: request.url1.clone(), session: None },
            ),
        },
        (UrlTaskState::LoggingIn, UrlTaskEvent::LoggedIn(Ok(session))) => {
            let again = session.clone();
            (
                UrlTaskState::FetchingFirst { session: Some(session) },
                UrlTaskAction::Fetch { url: request.url1.clone(), session: Some(again) },
            )
        },
        (UrlTaskState::LoggingIn, UrlTaskEvent::LoggedIn(Err(error))) => (
            UrlTaskState::Finished,
            UrlTaskAction::Finish(Err(error)),
        ),
        (UrlTaskState::FetchingFirst { session }, UrlTaskEvent::Fetched(Ok(xml1))) => {
            let again = clone_optional(&session);
            (
                UrlTaskState::FetchingSecond { session, xml1 },
                UrlTaskAction::Fetch { url: request.url2.clone(), session: again },
            )
        },
        (UrlTaskState::FetchingFirst { session }, UrlTaskEvent::Fetched(Err(error))) => (
            UrlTaskState::Finished,
            UrlTaskAction::Finish(Err(error)),
        ),
        (UrlTaskState::FetchingSecond { session, xml1 }, UrlTaskEvent::Fetched(Ok(xml2))) => {
            let comparison = XmlComparisonRequest {
                xml1,
                xml2,
                ignore_paths: clone_rules(&request.ignore_paths),
                ignore_properties: clone_rules(&request.ignore_properties),
            };
            let outcome = XmlComparisonService::new().compare_xmls(&comparison);
            (UrlTaskState::Finished, UrlTaskAction::Finish(outcome))
        },
        (UrlTaskState::FetchingSecond { session, xml1 }, UrlTaskEvent::Fetched(Err(error))) => (
            UrlTaskState::Finished,
            UrlTaskAction::Finish(Err(error)),
        ),
        _ => (
            UrlTaskState::Finished,
            UrlTaskAction::Finish(
                Err(
                    AppError::InternalError(
                        String::from_str("Unexpected event for the state of the comparison"),
                    ),
                ),
            ),
        ),
    }
}

} // verus!
