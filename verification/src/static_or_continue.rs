//! Static files before everything else: a `GET` or `HEAD` request is first
//! looked up in a directory of files, and goes on to the rest of the server
//! only where no file answers it.

use crate::text::str_eq;
use vstd::prelude::*;

verus! {

/// How far the handling of one request has come.
#[derive(Clone, Copy, Debug, PartialEq, Eq, Structural)]
pub enum StaticState {
    /// The request has arrived; nothing was done yet.
    Received,
    /// The directory is being searched for a file.
    Serving,
    /// It is decided who answers.
    Finished,
}

/// What happened outside.
#[derive(Debug, PartialEq, Eq)]
pub enum StaticEvent<'a> {
    /// A request with this method arrived.
    Request { method: &'a str },
    /// The file service answered with this status.
    Served { status: u16 },
    /// The file service failed.
    ServeFailed,
}

/// The model of a [`StaticEvent`].
pub enum StaticEventView {
    Request { method: Seq<char> },
    Served { status: u16 },
    ServeFailed,
}

impl<'a> View for StaticEvent<'a> {
    type V = StaticEventView;

    open spec fn view(&self) -> StaticEventView {
        match *self {
            StaticEvent::Request { method } => StaticEventView::Request { method: method@ },
            StaticEvent::Served { status } => StaticEventView::Served { status },
            StaticEvent::ServeFailed => StaticEventView::ServeFailed,
        }
    }
}

/// What is to be done next for the request.
#[derive(Clone, Copy, Debug, PartialEq, Eq)]
pub enum StaticAction {
    /// Ask the file service for the request's path under `directory`, with
    /// the request's method and headers.
    Serve { directory: &'static str },
    /// Send the answer of the file service.
    Respond,
    /// Hand the request to the rest of the server.
    Continue,
}

/// The model of a [`StaticAction`].
pub enum StaticActionView {
    Serve { directory: Seq<char> },
    Respond,
    Continue,
}

impl View for StaticAction {
    type V = StaticActionView;

    open spec fn view(&self) -> StaticActionView {
        match *self {
            StaticAction::Serve { directory } => StaticActionView::Serve { directory: directory@ },
            StaticAction::Respond => StaticActionView::Respond,
            StaticAction::Continue => StaticActionView::Continue,
        }
    }
}

/// The next state and the action to take, for an event that the state
/// expects; `None` for any other event.
///
/// Only `GET` and `HEAD` requests are looked up under `directory`. The file
/// service's answer is sent unless its status is 404; then, and where the
/// service failed, the request goes on to the rest of the server.
pub open spec fn static_next(
    directory: Seq<char>,
    state: StaticState,
    event: StaticEventView,
) -> Option<(StaticState, StaticActionView)> {
    match (state, event) {
        (StaticState::Received, StaticEventView::Request { method }) => if method == "GET"@
            || method == "HEAD"@ {
            Some((StaticState::Serving, StaticActionView::Serve { directory }))
        } else {
            Some((StaticState::Finished, StaticActionView::Continue))
        },
        (StaticState::Serving, StaticEventView::Served { status }) => if status != 404 {
            Some((StaticState::Finished, StaticActionView::Respond))
        } else {
            Some((StaticState::Finished, StaticActionView::Continue))
        },
        (StaticState::Serving, StaticEventView::ServeFailed) => Some(
            (StaticState::Finished, StaticActionView::Continue),
        ),
        _ => None,
    }
}

/// The model of a step.
pub open spec fn step_view(
    step: Option<(StaticState, StaticAction)>,
) -> Option<(StaticState, StaticActionView)> {
    match step {
        Some((state, action)) => Some((state, action@)),
        None => None,
    }
}

/// Decides the next step for a request that is looked up under `directory`.
fn static_or_continue(
    directory: &'static str,
    state: StaticState,
    event: &StaticEvent<'_>,
) -> (step: Option<(StaticState, StaticAction)>)
    ensures
        step_view(step) == static_next(directory@, state, event@),
{
    match (state, event) {
        (StaticState::Received, StaticEvent::Request { method }) => {
            if str_eq(method, "GET") || str_eq(method, "HEAD") {
                Some((StaticState::Serving, StaticAction::Serve { directory }))
            } else {
                Some((StaticState::Finished, StaticAction::Continue))
            }
        },
        (StaticState::Serving, StaticEvent::Served { status }) => {
            if *status != 404 {
                Some((StaticState::Finished, StaticAction::Respond))
            } else {
                Some((StaticState::Finished, StaticAction::Continue))
            }
        },
        (StaticState::Serving, StaticEvent::ServeFailed) => Some(
            (StaticState::Finished, StaticAction::Continue),
        ),
        _ => None,
    }
}

/// Serves uploaded files from the directory `local_uploads`, or continues.
///
/// The caller does what the action says and comes back with the next event.
/// `None` means that `state` does not expect `event`.
pub fn serve_local_uploads(
    state: StaticState,
    event: &StaticEvent<'_>,
) -> (step: Option<(StaticState, StaticAction)>)
    ensures
        step_view(step) == static_next("local_uploads"@, state, event@),
{
    static_or_continue("local_uploads", state, event)
}

/// Serves the files of the front end from the directory `dist`, or continues.
///
/// The caller does what the action says and comes back with the next event.
/// `None` means that `state` does not expect `event`.
pub fn serve_dist(
    state: StaticState,
    event: &StaticEvent<'_>,
) -> (step: Option<(StaticState, StaticAction)>)
    ensures
        step_view(step) == static_next("dist"@, state, event@),
{
    static_or_continue("dist", state, event)
}

} // verus!
