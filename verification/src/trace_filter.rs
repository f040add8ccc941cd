//! Which of the server's own log events reach the error-reporting service,
//! and as what.

use crate::text::str_eq;
use vstd::prelude::*;

verus! {

/// The severity of a log event, most severe first.
#[derive(Clone, Copy, Debug, PartialEq, Eq, Structural)]
pub enum Level {
    Error,
    Warn,
    Info,
    Debug,
    Trace,
}

/// What the error-reporting service makes of a log event.
#[derive(Clone, Copy, Debug, PartialEq, Eq, Structural)]
pub enum EventFilter {
    /// The event is dropped.
    Ignore,
    /// The event becomes a breadcrumb: context for a later report.
    Breadcrumb,
    /// The event is reported as an exception.
    Exception,
}

/// The filter for an event of `level` that was logged under `target`.
///
/// An error is reported as an exception, with two exceptions: the access log
/// (target `http`) only leaves a breadcrumb, and errors of the fallback route
/// (target `conduit_axum::fallback`) are dropped, since that route reports
/// them itself. Warnings and informational events leave breadcrumbs; anything
/// less severe is dropped.
pub open spec fn spec_event_filter(level: Level, target: Seq<char>) -> EventFilter {
    match level {
        Level::Error => if target == "http"@ {
            EventFilter::Breadcrumb
        } else if target == "conduit_axum::fallback"@ {
            EventFilter::Ignore
        } else {
            EventFilter::Exception
        },
        Level::Warn | Level::Info => EventFilter::Breadcrumb,
        Level::Debug | Level::Trace => EventFilter::Ignore,
    }
}

/// Decides what the error-reporting service makes of a log event.
pub fn event_filter(level: Level, target: &str) -> (filter: EventFilter)
    ensures
        filter == spec_event_filter(level, target@),
{
    match level {
        Level::Error => {
            if str_eq(target, "http") {
                EventFilter::Breadcrumb
            } else if str_eq(target, "conduit_axum::fallback") {
                EventFilter::Ignore
            } else {
                EventFilter::Exception
            }
        },
        Level::Warn | Level::Info => EventFilter::Breadcrumb,
        Level::Debug | Level::Trace => EventFilter::Ignore,
    }
}

} // verus!
