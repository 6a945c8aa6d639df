//! The lifecycle hooks: what the host application does with the outcome of
//! startup and of the cleanup at shutdown.
//!
//! Neither hook can stop the host. A failure at startup is reported and the
//! application runs on without the helper process; a failure of the cleanup is
//! logged and the application closes all the same.

use vstd::prelude::*;
use crate::error::{ErrorView, SidecarError};
use crate::supervisor::{cleanup_view, unit_view, CleanupStep, StepView};

verus! {

/// What a hook tells the host application.
#[derive(Debug, PartialEq, Eq)]
pub struct HookVerdict {
    /// Whether the host goes on with what it was doing: starting, or closing.
    pub proceed: bool,
    /// The text to report, if the hook failed.
    pub notice: Option<String>,
}

/// Mathematical value of a notice.
pub open spec fn notice_view(notice: Option<String>) -> Option<Seq<char>> {
    match notice {
        Some(text) => Some(text@),
        None => None,
    }
}

/// The notice of the startup hook: none if startup succeeded, the error's
/// text behind a heading otherwise.
pub open spec fn startup_notice(outcome: Result<(), ErrorView>) -> Option<Seq<char>> {
    match outcome {
        Ok(_) => None,
        Err(e) => Some("Failed to initialize firewall sidecar: "@ + e.message()),
    }
}

/// The notice of the shutdown hook: none if the cleanup gave its plan, the
/// error's text behind a heading otherwise.
pub open spec fn shutdown_notice(outcome: Result<Seq<StepView>, ErrorView>) -> Option<Seq<char>> {
    match outcome {
        Ok(_) => None,
        Err(e) => Some("Error during cleanup: "@ + e.message()),
    }
}

/// Judges the outcome of startup. The host always goes on; a failure gives
/// the notice to show.
pub fn startup_verdict(outcome: &Result<(), SidecarError>) -> (v: HookVerdict)
    ensures
        v.proceed,
        notice_view(v.notice) == startup_notice(unit_view(*outcome)),
{
    match outcome {
        Ok(_) => HookVerdict { proceed: true, notice: None },
        Err(e) => {
            let text = String::from_str("Failed to initialize firewall sidecar: ").concat(
                e.message().as_str(),
            );
            HookVerdict { proceed: true, notice: Some(text) }
        },
    }
}

/// Judges the outcome of the cleanup at shutdown. The host always closes; a
/// failure gives the text to log.
pub fn shutdown_verdict(outcome: &Result<Vec<CleanupStep>, SidecarError>) -> (v: HookVerdict)
    ensures
        v.proceed,
        notice_view(v.notice) == shutdown_notice(cleanup_view(*outcome)),
{
    match outcome {
        Ok(_) => HookVerdict { proceed: true, notice: None },
        Err(e) => {
            let text = String::from_str("Error during cleanup: ").concat(e.message().as_str());
            HookVerdict { proceed: true, notice: Some(text) }
        },
    }
}

} // verus!
