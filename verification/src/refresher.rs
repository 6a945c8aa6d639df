//! Judging a run of the address-list refresher.
//!
//! The refresher is a one-shot tool that takes no arguments. It succeeded if
//! and only if it exited with code 0; otherwise what it wrote to its error
//! stream is the detail of the failure. A tool that could not be started at
//! all failed too, with the launch error as the reason.

use vstd::prelude::*;
use vstd::utf8::{decode_utf8, valid_utf8};
use crate::error::{result_view, ErrorView, SidecarError};
use crate::text::{lossy_text, utf8_lossy};

verus! {

/// What a run of the refresher came to.
#[derive(Debug, PartialEq, Eq)]
pub enum RefreshReport {
    /// The tool ran and ended; `code` is its exit code, if it has one.
    Exited { code: Option<i32>, stderr: Vec<u8> },
    /// The tool could not be run at all.
    NotRun { reason: String },
}

/// Mathematical value of a [`RefreshReport`].
pub enum RefreshReportView {
    Exited { code: Option<i32>, stderr: Seq<u8> },
    NotRun { reason: Seq<char> },
}

impl View for RefreshReport {
    type V = RefreshReportView;

    open spec fn view(&self) -> RefreshReportView {
        match self {
            RefreshReport::Exited { code, stderr } => RefreshReportView::Exited {
                code: *code,
                stderr: stderr@,
            },
            RefreshReport::NotRun { reason } => RefreshReportView::NotRun { reason: reason@ },
        }
    }
}

/// The text of the failure of a refresher that ended without success and
/// left `detail` on its error stream.
pub open spec fn failure_text(detail: Seq<char>) -> Seq<char> {
    "IP puller failed: "@ + detail
}

/// The text of the failure of a refresher that could not be started for
/// `reason`, as the refresh command reports it.
pub open spec fn launch_failure_text(reason: Seq<char>) -> Seq<char> {
    "Failed to execute IP puller: "@ + reason
}

/// What is reported for a refresher that ended with `code` and left `detail`.
pub open spec fn verdict(code: Option<i32>, detail: Seq<char>) -> Result<Seq<char>, ErrorView> {
    if code == Some(0i32) {
        Ok("IP lists updated successfully"@)
    } else {
        Err(ErrorView::IPRefreshFailure(failure_text(detail)))
    }
}

impl RefreshReportView {
    /// Whether the run succeeded: the tool ended with exit code 0.
    pub open spec fn succeeded(self) -> bool {
        self matches RefreshReportView::Exited { code, .. } && code == Some(0i32)
    }

    /// The detail of the run: the error stream read as text, or the reason why
    /// the tool did not run.
    pub open spec fn detail(self) -> Seq<char> {
        match self {
            RefreshReportView::Exited { stderr, .. } => utf8_lossy(stderr),
            RefreshReportView::NotRun { reason } => reason,
        }
    }

    /// What the refresh command reports for the run.
    pub open spec fn outcome(self) -> Result<Seq<char>, ErrorView> {
        match self {
            RefreshReportView::Exited { code, stderr } => verdict(code, utf8_lossy(stderr)),
            RefreshReportView::NotRun { reason } => Err(
                ErrorView::IPRefreshFailure(launch_failure_text(reason)),
            ),
        }
    }

    /// The error that startup reports for a run that did not succeed: the
    /// failure text for a tool that ended, and the launch error as it is for a
    /// tool that could not be started.
    pub open spec fn startup_failure(self) -> ErrorView {
        match self {
            RefreshReportView::Exited { stderr, .. } => ErrorView::IPRefreshFailure(
                failure_text(utf8_lossy(stderr)),
            ),
            RefreshReportView::NotRun { reason } => ErrorView::IPRefreshFailure(reason),
        }
    }
}

/// Judges a refresher that ended with `code` and left `detail`.
pub fn refresh_verdict(code: Option<i32>, detail: String) -> (r: Result<String, SidecarError>)
    ensures
        result_view(r) == verdict(code, detail@),
{
    match code {
        Some(0) => Ok(String::from_str("IP lists updated successfully")),
        _ => Err(
            SidecarError::IPRefreshFailure(
                String::from_str("IP puller failed: ").concat(detail.as_str()),
            ),
        ),
    }
}

impl RefreshReport {
    /// Tells whether the run succeeded.
    pub fn succeeded(&self) -> (ok: bool)
        ensures
            ok == self@.succeeded(),
    {
        match self {
            RefreshReport::Exited { code: Some(0), .. } => true,
            _ => false,
        }
    }

    /// The error that startup reports for this run where it did not succeed.
    pub fn startup_failure(&self) -> (e: SidecarError)
        ensures
            e@ == self@.startup_failure(),
            self@ matches RefreshReportView::Exited { stderr, .. } ==> (valid_utf8(stderr) ==> e@
                == ErrorView::IPRefreshFailure(failure_text(decode_utf8(stderr)))),
    {
        match self {
            RefreshReport::Exited { stderr, .. } => SidecarError::IPRefreshFailure(
                String::from_str("IP puller failed: ").concat(
                    lossy_text(stderr.as_slice()).as_str(),
                ),
            ),
            RefreshReport::NotRun { reason } => SidecarError::IPRefreshFailure(reason.clone()),
        }
    }

    /// The detail of the run as text.
    pub fn detail(&self) -> (text: String)
        ensures
            text@ == self@.detail(),
            self@ matches RefreshReportView::Exited { stderr, .. } ==> (valid_utf8(stderr)
                ==> text@ == decode_utf8(stderr)),
    {
        match self {
            RefreshReport::Exited { stderr, .. } => lossy_text(stderr.as_slice()),
            RefreshReport::NotRun { reason } => reason.clone(),
        }
    }
}

/// Reports on a run of the refresher, as the refresh command does: the
/// success text if the tool exited with code 0; a refresh failure with the
/// error stream behind "IP puller failed: " if it ended otherwise; and a refresh
/// failure with the launch error behind "Failed to execute IP puller: " if it
/// could not be started.
pub fn refresh_ip_lists(report: &RefreshReport) -> (r: Result<String, SidecarError>)
    ensures
        result_view(r) == report@.outcome(),
        report@.succeeded() <==> r is Ok,
        report@ matches RefreshReportView::Exited { code, stderr } ==> (valid_utf8(stderr)
            ==> result_view(r) == verdict(code, decode_utf8(stderr))),
{
    match report {
        RefreshReport::Exited { code, stderr } => {
            let detail = lossy_text(stderr.as_slice());
            refresh_verdict(*code, detail)
        },
        RefreshReport::NotRun { reason } => Err(
            SidecarError::IPRefreshFailure(
                String::from_str("Failed to execute IP puller: ").concat(reason.as_str()),
            ),
        ),
    }
}

} // verus!
