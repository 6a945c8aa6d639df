//! Error kinds of the controller and their descriptive text.

use vstd::prelude::*;

verus! {

/// Why an operation of the controller failed.
#[derive(Debug, PartialEq, Eq)]
pub enum SidecarError {
    /// The helper process could not be started; carries the launcher's detail.
    ProcessSpawnFailure(String),
    /// The address-list refresher did not succeed; carries the whole text of
    /// the failure.
    IPRefreshFailure(String),
    /// A command was issued before the helper process was registered.
    SidecarNotInitialized,
    /// The guard around the process was found broken.
    GuardUnavailable,
    /// The helper process is absent or has been terminated.
    SidecarUnavailable,
    /// Writing to or reading from the helper process failed; carries the detail.
    SubprocessIOFailure(String),
    /// A region token holds a control character or the field delimiter.
    InvalidRegionToken,
    /// Initialization was attempted in a state that does not admit it.
    InitializationConflict,
}

/// Mathematical value of a [`SidecarError`].
pub enum ErrorView {
    ProcessSpawnFailure(Seq<char>),
    IPRefreshFailure(Seq<char>),
    SidecarNotInitialized,
    GuardUnavailable,
    SidecarUnavailable,
    SubprocessIOFailure(Seq<char>),
    InvalidRegionToken,
    InitializationConflict,
}

impl ErrorView {
    /// The descriptive text shown to the caller for this error.
    pub open spec fn message(self) -> Seq<char> {
        match self {
            ErrorView::ProcessSpawnFailure(detail) => "Failed to start firewall sidecar: "@ + detail,
            ErrorView::IPRefreshFailure(text) => text,
            ErrorView::SidecarNotInitialized => "Firewall sidecar not initialized"@,
            ErrorView::GuardUnavailable => "Failed to lock firewall sidecar mutex"@,
            ErrorView::SidecarUnavailable => "Firewall sidecar process not available"@,
            ErrorView::SubprocessIOFailure(detail) => "Failed to send command to sidecar: "@
                + detail,
            ErrorView::InvalidRegionToken => "Invalid region token"@,
            ErrorView::InitializationConflict => "Failed to store firewall sidecar process"@,
        }
    }
}

impl View for SidecarError {
    type V = ErrorView;

    open spec fn view(&self) -> ErrorView {
        match self {
            SidecarError::ProcessSpawnFailure(detail) => ErrorView::ProcessSpawnFailure(detail@),
            SidecarError::IPRefreshFailure(detail) => ErrorView::IPRefreshFailure(detail@),
            SidecarError::SidecarNotInitialized => ErrorView::SidecarNotInitialized,
            SidecarError::GuardUnavailable => ErrorView::GuardUnavailable,
            SidecarError::SidecarUnavailable => ErrorView::SidecarUnavailable,
            SidecarError::SubprocessIOFailure(detail) => ErrorView::SubprocessIOFailure(detail@),
            SidecarError::InvalidRegionToken => ErrorView::InvalidRegionToken,
            SidecarError::InitializationConflict => ErrorView::InitializationConflict,
        }
    }
}

/// Mathematical value of an operation's result: the text on success, the error's
/// value on failure.
pub open spec fn result_view(r: Result<String, SidecarError>) -> Result<Seq<char>, ErrorView> {
    match r {
        Ok(text) => Ok(text@),
        Err(e) => Err(e@),
    }
}

impl SidecarError {
    /// The descriptive text of this error.
    pub fn message(&self) -> (text: String)
        ensures
            text@ == self@.message(),
    {
        match self {
            SidecarError::ProcessSpawnFailure(detail) => String::from_str(
                "Failed to start firewall sidecar: ",
            ).concat(detail.as_str()),
            SidecarError::IPRefreshFailure(text) => text.clone(),
            SidecarError::SidecarNotInitialized => String::from_str(
                "Firewall sidecar not initialized",
            ),
            SidecarError::GuardUnavailable => String::from_str(
                "Failed to lock firewall sidecar mutex",
            ),
            SidecarError::SidecarUnavailable => String::from_str(
                "Firewall sidecar process not available",
            ),
            SidecarError::SubprocessIOFailure(detail) => String::from_str(
                "Failed to send command to sidecar: ",
            ).concat(detail.as_str()),
            SidecarError::InvalidRegionToken => String::from_str("Invalid region token"),
            SidecarError::InitializationConflict => String::from_str(
                "Failed to store firewall sidecar process",
            ),
        }
    }
}

} // verus!
