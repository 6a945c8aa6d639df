//! Awaiting the response of the helper process.
//!
//! After a line was written, the host hands over whatever the process lets it
//! observe, one event at a time, and is told whether the wait is over.

use vstd::prelude::*;
use vstd::utf8::{decode_utf8, valid_utf8};
use crate::text::{lossy_text, utf8_lossy};

verus! {

/// One observation of the helper process while a response is awaited.
#[derive(Debug, PartialEq, Eq)]
pub enum ChannelEvent {
    /// A line on its standard output.
    Stdout(Vec<u8>),
    /// A line on its error stream.
    Stderr(Vec<u8>),
    /// An error of the channel, with its text.
    Error(String),
    /// The process ended, or the channel was closed.
    Ended,
    /// Anything else.
    Other,
}

/// Mathematical value of a [`ChannelEvent`].
pub enum ChannelEventView {
    Stdout(Seq<u8>),
    Stderr(Seq<u8>),
    Error(Seq<char>),
    Ended,
    Other,
}

impl View for ChannelEvent {
    type V = ChannelEventView;

    open spec fn view(&self) -> ChannelEventView {
        match self {
            ChannelEvent::Stdout(bytes) => ChannelEventView::Stdout(bytes@),
            ChannelEvent::Stderr(bytes) => ChannelEventView::Stderr(bytes@),
            ChannelEvent::Error(text) => ChannelEventView::Error(text@),
            ChannelEvent::Ended => ChannelEventView::Ended,
            ChannelEvent::Other => ChannelEventView::Other,
        }
    }
}

/// What the host does after an observation.
#[derive(Debug, PartialEq, Eq)]
pub enum ReadAction {
    /// Go on waiting.
    Wait,
    /// Log this text and go on waiting.
    Log(String),
    /// The wait is over: the response, or the detail of the failure. This is
    /// what completes the request in flight.
    Finish(Result<String, String>),
}

/// Mathematical value of a [`ReadAction`].
pub enum ReadActionView {
    Wait,
    Log(Seq<char>),
    Finish(Result<Seq<char>, Seq<char>>),
}

impl View for ReadAction {
    type V = ReadActionView;

    open spec fn view(&self) -> ReadActionView {
        match self {
            ReadAction::Wait => ReadActionView::Wait,
            ReadAction::Log(text) => ReadActionView::Log(text@),
            ReadAction::Finish(Ok(text)) => ReadActionView::Finish(Ok(text@)),
            ReadAction::Finish(Err(detail)) => ReadActionView::Finish(Err(detail@)),
        }
    }
}

/// What follows an observation whose bytes, if it has any, read as `text`: a
/// line of output is the response; a line on the error stream is logged and the
/// wait goes on; an error of the channel or the end of the process is a
/// failure; anything else is passed over.
pub open spec fn action_for(event: ChannelEventView, text: Seq<char>) -> ReadActionView {
    match event {
        ChannelEventView::Stdout(_) => ReadActionView::Finish(Ok(text)),
        ChannelEventView::Stderr(_) => ReadActionView::Log("Sidecar output: "@ + text),
        ChannelEventView::Error(detail) => ReadActionView::Finish(Err(detail)),
        ChannelEventView::Ended => ReadActionView::Finish(Err("sidecar process ended"@)),
        ChannelEventView::Other => ReadActionView::Wait,
    }
}

impl ChannelEventView {
    /// The bytes of this observation, if it has any.
    pub open spec fn bytes(self) -> Seq<u8> {
        match self {
            ChannelEventView::Stdout(bytes) => bytes,
            ChannelEventView::Stderr(bytes) => bytes,
            _ => Seq::empty(),
        }
    }

    /// What follows this observation.
    pub open spec fn action(self) -> ReadActionView {
        action_for(self, utf8_lossy(self.bytes()))
    }
}

/// Decides what follows an observation whose bytes, if it has any, were read
/// as `text`.
pub fn action_with_text(event: ChannelEvent, text: String) -> (action: ReadAction)
    ensures
        action@ == action_for(event@, text@),
{
    match event {
        ChannelEvent::Stdout(_) => ReadAction::Finish(Ok(text)),
        ChannelEvent::Stderr(_) => ReadAction::Log(
            String::from_str("Sidecar output: ").concat(text.as_str()),
        ),
        ChannelEvent::Error(detail) => ReadAction::Finish(Err(detail)),
        ChannelEvent::Ended => ReadAction::Finish(Err(String::from_str("sidecar process ended"))),
        ChannelEvent::Other => ReadAction::Wait,
    }
}

/// Decides what follows an observation. Bytes are read as UTF-8, lossily.
pub fn next_read(event: ChannelEvent) -> (action: ReadAction)
    ensures
        action@ == event@.action(),
        valid_utf8(event@.bytes()) ==> action@ == action_for(event@, decode_utf8(event@.bytes())),
{
    let text = match &event {
        ChannelEvent::Stdout(bytes) => lossy_text(bytes.as_slice()),
        ChannelEvent::Stderr(bytes) => lossy_text(bytes.as_slice()),
        _ => String::new(),
    };
    action_with_text(event, text)
}

} // verus!
