//! The line-oriented command protocol spoken to the helper process.
//!
//! A request is one line of text that ends in a newline. A region token is
//! carried after the field delimiter `|` and may hold neither that delimiter
//! nor a control character, so that no token can change where a line ends or
//! how it splits into fields.

use vstd::prelude::*;
use crate::error::{result_view, ErrorView, SidecarError};

verus! {

/// The four operations of the helper process.
#[derive(Clone, Copy, Debug, PartialEq, Eq, Structural)]
pub enum Verb {
    Status,
    Block,
    Unblock,
    UnblockAll,
}

/// One request: a verb, with the region token where the verb takes one.
#[derive(Debug, PartialEq, Eq)]
pub enum CommandRequest {
    Status,
    Block(String),
    Unblock(String),
    UnblockAll,
}

/// Mathematical value of a [`CommandRequest`].
pub enum RequestView {
    Status,
    Block(Seq<char>),
    Unblock(Seq<char>),
    UnblockAll,
}

impl View for CommandRequest {
    type V = RequestView;

    open spec fn view(&self) -> RequestView {
        match self {
            CommandRequest::Status => RequestView::Status,
            CommandRequest::Block(region) => RequestView::Block(region@),
            CommandRequest::Unblock(region) => RequestView::Unblock(region@),
            CommandRequest::UnblockAll => RequestView::UnblockAll,
        }
    }
}

/// Whether `c` is a control code: U+0000 to U+001F, or U+007F to U+009F.
pub open spec fn is_control(c: char) -> bool {
    c <= '\u{1f}' || ('\u{7f}' <= c && c <= '\u{9f}')
}

/// Whether `c` may not occur in a region token.
pub open spec fn is_forbidden(c: char) -> bool {
    is_control(c) || c == '|'
}

/// Whether `region` may be sent: it holds no forbidden character.
pub open spec fn valid_region(region: Seq<char>) -> bool {
    forall|i: int| 0 <= i < region.len() ==> !is_forbidden(#[trigger] region[i])
}

impl RequestView {
    /// The verb of this request.
    pub open spec fn verb(self) -> Verb {
        match self {
            RequestView::Status => Verb::Status,
            RequestView::Block(_) => Verb::Block,
            RequestView::Unblock(_) => Verb::Unblock,
            RequestView::UnblockAll => Verb::UnblockAll,
        }
    }

    /// The region token of this request, if its verb takes one.
    pub open spec fn region(self) -> Option<Seq<char>> {
        match self {
            RequestView::Block(region) => Some(region),
            RequestView::Unblock(region) => Some(region),
            _ => None,
        }
    }

    /// Whether this request may be sent.
    pub open spec fn valid(self) -> bool {
        match self.region() {
            Some(region) => valid_region(region),
            None => true,
        }
    }

    /// The line that carries this request.
    pub open spec fn wire_line(self) -> Seq<char> {
        match self {
            RequestView::Status => "status\n"@,
            RequestView::Block(region) => "block|"@ + region + "\n"@,
            RequestView::Unblock(region) => "unblock|"@ + region + "\n"@,
            RequestView::UnblockAll => "unblock-all\n"@,
        }
    }

    /// What encoding this request gives: its line if it may be sent, the
    /// refusal of its region token otherwise.
    pub open spec fn encoded(self) -> Result<Seq<char>, ErrorView> {
        if self.valid() {
            Ok(self.wire_line())
        } else {
            Err(ErrorView::InvalidRegionToken)
        }
    }
}

/// Tells whether `c` may not occur in a region token.
pub fn forbidden_in_region(c: char) -> (b: bool)
    ensures
        b == is_forbidden(c),
{
    c <= '\u{1f}' || ('\u{7f}' <= c && c <= '\u{9f}') || c == '|'
}

/// Tells whether `region` may be sent.
pub fn is_valid_region(region: &str) -> (ok: bool)
    ensures
        ok == valid_region(region@),
{
    let n: usize = region.unicode_len();
    let mut i: usize = 0;
    while i < n
        invariant
            n == region@.len(),
            i <= n,
            forall|j: int| 0 <= j < i ==> !is_forbidden(#[trigger] region@[j]),
        decreases n - i,
    {
        let c: char = region.get_char(i);
        if forbidden_in_region(c) {
            return false;
        }
        i = i + 1;
    }
    true
}

impl CommandRequest {
    /// The verb of this request.
    pub fn verb(&self) -> (v: Verb)
        ensures
            v == self@.verb(),
    {
        match self {
            CommandRequest::Status => Verb::Status,
            CommandRequest::Block(_) => Verb::Block,
            CommandRequest::Unblock(_) => Verb::Unblock,
            CommandRequest::UnblockAll => Verb::UnblockAll,
        }
    }

    /// The region token of this request, if its verb takes one.
    pub fn region(&self) -> (r: Option<&String>)
        ensures
            match r {
                Some(token) => self@.region() == Some(token@),
                None => self@.region() is None,
            },
    {
        match self {
            CommandRequest::Block(region) => Some(region),
            CommandRequest::Unblock(region) => Some(region),
            _ => None,
        }
    }

    /// Tells whether this request may be sent.
    pub fn is_valid(&self) -> (ok: bool)
        ensures
            ok == self@.valid(),
    {
        match self {
            CommandRequest::Block(region) => is_valid_region(region.as_str()),
            CommandRequest::Unblock(region) => is_valid_region(region.as_str()),
            _ => true,
        }
    }

    /// Encodes this request as its line. A request whose region token holds a
    /// forbidden character is refused, and no part of a line is produced for it.
    pub fn encode(&self) -> (r: Result<String, SidecarError>)
        ensures
            result_view(r) == self@.encoded(),
    {
        if !self.is_valid() {
            return Err(SidecarError::InvalidRegionToken);
        }
        let line = match self {
            CommandRequest::Status => String::from_str("status\n"),
            CommandRequest::Block(region) => String::from_str("block|").concat(
                region.as_str(),
            ).concat("\n"),
            CommandRequest::Unblock(region) => String::from_str("unblock|").concat(
                region.as_str(),
            ).concat("\n"),
            CommandRequest::UnblockAll => String::from_str("unblock-all\n"),
        };
        Ok(line)
    }
}

} // verus!
