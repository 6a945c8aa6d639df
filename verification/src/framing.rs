//! What holds of the lines of the protocol, and of a stream made of them.
//!
//! The helper process reads its input line by line. The laws here show that a
//! request that may be sent always occupies exactly one line with its fields
//! intact, that the line determines the request, and that a stream written one
//! whole line after another splits back into exactly those lines.

use vstd::prelude::*;
use crate::protocol::{valid_region, RequestView};

verus! {

/// Whether `line` is one complete line: it ends in a newline and holds no other.
pub open spec fn is_frame(line: Seq<char>) -> bool {
    &&& line.len() > 0
    &&& line.last() == '\n'
    &&& forall|i: int| 0 <= i < line.len() - 1 ==> #[trigger] line[i] != '\n'
}

/// The number of characters that stand before the region token in the line of
/// a request whose verb takes one.
pub open spec fn region_offset(req: RequestView) -> int {
    match req {
        RequestView::Block(_) => 6,
        RequestView::Unblock(_) => 8,
        _ => 0,
    }
}

/// The line of a request that may be sent is one complete line. The field
/// delimiter occurs in it only directly before the region token, and not at all
/// where the verb takes no region.
pub proof fn lemma_line_is_one_frame(req: RequestView)
    requires
        req.valid(),
    ensures
        is_frame(req.wire_line()),
        forall|i: int|
            0 <= i < req.wire_line().len() && #[trigger] req.wire_line()[i] == '|' ==> req.region()
                is Some && i == region_offset(req) - 1,
        req.region() matches Some(region) ==> req.wire_line().subrange(
            region_offset(req),
            region_offset(req) + region.len(),
        ) == region,
{
    reveal_strlit("status\n");
    reveal_strlit("block|");
    reveal_strlit("unblock|");
    reveal_strlit("unblock-all\n");
    reveal_strlit("\n");
    let line = req.wire_line();
    match req {
        RequestView::Block(region) => {
            assert forall|i: int| 0 <= i < line.len() - 1 implies #[trigger] line[i] != '\n' by {
                if i >= 6 {
                    assert(line[i] == region[i - 6]);
                }
            }
            assert forall|i: int| 0 <= i < line.len() && #[trigger] line[i] == '|' implies i
                == 5 by {
                if 6 <= i < line.len() - 1 {
                    assert(line[i] == region[i - 6]);
                }
            }
            assert(line.subrange(6, 6 + region.len() as int) =~= region);
        },
        RequestView::Unblock(region) => {
            assert forall|i: int| 0 <= i < line.len() - 1 implies #[trigger] line[i] != '\n' by {
                if i >= 8 {
                    assert(line[i] == region[i - 8]);
                }
            }
            assert forall|i: int| 0 <= i < line.len() && #[trigger] line[i] == '|' implies i
                == 7 by {
                if 8 <= i < line.len() - 1 {
                    assert(line[i] == region[i - 8]);
                }
            }
            assert(line.subrange(8, 8 + region.len() as int) =~= region);
        },
        _ => {},
    }
}

/// Two requests with the same line are the same request.
pub proof fn lemma_wire_line_injective(a: RequestView, b: RequestView)
    requires
        a.wire_line() == b.wire_line(),
    ensures
        a == b,
{
    reveal_strlit("status\n");
    reveal_strlit("block|");
    reveal_strlit("unblock|");
    reveal_strlit("unblock-all\n");
    reveal_strlit("\n");
    let la = a.wire_line();
    let lb = b.wire_line();
    assert(la[0] == lb[0]);
    assert(la.len() == lb.len());
    match (a, b) {
        (RequestView::Block(ra), RequestView::Block(rb)) => {
            assert(ra.len() == rb.len());
            assert forall|i: int| 0 <= i < ra.len() implies ra[i] == rb[i] by {
                assert(la[i + 6] == ra[i]);
                assert(lb[i + 6] == rb[i]);
            }
            assert(ra =~= rb);
        },
        (RequestView::Unblock(ra), RequestView::Unblock(rb)) => {
            assert(ra.len() == rb.len());
            assert forall|i: int| 0 <= i < ra.len() implies ra[i] == rb[i] by {
                assert(la[i + 8] == ra[i]);
                assert(lb[i + 8] == rb[i]);
            }
            assert(ra =~= rb);
        },
        (RequestView::Unblock(ra), RequestView::UnblockAll) => {
            assert(la[7] == lb[7]);
        },
        (RequestView::UnblockAll, RequestView::Unblock(rb)) => {
            assert(la[7] == lb[7]);
        },
        _ => {},
    }
}

/// Whether `line` carries `req`: `req` may be sent and `line` is its line.
pub open spec fn carries(line: Seq<char>, req: RequestView) -> bool {
    req.valid() && req.wire_line() == line
}

/// The request that a reader takes from `line`, if `line` carries one.
pub open spec fn request_of_line(line: Seq<char>) -> Option<RequestView> {
    if exists|req: RequestView| carries(line, req) {
        Some(choose|req: RequestView| carries(line, req))
    } else {
        None
    }
}

/// A reader of the line of a request that may be sent takes that very request
/// from it.
pub proof fn lemma_line_round_trip(req: RequestView)
    requires
        req.valid(),
    ensures
        request_of_line(req.wire_line()) == Some(req),
{
    let line = req.wire_line();
    assert(carries(line, req));
    let other = choose|r: RequestView| carries(line, r);
    lemma_wire_line_injective(other, req);
}

/// The stream that results from writing `lines` one after another.
pub open spec fn stream(lines: Seq<Seq<char>>) -> Seq<char>
    decreases lines.len(),
{
    if lines.len() == 0 {
        Seq::empty()
    } else {
        lines.first() + stream(lines.drop_first())
    }
}

/// The position of the first newline in `s`, or the length of `s` if it holds
/// none.
pub open spec fn first_newline(s: Seq<char>) -> int
    decreases s.len(),
{
    if s.len() == 0 {
        0
    } else if s[0] == '\n' {
        0
    } else {
        1 + first_newline(s.drop_first())
    }
}

/// The lines that a reader takes from the stream `s`: each runs up to and
/// including the next newline. Text after the last newline, if there is any,
/// comes out as a last, incomplete line.
pub open spec fn frames(s: Seq<char>) -> Seq<Seq<char>>
    decreases s.len(),
{
    let k = first_newline(s);
    if s.len() == 0 {
        Seq::empty()
    } else if 0 <= k < s.len() {
        seq![s.subrange(0, k + 1)] + frames(s.subrange(k + 1, s.len() as int))
    } else {
        seq![s]
    }
}

proof fn lemma_first_newline_at(s: Seq<char>, k: int)
    requires
        0 <= k < s.len(),
        s[k] == '\n',
        forall|i: int| 0 <= i < k ==> #[trigger] s[i] != '\n',
    ensures
        first_newline(s) == k,
    decreases k,
{
    if k > 0 {
        let rest = s.drop_first();
        assert(rest[k - 1] == s[k]);
        assert forall|i: int| 0 <= i < k - 1 implies #[trigger] rest[i] != '\n' by {
            assert(rest[i] == s[i + 1]);
        }
        lemma_first_newline_at(rest, k - 1);
    }
}

/// A stream written as whole lines, one after another, splits back into
/// exactly those lines: none is cut short and no two run together.
pub proof fn lemma_stream_splits_into_lines(lines: Seq<Seq<char>>)
    requires
        forall|i: int| 0 <= i < lines.len() ==> is_frame(#[trigger] lines[i]),
    ensures
        frames(stream(lines)) == lines,
    decreases lines.len(),
{
    if lines.len() == 0 {
        assert(frames(stream(lines)) =~= lines);
    } else {
        let head = lines.first();
        let tail = lines.drop_first();
        let s = stream(lines);
        assert forall|i: int| 0 <= i < tail.len() implies is_frame(#[trigger] tail[i]) by {
            assert(tail[i] == lines[i + 1]);
        }
        lemma_stream_splits_into_lines(tail);
        let k = head.len() - 1;
        assert forall|i: int| 0 <= i < k implies #[trigger] s[i] != '\n' by {
            assert(s[i] == head[i]);
        }
        lemma_first_newline_at(s, k);
        assert(s.subrange(0, k + 1) =~= head);
        assert(s.subrange(k + 1, s.len() as int) =~= stream(tail));
        assert(seq![head] + tail =~= lines);
    }
}

/// The lines of `requests`, in order.
pub open spec fn lines_of(requests: Seq<RequestView>) -> Seq<Seq<char>> {
    Seq::new(requests.len(), |i: int| requests[i].wire_line())
}

/// Whatever requests are dispatched, and in whatever order the guard admits
/// them, the reader of the resulting stream receives one complete line for
/// each, in that order, and takes from each line the request it was written
/// for.
pub proof fn lemma_stream_of_requests(requests: Seq<RequestView>)
    requires
        forall|i: int| 0 <= i < requests.len() ==> (#[trigger] requests[i]).valid(),
    ensures
        frames(stream(lines_of(requests))) == lines_of(requests),
        forall|i: int|
            0 <= i < requests.len() ==> request_of_line(
                #[trigger] frames(stream(lines_of(requests)))[i],
            ) == Some(requests[i]),
{
    let lines = lines_of(requests);
    assert forall|i: int| 0 <= i < lines.len() implies is_frame(#[trigger] lines[i]) by {
        lemma_line_is_one_frame(requests[i]);
    }
    lemma_stream_splits_into_lines(lines);
    assert forall|i: int| 0 <= i < requests.len() implies request_of_line(
        #[trigger] frames(stream(lines))[i],
    ) == Some(requests[i]) by {
        lemma_line_round_trip(requests[i]);
    }
}

/// Writing one run of lines after another gives the stream of the first
/// followed by the stream of the second.
pub proof fn lemma_stream_concat(first: Seq<Seq<char>>, second: Seq<Seq<char>>)
    ensures
        stream(first + second) == stream(first) + stream(second),
    decreases first.len(),
{
    if first.len() == 0 {
        assert(first + second =~= second);
        assert(stream(first) + stream(second) =~= stream(second));
    } else {
        lemma_stream_concat(first.drop_first(), second);
        assert((first + second).drop_first() =~= first.drop_first() + second);
        assert(stream(first + second) =~= stream(first) + stream(second));
    }
}

/// The regions that a helper process which keeps a plain set of blocked
/// regions holds after it has carried out `req`.
pub open spec fn blocked_after(blocked: Set<Seq<char>>, req: RequestView) -> Set<Seq<char>> {
    match req {
        RequestView::Status => blocked,
        RequestView::Block(region) => blocked.insert(region),
        RequestView::Unblock(region) => blocked.remove(region),
        RequestView::UnblockAll => Set::empty(),
    }
}

/// The regions that such a helper process holds after it has read `line`. A
/// line that carries no request changes nothing.
pub open spec fn blocked_after_line(blocked: Set<Seq<char>>, line: Seq<char>) -> Set<Seq<char>> {
    match request_of_line(line) {
        Some(req) => blocked_after(blocked, req),
        None => blocked,
    }
}

/// Blocking a region that was not blocked and then unblocking it leaves the
/// helper process with the regions it held before.
pub proof fn lemma_block_then_unblock_restores(blocked: Set<Seq<char>>, region: Seq<char>)
    requires
        valid_region(region),
        !blocked.contains(region),
    ensures
        blocked_after_line(
            blocked_after_line(blocked, RequestView::Block(region).wire_line()),
            RequestView::Unblock(region).wire_line(),
        ) == blocked,
{
    lemma_line_round_trip(RequestView::Block(region));
    lemma_line_round_trip(RequestView::Unblock(region));
    assert(blocked.insert(region).remove(region) =~= blocked);
}

} // verus!
