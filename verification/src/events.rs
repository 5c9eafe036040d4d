//! Per-frame event draining.
//!
//! Each frame, the embedder collects the window events the OS delivered and
//! hands them to [`drain_events`]. The drain intercepts close requests,
//! resize events and scale-factor changes; every other event is handed back,
//! in order, for the application's own event handler. Once a close request is
//! seen, the rest of the drain is ignored: no later event of the same drain
//! is forwarded or recorded.

use vstd::prelude::*;

use crate::geometry::LogicalSize;
use crate::geometry::ScaleFactor;

verus! {

/// One window event, as the driver sees it. `E` is the embedder's type for
/// the events the driver does not intercept.
#[derive(Debug)]
pub enum WindowEvent<E> {
    CloseRequested,
    Resized(LogicalSize),
    HiDpiFactorChanged(ScaleFactor),
    Other(E),
}

/// What one drain of pending events produced.
#[derive(Debug)]
pub struct DrainOutcome<E> {
    /// A close request was seen.
    pub close_requested: bool,
    /// The payload of the last resize event seen before any close request.
    pub new_size: Option<LogicalSize>,
    /// The payload of the last scale-factor change seen before any close
    /// request.
    pub new_hidpi_factor: Option<ScaleFactor>,
    /// The non-intercepted events seen before any close request, in order.
    pub forwarded: Vec<E>,
}

/// Whether the events hold a close request.
pub open spec fn has_close<E>(s: Seq<WindowEvent<E>>) -> bool {
    exists|i: int| 0 <= i < s.len() && s[i] is CloseRequested
}

/// How many events stand before the first close request (all of them if
/// there is none). Only these are handled by a drain.
pub open spec fn handled_len<E>(s: Seq<WindowEvent<E>>) -> int
    decreases s.len(),
{
    if s.len() == 0 {
        0
    } else if s[0] is CloseRequested {
        0
    } else {
        1 + handled_len(s.drop_first())
    }
}

/// The prefix of the events that a drain handles: everything before the
/// first close request.
pub open spec fn handled<E>(s: Seq<WindowEvent<E>>) -> Seq<WindowEvent<E>> {
    s.take(handled_len(s))
}

/// The payload of the last resize event, if any.
pub open spec fn last_resize<E>(s: Seq<WindowEvent<E>>) -> Option<LogicalSize>
    decreases s.len(),
{
    if s.len() == 0 {
        None
    } else {
        match s.last() {
            WindowEvent::Resized(size) => Some(size),
            _ => last_resize(s.drop_last()),
        }
    }
}

/// The payload of the last scale-factor change, if any.
pub open spec fn last_scale_change<E>(s: Seq<WindowEvent<E>>) -> Option<ScaleFactor>
    decreases s.len(),
{
    if s.len() == 0 {
        None
    } else {
        match s.last() {
            WindowEvent::HiDpiFactorChanged(factor) => Some(factor),
            _ => last_scale_change(s.drop_last()),
        }
    }
}

/// The payloads of the non-intercepted events, in order.
pub open spec fn forwarded_payloads<E>(s: Seq<WindowEvent<E>>) -> Seq<E>
    decreases s.len(),
{
    if s.len() == 0 {
        Seq::empty()
    } else {
        match s.last() {
            WindowEvent::Other(payload) => forwarded_payloads(s.drop_last()).push(payload),
            _ => forwarded_payloads(s.drop_last()),
        }
    }
}

/// `handled_len` is the position of the first close request: it counts
/// exactly the close-free prefix.
proof fn lemma_handled_len_at<E>(s: Seq<WindowEvent<E>>, i: int)
    requires
        0 <= i <= s.len(),
        forall|j: int| 0 <= j < i ==> !(s[j] is CloseRequested),
        i < s.len() ==> s[i] is CloseRequested,
    ensures
        handled_len(s) == i,
    decreases i,
{
    if i == 0 {
    } else {
        assert(!(s[0] is CloseRequested));
        let t = s.drop_first();
        assert(forall|j: int| 0 <= j < i - 1 ==> t[j] == s[j + 1] && !(s[j + 1] is CloseRequested));
        assert(i - 1 < t.len() ==> t[i - 1] is CloseRequested);
        lemma_handled_len_at(t, i - 1);
    }
}

/// No event at or after a close request is handled.
pub proof fn lemma_no_handling_after_close<E>(s: Seq<WindowEvent<E>>, i: int)
    requires
        0 <= i < s.len(),
        s[i] is CloseRequested,
    ensures
        handled_len(s) <= i,
    decreases i,
{
    if s[0] is CloseRequested {
    } else {
        let t = s.drop_first();
        assert(t[i - 1] == s[i]);
        lemma_no_handling_after_close(t, i - 1);
    }
}

/// Drain one frame's pending events. Intercepts close requests, resizes and
/// scale-factor changes; hands every other event back in order. Events after
/// the first close request of the drain are ignored.
pub fn drain_events<E>(events: Vec<WindowEvent<E>>) -> (r: DrainOutcome<E>)
    ensures
        r.close_requested == has_close(events@),
        r.new_size == last_resize(handled(events@)),
        r.new_hidpi_factor == last_scale_change(handled(events@)),
        r.forwarded@ == forwarded_payloads(handled(events@)),
{
    let ghost all = events@;
    let mut rest = events;
    let mut close_requested = false;
    let mut new_size: Option<LogicalSize> = None;
    let mut new_hidpi_factor: Option<ScaleFactor> = None;
    let mut forwarded: Vec<E> = Vec::new();
    let ghost mut i: int = 0;

    while !close_requested && rest.len() > 0
        invariant
            0 <= i <= all.len(),
            rest@ == all.skip(i),
            !close_requested ==> {
                &&& forall|j: int| 0 <= j < i ==> !(all[j] is CloseRequested)
                &&& new_size == last_resize(all.take(i))
                &&& new_hidpi_factor == last_scale_change(all.take(i))
                &&& forwarded@ == forwarded_payloads(all.take(i))
            },
            close_requested ==> {
                &&& 1 <= i
                &&& all[i - 1] is CloseRequested
                &&& forall|j: int| 0 <= j < i - 1 ==> !(all[j] is CloseRequested)
                &&& new_size == last_resize(all.take(i - 1))
                &&& new_hidpi_factor == last_scale_change(all.take(i - 1))
                &&& forwarded@ == forwarded_payloads(all.take(i - 1))
            },
        decreases rest.len(),
    {
        let e = rest.remove(0);
        proof {
            assert(all.skip(i).remove(0) =~= all.skip(i + 1));
            assert(e == all[i]);
            assert(all.take(i + 1).drop_last() =~= all.take(i));
            assert(all.take(i + 1).last() == all[i]);
        }
        match e {
            WindowEvent::CloseRequested => {
                close_requested = true;
            },
            WindowEvent::Resized(size) => {
                new_size = Some(size);
            },
            WindowEvent::HiDpiFactorChanged(factor) => {
                new_hidpi_factor = Some(factor);
            },
            WindowEvent::Other(payload) => {
                forwarded.push(payload);
            },
        }
        proof {
            i = i + 1;
        }
    }

    proof {
        if close_requested {
            lemma_handled_len_at(all, i - 1);
            assert(handled(all) =~= all.take(i - 1));
        } else {
            assert(i == all.len()) by {
                assert(rest@.len() == 0);
                assert(all.skip(i).len() == all.len() - i);
            }
            assert(forall|j: int| 0 <= j < all.len() ==> !(all[j] is CloseRequested));
            lemma_handled_len_at(all, all.len() as int);
            assert(handled(all) =~= all.take(all.len() as int));
            assert(all.take(all.len() as int) =~= all);
        }
    }

    DrainOutcome { close_requested, new_size, new_hidpi_factor, forwarded }
}

} // verus!
