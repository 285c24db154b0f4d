//! Hierarchical instrumentation: scoped timing of named phases.
//!
//! A span is a named node in a call's timing tree, with monotonic start and
//! end timestamps in nanoseconds.  A span is closed strictly after it
//! starts and after its last child closes, children sit inside their
//! parent's interval and appear in execution order, and an unfinished span
//! carries a zero end time.  The clock can only be read, never promised
//! anything, so closing a span nudges its end time forward when the clock
//! reading would not respect the order already recorded.
use vstd::prelude::*;

verus! {

/// Clock readings are clamped below this bound (far beyond any realistic
/// nanosecond timestamp) so that the bookkeeping that nudges end times
/// forward always has room to do so.
pub const TIME_CAP: u64 = 0x4000_0000_0000_0000;

/// Relies on std's `SystemTime::now` and `duration_since` the epoch: a wall
/// clock reading in nanoseconds.  Nothing is promised of it; a reading
/// before the epoch comes back as zero.
#[verifier::external_body]
fn now_nanos() -> u64 {
    std::time::SystemTime::now().duration_since(std::time::SystemTime::UNIX_EPOCH).map_or(
        0,
        |d| d.as_nanos() as u64,
    )
}

/// A clock reading, clamped below `TIME_CAP`.
fn now_capped() -> (t: u64)
    ensures
        t < TIME_CAP,
{
    let t = now_nanos();
    if t < TIME_CAP {
        t
    } else {
        TIME_CAP - 1
    }
}

/// A named, timed node in a call's timing tree.
#[derive(Debug)]
pub struct Span {
    pub name: String,
    pub start_time: u64,
    pub end_time: u64,
    pub children: Vec<Span>,
}

/// The earliest time at which an event may be recorded under a span
/// without disturbing what it already holds: its start, or its last
/// child's end.
pub open spec fn span_floor(s: Span) -> u64 {
    if s.children@.len() == 0 {
        s.start_time
    } else {
        let le = s.children@.last().end_time;
        if le > s.start_time {
            le
        } else {
            s.start_time
        }
    }
}

/// Whether the children recorded under a span are closed, appear in
/// execution order — each starting no earlier than the span itself and no
/// earlier than the previous child's end — and are well-formed throughout.
pub open spec fn span_children_wf(cs: Seq<Span>, parent_start: u64) -> bool
    decreases cs,
{
    &&& forall|i: int| 0 <= i < cs.len() ==> span_closed_wf(#[trigger] cs[i])
    &&& forall|i: int|
        0 <= i < cs.len() ==> (#[trigger] cs[i]).start_time >= (if i == 0 {
            parent_start
        } else {
            cs[i - 1].end_time
        })
}

/// Whether a span is closed and well-formed: it ends strictly after it
/// starts, its children are closed, nested inside its interval, and in
/// execution order, recursively.
pub open spec fn span_closed_wf(s: Span) -> bool
    decreases s,
{
    &&& s.start_time < s.end_time
    &&& span_children_wf(s.children@, s.start_time)
    &&& forall|i: int|
        0 <= i < s.children@.len() ==> (#[trigger] s.children@[i]).end_time <= s.end_time
}

/// Whether a span is open and well-formed: not yet ended, started below
/// `u64::MAX`, with closed, ordered children.
pub open spec fn span_open_wf(s: Span) -> bool {
    &&& s.end_time == 0
    &&& s.start_time < u64::MAX
    &&& span_children_wf(s.children@, s.start_time)
}

/// In a span with well-formed, ordered children, end times never decrease
/// from one child to a later one.
pub proof fn lemma_span_ends_increase(s: Span, i: int, j: int)
    requires
        span_children_wf(s.children@, s.start_time),
        0 <= i <= j < s.children@.len(),
    ensures
        s.children@[i].end_time <= s.children@[j].end_time,
    decreases j - i,
{
    if i < j {
        lemma_span_ends_increase(s, i, j - 1);
        assert(s.children@[j].start_time >= s.children@[j - 1].end_time);
        assert(s.children@[j].start_time < s.children@[j].end_time);
    }
}

/// In a span with well-formed, ordered children, every child starts no
/// earlier than the span itself: the whole chain of intervals sits at or
/// after the span's start.
pub proof fn lemma_span_children_after_start(s: Span, i: int)
    requires
        span_children_wf(s.children@, s.start_time),
        0 <= i < s.children@.len(),
    ensures
        s.children@[i].start_time >= s.start_time,
    decreases i,
{
    if i > 0 {
        lemma_span_children_after_start(s, i - 1);
        assert(s.children@[i].start_time >= s.children@[i - 1].end_time);
        assert(s.children@[i - 1].end_time > s.children@[i - 1].start_time);
    }
}

/// Every child's end time stays at or below the span's floor.
pub proof fn lemma_span_ends_le_floor(s: Span, i: int)
    requires
        span_children_wf(s.children@, s.start_time),
        0 <= i < s.children@.len(),
    ensures
        s.children@[i].end_time <= span_floor(s),
{
    lemma_span_ends_increase(s, i, s.children@.len() - 1);
}

impl Span {
    /// A fresh open span, started at the clock's current reading.
    pub fn new(name: &str) -> (s: Span)
        ensures
            span_open_wf(s),
            s.name@ == name@,
            s.children@.len() == 0,
            s.start_time < TIME_CAP,
    {
        Span { name: name.to_owned(), start_time: now_capped(), end_time: 0, children: Vec::new() }
    }

    /// A fresh open span that starts no earlier than `floor`, so that it
    /// can be recorded after events already timed: the clock's reading, or
    /// `floor` itself if the clock lags behind it.
    pub fn new_after(name: &str, floor: u64) -> (s: Span)
        requires
            floor < u64::MAX,
        ensures
            span_open_wf(s),
            s.name@ == name@,
            s.children@.len() == 0,
            s.start_time >= floor,
            s.start_time as int <= vstd::math::max(floor as int, TIME_CAP as int - 1),
    {
        let t = now_capped();
        let start = if t > floor {
            t
        } else {
            floor
        };
        Span { name: name.to_owned(), start_time: start, end_time: 0, children: Vec::new() }
    }

    /// The earliest time an event may be recorded under this span.
    pub fn child_floor(&self) -> (f: u64)
        ensures
            f == span_floor(*self),
    {
        if self.children.len() == 0 {
            self.start_time
        } else {
            let le = self.children[self.children.len() - 1].end_time;
            if le > self.start_time {
                le
            } else {
                self.start_time
            }
        }
    }

    /// Closes the span: the end time is the clock's reading, nudged up to
    /// land strictly after the span's start and at or after its last
    /// child's end, whatever the clock returned.
    pub fn end(&mut self)
        requires
            span_open_wf(*old(self)),
        ensures
            span_closed_wf(*final(self)),
            final(self).name == old(self).name,
            final(self).start_time == old(self).start_time,
            final(self).children == old(self).children,
            final(self).end_time as int <= vstd::math::max(
                span_floor(*old(self)) as int + 1,
                TIME_CAP as int,
            ),
    {
        let lo = self.child_floor();
        let t = now_capped();
        if lo < u64::MAX {
            self.end_time = if t > lo {
                t
            } else {
                lo + 1
            };
        } else {
            self.end_time = u64::MAX;
        }
        proof {
            assert forall|i: int| 0 <= i < self.children@.len() implies (
            #[trigger] self.children@[i]).end_time <= self.end_time by {
                lemma_span_ends_le_floor(*self, i);
            }
        }
    }

    /// Records a closed span as the last child: it must start at or after
    /// everything already recorded here.
    pub fn add_child(&mut self, child: Span)
        requires
            span_open_wf(*old(self)),
            span_closed_wf(child),
            child.start_time >= span_floor(*old(self)),
        ensures
            span_open_wf(*final(self)),
            final(self).name == old(self).name,
            final(self).start_time == old(self).start_time,
            final(self).end_time == old(self).end_time,
            final(self).children@ == old(self).children@.push(child),
            span_floor(*final(self)) == child.end_time,
    {
        proof {
            if old(self).children@.len() > 0 {
                lemma_span_ends_le_floor(*old(self), old(self).children@.len() - 1);
            }
        }
        self.children.push(child);
        proof {
            let s = *self;
            assert(s.children@.last() == child);
            assert forall|i: int| 0 <= i < s.children@.len() implies span_closed_wf(
                #[trigger] s.children@[i],
            ) by {
                if i < s.children@.len() - 1 {
                    assert(s.children@[i] == old(self).children@[i]);
                }
            }
            lemma_span_children_after_start(s, s.children@.len() - 1);
        }
    }
}

} // verus!

verus! {

/// The timing tree of one layout call being built: an open root span and,
/// while a phase runs, the open span of that phase.  The pipeline has
/// three phases — building the engine tree, computing the layout,
/// collecting the output — so at most three children are ever recorded.
pub struct LayoutTrace {
    pub root: Span,
    pub current: Option<Span>,
}

/// The invariant of a trace under construction: the root is open and
/// started from a clamped clock reading, at most three phases are
/// recorded, the bookkeeping floor has not run away from the clock cap,
/// and any phase in flight is open, childless and starts after everything
/// recorded.
pub open spec fn trace_inv(t: LayoutTrace) -> bool {
    &&& span_open_wf(t.root)
    &&& t.root.start_time < TIME_CAP
    &&& t.root.children@.len() <= 3
    &&& span_floor(t.root) as int <= TIME_CAP as int + t.root.children@.len()
    &&& match t.current {
        Some(c) => span_open_wf(c) && c.children@.len() == 0 && c.start_time >= span_floor(t.root)
            && c.start_time as int <= TIME_CAP as int + t.root.children@.len()
            && t.root.children@.len() < 3,
        None => true,
    }
}

impl LayoutTrace {
    /// A fresh trace for one layout call, its root span started now.
    pub fn start() -> (t: LayoutTrace)
        ensures
            trace_inv(t),
            t.current is None,
            t.root.children@.len() == 0,
            t.root.name@ == "layout"@,
    {
        LayoutTrace { root: Span::new("layout"), current: None }
    }

    /// Opens the span of the next phase.  At most three phases fit in one
    /// trace, and no two can be open at once.
    pub fn begin_phase(&mut self, name: &str)
        requires
            trace_inv(*old(self)),
            old(self).current is None,
            old(self).root.children@.len() < 3,
        ensures
            trace_inv(*final(self)),
            final(self).root == old(self).root,
            final(self).current matches Some(c) && c.name@ == name@,
    {
        let floor = self.root.child_floor();
        let c = Span::new_after(name, floor);
        self.current = Some(c);
    }

    /// Closes the span of the phase in flight and records it as the root's
    /// next child, in execution order.
    pub fn end_phase(&mut self)
        requires
            trace_inv(*old(self)),
            old(self).current is Some,
        ensures
            trace_inv(*final(self)),
            final(self).current is None,
            final(self).root.name == old(self).root.name,
            final(self).root.start_time == old(self).root.start_time,
            old(self).current matches Some(c) ==> {
                let recorded = final(self).root.children@.last();
                &&& final(self).root.children@ == old(self).root.children@.push(recorded)
                &&& span_closed_wf(recorded)
                &&& recorded.name == c.name
                &&& recorded.start_time == c.start_time
            },
    {
        let c = self.current.take();
        match c {
            Some(mut span) => {
                span.end();
                self.root.add_child(span);
            },
            None => {},
        }
    }

    /// Closes the root span and hands the finished timing tree out: a
    /// closed, well-formed span tree whose end lies strictly after its
    /// start and covers every recorded phase.
    pub fn finish(self) -> (r: Span)
        requires
            trace_inv(self),
            self.current is None,
        ensures
            span_closed_wf(r),
            r.start_time < r.end_time,
            r.name == self.root.name,
            r.start_time == self.root.start_time,
            r.children == self.root.children,
    {
        let mut root = self.root;
        root.end();
        root
    }
}

} // verus!

verus! {

/// In a closed, well-formed span, every child's interval lies inside the
/// parent's interval, and children follow one another in time: each starts
/// no earlier than the previous one ended.
pub proof fn lemma_span_intervals_nested(s: Span, i: int)
    requires
        span_closed_wf(s),
        0 <= i < s.children@.len(),
    ensures
        s.start_time <= s.children@[i].start_time,
        s.children@[i].start_time < s.children@[i].end_time,
        s.children@[i].end_time <= s.end_time,
        i > 0 ==> s.children@[i - 1].end_time <= s.children@[i].start_time,
{
    lemma_span_children_after_start(s, i);
    assert(span_closed_wf(s.children@[i]));
}

} // verus!
