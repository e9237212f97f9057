use vstd::prelude::*;

verus! {

use crate::consts::{CHUNK_SIZE, TIME_INFINITY};

/// A time-sorted sequence of `(timestamp, payload)` events with a
/// monotonically advancing read cursor.  `events_this_chunk` exposes the
/// sub-range of events whose timestamps fall inside the chunk that starts
/// at the queried time; the cursor never moves backwards, so querying an
/// earlier time than one already consumed is unsupported.
pub struct EventSource<T> {
    events: Vec<(u64, T)>,
    cursor: usize,
    last_time: u64,
}

/// Non-decreasing by timestamp.
pub open spec fn sorted_by_time<T>(evs: Seq<(u64, T)>) -> bool {
    forall|i: int, j: int| 0 <= i <= j < evs.len() ==> evs[i].0 <= evs[j].0
}

/// The end of the chunk window that starts at index `from`: the first
/// index at or past `from` whose event lies at or beyond
/// `time + CHUNK_SIZE`.
pub open spec fn window_end<T>(evs: Seq<(u64, T)>, from: int, time: u64) -> int
    decreases evs.len() - from,
{
    if 0 <= from < evs.len() && evs[from].0 < time + CHUNK_SIZE {
        window_end(evs, from + 1, time)
    } else {
        from
    }
}

/// An index range whose members all lie before the window limit and
/// whose first outsider lies at or past it is exactly the range
/// `window_end` computes.
pub proof fn lemma_window_end_agrees<T>(evs: Seq<(u64, T)>, start: int, end: int, time: u64)
    requires
        0 <= start <= end <= evs.len(),
        forall|i: int| start <= i < end ==> #[trigger] evs[i].0 < time + CHUNK_SIZE,
        end < evs.len() ==> evs[end as int].0 >= time + CHUNK_SIZE,
    ensures
        window_end(evs, start, time) == end,
    decreases end - start,
{
    if start < end {
        lemma_window_end_agrees(evs, start + 1, end, time);
    }
}

/// The first index at or past `from` whose event lies at or beyond
/// `time`: where the cursor stands once the events before `time` are
/// skipped.
pub open spec fn skip_to<T>(evs: Seq<(u64, T)>, from: int, time: u64) -> int
    decreases evs.len() - from,
{
    if 0 <= from < evs.len() && evs[from].0 < time {
        skip_to(evs, from + 1, time)
    } else {
        from
    }
}

/// An index range whose members all lie before `time` and whose first
/// outsider lies at or past it is exactly the skip `skip_to` computes.
pub proof fn lemma_skip_to_agrees<T>(evs: Seq<(u64, T)>, start: int, end: int, time: u64)
    requires
        0 <= start <= end <= evs.len(),
        forall|i: int| start <= i < end ==> #[trigger] evs[i].0 < time,
        end < evs.len() ==> evs[end as int].0 >= time,
    ensures
        skip_to(evs, start, time) == end,
    decreases end - start,
{
    if start < end {
        lemma_skip_to_agrees(evs, start + 1, end, time);
    }
}

/// How one query at `time` relates a source's state after the call to
/// its state before: the events are untouched, the query time is
/// recorded, the cursor has moved (only forward) past exactly the events
/// before `time`, and a repeated query leaves the source as it was.
pub open spec fn source_advanced<T>(pre: EventSource<T>, post: EventSource<T>, time: u64) -> bool {
    &&& post.wf()
    &&& post@ == pre@
    &&& post.last_queried() == time
    &&& post.consumed() >= pre.consumed()
    &&& pre.last_queried() == time ==> post == pre
}

/// The chunk windows of a whole bank of sources.
pub open spec fn windows_of<T>(sources: Seq<EventSource<T>>, time: u64) -> Seq<Seq<(u64, T)>> {
    sources.map_values(|s: EventSource<T>| s.chunk_window(time))
}

impl<T> View for EventSource<T> {
    type V = Seq<(u64, T)>;

    closed spec fn view(&self) -> Seq<(u64, T)> {
        self.events@
    }
}

impl<T> EventSource<T> {
    /// The time of the most recent query, or `TIME_INFINITY` before the
    /// first query.
    pub closed spec fn last_queried(&self) -> u64 {
        self.last_time
    }

    /// How many leading events the cursor has consumed.
    pub closed spec fn consumed(&self) -> int {
        self.cursor as int
    }

    /// The source's state after one query at `time`: the cursor skipped
    /// past everything before `time`, the query time recorded.  A query
    /// is a pure function of the source's state and the time, which is
    /// what lets repeated in-tick queries return the identical window.
    pub closed spec fn advanced_image(self, time: u64) -> EventSource<T> {
        EventSource {
            events: self.events,
            cursor: skip_to(self.events@, self.cursor as int, time) as usize,
            last_time: time,
        }
    }

    pub closed spec fn wf(&self) -> bool {
        &&& sorted_by_time(self@)
        &&& self.cursor <= self@.len()
        &&& self.last_time == TIME_INFINITY ==> self.cursor == 0
        &&& self.last_time != TIME_INFINITY ==> {
            &&& forall|i: int| 0 <= i < self.cursor ==> self@[i].0 < self.last_time
            &&& self.cursor < self@.len() ==> self@[self.cursor as int].0 >= self.last_time
        }
    }

    /// Construction demands a sorted sequence: an unsorted one is a
    /// caller error that must be rejected before rendering starts.
    pub fn new(events: Vec<(u64, T)>) -> (s: EventSource<T>)
        requires
            sorted_by_time(events@),
        ensures
            s.wf(),
            s@ == events@,
            s.consumed() == 0,
            s.last_queried() == TIME_INFINITY,
    {
        EventSource { events, cursor: 0, last_time: TIME_INFINITY }
    }

    /// Whether a candidate event sequence is non-decreasing by timestamp.
    pub fn is_sorted(events: &Vec<(u64, T)>) -> (r: bool)
        ensures
            r == sorted_by_time(events@),
    {
        if events.len() == 0 {
            return true;
        }
        let mut max: u64 = events[0].0;
        let mut i: usize = 1;
        while i < events.len()
            invariant
                1 <= i <= events@.len(),
                max == events@[i - 1].0,
                forall|p: int, q: int| 0 <= p <= q < i ==> events@[p].0 <= events@[q].0,
            decreases events@.len() - i,
        {
            if events[i].0 < max {
                return false;
            }
            max = events[i].0;
            i = i + 1;
        }
        true
    }

    /// The events of the chunk `[time, time + CHUNK_SIZE)`, as an index
    /// range into the sequence.  On the first query of a new time the
    /// cursor first skips past everything strictly before `time`; a
    /// repeated query at the same time changes nothing and returns the
    /// identical range.
    pub fn events_this_chunk(&mut self, time: u64) -> (r: (usize, usize))
        requires
            old(self).wf(),
            time + CHUNK_SIZE <= u64::MAX,
            old(self).last_queried() != TIME_INFINITY ==> time >= old(self).last_queried(),
        ensures
            final(self).wf(),
            final(self)@ == old(self)@,
            final(self).last_queried() == time,
            r.0 == final(self).consumed(),
            final(self).consumed() >= old(self).consumed(),
            r.0 <= r.1 <= old(self)@.len(),
            forall|i: int| r.0 <= i < r.1 ==> time <= #[trigger] old(self)@[i].0 < time + CHUNK_SIZE,
            forall|i: int| 0 <= i < r.0 ==> #[trigger] old(self)@[i].0 < time,
            forall|i: int| r.1 <= i < old(self)@.len() ==> #[trigger] old(self)@[i].0 >= time + CHUNK_SIZE,
            old(self).last_queried() == time ==> *final(self) == *old(self),
            *final(self) == old(self).advanced_image(time),
    {
        let time_limit: u64 = time + (CHUNK_SIZE as u64);
        if self.last_time != time {
            self.last_time = time;
            // Skip past all events before the current time.  In normal
            // operation the previous chunk's window already consumed
            // them, so this is a defensive no-op.
            while self.cursor < self.events.len() && self.events[self.cursor].0 < time
                invariant
                    self.events == old(self).events,
                    self@ == old(self)@,
                    self.cursor >= old(self).consumed(),
                    self.cursor <= self.events@.len(),
                    self.last_time == time,
                    forall|i: int| 0 <= i < self.cursor ==> #[trigger] self.events@[i].0 < time,
                decreases self.events@.len() - self.cursor,
            {
                self.cursor = self.cursor + 1;
            }
        }
        proof {
            assert(forall|i: int|
                0 <= i < self.cursor ==> #[trigger] self.events@[i].0 < time);
            assert(self.cursor < self.events@.len()
                ==> self.events@[self.cursor as int].0 >= time);
            lemma_skip_to_agrees(
                self.events@,
                old(self).consumed(),
                self.cursor as int,
                time,
            );
        }
        let start: usize = self.cursor;
        let mut end: usize = start;
        while end < self.events.len() && self.events[end].0 < time_limit
            invariant
                self.events == old(self).events,
                self.cursor == start,
                self.last_time == time,
                self@ == old(self)@,
                start <= end <= self.events@.len(),
                forall|i: int| start <= i < end ==> #[trigger] self.events@[i].0 < time_limit,
            decreases self.events@.len() - end,
        {
            end = end + 1;
        }
        proof {
            assert forall|i: int| start <= i < end implies
                time <= #[trigger] self.events@[i].0 < time_limit by {
                assert(self.events@[start as int].0 >= time);
                assert(self.events@[start as int].0 <= self.events@[i].0);
            }
            assert forall|i: int| end <= i < self.events@.len() implies
                #[trigger] self.events@[i].0 >= time_limit by {
                assert(self.events@[end as int].0 >= time_limit);
                assert(self.events@[end as int].0 <= self.events@[i].0);
            }
        }
        (start, end)
    }

    /// The event at one index.
    pub fn event_at(&self, i: usize) -> (e: (u64, T))
        where T: Copy
        requires
            i < self@.len(),
        ensures
            e == self@[i as int],
    {
        self.events[i]
    }

    /// The events of the chunk starting at `time`, as this source hands
    /// them out once its cursor stands at the window start: the sub-range
    /// from the cursor to the first event at or past the window's end.
    pub open spec fn chunk_window(&self, time: u64) -> Seq<(u64, T)>
        recommends
            self.wf(),
    {
        self@.subrange(self.consumed(), window_end(self@, self.consumed(), time))
    }

    /// A copy of the index range `[start, end)`, as handed out by
    /// `events_this_chunk`.
    pub fn copy_window(&self, start: usize, end: usize) -> (w: Vec<(u64, T)>)
        where T: Copy
        requires
            start <= end <= self@.len(),
        ensures
            w@ == self@.subrange(start as int, end as int),
    {
        let mut w: Vec<(u64, T)> = Vec::new();
        let mut i: usize = start;
        while i < end
            invariant
                start <= i <= end <= self@.len(),
                w@ == self@.subrange(start as int, i as int),
            decreases end - i,
        {
            w.push(self.events[i]);
            i = i + 1;
        }
        w
    }
}

} // verus!
