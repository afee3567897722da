//! The bounded, truncation-aware history of terminal output.
//!
//! `HistoryState` is the sequential core: a capacity-bounded log with an
//! eviction policy and a one-shot truncation warning, specified exactly by
//! [`push_result`]. `HistoryBuffer` wraps the core in a reader-writer lock
//! behind a shared handle, so that the command echo and the two stream
//! readers can push concurrently while readers take consistent snapshots;
//! the lock invariant keeps every observable state well formed, so the
//! capacity bound holds at every point in time.

use std::sync::Arc;

use vstd::prelude::*;
use vstd::rwlock::{RwLock, RwLockPredicate};
use vstd::string::*;

use crate::output::{models, notification_contains, LineModel, NotificationLevel, OutputLine};
use crate::text::{dec_str, seq_contains, u64_to_dec};

verus! {

/// Milliseconds since the Unix epoch, right now.
///
/// Relies on std::time::SystemTime: the system clock read is reported as a
/// duration since the epoch (zero if the clock is set before the epoch).
/// Nothing can be promised about the value, so no contract is given.
#[verifier::external_body]
pub fn current_timestamp_ms() -> u64 {
    std::time::SystemTime::now()
        .duration_since(std::time::UNIX_EPOCH)
        .unwrap_or_default()
        .as_millis() as u64
}

/// Default capacity for the history buffer.
pub const DEFAULT_CAPACITY: usize = 10000;

/// The message of the one-shot truncation warning for a given capacity.
pub open spec fn truncation_message(cap: int) -> Seq<char> {
    "Output truncated: line limit ("@ + dec_str(cap as nat) + ") exceeded"@
}

/// The model of the warning line inserted the first time the buffer
/// overflows.
pub open spec fn truncation_model(cap: int, now: u64) -> LineModel {
    LineModel::Notification {
        message: truncation_message(cap),
        level: NotificationLevel::Warning,
        timestamp: now,
    }
}

/// Keep only the most recent `cap` entries of `s`, dropping from the front.
pub open spec fn capped(s: Seq<LineModel>, cap: int) -> Seq<LineModel> {
    if s.len() <= cap {
        s
    } else {
        s.skip(s.len() - cap)
    }
}

/// The contents of the buffer after one push: the new line is appended; the
/// first time the buffer is found at capacity a warning line is appended
/// just before it; and the front is evicted until the capacity holds again.
pub open spec fn push_result(
    s: Seq<LineModel>,
    cap: int,
    warned: bool,
    line: LineModel,
    now: u64,
) -> Seq<LineModel> {
    if !warned && s.len() >= cap {
        capped(s.push(truncation_model(cap, now)).push(line), cap)
    } else {
        capped(s.push(line), cap)
    }
}

/// The one-shot flag after one push: set as soon as a push finds the buffer
/// at capacity, and never reset except by `clear`.
pub open spec fn flag_after(warned: bool, len: int, cap: int) -> bool {
    warned || len >= cap
}

/// The sequential core of the history: an ordered log of output lines,
/// capped at a fixed capacity, with the one-shot truncation flag.
pub struct HistoryState {
    lines: Vec<OutputLine>,
    max_capacity: usize,
    truncation_warning_shown: bool,
}

impl View for HistoryState {
    type V = Seq<LineModel>;

    closed spec fn view(&self) -> Seq<LineModel> {
        models(self.lines@)
    }
}

impl HistoryState {
    /// The fixed capacity this log was created with.
    pub closed spec fn capacity(&self) -> int {
        self.max_capacity as int
    }

    /// Whether the one-shot truncation warning has been spent.
    pub closed spec fn warned(&self) -> bool {
        self.truncation_warning_shown
    }

    /// A well-formed log never holds more lines than its capacity.
    pub open spec fn wf(&self) -> bool {
        1 <= self.capacity() && self@.len() <= self.capacity()
    }

    /// An empty log with the given capacity.
    pub fn new(max_capacity: usize) -> (s: Self)
        requires
            1 <= max_capacity,
        ensures
            s.wf(),
            s@ == Seq::<LineModel>::empty(),
            s.capacity() == max_capacity as int,
            !s.warned(),
    {
        let s = HistoryState {
            lines: Vec::new(),
            max_capacity,
            truncation_warning_shown: false,
        };
        proof {
            assert(s@ =~= Seq::<LineModel>::empty());
        }
        s
    }

    /// The warning line recording that this log began evicting lines.
    fn warning_line(&self, now: u64) -> (l: OutputLine)
        ensures
            l@ == truncation_model(self.capacity(), now),
    {
        let mut message = "Output truncated: line limit (".to_owned();
        let rendered_cap = u64_to_dec(self.max_capacity as u64);
        message.append(rendered_cap.as_str());
        message.append(") exceeded");
        proof {
            assert(message@ =~= truncation_message(self.capacity()));
        }
        OutputLine::Notification {
            message,
            level: NotificationLevel::Warning,
            timestamp: now,
        }
    }

    /// Append `line`, evicting from the front as needed so the capacity is
    /// never exceeded, and spending the one-shot warning on the first
    /// overflow. `now` stamps the warning line, if one is inserted.
    pub fn push(&mut self, line: OutputLine, now: u64)
        requires
            old(self).wf(),
        ensures
            final(self).wf(),
            final(self).capacity() == old(self).capacity(),
            final(self).warned() == flag_after(
                old(self).warned(),
                old(self)@.len() as int,
                old(self).capacity(),
            ),
            final(self)@ == push_result(
                old(self)@,
                old(self).capacity(),
                old(self).warned(),
                line@,
                now,
            ),
            final(self)@.len() <= final(self).capacity(),
    {
        let ghost s0 = self@;
        let ghost mc = self.max_capacity;
        let ghost w0 = self.truncation_warning_shown;
        let need_warning = self.lines.len() >= self.max_capacity && !self.truncation_warning_shown;
        let will_add: usize = if need_warning {
            2
        } else {
            1
        };
        while self.lines.len() > 0 && self.max_capacity - self.lines.len() < will_add
            invariant
                self.max_capacity == mc,
                self.truncation_warning_shown == w0,
                will_add == (if need_warning { 2usize } else { 1usize }),
                self@.len() <= s0.len(),
                self@.len() <= mc,
                self@ == s0.skip(s0.len() - self@.len()),
                self@.len() == s0.len() || mc - self@.len() <= will_add,
            decreases self.lines.len(),
        {
            let ghost before = self@;
            self.lines.remove(0);
            proof {
                assert(self@ =~= before.skip(1));
                assert(before.skip(1) =~= s0.skip(s0.len() - before.len() + 1));
            }
        }
        let ghost kept = self@;
        proof {
            assert(kept == s0.skip(s0.len() - kept.len()));
        }
        if need_warning {
            proof {
                assert(s0.len() == mc);
                if mc >= 2 {
                    assert(kept.len() == mc - 2);
                    assert(kept =~= s0.skip(2));
                } else {
                    assert(kept.len() == 0);
                }
            }
            let warning = self.warning_line(now);
            let ghost warning_model = warning@;
            if self.max_capacity >= 2 {
                self.lines.push(warning);
                proof {
                    assert(self@ =~= kept.push(warning_model));
                }
            }
            self.truncation_warning_shown = true;
            let ghost mid = self@;
            self.lines.push(line);
            proof {
                let cap = mc as int;
                assert(self@ =~= mid.push(line@));
                assert(warning_model == truncation_model(cap, now));
                if cap >= 2 {
                    assert(self@ =~= s0.skip(2).push(truncation_model(cap, now)).push(line@));
                    assert(push_result(s0, cap, w0, line@, now) =~= s0.skip(2).push(
                        truncation_model(cap, now),
                    ).push(line@));
                } else {
                    assert(self@ =~= seq![line@]);
                    assert(push_result(s0, cap, w0, line@, now) =~= seq![line@]);
                }
            }
        } else {
            self.lines.push(line);
            proof {
                let cap = mc as int;
                assert(self@ =~= kept.push(line@));
                if s0.len() < cap {
                    assert(kept =~= s0);
                    assert(push_result(s0, cap, w0, line@, now) =~= s0.push(line@));
                } else {
                    assert(s0.len() == cap);
                    assert(kept.len() == cap - 1);
                    assert(kept =~= s0.skip(1));
                    assert(push_result(s0, cap, w0, line@, now) =~= s0.skip(1).push(line@));
                }
            }
        }
    }

    /// A copy of the whole log, in insertion order.
    pub fn get_all(&self) -> (r: Vec<OutputLine>)
        ensures
            models(r@) == self@,
    {
        let mut r: Vec<OutputLine> = Vec::new();
        let mut i: usize = 0;
        while i < self.lines.len()
            invariant
                i <= self.lines@.len(),
                models(r@) == self@.take(i as int),
            decreases self.lines@.len() - i,
        {
            let ghost before = models(r@);
            r.push(self.lines[i].duplicate());
            proof {
                assert(models(r@) =~= before.push(self.lines@[i as int]@));
                assert(before.push(self.lines@[i as int]@) =~= self@.take(i + 1));
            }
            i += 1;
        }
        proof {
            assert(self@.take(self.lines@.len() as int) =~= self@);
        }
        r
    }

    /// The number of lines currently held.
    pub fn len(&self) -> (n: usize)
        ensures
            n == self@.len(),
    {
        self.lines.len()
    }

    /// Whether the log holds no lines.
    pub fn is_empty(&self) -> (r: bool)
        ensures
            r == (self@.len() == 0),
    {
        self.lines.len() == 0
    }

    /// Drop every line and re-arm the one-shot truncation warning.
    pub fn clear(&mut self)
        ensures
            final(self)@ == Seq::<LineModel>::empty(),
            !final(self).warned(),
            final(self).capacity() == old(self).capacity(),
            final(self).wf() == (1 <= old(self).capacity()),
    {
        self.lines.clear();
        self.truncation_warning_shown = false;
        proof {
            assert(self@ =~= Seq::<LineModel>::empty());
        }
    }

    /// Whether the truncation warning has been spent.
    pub fn has_truncation_warning(&self) -> (r: bool)
        ensures
            r == self.warned(),
    {
        self.truncation_warning_shown
    }

    /// The oldest line still held, if any.
    pub fn first(&self) -> (r: Option<OutputLine>)
        ensures
            match r {
                Some(l) => self@.len() > 0 && l@ == self@[0],
                None => self@.len() == 0,
            },
    {
        if self.lines.len() == 0 {
            None
        } else {
            Some(self.lines[0].duplicate())
        }
    }

    /// Whether some notification line's message contains `substring`.
    pub fn contains_warning(&self, substring: &str) -> (r: bool)
        ensures
            r == exists|i: int|
                0 <= i < self@.len() && notification_contains(#[trigger] self@[i], substring@),
    {
        let mut i: usize = 0;
        while i < self.lines.len()
            invariant
                i <= self.lines@.len(),
                forall|k: int|
                    0 <= k < i ==> !notification_contains(#[trigger] self@[k], substring@),
            decreases self.lines@.len() - i,
        {
            if self.lines[i].is_notification_containing(substring) {
                proof {
                    assert(self@[i as int] == self.lines@[i as int]@);
                    assert(notification_contains(self@[i as int], substring@));
                }
                return true;
            }
            proof {
                assert(self@[i as int] == self.lines@[i as int]@);
            }
            i += 1;
        }
        false
    }
}

/// The contents and flag after a whole sequence of pushes, each given as a
/// line together with the timestamp a warning inserted by that push would
/// carry.
pub open spec fn push_all(
    s: Seq<LineModel>,
    cap: int,
    warned: bool,
    items: Seq<(LineModel, u64)>,
) -> (Seq<LineModel>, bool)
    decreases items.len(),
{
    if items.len() == 0 {
        (s, warned)
    } else {
        push_all(
            push_result(s, cap, warned, items[0].0, items[0].1),
            cap,
            flag_after(warned, s.len() as int, cap),
            items.skip(1),
        )
    }
}

/// How many truncation warnings a whole sequence of pushes inserts.
pub open spec fn warnings_inserted(
    s: Seq<LineModel>,
    cap: int,
    warned: bool,
    items: Seq<(LineModel, u64)>,
) -> int
    decreases items.len(),
{
    if items.len() == 0 {
        0
    } else {
        (if !warned && s.len() >= cap {
            1int
        } else {
            0int
        }) + warnings_inserted(
            push_result(s, cap, warned, items[0].0, items[0].1),
            cap,
            flag_after(warned, s.len() as int, cap),
            items.skip(1),
        )
    }
}

/// The lines of a sequence of pushes, without their warning timestamps.
pub open spec fn lines_of(items: Seq<(LineModel, u64)>) -> Seq<LineModel> {
    items.map_values(|p: (LineModel, u64)| p.0)
}

/// One push never leaves more lines than the capacity.
pub proof fn lemma_push_result_bounded(
    s: Seq<LineModel>,
    cap: int,
    warned: bool,
    line: LineModel,
    now: u64,
)
    requires
        0 <= cap,
    ensures
        push_result(s, cap, warned, line, now).len() <= cap,
{
}

/// For every capacity of at least one and every sequence of pushes into a
/// well-formed buffer, the length bound holds after every push — the bound
/// after each intermediate push is this same statement on a shorter
/// sequence.
pub proof fn lemma_capacity_never_exceeded(
    s: Seq<LineModel>,
    cap: int,
    warned: bool,
    items: Seq<(LineModel, u64)>,
)
    requires
        1 <= cap,
        s.len() <= cap,
    ensures
        push_all(s, cap, warned, items).0.len() <= cap,
    decreases items.len(),
{
    if items.len() > 0 {
        lemma_push_result_bounded(s, cap, warned, items[0].0, items[0].1);
        lemma_capacity_never_exceeded(
            push_result(s, cap, warned, items[0].0, items[0].1),
            cap,
            flag_after(warned, s.len() as int, cap),
            items.skip(1),
        );
    }
}

/// Once the one-shot flag is spent it stays spent across any further
/// pushes, until `clear` re-arms it.
pub proof fn lemma_flag_monotone(
    s: Seq<LineModel>,
    cap: int,
    warned: bool,
    items: Seq<(LineModel, u64)>,
)
    requires
        warned,
    ensures
        push_all(s, cap, warned, items).1,
    decreases items.len(),
{
    if items.len() > 0 {
        lemma_flag_monotone(
            push_result(s, cap, warned, items[0].0, items[0].1),
            cap,
            flag_after(warned, s.len() as int, cap),
            items.skip(1),
        );
    }
}

/// Across any sequence of pushes, the truncation warning is inserted at
/// most once per buffer lifetime — and never again once the flag is spent —
/// regardless of how many evictions occur.
pub proof fn lemma_warning_at_most_once(
    s: Seq<LineModel>,
    cap: int,
    warned: bool,
    items: Seq<(LineModel, u64)>,
)
    ensures
        warnings_inserted(s, cap, warned, items) <= if warned {
            0int
        } else {
            1int
        },
        warnings_inserted(s, cap, warned, items) >= 0,
    decreases items.len(),
{
    if items.len() > 0 {
        lemma_warning_at_most_once(
            push_result(s, cap, warned, items[0].0, items[0].1),
            cap,
            flag_after(warned, s.len() as int, cap),
            items.skip(1),
        );
    }
}

/// `m` is the truncation warning of a buffer with capacity `cap`.
pub open spec fn is_truncation_warning(m: LineModel, cap: int) -> bool {
    &&& m matches LineModel::Notification { message, level, .. }
    &&& message == truncation_message(cap)
    &&& level == NotificationLevel::Warning
}

/// How many truncation warnings a sequence of lines holds.
pub open spec fn warning_count(s: Seq<LineModel>, cap: int) -> int
    decreases s.len(),
{
    if s.len() == 0 {
        0
    } else {
        warning_count(s.drop_last(), cap) + if is_truncation_warning(s.last(), cap) {
            1int
        } else {
            0int
        }
    }
}

/// A count of warnings is never negative.
pub proof fn lemma_warning_count_nonneg(s: Seq<LineModel>, cap: int)
    ensures
        0 <= warning_count(s, cap),
    decreases s.len(),
{
    if s.len() > 0 {
        lemma_warning_count_nonneg(s.drop_last(), cap);
    }
}

/// Evicting from the front never adds warnings.
pub proof fn lemma_warning_count_skip(s: Seq<LineModel>, cap: int, k: int)
    requires
        0 <= k <= s.len(),
    ensures
        warning_count(s.skip(k), cap) <= warning_count(s, cap),
    decreases s.len(),
{
    if k == 0 {
        assert(s.skip(0) =~= s);
    } else if k == s.len() {
        assert(s.skip(k) =~= Seq::<LineModel>::empty());
        lemma_warning_count_nonneg(s, cap);
    } else {
        assert(s.skip(k).drop_last() =~= s.drop_last().skip(k));
        assert(s.skip(k).last() == s.last());
        lemma_warning_count_skip(s.drop_last(), cap, k);
    }
}

/// Appending one line adds its own warning count and nothing else.
pub proof fn lemma_warning_count_push(s: Seq<LineModel>, cap: int, m: LineModel)
    ensures
        warning_count(s.push(m), cap) == warning_count(s, cap) + if is_truncation_warning(
            m,
            cap,
        ) {
            1int
        } else {
            0int
        },
{
    assert(s.push(m).drop_last() =~= s);
    assert(s.push(m).last() == m);
}

/// Content-level one-shot guarantee: across any sequence of pushes of lines
/// that are not themselves shaped like the truncation warning, the buffer
/// holds at most one truncation warning at every step — and none at all as
/// long as the one-shot flag is still armed.
pub proof fn lemma_at_most_one_warning_present(
    s: Seq<LineModel>,
    cap: int,
    warned: bool,
    items: Seq<(LineModel, u64)>,
)
    requires
        1 <= cap,
        forall|i: int|
            0 <= i < items.len() ==> !is_truncation_warning((#[trigger] items[i]).0, cap),
        !warned ==> warning_count(s, cap) == 0,
        warning_count(s, cap) <= 1,
    ensures
        warning_count(push_all(s, cap, warned, items).0, cap) <= 1,
        !push_all(s, cap, warned, items).1 ==> warning_count(push_all(s, cap, warned, items).0, cap)
            == 0,
    decreases items.len(),
{
    if items.len() > 0 {
        let line = items[0].0;
        let now = items[0].1;
        let s1 = push_result(s, cap, warned, line, now);
        let w1 = flag_after(warned, s.len() as int, cap);
        if !warned && s.len() >= cap {
            let grown = s.push(truncation_model(cap, now)).push(line);
            lemma_warning_count_push(s, cap, truncation_model(cap, now));
            lemma_warning_count_push(s.push(truncation_model(cap, now)), cap, line);
            assert(warning_count(grown, cap) == 1);
            if grown.len() > cap {
                lemma_warning_count_skip(grown, cap, grown.len() - cap);
                lemma_warning_count_nonneg(s1, cap);
            }
        } else {
            let grown = s.push(line);
            lemma_warning_count_push(s, cap, line);
            if grown.len() > cap {
                lemma_warning_count_skip(grown, cap, grown.len() - cap);
            }
            lemma_warning_count_nonneg(s1, cap);
        }
        assert(forall|i: int|
            0 <= i < items.skip(1).len() ==> !is_truncation_warning(
                (#[trigger] items.skip(1)[i]).0,
                cap,
            ));
        lemma_at_most_one_warning_present(s1, cap, w1, items.skip(1));
    }
}

/// As long as everything fits — the buffer starts with room for all the
/// pushed lines — the pushes are kept exactly, in push order, with nothing
/// evicted and no warning inserted.
pub proof fn lemma_pushes_kept_in_order(
    s: Seq<LineModel>,
    cap: int,
    warned: bool,
    items: Seq<(LineModel, u64)>,
)
    requires
        s.len() + items.len() <= cap,
    ensures
        push_all(s, cap, warned, items).0 == s + lines_of(items),
        push_all(s, cap, warned, items).1 == warned,
        warnings_inserted(s, cap, warned, items) == 0,
    decreases items.len(),
{
    if items.len() == 0 {
        assert(push_all(s, cap, warned, items).0 =~= s + lines_of(items));
    } else {
        let line = items[0].0;
        let s1 = push_result(s, cap, warned, line, items[0].1);
        assert(s1 =~= s.push(line));
        lemma_pushes_kept_in_order(s1, cap, warned, items.skip(1));
        assert(lines_of(items.skip(1)) =~= lines_of(items).skip(1));
        assert(s.push(line) + lines_of(items).skip(1) =~= s + lines_of(items));
    }
}

/// The lock invariant of a shared history buffer: the guarded log is well
/// formed and keeps the capacity the buffer was created with.
pub struct HistoryPred {
    pub cap: int,
}

impl RwLockPredicate<HistoryState> for HistoryPred {
    open spec fn inv(self, v: HistoryState) -> bool {
        v.wf() && v.capacity() == self.cap
    }
}

/// Manages the bounded buffer of terminal output, shared between the
/// producers (command echo, stdout reader, stderr reader) and readers.
/// Mutations are serialized through a reader-writer lock; clones share the
/// same underlying buffer.
pub struct HistoryBuffer {
    inner: Arc<RwLock<HistoryState, HistoryPred>>,
}

/// Relies on alloc::sync::Arc::clone: the returned handle is the same shared
/// allocation, so it carries the same value.
#[verifier::external_body]
pub(crate) fn share_arc<T>(inner: &Arc<T>) -> (r: Arc<T>)
    ensures
        r == *inner,
{
    Arc::clone(inner)
}

impl HistoryBuffer {
    /// The fixed capacity this buffer was created with.
    pub closed spec fn capacity(&self) -> int {
        (*self.inner).pred().cap
    }

    /// Create a new history buffer with the specified capacity.
    pub fn new(max_capacity: usize) -> (s: Self)
        requires
            1 <= max_capacity,
        ensures
            s.capacity() == max_capacity as int,
    {
        let state = HistoryState::new(max_capacity);
        let lock = RwLock::new(state, Ghost(HistoryPred { cap: max_capacity as int }));
        HistoryBuffer { inner: Arc::new(lock) }
    }

    /// Add a line to the buffer; evict the oldest lines if at capacity, and
    /// insert the one-shot truncation warning on the first overflow.
    pub fn push(&self, line: OutputLine) {
        let now = current_timestamp_ms();
        let (mut state, handle) = self.inner.acquire_write();
        state.push(line, now);
        handle.release_write(state);
    }

    /// A point-in-time copy of the full buffer, in insertion order. The
    /// snapshot never exceeds the buffer's capacity.
    pub fn get_all(&self) -> (r: Vec<OutputLine>)
        ensures
            r@.len() <= self.capacity(),
    {
        let read = self.inner.acquire_read();
        let r = read.borrow().get_all();
        read.release_read();
        proof {
            assert(models(r@).len() == r@.len());
        }
        r
    }

    /// The line count at this instant; never above the capacity.
    pub fn len(&self) -> (n: usize)
        ensures
            n <= self.capacity(),
    {
        let read = self.inner.acquire_read();
        let n = read.borrow().len();
        read.release_read();
        n
    }

    /// Whether the buffer holds no lines at this instant.
    pub fn is_empty(&self) -> bool {
        let read = self.inner.acquire_read();
        let r = read.borrow().is_empty();
        read.release_read();
        r
    }

    /// Empty the buffer and re-arm the one-shot truncation warning.
    pub fn clear(&self) {
        let (mut state, handle) = self.inner.acquire_write();
        state.clear();
        handle.release_write(state);
    }

    /// Whether the truncation warning has been spent.
    pub fn has_truncation_warning(&self) -> bool {
        let read = self.inner.acquire_read();
        let r = read.borrow().has_truncation_warning();
        read.release_read();
        r
    }

    /// The oldest line currently held, if any.
    pub fn first(&self) -> Option<OutputLine> {
        let read = self.inner.acquire_read();
        let r = read.borrow().first();
        read.release_read();
        r
    }

    /// Whether some notification line's message contains `substring`.
    pub fn contains_warning(&self, substring: &str) -> bool {
        let read = self.inner.acquire_read();
        let r = read.borrow().contains_warning(substring);
        read.release_read();
        r
    }
}

impl Clone for HistoryBuffer {
    /// The clone shares the same underlying buffer and so has the same
    /// capacity.
    fn clone(&self) -> (r: Self)
        ensures
            r.capacity() == self.capacity(),
    {
        HistoryBuffer { inner: share_arc(&self.inner) }
    }
}

impl Default for HistoryBuffer {
    /// A buffer with the default capacity.
    fn default() -> (s: Self)
        ensures
            s.capacity() == DEFAULT_CAPACITY as int,
    {
        HistoryBuffer::new(DEFAULT_CAPACITY)
    }
}

} // verus!
