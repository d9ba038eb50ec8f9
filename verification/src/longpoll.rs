//! The long-poll dispatch loop as a state machine.
//!
//! The loop itself does no I/O. Its driver performs each [`Action`] and
//! reports what happened as the next [`Event`]; the machine decides what
//! comes next and keeps the cursor.

use crate::execute::{ExecuteError, Retry};
use vstd::prelude::*;

verus! {

/// Longest delay, in seconds, that the loop's own backoff asks for.
pub const BACKOFF_CAP: u64 = 60;

/// Where the loop stands.
#[derive(Debug, Clone, Copy, PartialEq, Eq)]
pub enum LoopState {
    /// Constructed, not started.
    Idle,
    /// A fetch is in flight.
    Polling,
    /// One update of the current batch is with the handler.
    Delivering,
    /// Waiting before the next fetch.
    Backoff,
    /// Finished; nothing further is asked for.
    Stopped,
}

/// What the driver reports to the loop.
#[derive(Debug, Clone, PartialEq, Eq)]
pub enum Event {
    /// The loop is to begin.
    Start,
    /// A fetch succeeded; the identifiers of its updates, in the order received.
    Fetched(Vec<i64>),
    /// A fetch failed.
    Failed(ExecuteError),
    /// The handler finished with the update it was given; `true` on success.
    Handled(bool),
    /// The delay that was asked for has passed.
    Resumed,
    /// The loop is to stop.
    Cancel,
}

/// What the loop asks its driver to do next.
#[derive(Debug, Clone, Copy, PartialEq, Eq)]
pub enum Action {
    /// Fetch the updates whose identifier is at least `offset`, holding the
    /// connection for up to `timeout` seconds.
    Poll { offset: i64, timeout: u64 },
    /// Hand the update at `index` of the last batch, whose identifier is `id`,
    /// to the handler.
    Deliver { index: usize, id: i64 },
    /// Wait this many seconds, then report [`Event::Resumed`].
    Wait { seconds: u64 },
    /// The loop has stopped.
    Stop,
    /// The event does not apply in the current state; nothing changed.
    Ignore,
}

/// The loop's state as a mathematical value.
pub struct LoopModel {
    pub state: LoopState,
    /// Smallest identifier not yet acknowledged.
    pub cursor: i64,
    /// Identifiers of the batch being delivered; empty outside `Delivering`.
    pub batch: Seq<i64>,
    /// Index in `batch` of the update that is with the handler.
    pub position: int,
    /// Failed fetches since the last successful one.
    pub attempts: u32,
    /// Seconds a fetch may be held open.
    pub timeout: u64,
    /// Every identifier handed to the handler so far, in order.
    pub delivered: Seq<i64>,
}

/// The delay in seconds before the fetch that follows `attempts` failures in
/// a row: doubling from one second, never above [`BACKOFF_CAP`].
pub open spec fn backoff_delay(attempts: u32) -> u64 {
    if attempts == 0 {
        1
    } else if attempts == 1 {
        2
    } else if attempts == 2 {
        4
    } else if attempts == 3 {
        8
    } else if attempts == 4 {
        16
    } else if attempts == 5 {
        32
    } else {
        BACKOFF_CAP
    }
}

/// The first index at or after `from` whose identifier is at least `cursor`,
/// or the length of `batch` when there is none.
pub open spec fn next_due(batch: Seq<i64>, from: int, cursor: int) -> int
    decreases batch.len() - from,
{
    if from < 0 || from >= batch.len() {
        batch.len() as int
    } else if batch[from] >= cursor {
        from
    } else {
        next_due(batch, from + 1, cursor)
    }
}

/// The attempts counter after one more failure.
pub open spec fn bump(attempts: u32) -> u32 {
    if attempts < u32::MAX {
        (attempts + 1) as u32
    } else {
        attempts
    }
}

/// The larger of two delays.
pub open spec fn longer(a: u64, b: u64) -> u64 {
    if a >= b {
        a
    } else {
        b
    }
}

/// Continues a batch from index `from` with the cursor at `cursor`: delivers
/// the next due update, or fetches again when none is left.
pub open spec fn continue_batch(m: LoopModel, batch: Seq<i64>, from: int, cursor: i64) -> (
    LoopModel,
    Action,
) {
    let k = next_due(batch, from, cursor as int);
    if 0 <= k < batch.len() {
        (
            LoopModel {
                state: LoopState::Delivering,
                cursor,
                batch,
                position: k,
                delivered: m.delivered.push(batch[k]),
                ..m
            },
            Action::Deliver { index: k as usize, id: batch[k] },
        )
    } else {
        (
            LoopModel {
                state: LoopState::Polling,
                cursor,
                batch: Seq::empty(),
                position: 0,
                ..m
            },
            Action::Poll { offset: cursor, timeout: m.timeout },
        )
    }
}

/// A successful fetch while polling: the failure count is cleared and the
/// first update at or past the cursor goes to the handler. Updates below the
/// cursor are never delivered.
pub open spec fn on_fetched(m: LoopModel, ids: Seq<i64>) -> (LoopModel, Action) {
    continue_batch(LoopModel { attempts: 0, ..m }, ids, 0, m.cursor)
}

/// The handler has finished, with whatever outcome: the cursor moves past
/// the update and the batch continues. When the identifier is the largest
/// there is, no cursor can lie past it and the loop stops.
pub open spec fn on_handled(m: LoopModel) -> (LoopModel, Action) {
    let id = m.batch[m.position];
    if id == i64::MAX {
        (
            LoopModel { state: LoopState::Stopped, batch: Seq::empty(), position: 0, ..m },
            Action::Stop,
        )
    } else {
        continue_batch(m, m.batch, m.position + 1, (id + 1) as i64)
    }
}

/// A failed fetch while polling.
pub open spec fn on_failed(m: LoopModel, retry: Retry) -> (LoopModel, Action) {
    match retry {
        Retry::Backoff => (
            LoopModel { state: LoopState::Backoff, attempts: bump(m.attempts), ..m },
            Action::Wait { seconds: backoff_delay(m.attempts) },
        ),
        Retry::After(least) => (
            LoopModel { state: LoopState::Backoff, attempts: bump(m.attempts), ..m },
            Action::Wait { seconds: longer(least, backoff_delay(m.attempts)) },
        ),
        Retry::Fatal => (LoopModel { state: LoopState::Stopped, ..m }, Action::Stop),
    }
}

/// Cancellation: the loop stops from any state. An update that is with the
/// handler is not taken back, so the cursor moves past it where it can.
pub open spec fn on_cancel(m: LoopModel) -> (LoopModel, Action) {
    if m.state == LoopState::Delivering {
        let id = m.batch[m.position];
        (
            LoopModel {
                state: LoopState::Stopped,
                cursor: if id == i64::MAX {
                    m.cursor
                } else {
                    (id + 1) as i64
                },
                batch: Seq::empty(),
                position: 0,
                ..m
            },
            Action::Stop,
        )
    } else {
        (LoopModel { state: LoopState::Stopped, ..m }, Action::Stop)
    }
}

/// The transition function: the state after `event` and the action asked for.
pub open spec fn step_spec(m: LoopModel, event: Event) -> (LoopModel, Action) {
    if m.state == LoopState::Stopped {
        (m, Action::Stop)
    } else {
        match event {
            Event::Cancel => on_cancel(m),
            Event::Start => if m.state == LoopState::Idle {
                (
                    LoopModel { state: LoopState::Polling, ..m },
                    Action::Poll { offset: m.cursor, timeout: m.timeout },
                )
            } else {
                (m, Action::Ignore)
            },
            Event::Fetched(ids) => if m.state == LoopState::Polling {
                on_fetched(m, ids@)
            } else {
                (m, Action::Ignore)
            },
            Event::Failed(error) => if m.state == LoopState::Polling {
                on_failed(m, error.retry_spec())
            } else {
                (m, Action::Ignore)
            },
            Event::Handled(_) => if m.state == LoopState::Delivering {
                on_handled(m)
            } else {
                (m, Action::Ignore)
            },
            Event::Resumed => if m.state == LoopState::Backoff {
                (
                    LoopModel { state: LoopState::Polling, ..m },
                    Action::Poll { offset: m.cursor, timeout: m.timeout },
                )
            } else {
                (m, Action::Ignore)
            },
        }
    }
}

/// Strictly increasing identifiers.
pub open spec fn ascending(ids: Seq<i64>) -> bool {
    forall|i: int, j: int| 0 <= i < j < ids.len() ==> ids[i] < ids[j]
}

/// What holds of every state the loop can reach.
///
/// The identifiers handed out so far are strictly increasing, so none
/// occurs twice. Until the loop stops, all of them lie below the cursor,
/// but for the one that is with the handler, which is the update at
/// `position` and lies at or past the cursor.
pub open spec fn model_wf(m: LoopModel) -> bool {
    &&& ascending(m.delivered)
    &&& m.state == LoopState::Delivering ==> {
        &&& 0 <= m.position < m.batch.len()
        &&& m.batch[m.position] >= m.cursor
        &&& m.delivered.len() > 0
        &&& m.delivered.last() == m.batch[m.position]
        &&& forall|i: int| 0 <= i < m.delivered.len() - 1 ==> m.delivered[i] < m.cursor
    }
    &&& m.state != LoopState::Delivering ==> m.batch.len() == 0 && m.position == 0
    &&& (m.state != LoopState::Delivering && m.state != LoopState::Stopped) ==> forall|i: int|
        0 <= i < m.delivered.len() ==> m.delivered[i] < m.cursor
}

/// The dispatch loop: a cursor, the batch in delivery and the retry count.
pub struct DispatchLoop {
    state: LoopState,
    cursor: i64,
    batch: Vec<i64>,
    position: usize,
    attempts: u32,
    timeout: u64,
    delivered: Ghost<Seq<i64>>,
}

impl View for DispatchLoop {
    type V = LoopModel;

    closed spec fn view(&self) -> LoopModel {
        LoopModel {
            state: self.state,
            cursor: self.cursor,
            batch: self.batch@,
            position: self.position as int,
            attempts: self.attempts,
            timeout: self.timeout,
            delivered: self.delivered@,
        }
    }
}

/// The delay before the fetch that follows `attempts` failures in a row.
pub fn delay_for(attempts: u32) -> (seconds: u64)
    ensures
        seconds == backoff_delay(attempts),
        1 <= seconds <= BACKOFF_CAP,
{
    if attempts == 0 {
        1
    } else if attempts == 1 {
        2
    } else if attempts == 2 {
        4
    } else if attempts == 3 {
        8
    } else if attempts == 4 {
        16
    } else if attempts == 5 {
        32
    } else {
        BACKOFF_CAP
    }
}

/// Finds the first index at or after `from` whose identifier is at least
/// `cursor`; the length of `batch` when there is none.
pub fn find_due(batch: &Vec<i64>, from: usize, cursor: i64) -> (k: usize)
    ensures
        k == next_due(batch@, from as int, cursor as int),
        from <= k <= batch.len() || (from > batch.len() && k == batch.len()),
        k < batch.len() ==> batch[k as int] >= cursor,
        forall|i: int| from <= i < k ==> batch[i] < cursor,
{
    let mut k: usize = from;
    while k < batch.len() && batch[k] < cursor
        invariant
            from <= k,
            next_due(batch@, k as int, cursor as int) == next_due(
                batch@,
                from as int,
                cursor as int,
            ),
            forall|i: int| from <= i < k && i < batch.len() ==> batch[i] < cursor,
        decreases batch.len() - k,
    {
        k += 1;
    }
    if k >= batch.len() {
        batch.len()
    } else {
        k
    }
}

impl DispatchLoop {
    /// A loop that has not started, with its cursor at `offset`; each fetch
    /// may be held open for `timeout` seconds.
    pub fn new(offset: i64, timeout: u64) -> (l: DispatchLoop)
        ensures
            l.wf(),
            l@ == (LoopModel {
                state: LoopState::Idle,
                cursor: offset,
                batch: Seq::empty(),
                position: 0,
                attempts: 0,
                timeout,
                delivered: Seq::empty(),
            }),
    {
        DispatchLoop {
            state: LoopState::Idle,
            cursor: offset,
            batch: Vec::new(),
            position: 0,
            attempts: 0,
            timeout,
            delivered: Ghost(Seq::empty()),
        }
    }

    /// Whether the value is a state that the loop can reach.
    pub open spec fn wf(&self) -> bool {
        model_wf(self@)
    }

    /// Every identifier handed to the handler so far, in order.
    pub open spec fn delivered(&self) -> Seq<i64> {
        self@.delivered
    }

    /// Where the loop stands.
    pub fn state(&self) -> (s: LoopState)
        ensures
            s == self@.state,
    {
        self.state
    }

    /// The smallest identifier not yet acknowledged.
    pub fn cursor(&self) -> (c: i64)
        ensures
            c == self@.cursor,
    {
        self.cursor
    }

    /// Failed fetches since the last successful one.
    pub fn attempts(&self) -> (n: u32)
        ensures
            n == self@.attempts,
    {
        self.attempts
    }

    /// Whether the loop has stopped.
    pub fn is_stopped(&self) -> (b: bool)
        ensures
            b == (self@.state == LoopState::Stopped),
    {
        match self.state {
            LoopState::Stopped => true,
            _ => false,
        }
    }

    fn poll(&self) -> (a: Action)
        ensures
            a == (Action::Poll { offset: self@.cursor, timeout: self@.timeout }),
    {
        Action::Poll { offset: self.cursor, timeout: self.timeout }
    }

    /// Delivers the next due update of `batch` at or after `from`, with the
    /// cursor at `cursor`, or fetches again.
    fn advance(&mut self, batch: Vec<i64>, from: usize, cursor: i64) -> (a: Action)
        requires
            ascending(old(self)@.delivered),
            forall|i: int| 0 <= i < old(self)@.delivered.len() ==> old(self)@.delivered[i] < cursor,
        ensures
            (final(self)@, a) == continue_batch(old(self)@, batch@, from as int, cursor),
            final(self).wf(),
    {
        let k = find_due(&batch, from, cursor);
        if k < batch.len() {
            let id = batch[k];
            proof {
                let log = self.delivered@;
                assert(ascending(log.push(id))) by {
                    assert forall|i: int, j: int| 0 <= i < j < log.push(id).len() implies log.push(
                        id,
                    )[i] < log.push(id)[j] by {
                        if j < log.len() {
                        } else {
                            assert(log[i] < cursor);
                        }
                    }
                }
                self.delivered@ = log.push(id);
            }
            self.state = LoopState::Delivering;
            self.cursor = cursor;
            self.batch = batch;
            self.position = k;
            Action::Deliver { index: k, id }
        } else {
            self.state = LoopState::Polling;
            self.cursor = cursor;
            self.batch = Vec::new();
            self.position = 0;
            self.poll()
        }
    }

    /// Takes one event and says what to do next.
    ///
    /// The new state and the action are those of [`step_spec`]. An action
    /// `Deliver` adds its identifier to the record of what was handed out;
    /// no other action changes that record.
    pub fn step(&mut self, event: Event) -> (action: Action)
        requires
            old(self).wf(),
        ensures
            final(self).wf(),
            (final(self)@, action) == step_spec(old(self)@, event),
            final(self).delivered() == match action {
                Action::Deliver { id, .. } => old(self).delivered().push(id),
                _ => old(self).delivered(),
            },
            final(self)@.cursor >= old(self)@.cursor,
            final(self)@.timeout == old(self)@.timeout,
    {
        if self.is_stopped() {
            return Action::Stop;
        }
        match event {
            Event::Cancel => {
                if let LoopState::Delivering = self.state {
                    let id = self.batch[self.position];
                    if id < i64::MAX {
                        self.cursor = id + 1;
                    }
                    self.batch = Vec::new();
                    self.position = 0;
                }
                self.state = LoopState::Stopped;
                Action::Stop
            },
            Event::Start => {
                if let LoopState::Idle = self.state {
                    self.state = LoopState::Polling;
                    self.poll()
                } else {
                    Action::Ignore
                }
            },
            Event::Fetched(ids) => {
                if let LoopState::Polling = self.state {
                    self.attempts = 0;
                    let cursor = self.cursor;
                    self.advance(ids, 0, cursor)
                } else {
                    Action::Ignore
                }
            },
            Event::Failed(error) => {
                if let LoopState::Polling = self.state {
                    match error.retry() {
                        Retry::Backoff => {
                            let seconds = delay_for(self.attempts);
                            self.note_failure();
                            Action::Wait { seconds }
                        },
                        Retry::After(least) => {
                            let own = delay_for(self.attempts);
                            self.note_failure();
                            Action::Wait {
                                seconds: if least >= own {
                                    least
                                } else {
                                    own
                                },
                            }
                        },
                        Retry::Fatal => {
                            self.state = LoopState::Stopped;
                            Action::Stop
                        },
                    }
                } else {
                    Action::Ignore
                }
            },
            Event::Handled(_) => {
                if let LoopState::Delivering = self.state {
                    let id = self.batch[self.position];
                    assert(self.position < self.batch.len());
                    let from = self.position + 1;
                    let mut batch: Vec<i64> = Vec::new();
                    std::mem::swap(&mut batch, &mut self.batch);
                    if id == i64::MAX {
                        self.state = LoopState::Stopped;
                        self.position = 0;
                        Action::Stop
                    } else {
                        self.advance(batch, from, id + 1)
                    }
                } else {
                    Action::Ignore
                }
            },
            Event::Resumed => {
                if let LoopState::Backoff = self.state {
                    self.state = LoopState::Polling;
                    self.poll()
                } else {
                    Action::Ignore
                }
            },
        }
    }

    fn note_failure(&mut self)
        ensures
            final(self)@ == (LoopModel {
                state: LoopState::Backoff,
                attempts: bump(old(self)@.attempts),
                ..old(self)@
            }),
    {
        self.state = LoopState::Backoff;
        if self.attempts < u32::MAX {
            self.attempts = self.attempts + 1;
        }
    }
}

} // verus!
