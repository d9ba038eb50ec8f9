//! What holds of every run of the dispatch loop.

use crate::execute::{ExecuteError, Retry};
use crate::longpoll::{
    ascending, backoff_delay, model_wf, next_due, on_failed, step_spec, Action, Event, LoopModel,
    LoopState, BACKOFF_CAP,
};
use vstd::prelude::*;

verus! {

/// Every step leads from a reachable state to a reachable state.
pub proof fn lemma_step_preserves_wf(m: LoopModel, event: Event)
    requires
        model_wf(m),
    ensures
        model_wf(step_spec(m, event).0),
{
    let (n, action) = step_spec(m, event);
    if m.state == LoopState::Stopped {
    } else {
        match event {
            Event::Fetched(ids) => {
                if m.state == LoopState::Polling {
                    lemma_next_due_bounds(ids@, 0, m.cursor as int);
                    lemma_push_ascending(m.delivered, ids@, 0, m.cursor as int);
                }
            },
            Event::Handled(_) => {
                if m.state == LoopState::Delivering {
                    let id = m.batch[m.position];
                    if id < i64::MAX {
                        lemma_next_due_bounds(m.batch, m.position + 1, id + 1);
                        lemma_push_ascending(m.delivered, m.batch, m.position + 1, id + 1);
                    }
                }
            },
            _ => {},
        }
    }
}

/// Where `next_due` points: within the batch from `from` on, at an
/// identifier that is due, with none due before it.
pub proof fn lemma_next_due_bounds(batch: Seq<i64>, from: int, cursor: int)
    requires
        0 <= from,
    ensures
        from <= next_due(batch, from, cursor) || next_due(batch, from, cursor) == batch.len(),
        next_due(batch, from, cursor) <= batch.len(),
        next_due(batch, from, cursor) < batch.len() ==> batch[next_due(batch, from, cursor)]
            >= cursor,
        forall|i: int| from <= i < next_due(batch, from, cursor) ==> batch[i] < cursor,
    decreases batch.len() - from,
{
    if from < batch.len() && batch[from] < cursor {
        lemma_next_due_bounds(batch, from + 1, cursor);
    }
}

/// Handing out the next due update keeps the record strictly increasing.
proof fn lemma_push_ascending(log: Seq<i64>, batch: Seq<i64>, from: int, cursor: int)
    requires
        0 <= from,
        ascending(log),
        forall|i: int| 0 <= i < log.len() ==> log[i] < cursor,
    ensures
        next_due(batch, from, cursor) < batch.len() ==> ascending(
            log.push(batch[next_due(batch, from, cursor)]),
        ),
{
    lemma_next_due_bounds(batch, from, cursor);
    let k = next_due(batch, from, cursor);
    if k < batch.len() {
        let grown = log.push(batch[k]);
        assert forall|i: int, j: int| 0 <= i < j < grown.len() implies grown[i] < grown[j] by {
            if j == log.len() {
                assert(log[i] < cursor);
            }
        }
    }
}

/// The cursor never decreases.
pub proof fn lemma_cursor_monotone(m: LoopModel, event: Event)
    requires
        model_wf(m),
    ensures
        step_spec(m, event).0.cursor >= m.cursor,
{
}

/// No identifier is handed to the handler twice: the record of what was
/// handed out holds each identifier at most once, and in ascending order.
pub proof fn lemma_delivered_once(m: LoopModel, i: int, j: int)
    requires
        model_wf(m),
        0 <= i < m.delivered.len(),
        0 <= j < m.delivered.len(),
        i != j,
    ensures
        m.delivered[i] != m.delivered[j],
        i < j ==> m.delivered[i] < m.delivered[j],
{
    if i < j {
        assert(m.delivered[i] < m.delivered[j]);
    } else {
        assert(m.delivered[j] < m.delivered[i]);
    }
}

/// The record grows by exactly the identifier of each `Deliver` action, and
/// that identifier was never handed out before.
pub proof fn lemma_delivery_is_fresh(m: LoopModel, event: Event)
    requires
        model_wf(m),
    ensures
        match step_spec(m, event).1 {
            Action::Deliver { index, id } => {
                &&& step_spec(m, event).0.delivered == m.delivered.push(id)
                &&& !m.delivered.contains(id)
                &&& id >= m.cursor
            },
            _ => step_spec(m, event).0.delivered == m.delivered,
        },
{
    lemma_step_preserves_wf(m, event);
    let (n, action) = step_spec(m, event);
    match action {
        Action::Deliver { index, id } => {
            assert(n.delivered == m.delivered.push(id));
            assert(n.delivered.last() == id);
            if m.delivered.contains(id) {
                let i = choose|i: int| 0 <= i < m.delivered.len() && m.delivered[i] == id;
                assert(n.delivered[i] == id);
                assert(n.delivered[i] < n.delivered[n.delivered.len() - 1]);
            }
            if m.state == LoopState::Polling {
                match event {
                    Event::Fetched(ids) => {
                        lemma_next_due_bounds(ids@, 0, m.cursor as int);
                    },
                    _ => {},
                }
            } else {
                let at = m.batch[m.position];
                lemma_next_due_bounds(m.batch, m.position + 1, at + 1);
            }
        },
        _ => {},
    }
}

/// Whether the handler succeeded makes no difference to the loop.
pub proof fn lemma_outcome_is_ignored(m: LoopModel)
    ensures
        step_spec(m, Event::Handled(true)) == step_spec(m, Event::Handled(false)),
{
}

/// The state after the handler has finished once for each outcome in turn.
pub open spec fn after_handling(m: LoopModel, outcomes: Seq<bool>) -> LoopModel
    decreases outcomes.len(),
{
    if outcomes.len() == 0 {
        m
    } else {
        after_handling(step_spec(m, Event::Handled(outcomes[0])).0, outcomes.drop_first())
    }
}

proof fn lemma_rest_of_batch(m: LoopModel, outcomes: Seq<bool>)
    requires
        model_wf(m),
        m.state == LoopState::Delivering,
        ascending(m.batch),
        m.batch.last() < i64::MAX,
        outcomes.len() == m.batch.len() - m.position,
    ensures
        after_handling(m, outcomes).state == LoopState::Polling,
        after_handling(m, outcomes).cursor == m.batch.last() + 1,
        after_handling(m, outcomes).delivered == m.delivered + m.batch.subrange(
            m.position + 1,
            m.batch.len() as int,
        ),
        after_handling(m, outcomes).attempts == m.attempts,
        after_handling(m, outcomes).timeout == m.timeout,
    decreases outcomes.len(),
{
    let id = m.batch[m.position];
    let n = step_spec(m, Event::Handled(outcomes[0])).0;
    let rest = outcomes.drop_first();
    let len = m.batch.len() as int;
    assert(id <= m.batch.last());
    lemma_step_preserves_wf(m, Event::Handled(outcomes[0]));
    if m.position + 1 < len {
        assert(m.batch[m.position + 1] > id);
        assert(next_due(m.batch, m.position + 1, id + 1) == m.position + 1);
        assert(n.state == LoopState::Delivering);
        assert(n.batch == m.batch);
        lemma_rest_of_batch(n, rest);
        assert(m.delivered.push(m.batch[m.position + 1]) + m.batch.subrange(m.position + 2, len)
            =~= m.delivered + m.batch.subrange(m.position + 1, len));
    } else {
        assert(next_due(m.batch, m.position + 1, id + 1) == len);
        assert(rest.len() == 0);
        assert(after_handling(n, rest) == n);
        assert(m.delivered + m.batch.subrange(m.position + 1, len) =~= m.delivered);
    }
}

/// After a batch of strictly increasing identifiers, none below the cursor,
/// has been handled, the cursor is one past the largest of them, whatever
/// the handler's outcomes were; each update was handed out once, in order,
/// and the loop is fetching again.
pub proof fn lemma_cursor_after_batch(m: LoopModel, ids: Vec<i64>, outcomes: Seq<bool>)
    requires
        model_wf(m),
        m.state == LoopState::Polling,
        ids@.len() > 0,
        ascending(ids@),
        ids@[0] >= m.cursor,
        ids@.last() < i64::MAX,
        outcomes.len() == ids@.len(),
    ensures
        after_handling(step_spec(m, Event::Fetched(ids)).0, outcomes).state == LoopState::Polling,
        after_handling(step_spec(m, Event::Fetched(ids)).0, outcomes).cursor == ids@.last() + 1,
        after_handling(step_spec(m, Event::Fetched(ids)).0, outcomes).delivered == m.delivered
            + ids@,
{
    let n = step_spec(m, Event::Fetched(ids)).0;
    assert(next_due(ids@, 0, m.cursor as int) == 0);
    lemma_step_preserves_wf(m, Event::Fetched(ids));
    assert(n.state == LoopState::Delivering);
    assert(n.position == 0);
    lemma_rest_of_batch(n, outcomes);
    assert(m.delivered.push(ids@[0]) + ids@.subrange(1, ids@.len() as int) =~= m.delivered + ids@);
}

/// The loop's own delay starts at one second, never shrinks as failures
/// accumulate, and never exceeds the cap.
pub proof fn lemma_backoff_bounded(a: u32, b: u32)
    requires
        a <= b,
    ensures
        1 <= backoff_delay(a) <= backoff_delay(b) <= BACKOFF_CAP,
{
}

/// A failure that names a delay makes the loop wait at least that long:
/// it asks for a wait no shorter than the delay and fetches again only
/// after the wait is reported over.
pub proof fn lemma_retry_after_honoured(m: LoopModel, error: ExecuteError, seconds: i64)
    requires
        m.state == LoopState::Polling,
        error matches ExecuteError::ApiError { retry_after: Some(s), .. } && s == seconds,
    ensures
        step_spec(m, Event::Failed(error)).0.state == LoopState::Backoff,
        step_spec(m, Event::Failed(error)).1 matches Action::Wait { seconds: waited } && waited
            >= seconds,
{
}

/// While the loop waits, only the end of the wait makes it fetch again.
pub proof fn lemma_backoff_waits(m: LoopModel, event: Event)
    requires
        m.state == LoopState::Backoff,
    ensures
        step_spec(m, event).1 is Poll ==> event is Resumed,
        step_spec(m, event).1 !is Deliver,
{
}

/// A failure that names no delay, and a result that cannot be decoded, stop
/// the loop.
pub proof fn lemma_fatal_stops(m: LoopModel, error: ExecuteError)
    requires
        m.state == LoopState::Polling,
        error.retry_spec() == Retry::Fatal,
    ensures
        step_spec(m, Event::Failed(error)) == on_failed(m, Retry::Fatal),
        step_spec(m, Event::Failed(error)).0.state == LoopState::Stopped,
        step_spec(m, Event::Failed(error)).1 == Action::Stop,
{
}

/// Once stopped, the loop stays stopped and asks for nothing.
pub proof fn lemma_stopped_is_final(m: LoopModel, event: Event)
    requires
        m.state == LoopState::Stopped,
    ensures
        step_spec(m, event) == (m, Action::Stop),
{
}

/// Cancellation stops the loop from every state, without handing out
/// anything more.
pub proof fn lemma_cancel_stops(m: LoopModel)
    ensures
        step_spec(m, Event::Cancel).0.state == LoopState::Stopped,
        step_spec(m, Event::Cancel).1 == Action::Stop,
        step_spec(m, Event::Cancel).0.delivered == m.delivered,
{
}

} // verus!
