use botline::execute::ExecuteError;
use botline::longpoll::{delay_for, find_due, Action, DispatchLoop, Event, LoopState, BACKOFF_CAP};

fn transport() -> Event {
    Event::Failed(ExecuteError::Transport(String::from("connection reset")))
}

fn api(retry_after: Option<i64>) -> Event {
    Event::Failed(ExecuteError::ApiError {
        code: 429,
        description: String::from("Too Many Requests"),
        retry_after,
    })
}

/// Feeds a batch and handles every delivery with the given outcome;
/// returns the identifiers delivered and the action that ended the batch.
fn run_batch(l: &mut DispatchLoop, ids: Vec<i64>, ok: bool) -> (Vec<i64>, Action) {
    let mut delivered = Vec::new();
    let mut action = l.step(Event::Fetched(ids.clone()));
    while let Action::Deliver { index, id } = action {
        assert_eq!(ids[index], id);
        assert_eq!(l.state(), LoopState::Delivering);
        delivered.push(id);
        action = l.step(Event::Handled(ok));
    }
    (delivered, action)
}

#[test]
fn starts_by_polling_from_the_cursor() {
    let mut l = DispatchLoop::new(0, 25);
    assert_eq!(l.state(), LoopState::Idle);
    assert_eq!(l.cursor(), 0);
    assert_eq!(l.step(Event::Start), Action::Poll { offset: 0, timeout: 25 });
    assert_eq!(l.state(), LoopState::Polling);
    assert_eq!(l.step(Event::Start), Action::Ignore);
}

#[test]
fn cursor_is_one_past_the_largest_identifier() {
    for ok in [true, false] {
        let mut l = DispatchLoop::new(0, 10);
        l.step(Event::Start);
        let (delivered, action) = run_batch(&mut l, vec![3, 4, 9], ok);
        assert_eq!(delivered, vec![3, 4, 9]);
        assert_eq!(action, Action::Poll { offset: 10, timeout: 10 });
        assert_eq!(l.cursor(), 10);
        assert_eq!(l.state(), LoopState::Polling);
    }
}

#[test]
fn cursor_moves_after_each_handled_update() {
    let mut l = DispatchLoop::new(5, 10);
    l.step(Event::Start);
    assert_eq!(l.step(Event::Fetched(vec![5, 6])), Action::Deliver { index: 0, id: 5 });
    assert_eq!(l.cursor(), 5);
    assert_eq!(l.step(Event::Handled(false)), Action::Deliver { index: 1, id: 6 });
    assert_eq!(l.cursor(), 6);
    assert_eq!(l.step(Event::Handled(true)), Action::Poll { offset: 7, timeout: 10 });
    assert_eq!(l.cursor(), 7);
}

#[test]
fn nothing_is_delivered_twice() {
    let mut l = DispatchLoop::new(0, 10);
    l.step(Event::Start);
    let mut all = Vec::new();
    let (delivered, _) = run_batch(&mut l, vec![1, 2, 3], true);
    all.extend(delivered);
    let (delivered, action) = run_batch(&mut l, vec![2, 3, 4, 4, 1, 7], false);
    assert_eq!(delivered, vec![4, 7]);
    assert_eq!(action, Action::Poll { offset: 8, timeout: 10 });
    all.extend(delivered);
    let (delivered, action) = run_batch(&mut l, vec![7, 6, 5], true);
    assert_eq!(delivered, Vec::<i64>::new());
    assert_eq!(action, Action::Poll { offset: 8, timeout: 10 });
    all.extend(delivered);
    assert_eq!(all, vec![1, 2, 3, 4, 7]);
    let mut sorted = all.clone();
    sorted.dedup();
    assert_eq!(sorted, all);
}

#[test]
fn empty_batch_polls_again() {
    let mut l = DispatchLoop::new(4, 10);
    l.step(Event::Start);
    assert_eq!(l.step(Event::Fetched(vec![])), Action::Poll { offset: 4, timeout: 10 });
    assert_eq!(l.state(), LoopState::Polling);
    assert_eq!(l.cursor(), 4);
}

#[test]
fn transport_failures_back_off_with_growing_delay() {
    let mut l = DispatchLoop::new(0, 10);
    l.step(Event::Start);
    let mut waits = Vec::new();
    for _ in 0..8 {
        match l.step(transport()) {
            Action::Wait { seconds } => waits.push(seconds),
            other => panic!("unexpected action {:?}", other),
        }
        assert_eq!(l.state(), LoopState::Backoff);
        assert_eq!(l.step(Event::Handled(true)), Action::Ignore);
        assert_eq!(l.step(Event::Fetched(vec![1])), Action::Ignore);
        assert_eq!(l.step(Event::Resumed), Action::Poll { offset: 0, timeout: 10 });
    }
    assert_eq!(waits, vec![1, 2, 4, 8, 16, 32, 60, 60]);
    assert_eq!(l.attempts(), 8);
    assert_eq!(l.step(Event::Fetched(vec![])), Action::Poll { offset: 0, timeout: 10 });
    assert_eq!(l.attempts(), 0);
    assert_eq!(l.step(transport()), Action::Wait { seconds: 1 });
}

#[test]
fn backoff_delay_values() {
    assert_eq!(delay_for(0), 1);
    assert_eq!(delay_for(5), 32);
    assert_eq!(delay_for(6), BACKOFF_CAP);
    assert_eq!(delay_for(u32::MAX), 60);
}

#[test]
fn retry_after_is_the_least_wait() {
    let mut l = DispatchLoop::new(0, 10);
    l.step(Event::Start);
    assert_eq!(l.step(api(Some(30))), Action::Wait { seconds: 30 });
    assert_eq!(l.state(), LoopState::Backoff);
    assert_eq!(l.step(Event::Resumed), Action::Poll { offset: 0, timeout: 10 });
    assert_eq!(l.step(api(Some(1))), Action::Wait { seconds: 2 });
    l.step(Event::Resumed);
    assert_eq!(l.step(api(Some(-5))), Action::Wait { seconds: 4 });
    l.step(Event::Resumed);
    assert_eq!(l.step(api(Some(i64::MAX))), Action::Wait { seconds: 9223372036854775807 });
}

#[test]
fn http_failure_backs_off() {
    let mut l = DispatchLoop::new(0, 10);
    l.step(Event::Start);
    let event = Event::Failed(ExecuteError::Http(502, String::from("Bad Gateway")));
    assert_eq!(l.step(event), Action::Wait { seconds: 1 });
}

#[test]
fn api_error_without_delay_stops_the_loop() {
    let mut l = DispatchLoop::new(0, 10);
    l.step(Event::Start);
    assert_eq!(l.step(api(None)), Action::Stop);
    assert!(l.is_stopped());
    assert_eq!(l.step(Event::Resumed), Action::Stop);
    assert_eq!(l.step(Event::Start), Action::Stop);
    assert_eq!(l.step(Event::Fetched(vec![1])), Action::Stop);
    assert_eq!(l.state(), LoopState::Stopped);
}

#[test]
fn decode_failure_stops_the_loop() {
    let mut l = DispatchLoop::new(0, 10);
    l.step(Event::Start);
    assert_eq!(l.step(Event::Failed(ExecuteError::Decode(String::from("bad")))), Action::Stop);
    assert!(l.is_stopped());
}

#[test]
fn cancel_stops_from_every_state() {
    let mut idle = DispatchLoop::new(0, 10);
    assert_eq!(idle.step(Event::Cancel), Action::Stop);
    assert!(idle.is_stopped());

    let mut polling = DispatchLoop::new(0, 10);
    polling.step(Event::Start);
    assert_eq!(polling.step(Event::Cancel), Action::Stop);
    assert_eq!(polling.step(Event::Fetched(vec![1, 2])), Action::Stop);
    assert_eq!(polling.cursor(), 0);

    let mut waiting = DispatchLoop::new(0, 10);
    waiting.step(Event::Start);
    waiting.step(transport());
    assert_eq!(waiting.step(Event::Cancel), Action::Stop);
    assert_eq!(waiting.step(Event::Resumed), Action::Stop);

    let mut delivering = DispatchLoop::new(0, 10);
    delivering.step(Event::Start);
    assert_eq!(delivering.step(Event::Fetched(vec![1, 2])), Action::Deliver { index: 0, id: 1 });
    assert_eq!(delivering.step(Event::Cancel), Action::Stop);
    assert_eq!(delivering.cursor(), 2);
    assert_eq!(delivering.step(Event::Handled(true)), Action::Stop);
    assert!(delivering.is_stopped());
}

#[test]
fn largest_identifier_ends_the_loop() {
    let mut l = DispatchLoop::new(0, 10);
    l.step(Event::Start);
    assert_eq!(
        l.step(Event::Fetched(vec![i64::MAX])),
        Action::Deliver { index: 0, id: i64::MAX }
    );
    assert_eq!(l.step(Event::Handled(true)), Action::Stop);
    assert!(l.is_stopped());
}

#[test]
fn events_out_of_place_change_nothing() {
    let mut l = DispatchLoop::new(3, 10);
    assert_eq!(l.step(Event::Fetched(vec![5])), Action::Ignore);
    assert_eq!(l.step(Event::Handled(true)), Action::Ignore);
    assert_eq!(l.step(Event::Resumed), Action::Ignore);
    assert_eq!(l.step(transport()), Action::Ignore);
    assert_eq!(l.state(), LoopState::Idle);
    assert_eq!(l.cursor(), 3);
    l.step(Event::Start);
    l.step(Event::Fetched(vec![5]));
    assert_eq!(l.step(Event::Fetched(vec![6])), Action::Ignore);
    assert_eq!(l.step(transport()), Action::Ignore);
    assert_eq!(l.state(), LoopState::Delivering);
}

#[test]
fn find_due_skips_what_lies_below_the_cursor() {
    assert_eq!(find_due(&vec![1, 2, 3], 0, 2), 1);
    assert_eq!(find_due(&vec![1, 2, 3], 2, 0), 2);
    assert_eq!(find_due(&vec![1, 2, 3], 0, 4), 3);
    assert_eq!(find_due(&vec![1, 2, 3], 7, 0), 3);
    assert_eq!(find_due(&vec![], 0, 0), 0);
}
