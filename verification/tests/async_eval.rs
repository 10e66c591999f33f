use rhai_bridge::async_eval::deliver_function_result;
use rhai_bridge::async_eval::delivery_outcome;
use rhai_bridge::async_eval::finish_function_request;
use rhai_bridge::async_eval::record_async_eval_result;
use rhai_bridge::async_eval::report_delivery;
use rhai_bridge::async_eval::request_dart_function_execution;
use rhai_bridge::async_eval::rhai_eval_async_cancel;
use rhai_bridge::async_eval::rhai_eval_async_poll;
use rhai_bridge::async_eval::rhai_eval_async_start;
use rhai_bridge::async_eval::rhai_get_pending_function_request;
use rhai_bridge::async_eval::rhai_provide_function_result;
use rhai_bridge::async_eval::AsyncEvalRegistry;
use rhai_bridge::async_eval::AsyncEvalResult;
use rhai_bridge::async_eval::Delivery;
use rhai_bridge::async_eval::FunctionCallRequest;
use rhai_bridge::async_eval::PollStatus;
use rhai_bridge::async_eval::RequestError;
use rhai_bridge::async_eval::RequestQueue;
use rhai_bridge::async_eval::REQUEST_TIMEOUT_SECONDS;
use rhai_bridge::channel::WaitOutcome;
use rhai_bridge::error::rhai_get_last_error;
use rhai_bridge::error::LastError;
use rhai_bridge::functions::PendingFutures;

fn post(
    queue: &mut RequestQueue,
    futures: &mut PendingFutures,
    name: &str,
    args: &str,
) -> (i64, tokio::sync::oneshot::Receiver<String>) {
    request_dart_function_execution(queue, futures, name.to_string(), args.to_string()).unwrap()
}

fn waited(mut receiver: tokio::sync::oneshot::Receiver<String>) -> WaitOutcome {
    match receiver.try_recv() {
        Ok(value) => WaitOutcome::Delivered(value),
        Err(tokio::sync::oneshot::error::TryRecvError::Closed) => WaitOutcome::Closed,
        Err(tokio::sync::oneshot::error::TryRecvError::Empty) => WaitOutcome::TimedOut,
    }
}

#[test]
fn test_requests_leave_in_the_order_they_came() {
    let mut queue = RequestQueue::new();
    let mut futures = PendingFutures::new();
    assert_eq!(queue.len(), 0);
    assert_eq!(rhai_get_pending_function_request(&mut queue), None);

    let (first, _rx1) = post(&mut queue, &mut futures, "fetch", "[1]");
    let (second, _rx2) = post(&mut queue, &mut futures, "store", "[2,3]");
    let (third, _rx3) = post(&mut queue, &mut futures, "fetch", "[]");
    assert_eq!((first, second, third), (1, 2, 3));
    assert_eq!(queue.len(), 3);

    assert_eq!(
        rhai_get_pending_function_request(&mut queue),
        Some(FunctionCallRequest {
            exec_id: 1,
            function_name: "fetch".to_string(),
            args_json: "[1]".to_string(),
        })
    );
    assert_eq!(
        rhai_get_pending_function_request(&mut queue),
        Some(FunctionCallRequest {
            exec_id: 2,
            function_name: "store".to_string(),
            args_json: "[2,3]".to_string(),
        })
    );
    assert_eq!(queue.len(), 1);
    assert_eq!(rhai_get_pending_function_request(&mut queue).unwrap().exec_id, 3);
    assert_eq!(rhai_get_pending_function_request(&mut queue), None);
    assert_eq!(queue.len(), 0);
}

#[test]
fn test_taking_a_request_keeps_its_channel() {
    let mut queue = RequestQueue::new();
    let mut futures = PendingFutures::new();
    let (id, _rx) = post(&mut queue, &mut futures, "f", "[]");
    assert!(futures.is_queued(id));
    let request = rhai_get_pending_function_request(&mut queue).unwrap();
    assert_eq!(request.exec_id, id);
    assert!(futures.is_queued(id));
}

#[test]
fn test_delivery_reaches_the_waiting_call() {
    let mut queue = RequestQueue::new();
    let mut futures = PendingFutures::new();
    let mut last_error = LastError::new();
    let (id, rx) = post(&mut queue, &mut futures, "f", "[]");

    let ret = rhai_provide_function_result(&mut futures, &mut last_error, id, Some("99".to_string()));
    assert_eq!(ret, 0);
    assert_eq!(rhai_get_last_error(&last_error), None);
    assert!(!futures.is_queued(id));

    let outcome = waited(rx);
    assert_eq!(outcome, WaitOutcome::Delivered("99".to_string()));
    assert_eq!(finish_function_request(&mut futures, id, outcome), Ok("99".to_string()));
}

#[test]
fn test_delivery_happens_at_most_once() {
    let mut queue = RequestQueue::new();
    let mut futures = PendingFutures::new();
    let mut last_error = LastError::new();
    let (id, mut rx) = post(&mut queue, &mut futures, "f", "[]");

    assert_eq!(deliver_function_result(&mut futures, id, "1".to_string()), Delivery::Delivered);
    assert_eq!(deliver_function_result(&mut futures, id, "2".to_string()), Delivery::NotFound);
    assert_eq!(rx.try_recv().unwrap(), "1");

    let ret = rhai_provide_function_result(&mut futures, &mut last_error, id, Some("3".to_string()));
    assert_eq!(ret, -1);
    assert_eq!(
        rhai_get_last_error(&last_error),
        Some("Function request ID not found: 1".to_string())
    );
}

#[test]
fn test_delivery_to_an_unknown_request() {
    let mut queue = RequestQueue::new();
    let mut futures = PendingFutures::new();
    let mut last_error = LastError::new();
    let ret = rhai_provide_function_result(&mut futures, &mut last_error, -12, Some("1".to_string()));
    assert_eq!(ret, -1);
    assert_eq!(
        rhai_get_last_error(&last_error),
        Some("Function request ID not found: -12".to_string())
    );
}

#[test]
fn test_delivery_without_a_result() {
    let mut queue = RequestQueue::new();
    let mut futures = PendingFutures::new();
    let mut last_error = LastError::new();
    let (id, _rx) = post(&mut queue, &mut futures, "f", "[]");
    let ret = rhai_provide_function_result(&mut futures, &mut last_error, id, None);
    assert_eq!(ret, -1);
    assert_eq!(rhai_get_last_error(&last_error), Some("Result JSON pointer is null".to_string()));
    assert!(futures.is_queued(id));
}

#[test]
fn test_delivery_after_the_call_gave_up() {
    let mut queue = RequestQueue::new();
    let mut futures = PendingFutures::new();
    let mut last_error = LastError::new();
    let (id, rx) = post(&mut queue, &mut futures, "f", "[]");

    let outcome = waited(rx);
    assert_eq!(outcome, WaitOutcome::TimedOut);
    assert_eq!(finish_function_request(&mut futures, id, outcome), Err(RequestError::TimedOut));
    assert!(!futures.is_queued(id));

    let ret = rhai_provide_function_result(&mut futures, &mut last_error, id, Some("1".to_string()));
    assert_eq!(ret, -1);
    assert_eq!(
        rhai_get_last_error(&last_error),
        Some("Function request ID not found: 1".to_string())
    );
}

#[test]
fn test_delivery_to_a_dropped_receiver() {
    let mut queue = RequestQueue::new();
    let mut futures = PendingFutures::new();
    let mut last_error = LastError::new();
    let (id, rx) = post(&mut queue, &mut futures, "f", "[]");
    drop(rx);
    let ret = rhai_provide_function_result(&mut futures, &mut last_error, id, Some("1".to_string()));
    assert_eq!(ret, -1);
    assert_eq!(
        rhai_get_last_error(&last_error),
        Some("Failed to send result through channel (receiver dropped)".to_string())
    );
    assert!(!futures.is_queued(id));
}

#[test]
fn test_report_delivery() {
    let mut last_error = LastError::new();
    assert_eq!(report_delivery(&mut last_error, Delivery::Delivered, 4), 0);
    assert_eq!(rhai_get_last_error(&last_error), None);
    assert_eq!(report_delivery(&mut last_error, Delivery::NotFound, 4), -1);
    assert_eq!(
        rhai_get_last_error(&last_error),
        Some("Function request ID not found: 4".to_string())
    );
    assert_eq!(report_delivery(&mut last_error, Delivery::ReceiverDropped, 4), -1);
    assert_eq!(
        rhai_get_last_error(&last_error),
        Some("Failed to send result through channel (receiver dropped)".to_string())
    );
}

#[test]
fn test_closed_channel_ends_the_request() {
    let mut queue = RequestQueue::new();
    let mut futures = PendingFutures::new();
    let (id, _rx) = post(&mut queue, &mut futures, "f", "[]");
    let result = finish_function_request(&mut futures, id, WaitOutcome::Closed);
    assert_eq!(result, Err(RequestError::ChannelClosed));
    assert_eq!(queue.len(), 1);
    assert!(futures.is_queued(id));
}

#[test]
fn test_request_error_messages() {
    assert_eq!(REQUEST_TIMEOUT_SECONDS, 30);
    assert_eq!(RequestError::TimedOut.message(), "Function call timed out after 30 seconds");
    assert_eq!(RequestError::ChannelClosed.message(), "Response channel closed unexpectedly");
    assert_eq!(RequestError::IdsExhausted.message(), "No request id is left");
}

#[test]
fn test_poll_sees_a_terminal_status_once() {
    let mut registry = AsyncEvalRegistry::new();
    let mut last_error = LastError::new();

    let eval_id = rhai_eval_async_start(&mut registry).unwrap();
    assert_eq!(eval_id, 1);
    assert!(registry.contains(eval_id));
    assert_eq!(
        rhai_eval_async_poll(&mut registry, &mut last_error, eval_id),
        PollStatus::InProgress
    );
    assert_eq!(
        rhai_eval_async_poll(&mut registry, &mut last_error, eval_id),
        PollStatus::InProgress
    );

    record_async_eval_result(&mut registry, eval_id, AsyncEvalResult::Success("42".to_string()));
    assert_eq!(
        rhai_eval_async_poll(&mut registry, &mut last_error, eval_id),
        PollStatus::Success("42".to_string())
    );
    assert_eq!(rhai_get_last_error(&last_error), None);
    assert!(!registry.contains(eval_id));

    assert_eq!(rhai_eval_async_poll(&mut registry, &mut last_error, eval_id), PollStatus::NotFound);
    assert_eq!(rhai_get_last_error(&last_error), Some("Invalid eval ID: 1".to_string()));
}

#[test]
fn test_poll_sees_an_error_once() {
    let mut registry = AsyncEvalRegistry::new();
    let mut last_error = LastError::new();
    let eval_id = rhai_eval_async_start(&mut registry).unwrap();
    record_async_eval_result(&mut registry, eval_id, AsyncEvalResult::Error("boom".to_string()));
    assert_eq!(
        rhai_eval_async_poll(&mut registry, &mut last_error, eval_id),
        PollStatus::Error("boom".to_string())
    );
    assert_eq!(rhai_eval_async_poll(&mut registry, &mut last_error, eval_id), PollStatus::NotFound);
}

#[test]
fn test_terminal_status_is_not_rewritten() {
    let mut registry = AsyncEvalRegistry::new();
    let mut last_error = LastError::new();
    let eval_id = rhai_eval_async_start(&mut registry).unwrap();
    record_async_eval_result(&mut registry, eval_id, AsyncEvalResult::Success("1".to_string()));
    record_async_eval_result(&mut registry, eval_id, AsyncEvalResult::Error("late".to_string()));
    record_async_eval_result(&mut registry, eval_id, AsyncEvalResult::InProgress);
    assert_eq!(
        rhai_eval_async_poll(&mut registry, &mut last_error, eval_id),
        PollStatus::Success("1".to_string())
    );
}

#[test]
fn test_in_progress_is_no_end() {
    let mut registry = AsyncEvalRegistry::new();
    let mut last_error = LastError::new();
    let eval_id = rhai_eval_async_start(&mut registry).unwrap();
    record_async_eval_result(&mut registry, eval_id, AsyncEvalResult::InProgress);
    assert_eq!(
        rhai_eval_async_poll(&mut registry, &mut last_error, eval_id),
        PollStatus::InProgress
    );
}

#[test]
fn test_cancel_hides_the_result_for_good() {
    let mut registry = AsyncEvalRegistry::new();
    let mut last_error = LastError::new();
    let eval_id = rhai_eval_async_start(&mut registry).unwrap();

    assert_eq!(rhai_eval_async_cancel(&mut registry, &mut last_error, eval_id), 0);
    assert_eq!(rhai_get_last_error(&last_error), None);
    assert!(!registry.contains(eval_id));

    record_async_eval_result(&mut registry, eval_id, AsyncEvalResult::Success("7".to_string()));
    assert!(!registry.contains(eval_id));
    assert_eq!(rhai_eval_async_poll(&mut registry, &mut last_error, eval_id), PollStatus::NotFound);
    assert_eq!(rhai_get_last_error(&last_error), Some("Invalid eval ID: 1".to_string()));

    assert_eq!(rhai_eval_async_cancel(&mut registry, &mut last_error, eval_id), -1);
    assert_eq!(rhai_get_last_error(&last_error), Some("Invalid eval ID: 1".to_string()));
}

#[test]
fn test_cancel_of_an_unknown_evaluation() {
    let mut registry = AsyncEvalRegistry::new();
    let mut last_error = LastError::new();
    assert_eq!(rhai_eval_async_cancel(&mut registry, &mut last_error, 55), -1);
    assert_eq!(rhai_get_last_error(&last_error), Some("Invalid eval ID: 55".to_string()));
    assert_eq!(rhai_eval_async_poll(&mut registry, &mut last_error, -1), PollStatus::NotFound);
    assert_eq!(rhai_get_last_error(&last_error), Some("Invalid eval ID: -1".to_string()));
}

#[test]
fn test_evaluations_do_not_touch_each_other() {
    let mut registry = AsyncEvalRegistry::new();
    let mut last_error = LastError::new();
    let first = rhai_eval_async_start(&mut registry).unwrap();
    let second = rhai_eval_async_start(&mut registry).unwrap();
    let third = rhai_eval_async_start(&mut registry).unwrap();
    assert_eq!((first, second, third), (1, 2, 3));

    record_async_eval_result(&mut registry, second, AsyncEvalResult::Success("2".to_string()));
    assert_eq!(rhai_eval_async_cancel(&mut registry, &mut last_error, third), 0);

    assert_eq!(rhai_eval_async_poll(&mut registry, &mut last_error, first), PollStatus::InProgress);
    assert_eq!(
        rhai_eval_async_poll(&mut registry, &mut last_error, second),
        PollStatus::Success("2".to_string())
    );
    assert_eq!(rhai_eval_async_poll(&mut registry, &mut last_error, first), PollStatus::InProgress);

    let fourth = rhai_eval_async_start(&mut registry).unwrap();
    assert_eq!(fourth, 4);
}

#[test]
fn test_status_codes() {
    assert_eq!(AsyncEvalResult::InProgress.status_code(), 0);
    assert_eq!(AsyncEvalResult::Success("1".to_string()).status_code(), 1);
    assert_eq!(AsyncEvalResult::Error("e".to_string()).status_code(), 2);
}

#[test]
fn test_status_leaves_the_entry() {
    let mut registry = AsyncEvalRegistry::new();
    let mut last_error = LastError::new();
    assert_eq!(registry.status(1), None);
    let eval_id = rhai_eval_async_start(&mut registry).unwrap();
    assert_eq!(registry.status(eval_id), Some(&AsyncEvalResult::InProgress));
    record_async_eval_result(&mut registry, eval_id, AsyncEvalResult::Error("e".to_string()));
    assert_eq!(registry.status(eval_id), Some(&AsyncEvalResult::Error("e".to_string())));
    assert_eq!(registry.status(eval_id), Some(&AsyncEvalResult::Error("e".to_string())));
    assert_eq!(
        rhai_eval_async_poll(&mut registry, &mut last_error, eval_id),
        PollStatus::Error("e".to_string())
    );
    assert_eq!(registry.status(eval_id), None);
}

#[test]
fn test_poll_status_codes() {
    assert_eq!(PollStatus::NotFound.status_code(), None);
    assert_eq!(PollStatus::InProgress.status_code(), Some(0));
    assert_eq!(PollStatus::Success("1".to_string()).status_code(), Some(1));
    assert_eq!(PollStatus::Error("e".to_string()).status_code(), Some(2));
}

#[test]
fn test_delivery_outcome() {
    assert_eq!(delivery_outcome(None), Delivery::NotFound);
    assert_eq!(delivery_outcome(Some(true)), Delivery::Delivered);
    assert_eq!(delivery_outcome(Some(false)), Delivery::ReceiverDropped);
}

#[test]
fn test_delivery_does_not_reach_a_deferred_result() {
    let mut futures = PendingFutures::new();
    let mut last_error = LastError::new();
    let _receiver = futures.register(6).unwrap();
    let ret = rhai_provide_function_result(&mut futures, &mut last_error, 6, Some("1".to_string()));
    assert_eq!(ret, -1);
    assert_eq!(
        rhai_get_last_error(&last_error),
        Some("Function request ID not found: 6".to_string())
    );
    assert!(futures.contains(6));
}
