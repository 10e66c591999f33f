use rhai_bridge::channel::WaitOutcome;
use rhai_bridge::error::rhai_get_last_error;
use rhai_bridge::error::LastError;
use rhai_bridge::functions::async_response_step;
use rhai_bridge::functions::check_and_clear_async_flag;
use rhai_bridge::functions::choose_route;
use rhai_bridge::functions::read_callback_response;
use rhai_bridge::functions::sync_response_result;
use rhai_bridge::functions::complete_future;
use rhai_bridge::functions::convert_args_to_json;
use rhai_bridge::functions::finish_pending_wait;
use rhai_bridge::functions::generate_future_id;
use rhai_bridge::functions::invoke_dart_callback_async;
use rhai_bridge::functions::invoke_dart_callback_sync;
use rhai_bridge::functions::invoke_dart_callback_vec;
use rhai_bridge::functions::invoke_dart_callback_vec_async;
use rhai_bridge::functions::is_async_eval_mode;
use rhai_bridge::functions::mark_async_invoked;
use rhai_bridge::functions::queued_call_result;
use rhai_bridge::functions::report_completion;
use rhai_bridge::functions::rhai_complete_future;
use rhai_bridge::functions::rhai_register_function;
use rhai_bridge::functions::set_async_eval_mode;
use rhai_bridge::functions::AsyncCall;
use rhai_bridge::functions::CallError;
use rhai_bridge::functions::CallbackInfo;
use rhai_bridge::functions::CallbackRegistry;
use rhai_bridge::functions::Completion;
use rhai_bridge::functions::ExecutionContext;
use rhai_bridge::functions::completion_outcome;
use rhai_bridge::functions::PendingFutures;
use rhai_bridge::functions::Route;
use rhai_bridge::async_eval::finish_function_request;
use rhai_bridge::async_eval::request_dart_function_execution;
use rhai_bridge::async_eval::rhai_get_pending_function_request;
use rhai_bridge::async_eval::rhai_provide_function_result;
use rhai_bridge::async_eval::RequestError;
use rhai_bridge::async_eval::RequestQueue;
use rhai_bridge::engine::rhai_engine_new;
use rhai_bridge::types::CRhaiConfig;
use rhai_bridge::values::ScriptValue;
use rhai_bridge::values::ValueError;
use std::time::Duration;
use std::time::Instant;
use tokio::sync::oneshot::Receiver;

fn wait(receiver: Receiver<String>, seconds: u64) -> WaitOutcome {
    let runtime = tokio::runtime::Builder::new_current_thread().enable_time().build().unwrap();
    let waited =
        runtime.block_on(async { tokio::time::timeout(Duration::from_secs(seconds), receiver).await });
    match waited {
        Ok(Ok(value)) => WaitOutcome::Delivered(value),
        Ok(Err(_)) => WaitOutcome::Closed,
        Err(_) => WaitOutcome::TimedOut,
    }
}

fn done(call: AsyncCall) -> Result<String, CallError> {
    match call {
        AsyncCall::Done(result) => result,
        AsyncCall::Waiting { future_id, .. } => panic!("waits for {}", future_id),
    }
}

fn text(value: &str) -> ScriptValue {
    ScriptValue::Str(value.to_string())
}

#[test]
fn test_generate_future_id_uniqueness() {
    let mut futures = PendingFutures::new();
    let id1 = generate_future_id(&mut futures).unwrap();
    let id2 = generate_future_id(&mut futures).unwrap();
    let id3 = generate_future_id(&mut futures).unwrap();

    assert_ne!(id1, id2);
    assert_ne!(id2, id3);
    assert_ne!(id1, id3);

    assert_eq!(id2, id1 + 1);
    assert_eq!(id3, id2 + 1);
}

#[test]
fn test_generate_future_id_starts_at_one() {
    let mut futures = PendingFutures::new();
    assert_eq!(generate_future_id(&mut futures), Some(1));
    assert_eq!(generate_future_id(&mut futures), Some(2));
}

#[test]
fn test_convert_args_to_json() {
    let args = vec![ScriptValue::Int(42), text("hello"), ScriptValue::Bool(true)];

    let json = convert_args_to_json(&args).unwrap();
    assert!(json.starts_with('['));
    assert!(json.ends_with(']'));
    assert!(json.contains("42"));
    assert!(json.contains("hello"));
    assert!(json.contains("true"));
}

#[test]
fn test_convert_args_to_json_exact() {
    let args = vec![
        ScriptValue::Int(42),
        text("hello"),
        ScriptValue::Bool(true),
        ScriptValue::Unit,
        ScriptValue::Array(vec![ScriptValue::Int(1), ScriptValue::Int(2)]),
        ScriptValue::Float(f64::NAN.to_bits()),
    ];
    let json = convert_args_to_json(&args).unwrap();
    assert_eq!(json, r#"[42,"hello",true,null,[1,2],"__NAN__"]"#);

    let one = convert_args_to_json(&vec![ScriptValue::Int(21)]).unwrap();
    assert_eq!(one, "[21]");
}

#[test]
fn test_convert_empty_args() {
    let args: Vec<ScriptValue> = vec![];
    let json = convert_args_to_json(&args).unwrap();
    assert_eq!(json, "[]");
}

#[test]
fn test_convert_args_refuses_unsupported_values() {
    let args = vec![ScriptValue::Int(1), ScriptValue::Other("FnPtr".to_string())];
    let error = convert_args_to_json(&args).unwrap_err();
    assert_eq!(error.message(), "Unsupported Rhai type: FnPtr");
}

#[test]
fn test_timeout_cleanup() {
    let mut context = ExecutionContext::new();
    let mut futures = PendingFutures::new();
    let mut last_error = LastError::new();

    let response = r#"{"status":"pending","future_id":12345}"#;
    let call = invoke_dart_callback_async(&mut context, &mut futures, Some(response));
    let (future_id, receiver) = match call {
        AsyncCall::Waiting { future_id, receiver } => (future_id, receiver),
        AsyncCall::Done(result) => panic!("the call ended: {:?}", result),
    };
    assert_eq!(future_id, 12345);
    assert!(futures.contains(12345));

    let started = Instant::now();
    let outcome = wait(receiver, 1);
    assert!(started.elapsed() >= Duration::from_millis(900));
    assert_eq!(outcome, WaitOutcome::TimedOut);

    let result = finish_pending_wait(&mut futures, future_id, outcome, 1);
    assert!(result.is_err());
    let err_msg = result.unwrap_err().message();
    assert!(err_msg.contains("timed out") || err_msg.contains("timeout"));
    assert_eq!(err_msg, "Async operation timed out after 1 seconds");

    assert!(!futures.contains(12345));

    let ret = rhai_complete_future(&mut futures, &mut last_error, 12345, Some("1".to_string()));
    assert_eq!(ret, -1);
    assert_eq!(
        rhai_get_last_error(&last_error),
        Some("Future ID 12345 not found in registry".to_string())
    );
}

#[test]
fn test_future_registry_cleanup_on_completion() {
    let mut futures = PendingFutures::new();
    let mut last_error = LastError::new();
    let future_id = 88888;

    let mut rx = futures.register(future_id).unwrap();
    assert!(futures.contains(future_id));

    let ret = rhai_complete_future(
        &mut futures,
        &mut last_error,
        future_id,
        Some("\"test_result\"".to_string()),
    );

    assert_eq!(ret, 0);
    assert_eq!(rhai_get_last_error(&last_error), None);

    assert!(!futures.contains(future_id));

    let result = rx.try_recv();
    assert!(result.is_ok());
    assert_eq!(result.unwrap(), "\"test_result\"");
}

#[test]
fn test_complete_nonexistent_future() {
    let mut futures = PendingFutures::new();
    let mut last_error = LastError::new();
    let nonexistent_id = 77777;

    let ret = rhai_complete_future(
        &mut futures,
        &mut last_error,
        nonexistent_id,
        Some("\"test_result\"".to_string()),
    );

    assert_eq!(ret, -1);
    assert_eq!(
        rhai_get_last_error(&last_error),
        Some("Future ID 77777 not found in registry".to_string())
    );
}

#[test]
fn test_custom_timeout_in_callback_info() {
    let info = CallbackInfo {
        callback_id: 123,
        async_timeout_seconds: 60,
        function_name: "test_function".to_string(),
    };

    assert_eq!(info.async_timeout_seconds, 60);
}

#[test]
fn test_complete_succeeds_exactly_once() {
    let mut futures = PendingFutures::new();
    let mut last_error = LastError::new();
    let mut rx = futures.register(5).unwrap();

    assert_eq!(complete_future(&mut futures, 5, "1".to_string()), Completion::Delivered);
    assert_eq!(complete_future(&mut futures, 5, "2".to_string()), Completion::NotFound);
    assert_eq!(rx.try_recv().unwrap(), "1");

    let ret = rhai_complete_future(&mut futures, &mut last_error, 5, Some("3".to_string()));
    assert_eq!(ret, -1);
}

#[test]
fn test_complete_leaves_other_operations_alone() {
    let mut futures = PendingFutures::new();
    let mut first = futures.register(1).unwrap();
    let mut second = futures.register(2).unwrap();

    assert_eq!(complete_future(&mut futures, 2, "two".to_string()), Completion::Delivered);
    assert!(futures.contains(1));
    assert!(!futures.contains(2));
    assert!(first.try_recv().is_err());
    assert_eq!(second.try_recv().unwrap(), "two");

    assert_eq!(complete_future(&mut futures, 1, "one".to_string()), Completion::Delivered);
    assert_eq!(first.try_recv().unwrap(), "one");
}

#[test]
fn test_complete_after_the_waiter_left() {
    let mut futures = PendingFutures::new();
    let mut last_error = LastError::new();
    let receiver = futures.register(9).unwrap();
    drop(receiver);

    let ret = rhai_complete_future(&mut futures, &mut last_error, 9, Some("1".to_string()));
    assert_eq!(ret, -1);
    assert_eq!(
        rhai_get_last_error(&last_error),
        Some("Failed to send result for future 9: receiver dropped".to_string())
    );
    assert!(!futures.contains(9));
}

#[test]
fn test_complete_without_a_result() {
    let mut futures = PendingFutures::new();
    let mut last_error = LastError::new();
    let _receiver = futures.register(4).unwrap();

    let ret = rhai_complete_future(&mut futures, &mut last_error, 4, None);
    assert_eq!(ret, -1);
    assert_eq!(rhai_get_last_error(&last_error), Some("Result JSON pointer is null".to_string()));
    assert!(futures.contains(4));
}

#[test]
fn test_report_completion() {
    let mut last_error = LastError::new();
    assert_eq!(report_completion(&mut last_error, Completion::Delivered, -3), 0);
    assert_eq!(rhai_get_last_error(&last_error), None);
    assert_eq!(report_completion(&mut last_error, Completion::NotFound, -3), -1);
    assert_eq!(
        rhai_get_last_error(&last_error),
        Some("Future ID -3 not found in registry".to_string())
    );
    assert_eq!(report_completion(&mut last_error, Completion::ReceiverDropped, i64::MIN), -1);
    assert_eq!(
        rhai_get_last_error(&last_error),
        Some("Failed to send result for future -9223372036854775808: receiver dropped".to_string())
    );
}

#[test]
fn test_removed_operation_closes_the_channel() {
    let mut futures = PendingFutures::new();
    let receiver = futures.register(3).unwrap();
    futures.remove(3);
    assert!(!futures.contains(3));
    assert_eq!(wait(receiver, 1), WaitOutcome::Closed);

    let mut other = PendingFutures::new();
    let result = finish_pending_wait(&mut other, 3, WaitOutcome::Closed, 30);
    assert_eq!(result, Err(CallError::ChannelClosed));
}

#[test]
fn test_finish_pending_wait_with_a_delivery() {
    let mut futures = PendingFutures::new();
    let receiver = futures.register(8).unwrap();
    assert_eq!(complete_future(&mut futures, 8, "99".to_string()), Completion::Delivered);
    let outcome = wait(receiver, 1);
    assert_eq!(outcome, WaitOutcome::Delivered("99".to_string()));
    assert_eq!(finish_pending_wait(&mut futures, 8, outcome, 1), Ok("99".to_string()));
}

#[test]
fn test_context_marks() {
    let mut context = ExecutionContext::new();
    assert!(!is_async_eval_mode(&context));
    assert!(!check_and_clear_async_flag(&mut context));

    mark_async_invoked(&mut context);
    assert!(check_and_clear_async_flag(&mut context));
    assert!(!check_and_clear_async_flag(&mut context));

    set_async_eval_mode(&mut context, true);
    assert!(is_async_eval_mode(&context));
    mark_async_invoked(&mut context);
    set_async_eval_mode(&mut context, false);
    assert!(!is_async_eval_mode(&context));
    assert!(check_and_clear_async_flag(&mut context));
}

#[test]
fn test_sync_call_success() {
    let mut context = ExecutionContext::new();
    let result =
        invoke_dart_callback_sync(&mut context, Some(r#"{"status":"success","value":42}"#));
    assert_eq!(result, Ok(ScriptValue::Int(42)));
    assert!(!check_and_clear_async_flag(&mut context));

    let result = invoke_dart_callback_sync(
        &mut context,
        Some(r#"{"status":"success","value_json":"[1,\"a\"]"}"#),
    );
    assert_eq!(result, Ok(ScriptValue::Array(vec![ScriptValue::Int(1), text("a")])));

    let result = invoke_dart_callback_sync(
        &mut context,
        Some(r#"{"status":"success","value":{"k":1},"value_json":"2"}"#),
    );
    assert_eq!(result, Ok(ScriptValue::Object(vec![("k".to_string(), ScriptValue::Int(1))])));

    let result = invoke_dart_callback_sync(&mut context, Some(r#"{"status":"success"}"#));
    assert_eq!(result, Ok(ScriptValue::Unit));

    let result =
        invoke_dart_callback_sync(&mut context, Some(r#"{"status":"success","value":null}"#));
    assert_eq!(result, Ok(ScriptValue::Unit));
}

#[test]
fn test_sync_call_pending_is_misuse() {
    let mut context = ExecutionContext::new();
    let result =
        invoke_dart_callback_sync(&mut context, Some(r#"{"status":"pending","future_id":7}"#));
    assert_eq!(result, Err(CallError::AsyncInSyncEval));
    assert_eq!(
        result.unwrap_err().message(),
        "Async function called in sync eval - this error should be caught by eval()"
    );
    assert!(check_and_clear_async_flag(&mut context));
}

#[test]
fn test_sync_call_errors() {
    let mut context = ExecutionContext::new();

    let result = invoke_dart_callback_sync(&mut context, None);
    assert_eq!(result, Err(CallError::NullResult));
    assert_eq!(result.unwrap_err().message(), "Dart callback returned null");

    let result =
        invoke_dart_callback_sync(&mut context, Some(r#"{"status":"error","error":"boom"}"#));
    assert_eq!(result, Err(CallError::Callback("boom".to_string())));
    assert_eq!(result.unwrap_err().message(), "Callback error: boom");

    let result = invoke_dart_callback_sync(&mut context, Some(r#"{"status":"error"}"#));
    assert_eq!(result, Err(CallError::Callback("Unknown error".to_string())));

    let result = invoke_dart_callback_sync(&mut context, Some(r#"{"status":"later"}"#));
    assert_eq!(result, Err(CallError::UnknownStatus("later".to_string())));
    assert_eq!(result.unwrap_err().message(), "Unknown callback status: later");

    let result = invoke_dart_callback_sync(&mut context, Some("not json"));
    assert!(matches!(result, Err(CallError::MalformedResponse(_))));
    assert!(result.unwrap_err().message().starts_with("Failed to parse callback response: "));

    let result = invoke_dart_callback_sync(&mut context, Some(r#"{"value":1}"#));
    assert!(matches!(result, Err(CallError::MalformedResponse(_))));

    let result = invoke_dart_callback_sync(&mut context, Some(r#"[1,2]"#));
    assert!(matches!(result, Err(CallError::MalformedResponse(_))));

    let result = invoke_dart_callback_sync(
        &mut context,
        Some(r#"{"status":"pending","future_id":"seven"}"#),
    );
    assert!(matches!(result, Err(CallError::MalformedResponse(_))));

    let result = invoke_dart_callback_sync(
        &mut context,
        Some(r#"{"status":"success","value_json":"{oops"}"#),
    );
    assert!(matches!(result, Err(CallError::ConversionFailed(_))));
    assert!(result
        .unwrap_err()
        .message()
        .starts_with("Failed to convert result to Rhai: Failed to parse JSON: "));

    assert!(!check_and_clear_async_flag(&mut context));
}

#[test]
fn test_async_call_success() {
    let mut context = ExecutionContext::new();
    let mut futures = PendingFutures::new();

    let call = invoke_dart_callback_async(
        &mut context,
        &mut futures,
        Some(r#"{"status":"success","value":{"a":[1,2]}}"#),
    );
    assert_eq!(done(call), Ok(r#"{"a":[1,2]}"#.to_string()));

    let call = invoke_dart_callback_async(
        &mut context,
        &mut futures,
        Some(r#"{"status":"success","value":1,"value_json":"2"}"#),
    );
    assert_eq!(done(call), Ok("2".to_string()));

    let call =
        invoke_dart_callback_async(&mut context, &mut futures, Some(r#"{"status":"success"}"#));
    assert_eq!(done(call), Ok("null".to_string()));
    assert!(!check_and_clear_async_flag(&mut context));
}

#[test]
fn test_async_call_pending_waits_for_the_completion() {
    let mut context = ExecutionContext::new();
    let mut futures = PendingFutures::new();
    let mut last_error = LastError::new();

    let call = invoke_dart_callback_async(
        &mut context,
        &mut futures,
        Some(r#"{"status":"pending","future_id":41}"#),
    );
    let (future_id, receiver) = match call {
        AsyncCall::Waiting { future_id, receiver } => (future_id, receiver),
        AsyncCall::Done(result) => panic!("the call ended: {:?}", result),
    };
    assert_eq!(future_id, 41);
    assert!(futures.contains(41));
    assert!(check_and_clear_async_flag(&mut context));

    let ret = rhai_complete_future(&mut futures, &mut last_error, 41, Some("99".to_string()));
    assert_eq!(ret, 0);
    let outcome = wait(receiver, 5);
    let result = finish_pending_wait(&mut futures, 41, outcome, 5);
    assert_eq!(result, Ok("99".to_string()));
    assert!(!futures.contains(41));
}

#[test]
fn test_async_call_errors() {
    let mut context = ExecutionContext::new();
    let mut futures = PendingFutures::new();

    let call = invoke_dart_callback_async(&mut context, &mut futures, None);
    assert_eq!(done(call), Err(CallError::NullResult));

    let call = invoke_dart_callback_async(&mut context, &mut futures, Some("{"));
    assert!(matches!(done(call), Err(CallError::MalformedResponse(_))));
    assert!(!check_and_clear_async_flag(&mut context));

    let call =
        invoke_dart_callback_async(&mut context, &mut futures, Some(r#"{"status":"pending"}"#));
    let result = done(call);
    assert_eq!(result, Err(CallError::MissingFutureId));
    assert_eq!(result.unwrap_err().message(), "Pending response missing future_id");
    assert!(check_and_clear_async_flag(&mut context));

    let call = invoke_dart_callback_async(
        &mut context,
        &mut futures,
        Some(r#"{"status":"error","error":"no such user"}"#),
    );
    let result = done(call);
    assert_eq!(result, Err(CallError::Host("no such user".to_string())));
    assert_eq!(result.unwrap_err().message(), "no such user");

    let call =
        invoke_dart_callback_async(&mut context, &mut futures, Some(r#"{"status":"error"}"#));
    assert_eq!(done(call), Err(CallError::Host("Unknown error from Dart callback".to_string())));

    let call =
        invoke_dart_callback_async(&mut context, &mut futures, Some(r#"{"status":"maybe"}"#));
    let result = done(call);
    assert_eq!(result, Err(CallError::InvalidStatus("maybe".to_string())));
    assert_eq!(result.unwrap_err().message(), "Invalid callback status: maybe");
}

#[test]
fn test_call_error_messages() {
    assert_eq!(CallError::ChannelClosed.message(), "Async channel closed unexpectedly");
    assert_eq!(CallError::TimedOut(30).message(), "Async operation timed out after 30 seconds");
    assert_eq!(CallError::TimedOut(0).message(), "Async operation timed out after 0 seconds");
    assert_eq!(
        CallError::TimedOut(u64::MAX).message(),
        "Async operation timed out after 18446744073709551615 seconds"
    );
    assert_eq!(
        CallError::ConversionFailed("x".to_string()).message(),
        "Failed to convert result to Rhai: x"
    );
    assert_eq!(
        CallError::ArgumentsFailed("x".to_string()).message(),
        "Failed to convert args to JSON: x"
    );
    assert_eq!(CallError::Function("x".to_string()).message(), "Function error: x");
    assert_eq!(CallError::InvalidResultFormat.message(), "Invalid callback result format");
    assert_eq!(
        CallError::MalformedResult("x".to_string()).message(),
        "Failed to parse callback result JSON: x"
    );
    assert_eq!(
        CallError::MalformedResponse("x".to_string()).message(),
        "Failed to parse callback response: x"
    );
}

#[test]
fn test_route_is_inline_on_the_callers_thread() {
    let context = ExecutionContext::new();
    let info = CallbackInfo {
        callback_id: 7,
        async_timeout_seconds: 30,
        function_name: "double".to_string(),
    };
    let route =
        invoke_dart_callback_vec_async(&context, &info, &vec![ScriptValue::Int(21)]).unwrap();
    assert_eq!(route, Route::Inline { callback_id: 7, args_json: "[21]".to_string() });
}

#[test]
fn test_route_is_queued_on_a_background_thread() {
    let mut context = ExecutionContext::new();
    set_async_eval_mode(&mut context, true);
    let info = CallbackInfo {
        callback_id: 7,
        async_timeout_seconds: 30,
        function_name: "slow".to_string(),
    };
    let route = invoke_dart_callback_vec_async(&context, &info, &vec![]).unwrap();
    assert_eq!(
        route,
        Route::Queued { function_name: "slow".to_string(), args_json: "[]".to_string() }
    );
}

#[test]
fn test_route_fails_on_unsupported_arguments() {
    let context = ExecutionContext::new();
    let info = CallbackInfo {
        callback_id: 7,
        async_timeout_seconds: 30,
        function_name: "f".to_string(),
    };
    let error =
        invoke_dart_callback_vec_async(&context, &info, &vec![ScriptValue::Other("X".to_string())])
            .unwrap_err();
    assert_eq!(
        error.message(),
        "Failed to convert args to JSON: Failed to convert arg to JSON: Unsupported Rhai type: X"
    );
}

#[test]
fn test_queued_call_result() {
    assert_eq!(queued_call_result(Ok("42".to_string())), Ok(ScriptValue::Int(42)));
    assert_eq!(
        queued_call_result(Ok(r#"{"total":3}"#.to_string())),
        Ok(ScriptValue::Object(vec![("total".to_string(), ScriptValue::Int(3))]))
    );
    assert_eq!(
        queued_call_result(Ok(r#"{"error":"no such user"}"#.to_string())),
        Err(CallError::Function("no such user".to_string()))
    );
    assert_eq!(
        queued_call_result(Ok(r#"{"error":5}"#.to_string())),
        Ok(ScriptValue::Object(vec![("error".to_string(), ScriptValue::Int(5))]))
    );
    let broken = queued_call_result(Ok("{".to_string()));
    assert!(matches!(broken, Err(CallError::ConversionFailed(_))));
    assert!(broken
        .unwrap_err()
        .message()
        .starts_with("Failed to convert result to Rhai: Failed to parse JSON: "));

    let timed_out = queued_call_result(Err(RequestError::TimedOut));
    assert_eq!(
        timed_out.unwrap_err().message(),
        "Function error: Function call timed out after 30 seconds"
    );
    let closed = queued_call_result(Err(RequestError::ChannelClosed));
    assert_eq!(
        closed.unwrap_err().message(),
        "Function error: Response channel closed unexpectedly"
    );
}

#[test]
fn test_register_function() {
    let mut table = CallbackRegistry::new();
    let mut last_error = LastError::new();
    let c_config = CRhaiConfig {
        max_operations: 0,
        max_stack_depth: 0,
        max_string_length: 0,
        timeout_ms: 0,
        async_timeout_seconds: 60,
        disable_file_io: 0,
        disable_eval: 0,
        disable_modules: 0,
    };
    let engine = rhai_engine_new(Some(&c_config));

    assert!(table.get("double").is_none());
    let ret = rhai_register_function(&mut table, &mut last_error, Some(&engine), Some("double"), 1);
    assert_eq!(ret, 0);
    assert_eq!(rhai_get_last_error(&last_error), None);
    assert_eq!(
        table.get("double"),
        Some(&CallbackInfo {
            callback_id: 1,
            async_timeout_seconds: 60,
            function_name: "double".to_string(),
        })
    );
    assert!(table.get("doubl").is_none());
}

#[test]
fn test_register_function_overwrites() {
    let mut table = CallbackRegistry::new();
    let mut last_error = LastError::new();
    let engine = rhai_engine_new(None);

    assert_eq!(rhai_register_function(&mut table, &mut last_error, Some(&engine), Some("f"), 1), 0);
    assert_eq!(rhai_register_function(&mut table, &mut last_error, Some(&engine), Some("g"), 2), 0);
    assert_eq!(rhai_register_function(&mut table, &mut last_error, Some(&engine), Some("f"), 3), 0);

    assert_eq!(table.get("f").unwrap().callback_id, 3);
    assert_eq!(table.get("g").unwrap().callback_id, 2);
    assert_eq!(table.get("f").unwrap().async_timeout_seconds, 30);
}

#[test]
fn test_register_function_refusals() {
    let mut table = CallbackRegistry::new();
    let mut last_error = LastError::new();
    let engine = rhai_engine_new(None);

    let ret = rhai_register_function(&mut table, &mut last_error, None, Some("f"), 1);
    assert_eq!(ret, -1);
    assert_eq!(rhai_get_last_error(&last_error), Some("Engine pointer is null".to_string()));

    let ret = rhai_register_function(&mut table, &mut last_error, None, None, 1);
    assert_eq!(ret, -1);
    assert_eq!(rhai_get_last_error(&last_error), Some("Engine pointer is null".to_string()));

    let ret = rhai_register_function(&mut table, &mut last_error, Some(&engine), None, 1);
    assert_eq!(ret, -1);
    assert_eq!(
        rhai_get_last_error(&last_error),
        Some("Function name pointer is null".to_string())
    );
    assert!(table.get("f").is_none());
}

#[test]
fn test_older_answer_format() {
    assert_eq!(
        invoke_dart_callback_vec(Some(r#"{"success":true,"value_json":"[1,2]"}"#)),
        Ok(ScriptValue::Array(vec![ScriptValue::Int(1), ScriptValue::Int(2)]))
    );
    assert_eq!(
        invoke_dart_callback_vec(Some(r#"{"success":true,"value":{"a":"b"}}"#)),
        Ok(ScriptValue::Object(vec![("a".to_string(), text("b"))]))
    );
    assert_eq!(
        invoke_dart_callback_vec(Some(r#"{"success":true,"value":7,"value_json":"8"}"#)),
        Ok(ScriptValue::Int(8))
    );
    assert_eq!(
        invoke_dart_callback_vec(Some(r#"{"success":true,"value":7,"value_json":8}"#)),
        Ok(ScriptValue::Int(7))
    );
    assert_eq!(
        invoke_dart_callback_vec(Some(r#"{"success":true,"value":null}"#)),
        Ok(ScriptValue::Unit)
    );
    assert_eq!(invoke_dart_callback_vec(Some(r#"{"success":true}"#)), Ok(ScriptValue::Unit));
}

#[test]
fn test_older_answer_format_errors() {
    assert_eq!(invoke_dart_callback_vec(None), Err(CallError::NullResult));
    assert_eq!(
        invoke_dart_callback_vec(Some(r#"{"success":false,"error":"boom"}"#)),
        Err(CallError::Host("boom".to_string()))
    );
    assert_eq!(
        invoke_dart_callback_vec(Some(r#"{"success":false}"#)),
        Err(CallError::Host("Unknown error from Dart callback".to_string()))
    );
    assert_eq!(
        invoke_dart_callback_vec(Some(r#"{"success":false,"error":3}"#)),
        Err(CallError::Host("Unknown error from Dart callback".to_string()))
    );
    assert_eq!(
        invoke_dart_callback_vec(Some(r#"{"value":1}"#)),
        Err(CallError::InvalidResultFormat)
    );
    assert_eq!(
        invoke_dart_callback_vec(Some(r#"{"success":"yes"}"#)),
        Err(CallError::InvalidResultFormat)
    );
    assert_eq!(invoke_dart_callback_vec(Some("[true]")), Err(CallError::InvalidResultFormat));
    let broken = invoke_dart_callback_vec(Some("success"));
    assert!(matches!(broken, Err(CallError::MalformedResult(_))));
    assert!(broken.unwrap_err().message().starts_with("Failed to parse callback result JSON: "));
    let inner = invoke_dart_callback_vec(Some(r#"{"success":true,"value_json":"{"}"#));
    assert!(matches!(inner, Err(CallError::ConversionFailed(_))));
}

#[test]
fn test_choose_route() {
    let mut context = ExecutionContext::new();
    let info = CallbackInfo {
        callback_id: 11,
        async_timeout_seconds: 30,
        function_name: "store".to_string(),
    };
    assert_eq!(
        choose_route(&context, &info, Ok("[1,2]".to_string())),
        Ok(Route::Inline { callback_id: 11, args_json: "[1,2]".to_string() })
    );
    assert_eq!(
        choose_route(&context, &info, Err(ValueError::Serialize("boom".to_string()))),
        Err(CallError::ArgumentsFailed(
            "Failed to convert arg to JSON: Failed to serialize to JSON: boom".to_string()
        ))
    );

    set_async_eval_mode(&mut context, true);
    assert_eq!(
        choose_route(&context, &info, Ok("[1,2]".to_string())),
        Ok(Route::Queued { function_name: "store".to_string(), args_json: "[1,2]".to_string() })
    );
    assert_eq!(
        choose_route(&context, &info, Err(ValueError::UnsupportedType("Fn".to_string()))),
        Err(CallError::ArgumentsFailed(
            "Failed to convert arg to JSON: Unsupported Rhai type: Fn".to_string()
        ))
    );
}

#[test]
fn test_read_callback_response() {
    let root: serde_json::Value = serde_json::from_str(
        r#"{"status":"pending","future_id":9,"value":[1],"value_json":"[2]","error":"e","more":1}"#,
    )
    .unwrap();
    let response = read_callback_response(&root).unwrap();
    assert_eq!(response.status, "pending");
    assert_eq!(response.future_id, Some(9));
    assert_eq!(response.value.unwrap().to_string(), "[1]");
    assert_eq!(response.value_json.unwrap(), "[2]");
    assert_eq!(response.error.unwrap(), "e");

    let root: serde_json::Value = serde_json::from_str(
        r#"{"status":"success","future_id":null,"value":null,"value_json":null,"error":null}"#,
    )
    .unwrap();
    let response = read_callback_response(&root).unwrap();
    assert_eq!(response.status, "success");
    assert_eq!(response.future_id, None);
    assert!(response.value.is_none());
    assert!(response.value_json.is_none());
    assert!(response.error.is_none());

    for text in [
        r#"{"future_id":1}"#,
        r#"{"status":1}"#,
        r#"{"status":null}"#,
        r#"{"status":"pending","future_id":1.5}"#,
        r#"{"status":"pending","future_id":18446744073709551615}"#,
        r#"{"status":"success","value_json":[1]}"#,
        r#"{"status":"error","error":{}}"#,
        r#""success""#,
        "null",
    ] {
        let root: serde_json::Value = serde_json::from_str(text).unwrap();
        assert!(read_callback_response(&root).is_none(), "{}", text);
    }
}

#[test]
fn test_response_steps() {
    let mut context = ExecutionContext::new();
    let mut futures = PendingFutures::new();
    let root: serde_json::Value =
        serde_json::from_str(r#"{"status":"pending","future_id":4}"#).unwrap();
    let response = read_callback_response(&root).unwrap();

    assert_eq!(sync_response_result(&mut context, &response), Err(CallError::AsyncInSyncEval));
    assert!(check_and_clear_async_flag(&mut context));
    assert!(!futures.contains(4));

    match async_response_step(&mut context, &mut futures, &response) {
        AsyncCall::Waiting { future_id, .. } => assert_eq!(future_id, 4),
        AsyncCall::Done(result) => panic!("the call ended: {:?}", result),
    }
    assert!(check_and_clear_async_flag(&mut context));
    assert!(futures.contains(4));
}

#[test]
fn test_completion_releases_a_queued_request() {
    let mut futures = PendingFutures::new();
    let mut queue = RequestQueue::new();
    let mut last_error = LastError::new();

    let (op, receiver) = request_dart_function_execution(
        &mut queue,
        &mut futures,
        "slow".to_string(),
        "[]".to_string(),
    )
    .unwrap();
    let request = rhai_get_pending_function_request(&mut queue).unwrap();
    assert_eq!(request.exec_id, op);
    assert!(futures.is_queued(op));

    let ret = rhai_complete_future(&mut futures, &mut last_error, op, Some("99".to_string()));
    assert_eq!(ret, 0);
    assert_eq!(rhai_get_last_error(&last_error), None);
    assert!(!futures.is_queued(op));

    let outcome = wait(receiver, 1);
    assert_eq!(outcome, WaitOutcome::Delivered("99".to_string()));
    assert_eq!(finish_function_request(&mut futures, op, outcome), Ok("99".to_string()));

    let ret = rhai_complete_future(&mut futures, &mut last_error, op, Some("1".to_string()));
    assert_eq!(ret, -1);
    assert_eq!(
        rhai_get_last_error(&last_error),
        Some("Future ID 1 not found in registry".to_string())
    );
    let ret = rhai_provide_function_result(&mut futures, &mut last_error, op, Some("1".to_string()));
    assert_eq!(ret, -1);
}

#[test]
fn test_late_completion_reaches_no_later_operation() {
    let mut futures = PendingFutures::new();
    let mut queue = RequestQueue::new();
    let mut last_error = LastError::new();

    let receiver = futures.register(1).unwrap();
    let outcome = wait(receiver, 1);
    assert_eq!(outcome, WaitOutcome::TimedOut);
    assert!(finish_pending_wait(&mut futures, 1, outcome, 1).is_err());

    let (op, mut queued) =
        request_dart_function_execution(&mut queue, &mut futures, "f".to_string(), "[]".to_string())
            .unwrap();
    assert_eq!(op, 2);

    let ret = rhai_complete_future(&mut futures, &mut last_error, 1, Some("late".to_string()));
    assert_eq!(ret, -1);
    assert_eq!(
        rhai_get_last_error(&last_error),
        Some("Future ID 1 not found in registry".to_string())
    );
    assert!(futures.is_queued(op));
    assert!(queued.try_recv().is_err());
    assert!(futures.register(1).is_none());
}

#[test]
fn test_an_id_is_used_once() {
    let mut futures = PendingFutures::new();
    let mut queue = RequestQueue::new();

    let (op, _queued) =
        request_dart_function_execution(&mut queue, &mut futures, "f".to_string(), "[]".to_string())
            .unwrap();
    assert_eq!(op, 1);
    assert!(!futures.accepts(op));
    assert!(futures.register(op).is_none());
    assert!(futures.is_queued(op));
    assert!(!futures.contains(op));

    let reserved = generate_future_id(&mut futures).unwrap();
    assert_eq!(reserved, 2);
    assert!(futures.accepts(7));
    let _named = futures.register(7).unwrap();
    assert!(futures.accepts(reserved));
    let _deferred = futures.register(reserved).unwrap();
    assert!(futures.register(reserved).is_none());
    assert!(futures.register(7).is_none());
    assert!(futures.register(5).is_none());
    assert!(futures.register(i64::MAX).is_none());
    assert!(futures.register(-3).is_none());
    assert_eq!(generate_future_id(&mut futures), Some(8));

    assert_eq!(complete_future(&mut futures, 7, "x".to_string()), Completion::Delivered);
    assert!(futures.register(7).is_none());
    let (next, _rx) =
        request_dart_function_execution(&mut queue, &mut futures, "f".to_string(), "[]".to_string())
            .unwrap();
    assert_eq!(next, 9);
}

#[test]
fn test_pending_answer_under_a_used_id_is_refused() {
    let mut context = ExecutionContext::new();
    let mut futures = PendingFutures::new();
    let first = invoke_dart_callback_async(
        &mut context,
        &mut futures,
        Some(r#"{"status":"pending","future_id":3}"#),
    );
    assert!(matches!(first, AsyncCall::Waiting { future_id: 3, .. }));
    let second = invoke_dart_callback_async(
        &mut context,
        &mut futures,
        Some(r#"{"status":"pending","future_id":3}"#),
    );
    let result = done(second);
    assert_eq!(result, Err(CallError::StaleFutureId(3)));
    assert_eq!(
        result.unwrap_err().message(),
        "Pending response names future_id 3, which was used before"
    );
    assert!(futures.contains(3));
}

#[test]
fn test_completion_outcome() {
    assert_eq!(completion_outcome(None), Completion::NotFound);
    assert_eq!(completion_outcome(Some(true)), Completion::Delivered);
    assert_eq!(completion_outcome(Some(false)), Completion::ReceiverDropped);
}

#[test]
fn test_response_value_is_passed_on_as_text() {
    let mut context = ExecutionContext::new();
    let mut futures = PendingFutures::new();
    let call = invoke_dart_callback_async(
        &mut context,
        &mut futures,
        Some(r#"{"status":"success","value":[1.5,"x",{"b":null,"a":true}]}"#),
    );
    assert_eq!(done(call), Ok(r#"[1.5,"x",{"a":true,"b":null}]"#.to_string()));

    let result = invoke_dart_callback_sync(
        &mut context,
        Some(r#"{"status":"success","value":"__STRING____NAN__"}"#),
    );
    assert_eq!(result, Ok(text("__NAN__")));
    let result =
        invoke_dart_callback_sync(&mut context, Some(r#"{"status":"success","value":"__NAN__"}"#));
    assert_eq!(result, Ok(ScriptValue::Float(f64::NAN.to_bits())));
}
