//! Background evaluations and the requests they send to the host.
//!
//! A script that runs on a thread of its own cannot call into the host
//! directly. It posts a request to the [`RequestQueue`] and waits on a
//! completion channel; the host drains the queue from its own thread, runs
//! the function and delivers the result under the request's id, or completes
//! the request by that id as it completes any deferred result. The ids of
//! requests and of deferred results come from one registry, so that no id
//! is ever the id of two operations. The
//! [`AsyncEvalRegistry`] keeps the status of each background evaluation until
//! the host has fetched it.
//!
//! Both are plain values that their owner passes to each entry point. What
//! blocks (the wait for a delivery, the run of a script) happens outside, in
//! between two calls.

use vstd::prelude::*;
use std::collections::HashMap;
use std::collections::VecDeque;
use tokio::sync::oneshot::Receiver;
use crate::channel::send_value;
use crate::channel::WaitOutcome;
use crate::error::clear_last_error;
use crate::error::set_last_error;
use crate::error::LastError;
use crate::functions::OperationIds;
use crate::functions::PendingFutures;
use crate::text::concat;
use crate::text::decimal_text;
use crate::text::i64_to_text;

verus! {

/// Seconds a queued request waits for the host before it gives up. The host's
/// loop may be busy, so this bound is the queue's own and not that of the
/// function called.
pub const REQUEST_TIMEOUT_SECONDS: u64 = 30;

/// A call that the host is asked to make.
#[derive(Debug, Clone, PartialEq, Eq)]
pub struct FunctionCallRequest {
    /// The id under which the result is delivered.
    pub exec_id: i64,
    /// The name of the host function.
    pub function_name: String,
    /// The arguments, as the text of a JSON array.
    pub args_json: String,
}

/// What a [`FunctionCallRequest`] holds.
pub struct RequestView {
    pub exec_id: i64,
    pub function_name: Seq<char>,
    pub args_json: Seq<char>,
}

impl View for FunctionCallRequest {
    type V = RequestView;

    open spec fn view(&self) -> RequestView {
        RequestView {
            exec_id: self.exec_id,
            function_name: self.function_name@,
            args_json: self.args_json@,
        }
    }
}

/// Why a queued request came back without a result.
#[derive(Debug, Clone, Copy, PartialEq, Eq)]
pub enum RequestError {
    /// The completion channel was dropped before the host answered.
    ChannelClosed,
    /// The host did not answer within [`REQUEST_TIMEOUT_SECONDS`].
    TimedOut,
    /// Every request id has been handed out.
    IdsExhausted,
}

impl RequestError {
    /// The text of each error.
    pub open spec fn spec_message(&self) -> Seq<char> {
        match self {
            RequestError::ChannelClosed => "Response channel closed unexpectedly"@,
            RequestError::TimedOut => "Function call timed out after 30 seconds"@,
            RequestError::IdsExhausted => "No request id is left"@,
        }
    }

    /// The message that a script sees for this error.
    pub fn message(&self) -> (text: String)
        ensures
            text@ == self.spec_message(),
    {
        match self {
            RequestError::ChannelClosed => "Response channel closed unexpectedly".to_owned(),
            RequestError::TimedOut => "Function call timed out after 30 seconds".to_owned(),
            RequestError::IdsExhausted => "No request id is left".to_owned(),
        }
    }
}

/// The requests that wait for the host, oldest first.
pub open spec fn enqueued(pending: Seq<RequestView>, request: RequestView) -> Seq<RequestView> {
    pending.push(request)
}

/// The request that the host gets next.
pub open spec fn front(pending: Seq<RequestView>) -> Option<RequestView> {
    if pending.len() == 0 {
        None
    } else {
        Some(pending[0])
    }
}

/// The queue after the host has taken one request.
pub open spec fn dequeued(pending: Seq<RequestView>) -> Seq<RequestView> {
    if pending.len() == 0 {
        pending
    } else {
        pending.subrange(1, pending.len() as int)
    }
}

/// The queue after the host has taken `count` requests.
pub open spec fn dequeued_times(pending: Seq<RequestView>, count: nat) -> Seq<RequestView>
    decreases count,
{
    if count == 0 {
        pending
    } else {
        dequeued_times(dequeued(pending), (count - 1) as nat)
    }
}

/// A queue of requests for the host. The completion channel of each request
/// is kept in the registry of the operations in flight, under the request's
/// id.
pub struct RequestQueue {
    requests: VecDeque<FunctionCallRequest>,
}

impl RequestQueue {
    /// The requests that the host has not taken yet, oldest first.
    pub closed spec fn pending(self) -> Seq<RequestView> {
        self.requests@.map_values(|request: FunctionCallRequest| request@)
    }

    /// An empty queue.
    pub fn new() -> (queue: Self)
        ensures
            queue.pending() == Seq::<RequestView>::empty(),
    {
        let queue = RequestQueue { requests: VecDeque::new() };
        assert(queue.pending() =~= Seq::<RequestView>::empty());
        queue
    }

    /// Number of requests that the host has not taken yet.
    pub fn len(&self) -> (count: usize)
        ensures
            count == self.pending().len(),
    {
        self.requests.len()
    }
}

/// Posts a request for the host to call `function_name` with `args_json`.
///
/// The request gets the next id of the registry and joins the end of the
/// queue, and a completion channel is registered under the same id. The
/// caller waits on the receiving half for at most
/// [`REQUEST_TIMEOUT_SECONDS`] and reports the outcome to
/// [`finish_function_request`]. Where no id is left the queue and the
/// registry stay as they were.
pub fn request_dart_function_execution(
    queue: &mut RequestQueue,
    futures: &mut PendingFutures,
    function_name: String,
    args_json: String,
) -> (posted: Result<(i64, Receiver<String>), RequestError>)
    requires
        old(futures).wf(),
    ensures
        final(futures).wf(),
        posted is Ok <==> old(futures).ids().has_next(),
        posted matches Err(error) ==> {
            &&& error is IdsExhausted
            &&& final(queue).pending() == old(queue).pending()
            &&& final(futures).ids() == old(futures).ids()
        },
        posted matches Ok(ticket) ==> {
            &&& ticket.0 == old(futures).ids().next_id
            &&& final(queue).pending() == enqueued(
                old(queue).pending(),
                RequestView {
                    exec_id: ticket.0,
                    function_name: function_name@,
                    args_json: args_json@,
                },
            )
            &&& final(futures).ids() == old(futures).ids().posting()
        },
{
    let (request_id, receiver) = match futures.post() {
        Some(ticket) => ticket,
        None => {
            return Err(RequestError::IdsExhausted);
        },
    };
    let request = FunctionCallRequest { exec_id: request_id, function_name, args_json };
    let ghost before = *queue;
    let ghost posted_view = request@;
    queue.requests.push_back(request);
    proof {
        assert(queue.requests@ == before.requests@.push(request));
        assert(queue.pending() =~= enqueued(before.pending(), posted_view));
    }
    Ok((request_id, receiver))
}

/// The result of a queued request, once the wait on its channel has ended.
pub open spec fn request_result(outcome: WaitOutcome) -> Result<Seq<char>, RequestError> {
    match outcome {
        WaitOutcome::Delivered(value) => Ok(value@),
        WaitOutcome::Closed => Err(RequestError::ChannelClosed),
        WaitOutcome::TimedOut => Err(RequestError::TimedOut),
    }
}

/// Ends the request `exec_id` with the outcome of the wait on its channel.
///
/// A delivered value is the result. After a timeout the channel is removed
/// before the error is returned, so that a late delivery finds no channel
/// and is reported to the host as an unknown id.
pub fn finish_function_request(futures: &mut PendingFutures, exec_id: i64, outcome: WaitOutcome) -> (result:
    Result<String, RequestError>)
    requires
        old(futures).wf(),
    ensures
        final(futures).wf(),
        match result {
            Ok(value) => request_result(outcome) == Ok::<Seq<char>, RequestError>(value@),
            Err(error) => request_result(outcome) == Err::<Seq<char>, RequestError>(error),
        },
        final(futures).ids() == old(futures).ids().after_request_wait(exec_id, outcome),
{
    match outcome {
        WaitOutcome::Delivered(value) => Ok(value),
        WaitOutcome::Closed => Err(RequestError::ChannelClosed),
        WaitOutcome::TimedOut => {
            let _ = futures.take_request(exec_id);
            Err(RequestError::TimedOut)
        },
    }
}

/// Takes the oldest request off the queue, or returns `None` where the queue
/// is empty. The host calls this again and again from its own thread; it
/// never waits. The completion channel of the request stays in the
/// registry.
pub fn rhai_get_pending_function_request(queue: &mut RequestQueue) -> (request: Option<
    FunctionCallRequest,
>)
    ensures
        match request {
            Some(taken) => front(old(queue).pending()) == Some(taken@),
            None => front(old(queue).pending()) is None,
        },
        final(queue).pending() == dequeued(old(queue).pending()),
{
    let ghost before = *queue;
    let request = queue.requests.pop_front();
    proof {
        assert(queue.pending() =~= dequeued(before.pending()));
    }
    request
}

/// How a delivery ended.
#[derive(Debug, Clone, Copy, PartialEq, Eq)]
pub enum Delivery {
    /// The waiting script has the value.
    Delivered,
    /// The id was known, but the script had stopped waiting.
    ReceiverDropped,
    /// No request waits under this id.
    NotFound,
}

/// How a delivery ended, given what was found under the id: `None` where no
/// request waited, else the channel's answer, which is `true` where it took
/// the value.
pub open spec fn delivery_of(answer: Option<bool>) -> Delivery {
    match answer {
        Some(true) => Delivery::Delivered,
        Some(false) => Delivery::ReceiverDropped,
        None => Delivery::NotFound,
    }
}

/// Tells how a delivery ended from what was found under the id.
pub fn delivery_outcome(answer: Option<bool>) -> (delivery: Delivery)
    ensures
        delivery == delivery_of(answer),
{
    match answer {
        Some(true) => Delivery::Delivered,
        Some(false) => Delivery::ReceiverDropped,
        None => Delivery::NotFound,
    }
}

/// Delivers `value` as the result of the request `exec_id`.
///
/// The channel leaves the registry with the delivery, whatever the channel
/// then does with the value: a second delivery under the same id is
/// `NotFound`. A delivery serves queued requests only.
pub fn deliver_function_result(futures: &mut PendingFutures, exec_id: i64, value: String) -> (delivery:
    Delivery)
    requires
        old(futures).wf(),
    ensures
        final(futures).wf(),
        delivery is NotFound <==> !old(futures).ids().queued.contains(exec_id),
        final(futures).ids() == old(futures).ids().delivered(exec_id),
{
    let answer = match futures.take_request(exec_id) {
        Some(sender) => Some(send_value(sender, value)),
        None => None,
    };
    delivery_outcome(answer)
}

/// The message for a delivery under an id that no request waits under.
pub open spec fn request_not_found_message(exec_id: i64) -> Seq<char> {
    "Function request ID not found: "@ + decimal_text(exec_id as int)
}

/// The status code of a delivery, and the message that goes with it: 0 and no
/// message where the script has the value, else -1.
pub open spec fn delivery_report(delivery: Delivery, exec_id: i64) -> (i32, Option<Seq<char>>) {
    match delivery {
        Delivery::Delivered => (0i32, None),
        Delivery::ReceiverDropped => (
            -1i32,
            Some("Failed to send result through channel (receiver dropped)"@),
        ),
        Delivery::NotFound => (-1i32, Some(request_not_found_message(exec_id))),
    }
}

/// Records how a delivery ended: stores the message of a failed one in
/// `last_error` and returns the status code.
pub fn report_delivery(last_error: &mut LastError, delivery: Delivery, exec_id: i64) -> (status: i32)
    ensures
        delivery is Delivered ==> status == 0 && final(last_error)@ == old(last_error)@,
        !(delivery is Delivered) ==> status == -1 && final(last_error)@ == delivery_report(
            delivery,
            exec_id,
        ).1,
        status == delivery_report(delivery, exec_id).0,
{
    match delivery {
        Delivery::Delivered => 0,
        Delivery::ReceiverDropped => {
            set_last_error(last_error, "Failed to send result through channel (receiver dropped)");
            -1
        },
        Delivery::NotFound => {
            let id_text = i64_to_text(exec_id);
            let message = concat("Function request ID not found: ", id_text.as_str());
            set_last_error(last_error, message.as_str());
            -1
        },
    }
}

/// The host's answer to a request that it took off the queue.
///
/// `result_json` is `None` where the host passed no text at all; the
/// registry is then left alone. Otherwise the value is delivered under
/// `exec_id`. The status is 0 where the waiting script has the value and -1
/// else, with the reason in `last_error`.
pub fn rhai_provide_function_result(
    futures: &mut PendingFutures,
    last_error: &mut LastError,
    exec_id: i64,
    result_json: Option<String>,
) -> (status: i32)
    requires
        old(futures).wf(),
    ensures
        final(futures).wf(),
        status == 0 || status == -1,
        result_json is None ==> {
            &&& status == -1
            &&& final(last_error)@ == Some("Result JSON pointer is null"@)
            &&& final(futures).ids() == old(futures).ids()
        },
        result_json is Some ==> {
            &&& final(futures).ids() == old(futures).ids().delivered(exec_id)
            &&& status == 0 ==> old(futures).ids().queued.contains(exec_id) && final(last_error)@
                is None
            &&& !old(futures).ids().queued.contains(exec_id) ==> status == -1
                && final(last_error)@ == Some(request_not_found_message(exec_id))
            &&& old(futures).ids().queued.contains(exec_id) && status == -1 ==> final(last_error)@
                == Some("Failed to send result through channel (receiver dropped)"@)
        },
{
    clear_last_error(last_error);
    match result_json {
        None => {
            set_last_error(last_error, "Result JSON pointer is null");
            -1
        },
        Some(value) => {
            let delivery = deliver_function_result(futures, exec_id, value);
            report_delivery(last_error, delivery, exec_id)
        },
    }
}

/// FIFO: two requests posted one after the other reach the host in that
/// order, behind the requests that waited before them and before any that
/// comes later.
pub proof fn law_requests_leave_in_order(
    pending: Seq<RequestView>,
    first: RequestView,
    second: RequestView,
)
    ensures
        ({
            let posted = enqueued(enqueued(pending, first), second);
            &&& front(dequeued_times(posted, pending.len())) == Some(first)
            &&& front(dequeued_times(posted, pending.len() + 1)) == Some(second)
            &&& front(dequeued_times(posted, pending.len() + 2)) is None
        }),
{
    let posted = enqueued(enqueued(pending, first), second);
    lemma_dequeued_times(posted, pending.len());
    lemma_dequeued_times(posted, pending.len() + 1);
    lemma_dequeued_times(posted, pending.len() + 2);
}

/// Taking `count` requests off a queue that holds at least as many drops its
/// first `count` entries.
proof fn lemma_dequeued_times(pending: Seq<RequestView>, count: nat)
    requires
        count <= pending.len(),
    ensures
        dequeued_times(pending, count) == pending.subrange(count as int, pending.len() as int),
    decreases count,
{
    if count == 0 {
        assert(pending.subrange(0, pending.len() as int) =~= pending);
    } else {
        lemma_dequeued_times(dequeued(pending), (count - 1) as nat);
        assert(dequeued(pending).subrange(count - 1, dequeued(pending).len() as int)
            =~= pending.subrange(count as int, pending.len() as int));
    }
}

/// An id that a request gets is new: no operation is known under it.
pub proof fn law_request_ids_are_fresh(ids: OperationIds)
    requires
        ids.wf(),
    ensures
        !ids.knows(ids.next_id),
{
    if ids.knows(ids.next_id) {
        assert(ids.next_id < ids.next_id);
    }
}

/// A request that timed out is gone: its id is retired, and a delivery or a
/// completion that comes later finds no channel under it.
pub proof fn law_late_delivery_finds_nothing(ids: OperationIds)
    requires
        ids.wf(),
        ids.has_next(),
    ensures
        request_result(WaitOutcome::TimedOut) == Err::<Seq<char>, RequestError>(
            RequestError::TimedOut,
        ),
        !ids.posting().after_request_wait(ids.next_id, WaitOutcome::TimedOut).waits(ids.next_id),
        ids.posting().after_request_wait(ids.next_id, WaitOutcome::TimedOut).retired(ids.next_id),
{
    law_request_ids_are_fresh(ids);
}

/// A delivery happens at most once: after the first, the id is unknown.
pub proof fn law_delivery_at_most_once(ids: OperationIds, exec_id: i64)
    ensures
        !ids.delivered(exec_id).queued.contains(exec_id),
{
}

/// The status of a background evaluation.
#[derive(Debug, Clone, PartialEq, Eq)]
pub enum AsyncEvalResult {
    /// The script is still running.
    InProgress,
    /// The script finished; this is its result as JSON text.
    Success(String),
    /// The script failed; this is the message.
    Error(String),
}

/// What an [`AsyncEvalResult`] holds.
pub enum EvalStatus {
    InProgress,
    Success(Seq<char>),
    Error(Seq<char>),
}

impl View for AsyncEvalResult {
    type V = EvalStatus;

    open spec fn view(&self) -> EvalStatus {
        match self {
            AsyncEvalResult::InProgress => EvalStatus::InProgress,
            AsyncEvalResult::Success(value) => EvalStatus::Success(value@),
            AsyncEvalResult::Error(message) => EvalStatus::Error(message@),
        }
    }
}

impl AsyncEvalResult {
    /// The number that stands for this status at the host's boundary:
    /// 0 in progress, 1 success, 2 error.
    pub fn status_code(&self) -> (code: i32)
        ensures
            code == status_code_of(self@),
    {
        match self {
            AsyncEvalResult::InProgress => 0,
            AsyncEvalResult::Success(_) => 1,
            AsyncEvalResult::Error(_) => 2,
        }
    }
}

/// The number that stands for a status at the host's boundary.
pub open spec fn status_code_of(status: EvalStatus) -> i32 {
    match status {
        EvalStatus::InProgress => 0i32,
        EvalStatus::Success(_) => 1i32,
        EvalStatus::Error(_) => 2i32,
    }
}

/// A status is terminal once the script has ended, either way.
pub open spec fn is_terminal(status: EvalStatus) -> bool {
    !(status is InProgress)
}

/// The registry after an evaluation has started under `eval_id`.
pub open spec fn started(statuses: Map<i64, EvalStatus>, eval_id: i64) -> Map<i64, EvalStatus> {
    statuses.insert(eval_id, EvalStatus::InProgress)
}

/// The registry after the evaluation `eval_id` has ended with `status`. The
/// status is written once: over an entry that is in progress. Where the entry
/// is gone (cancelled) or terminal already, the write is discarded.
pub open spec fn recorded(statuses: Map<i64, EvalStatus>, eval_id: i64, status: EvalStatus) -> Map<
    i64,
    EvalStatus,
> {
    if statuses.contains_key(eval_id) && statuses[eval_id] is InProgress && is_terminal(status) {
        statuses.insert(eval_id, status)
    } else {
        statuses
    }
}

/// What a poll for `eval_id` sees: `None` where the registry has no such
/// entry.
pub open spec fn observed(statuses: Map<i64, EvalStatus>, eval_id: i64) -> Option<EvalStatus> {
    if statuses.contains_key(eval_id) {
        Some(statuses[eval_id])
    } else {
        None
    }
}

/// The registry after a poll for `eval_id`: a terminal status leaves with the
/// poll that sees it.
pub open spec fn polled(statuses: Map<i64, EvalStatus>, eval_id: i64) -> Map<i64, EvalStatus> {
    if statuses.contains_key(eval_id) && is_terminal(statuses[eval_id]) {
        statuses.remove(eval_id)
    } else {
        statuses
    }
}

/// The registry after `eval_id` has been cancelled.
pub open spec fn cancelled(statuses: Map<i64, EvalStatus>, eval_id: i64) -> Map<i64, EvalStatus> {
    statuses.remove(eval_id)
}

/// Every evaluation id in use is at least 1 and below `next_id`.
pub open spec fn eval_ids_below(statuses: Map<i64, EvalStatus>, next_id: i64) -> bool {
    &&& next_id >= 1
    &&& forall|id: i64| #[trigger] statuses.contains_key(id) ==> 1 <= id < next_id
}

/// The status of each background evaluation, from its start until the host
/// has seen how it ended or has cancelled it.
pub struct AsyncEvalRegistry {
    next_id: i64,
    results: HashMap<i64, AsyncEvalResult>,
}

impl AsyncEvalRegistry {
    /// Ids start at 1 and grow, and every id in use lies below the next one.
    /// [`AsyncEvalRegistry::new`] makes such a registry and every operation
    /// keeps it so.
    pub open spec fn wf(self) -> bool {
        eval_ids_below(self.statuses(), self.next_id())
    }

    /// The id that the next evaluation gets.
    pub closed spec fn next_id(self) -> i64 {
        self.next_id
    }

    /// The status of each evaluation that the registry knows.
    pub closed spec fn statuses(self) -> Map<i64, EvalStatus> {
        self.results@.map_values(|result: AsyncEvalResult| result@)
    }

    /// An empty registry, whose first id is 1.
    pub fn new() -> (registry: Self)
        ensures
            registry.wf(),
            registry.next_id() == 1,
            registry.statuses() == Map::<i64, EvalStatus>::empty(),
    {
        let registry = AsyncEvalRegistry { next_id: 1, results: HashMap::new() };
        assert(registry.statuses() =~= Map::<i64, EvalStatus>::empty());
        registry
    }

    /// The status of `eval_id` as a poll would see it, with the entry left
    /// where it is. The boundary looks here first where it has to know,
    /// before the poll removes the entry, whether the text can be handed out.
    pub fn status(&self, eval_id: i64) -> (found: Option<&AsyncEvalResult>)
        ensures
            match found {
                Some(result) => observed(self.statuses(), eval_id) == Some(result@),
                None => observed(self.statuses(), eval_id) is None,
            },
    {
        broadcast use vstd::std_specs::hash::group_hash_axioms;

        self.results.get(&eval_id)
    }

    /// Whether the registry has an entry for `eval_id`.
    pub fn contains(&self, eval_id: i64) -> (known: bool)
        ensures
            known == self.statuses().contains_key(eval_id),
    {
        broadcast use vstd::std_specs::hash::group_hash_axioms;

        self.results.contains_key(&eval_id)
    }
}

/// Starts the bookkeeping of a background evaluation: takes the next id and
/// records it as in progress. The caller then runs the script on a thread of
/// its own and reports the end to [`record_async_eval_result`]. Where no id is
/// left the answer is `None` and the registry stays as it was.
pub fn rhai_eval_async_start(registry: &mut AsyncEvalRegistry) -> (eval_id: Option<i64>)
    requires
        old(registry).wf(),
    ensures
        final(registry).wf(),
        eval_id is None <==> old(registry).next_id() == i64::MAX,
        eval_id is None ==> {
            &&& final(registry).next_id() == old(registry).next_id()
            &&& final(registry).statuses() == old(registry).statuses()
        },
        eval_id matches Some(id) ==> {
            &&& id == old(registry).next_id()
            &&& !old(registry).statuses().contains_key(id)
            &&& final(registry).next_id() == id + 1
            &&& final(registry).statuses() == started(old(registry).statuses(), id)
        },
{
    broadcast use vstd::std_specs::hash::group_hash_axioms;

    if registry.next_id == i64::MAX {
        return None;
    }
    let ghost before = *registry;
    let eval_id = registry.next_id;
    registry.next_id = eval_id + 1;
    registry.results.insert(eval_id, AsyncEvalResult::InProgress);
    assert(registry.statuses() =~= started(before.statuses(), eval_id));
    Some(eval_id)
}

/// Writes the end of the evaluation `eval_id` into the registry.
///
/// The status of an entry is written once, when it goes from in progress to
/// success or error. Where the entry has been cancelled meanwhile, or `result`
/// is no end at all, nothing is written.
pub fn record_async_eval_result(
    registry: &mut AsyncEvalRegistry,
    eval_id: i64,
    result: AsyncEvalResult,
)
    requires
        old(registry).wf(),
    ensures
        final(registry).wf(),
        final(registry).next_id() == old(registry).next_id(),
        final(registry).statuses() == recorded(old(registry).statuses(), eval_id, result@),
{
    broadcast use vstd::std_specs::hash::group_hash_axioms;

    let ghost before = *registry;
    let running = match registry.results.get(&eval_id) {
        Some(AsyncEvalResult::InProgress) => true,
        _ => false,
    };
    let ends = match &result {
        AsyncEvalResult::InProgress => false,
        _ => true,
    };
    if running && ends {
        registry.results.insert(eval_id, result);
        assert(registry.statuses() =~= before.statuses().insert(eval_id, result@));
    }
}

/// What a poll found.
#[derive(Debug, Clone, PartialEq, Eq)]
pub enum PollStatus {
    /// The registry has no entry under this id.
    NotFound,
    /// The script is still running.
    InProgress,
    /// The script finished with this result, as JSON text.
    Success(String),
    /// The script failed with this message.
    Error(String),
}

impl PollStatus {
    /// The number that stands for what the poll found, at the host's
    /// boundary: 0 in progress, 1 success, 2 error, and none where the
    /// registry has no entry.
    pub fn status_code(&self) -> (code: Option<i32>)
        ensures
            code == match self@ {
                Some(status) => Some(status_code_of(status)),
                None => None,
            },
    {
        match self {
            PollStatus::NotFound => None,
            PollStatus::InProgress => Some(0),
            PollStatus::Success(_) => Some(1),
            PollStatus::Error(_) => Some(2),
        }
    }
}

impl View for PollStatus {
    type V = Option<EvalStatus>;

    open spec fn view(&self) -> Option<EvalStatus> {
        match self {
            PollStatus::NotFound => None,
            PollStatus::InProgress => Some(EvalStatus::InProgress),
            PollStatus::Success(value) => Some(EvalStatus::Success(value@)),
            PollStatus::Error(message) => Some(EvalStatus::Error(message@)),
        }
    }
}

/// The message for a poll or a cancellation under an id that the registry
/// does not know.
pub open spec fn invalid_eval_id_message(eval_id: i64) -> Seq<char> {
    "Invalid eval ID: "@ + decimal_text(eval_id as int)
}

/// Stores the message for an unknown evaluation id.
fn set_invalid_eval_id(last_error: &mut LastError, eval_id: i64)
    ensures
        final(last_error)@ == Some(invalid_eval_id_message(eval_id)),
{
    let id_text = i64_to_text(eval_id);
    let message = concat("Invalid eval ID: ", id_text.as_str());
    set_last_error(last_error, message.as_str());
}

/// Asks how the evaluation `eval_id` stands.
///
/// An evaluation in progress stays in the registry. A terminal status is
/// handed out once: the entry leaves the registry with the poll that sees
/// it. For an unknown id the answer is `NotFound`, with the reason in
/// `last_error`.
pub fn rhai_eval_async_poll(
    registry: &mut AsyncEvalRegistry,
    last_error: &mut LastError,
    eval_id: i64,
) -> (status: PollStatus)
    requires
        old(registry).wf(),
    ensures
        final(registry).wf(),
        status@ == observed(old(registry).statuses(), eval_id),
        final(registry).statuses() == polled(old(registry).statuses(), eval_id),
        final(registry).next_id() == old(registry).next_id(),
        status is NotFound ==> final(last_error)@ == Some(invalid_eval_id_message(eval_id)),
        !(status is NotFound) ==> final(last_error)@ is None,
{
    broadcast use vstd::std_specs::hash::group_hash_axioms;

    clear_last_error(last_error);
    let ghost before = *registry;
    let found: Option<bool> = match registry.results.get(&eval_id) {
        None => None,
        Some(AsyncEvalResult::InProgress) => Some(true),
        Some(_) => Some(false),
    };
    match found {
        None => {
            set_invalid_eval_id(last_error, eval_id);
            PollStatus::NotFound
        },
        Some(true) => PollStatus::InProgress,
        Some(false) => {
            let taken = registry.results.remove(&eval_id);
            assert(registry.statuses() =~= before.statuses().remove(eval_id));
            match taken {
                Some(AsyncEvalResult::Success(value)) => PollStatus::Success(value),
                Some(AsyncEvalResult::Error(message)) => PollStatus::Error(message),
                _ => PollStatus::InProgress,
            }
        },
    }
}

/// Cancels the evaluation `eval_id`: its entry leaves the registry.
///
/// The script itself is not stopped. Whatever it ends with is discarded when
/// it is reported, so the result is never seen. The status is 0 where there
/// was an entry and -1 where there was none, with the reason in `last_error`.
pub fn rhai_eval_async_cancel(
    registry: &mut AsyncEvalRegistry,
    last_error: &mut LastError,
    eval_id: i64,
) -> (status: i32)
    requires
        old(registry).wf(),
    ensures
        final(registry).wf(),
        final(registry).statuses() == cancelled(old(registry).statuses(), eval_id),
        final(registry).next_id() == old(registry).next_id(),
        old(registry).statuses().contains_key(eval_id) ==> status == 0 && final(last_error)@ == old(
            last_error,
        )@,
        !old(registry).statuses().contains_key(eval_id) ==> status == -1 && final(last_error)@
            == Some(invalid_eval_id_message(eval_id)),
{
    broadcast use vstd::std_specs::hash::group_hash_axioms;

    let ghost before = *registry;
    let removed = registry.results.remove(&eval_id);
    assert(registry.statuses() =~= before.statuses().remove(eval_id));
    match removed {
        Some(_) => 0,
        None => {
            set_invalid_eval_id(last_error, eval_id);
            -1
        },
    }
}

/// An evaluation that has started is seen as in progress until its end is
/// recorded.
pub proof fn law_started_is_in_progress(statuses: Map<i64, EvalStatus>, eval_id: i64)
    ensures
        observed(started(statuses, eval_id), eval_id) == Some(EvalStatus::InProgress),
        polled(started(statuses, eval_id), eval_id) == started(statuses, eval_id),
{
}

/// A terminal status is retrieved exactly once: the poll after it has been
/// recorded sees it, and the poll after that finds nothing.
pub proof fn law_terminal_status_is_seen_once(
    statuses: Map<i64, EvalStatus>,
    eval_id: i64,
    status: EvalStatus,
)
    requires
        is_terminal(status),
        observed(statuses, eval_id) == Some(EvalStatus::InProgress),
    ensures
        observed(recorded(statuses, eval_id, status), eval_id) == Some(status),
        observed(polled(recorded(statuses, eval_id, status), eval_id), eval_id) is None,
{
}

/// A poll that sees any terminal status removes it, so that the next poll
/// finds nothing.
pub proof fn law_second_poll_finds_nothing(statuses: Map<i64, EvalStatus>, eval_id: i64)
    requires
        statuses.contains_key(eval_id),
        is_terminal(statuses[eval_id]),
    ensures
        observed(statuses, eval_id) == Some(statuses[eval_id]),
        observed(polled(statuses, eval_id), eval_id) is None,
{
}

/// A terminal status is never overwritten.
pub proof fn law_terminal_status_stays(
    statuses: Map<i64, EvalStatus>,
    eval_id: i64,
    status: EvalStatus,
)
    requires
        statuses.contains_key(eval_id),
        is_terminal(statuses[eval_id]),
    ensures
        recorded(statuses, eval_id, status) == statuses,
{
}

/// After a cancellation the result is never seen: whatever the script ends
/// with is discarded, and every later poll finds nothing.
pub proof fn law_cancelled_result_is_never_seen(
    statuses: Map<i64, EvalStatus>,
    eval_id: i64,
    status: EvalStatus,
)
    ensures
        observed(cancelled(statuses, eval_id), eval_id) is None,
        recorded(cancelled(statuses, eval_id), eval_id, status) == cancelled(statuses, eval_id),
        observed(recorded(cancelled(statuses, eval_id), eval_id, status), eval_id) is None,
{
}

/// Polls and recordings for other evaluations leave an entry alone.
pub proof fn law_other_evaluations_are_untouched(
    statuses: Map<i64, EvalStatus>,
    eval_id: i64,
    other_id: i64,
    status: EvalStatus,
)
    requires
        eval_id != other_id,
    ensures
        observed(polled(statuses, other_id), eval_id) == observed(statuses, eval_id),
        observed(recorded(statuses, other_id, status), eval_id) == observed(statuses, eval_id),
        observed(cancelled(statuses, other_id), eval_id) == observed(statuses, eval_id),
        observed(started(statuses, other_id), eval_id) == observed(statuses, eval_id),
{
}


} // verus!
