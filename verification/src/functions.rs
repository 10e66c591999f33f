//! Host functions: how a call from a script reaches the host, and how the
//! host's answer comes back.
//!
//! The host registers a function under a name. When a script calls it, the
//! arguments are written as JSON and the call takes one of two ways. On the
//! caller's own thread the host function is invoked at once and answers with
//! a tagged response: a value, an error, or the id of a result that follows
//! later. On a thread of a background evaluation the call is posted to the
//! request queue instead. The invocation itself and every wait happen outside
//! the library; the functions here decide what to do before and after.
//!
//! Every call that waits for the host, for a deferred result or for the
//! answer to a queued request, waits under an id in one registry,
//! [`PendingFutures`]. An id stands for one operation and is never used
//! again, so what the host sends under an id late reaches no other call.

use vstd::prelude::*;
use vstd::string::StringExecFns;
use std::collections::HashMap;
use std::collections::HashSet;
use tokio::sync::oneshot::Receiver;
use tokio::sync::oneshot::Sender;
use serde_json::Value;
use crate::channel::open_channel;
use crate::channel::send_value;
use crate::channel::WaitOutcome;
use crate::async_eval::RequestError;
use crate::error::clear_last_error;
use crate::error::set_last_error;
use crate::error::LastError;
use crate::json::find_field;
use crate::json::json_model;
use crate::json::json_parse;
use crate::json::json_text;
use crate::json::json_unpack;
use crate::json::parse_json;
use crate::json::value_text;
use crate::json::same_text;
use crate::json::JsonTree;
use crate::json::JsonView;
use crate::json::distinct_keys;
use crate::json::lemma_entries_map_keys;
use crate::json::lemma_entries_map_lookup;
use crate::json::lemma_entries_map_push;
use crate::json::lemma_entries_map_update;
use crate::types::CRhaiEngine;
use crate::types::NO_ENGINE_MESSAGE;
use crate::values::ScriptTree;
use crate::json::entries_map;
use crate::json::field_trees;
use crate::values::decode;
use crate::values::json_to_rhai_dynamic;
use crate::values::json_value_to_dynamic;
use crate::values::rhai_dynamic_to_json;
use crate::values::holds_other;
use crate::values::encode;
use crate::values::supported;
use crate::values::ScriptValue;
use crate::values::ValueError;
use crate::text::concat;
use crate::text::decimal_digits;
use crate::text::decimal_text;
use crate::text::i64_to_text;
use crate::text::u64_to_text;

verus! {

/// The marks of one execution context: one thread that runs a script.
pub struct ExecutionContext {
    async_eval_mode: bool,
    async_invoked: bool,
}

impl ExecutionContext {
    /// Whether the context is the thread of a background evaluation.
    pub closed spec fn in_async_eval(&self) -> bool {
        self.async_eval_mode
    }

    /// Whether a host function has answered with a deferred result since the
    /// mark was last cleared.
    pub closed spec fn async_invoked(&self) -> bool {
        self.async_invoked
    }

    /// A context with both marks clear.
    pub fn new() -> (context: Self)
        ensures
            !context.in_async_eval(),
            !context.async_invoked(),
    {
        ExecutionContext { async_eval_mode: false, async_invoked: false }
    }
}

/// Marks that a host function answered with a deferred result.
pub fn mark_async_invoked(context: &mut ExecutionContext)
    ensures
        final(context).async_invoked(),
        final(context).in_async_eval() == old(context).in_async_eval(),
{
    context.async_invoked = true;
}

/// Reads the mark that [`mark_async_invoked`] sets, and clears it. A
/// synchronous evaluation does this when the script has ended, to learn
/// whether it met a function that it cannot wait for.
pub fn check_and_clear_async_flag(context: &mut ExecutionContext) -> (was_async: bool)
    ensures
        was_async == old(context).async_invoked(),
        !final(context).async_invoked(),
        final(context).in_async_eval() == old(context).in_async_eval(),
{
    let was_async = context.async_invoked;
    context.async_invoked = false;
    was_async
}

/// Says whether this context is the thread of a background evaluation: set
/// before the script runs there, and cleared after.
pub fn set_async_eval_mode(context: &mut ExecutionContext, enabled: bool)
    ensures
        final(context).in_async_eval() == enabled,
        final(context).async_invoked() == old(context).async_invoked(),
{
    context.async_eval_mode = enabled;
}

/// Whether this context is the thread of a background evaluation.
pub fn is_async_eval_mode(context: &ExecutionContext) -> (enabled: bool)
    ensures
        enabled == context.in_async_eval(),
{
    context.async_eval_mode
}

/// Why a call of a host function failed.
#[derive(Debug, Clone, PartialEq, Eq)]
pub enum CallError {
    /// The host function returned nothing at all.
    NullResult,
    /// The host's answer is not a response; this says why.
    MalformedResponse(String),
    /// The response says "pending" and names no id.
    MissingFutureId,
    /// The response says "pending" under an id that was used before.
    StaleFutureId(i64),
    /// The completion channel was dropped before a result came.
    ChannelClosed,
    /// No result came within so many seconds.
    TimedOut(u64),
    /// The host function reported this error to a call that may wait.
    Host(String),
    /// The host function reported this error to a synchronous call.
    Callback(String),
    /// The response of a call that may wait carries this unknown status.
    InvalidStatus(String),
    /// The response of a synchronous call carries this unknown status.
    UnknownStatus(String),
    /// A synchronous evaluation met a function whose result comes later.
    AsyncInSyncEval,
    /// The result is not a value that a script can hold.
    ConversionFailed(String),
    /// The arguments could not be written as JSON.
    ArgumentsFailed(String),
    /// A call through the request queue failed.
    Function(String),
    /// An answer in the older format has no verdict.
    InvalidResultFormat,
    /// An answer in the older format is not JSON.
    MalformedResult(String),
}

/// The message for a result that did not come in time.
pub open spec fn timed_out_message(seconds: u64) -> Seq<char> {
    "Async operation timed out after "@ + decimal_digits(seconds as nat) + " seconds"@
}

/// The message for a pending answer under an id that was used before.
pub open spec fn stale_future_id_message(id: i64) -> Seq<char> {
    "Pending response names future_id "@ + decimal_text(id as int) + ", which was used before"@
}

impl CallError {
    /// The text of each error.
    pub open spec fn spec_message(&self) -> Seq<char> {
        match self {
            CallError::NullResult => "Dart callback returned null"@,
            CallError::MalformedResponse(detail) => "Failed to parse callback response: "@
                + detail@,
            CallError::MissingFutureId => "Pending response missing future_id"@,
            CallError::StaleFutureId(id) => stale_future_id_message(*id),
            CallError::ChannelClosed => "Async channel closed unexpectedly"@,
            CallError::TimedOut(seconds) => timed_out_message(*seconds),
            CallError::Host(message) => message@,
            CallError::Callback(message) => "Callback error: "@ + message@,
            CallError::InvalidStatus(status) => "Invalid callback status: "@ + status@,
            CallError::UnknownStatus(status) => "Unknown callback status: "@ + status@,
            CallError::AsyncInSyncEval =>
                "Async function called in sync eval - this error should be caught by eval()"@,
            CallError::ConversionFailed(detail) => "Failed to convert result to Rhai: "@ + detail@,
            CallError::ArgumentsFailed(detail) => "Failed to convert args to JSON: "@ + detail@,
            CallError::Function(detail) => "Function error: "@ + detail@,
            CallError::InvalidResultFormat => "Invalid callback result format"@,
            CallError::MalformedResult(detail) => "Failed to parse callback result JSON: "@
                + detail@,
        }
    }

    /// The message that the script sees for this error.
    pub fn message(&self) -> (text: String)
        ensures
            text@ == self.spec_message(),
    {
        match self {
            CallError::NullResult => "Dart callback returned null".to_owned(),
            CallError::MalformedResponse(detail) => concat(
                "Failed to parse callback response: ",
                detail.as_str(),
            ),
            CallError::MissingFutureId => "Pending response missing future_id".to_owned(),
            CallError::StaleFutureId(id) => {
                let number = i64_to_text(*id);
                let head = concat("Pending response names future_id ", number.as_str());
                let text = concat(head.as_str(), ", which was used before");
                assert(text@ =~= stale_future_id_message(*id));
                text
            },
            CallError::ChannelClosed => "Async channel closed unexpectedly".to_owned(),
            CallError::TimedOut(seconds) => {
                let count = u64_to_text(*seconds);
                let head = concat("Async operation timed out after ", count.as_str());
                let text = concat(head.as_str(), " seconds");
                assert(text@ =~= timed_out_message(*seconds));
                text
            },
            CallError::Host(message) => message.clone(),
            CallError::Callback(message) => concat("Callback error: ", message.as_str()),
            CallError::InvalidStatus(status) => concat(
                "Invalid callback status: ",
                status.as_str(),
            ),
            CallError::UnknownStatus(status) => concat(
                "Unknown callback status: ",
                status.as_str(),
            ),
            CallError::AsyncInSyncEval =>
                "Async function called in sync eval - this error should be caught by eval()".to_owned(),
            CallError::ConversionFailed(detail) => concat(
                "Failed to convert result to Rhai: ",
                detail.as_str(),
            ),
            CallError::ArgumentsFailed(detail) => concat(
                "Failed to convert args to JSON: ",
                detail.as_str(),
            ),
            CallError::Function(detail) => concat("Function error: ", detail.as_str()),
            CallError::InvalidResultFormat => "Invalid callback result format".to_owned(),
            CallError::MalformedResult(detail) => concat(
                "Failed to parse callback result JSON: ",
                detail.as_str(),
            ),
        }
    }
}

/// The ids of the operations in flight, and the id that comes next.
///
/// Deferred results and queued requests share one space of ids. An id is
/// handed out by the registry or named by the host. Either way it is used for
/// one operation and never again: every id that was ever known lies below
/// `next_id`, and below `next_id` only an id that is reserved can still be
/// registered.
#[verifier::ext_equal]
pub struct OperationIds {
    /// The id that the registry hands out next.
    pub next_id: i64,
    /// The ids that were handed out for a deferred result that has not been
    /// announced yet.
    pub reserved: Set<i64>,
    /// The ids of the deferred results that a script waits for.
    pub deferred: Set<i64>,
    /// The ids of the queued requests that wait for their result.
    pub queued: Set<i64>,
}

impl OperationIds {
    /// Whether the id is reserved or waited under.
    pub open spec fn knows(self, id: i64) -> bool {
        self.reserved.contains(id) || self.deferred.contains(id) || self.queued.contains(id)
    }

    /// Whether a call waits under the id.
    pub open spec fn waits(self, id: i64) -> bool {
        self.deferred.contains(id) || self.queued.contains(id)
    }

    /// Whether the id is of one kind at most.
    pub open spec fn one_kind(self, id: i64) -> bool {
        &&& !(self.reserved.contains(id) && self.deferred.contains(id))
        &&& !(self.reserved.contains(id) && self.queued.contains(id))
        &&& !(self.deferred.contains(id) && self.queued.contains(id))
    }

    /// Every id that is known lies below the next one and is of one kind.
    pub open spec fn wf(self) -> bool {
        &&& self.next_id >= 1
        &&& forall|id: i64| #[trigger] self.knows(id) ==> id < self.next_id && self.one_kind(id)
    }

    /// Whether an id is gone for good: it lies below the next id and is not
    /// reserved, so it was used or skipped.
    pub open spec fn retired(self, id: i64) -> bool {
        id < self.next_id && !self.knows(id)
    }

    /// Whether the registry has an id left to hand out.
    pub open spec fn has_next(self) -> bool {
        self.next_id < i64::MAX
    }

    /// The ids after the next id has been reserved for a deferred result.
    pub open spec fn reserving(self) -> OperationIds {
        OperationIds {
            next_id: (self.next_id + 1) as i64,
            reserved: self.reserved.insert(self.next_id),
            ..self
        }
    }

    /// Whether a deferred result can be registered under the id: the id is
    /// reserved, or it is new, which is to say not below the next id.
    pub open spec fn accepts(self, id: i64) -> bool {
        self.reserved.contains(id) || self.next_id <= id < i64::MAX
    }

    /// The ids after a deferred result has been registered under an id that
    /// is accepted. A new id moves the next id past it.
    pub open spec fn registered(self, id: i64) -> OperationIds {
        if self.reserved.contains(id) {
            OperationIds {
                reserved: self.reserved.remove(id),
                deferred: self.deferred.insert(id),
                ..self
            }
        } else {
            OperationIds {
                next_id: (id + 1) as i64,
                deferred: self.deferred.insert(id),
                ..self
            }
        }
    }

    /// The ids after a request has been posted under the next id.
    pub open spec fn posting(self) -> OperationIds {
        OperationIds {
            next_id: (self.next_id + 1) as i64,
            queued: self.queued.insert(self.next_id),
            ..self
        }
    }

    /// The ids after a completion under `id` has been tried.
    pub open spec fn completed(self, id: i64) -> OperationIds {
        OperationIds { deferred: self.deferred.remove(id), queued: self.queued.remove(id), ..self }
    }

    /// The ids after a delivery to the request `id` has been tried.
    pub open spec fn delivered(self, id: i64) -> OperationIds {
        OperationIds { queued: self.queued.remove(id), ..self }
    }

    /// The ids after the deferred result `id` has been given up.
    pub open spec fn without_deferred(self, id: i64) -> OperationIds {
        OperationIds { deferred: self.deferred.remove(id), ..self }
    }

    /// The ids once the wait for the deferred result `id` has ended. A
    /// completion has removed the entry already; a wait that ends without
    /// one removes it.
    pub open spec fn after_wait(self, id: i64, outcome: WaitOutcome) -> OperationIds {
        match outcome {
            WaitOutcome::Delivered(_) => self,
            _ => self.without_deferred(id),
        }
    }

    /// The ids once the wait for the queued request `id` has ended: a
    /// request that timed out gives up its channel.
    pub open spec fn after_request_wait(self, id: i64, outcome: WaitOutcome) -> OperationIds {
        match outcome {
            WaitOutcome::TimedOut => self.delivered(id),
            _ => self,
        }
    }
}

/// The result of a deferred call, once the wait on its channel has ended.
pub open spec fn deferred_result(outcome: WaitOutcome, timeout_seconds: u64) -> Result<
    Seq<char>,
    CallError,
> {
    match outcome {
        WaitOutcome::Delivered(value) => Ok(value@),
        WaitOutcome::Closed => Err(CallError::ChannelClosed),
        WaitOutcome::TimedOut => Err(CallError::TimedOut(timeout_seconds)),
    }
}

/// The registry of the operations in flight: under the id of each deferred
/// result that a script waits for, and of each request that waits in the
/// queue, the sending half of its completion channel.
pub struct PendingFutures {
    next_id: i64,
    reserved: HashSet<i64>,
    senders: HashMap<i64, Sender<String>>,
    channels: HashMap<i64, Sender<String>>,
}

impl PendingFutures {
    /// The ids that the registry holds.
    pub closed spec fn ids(self) -> OperationIds {
        OperationIds {
            next_id: self.next_id,
            reserved: self.reserved@,
            deferred: self.senders@.dom(),
            queued: self.channels@.dom(),
        }
    }

    /// The ids are as [`OperationIds::wf`] says. [`PendingFutures::new`]
    /// makes such a registry and every operation keeps it so.
    pub open spec fn wf(self) -> bool {
        self.ids().wf()
    }

    /// A registry in which nothing waits, whose first id is 1.
    pub fn new() -> (futures: Self)
        ensures
            futures.wf(),
            futures.ids() == (OperationIds {
                next_id: 1,
                reserved: Set::empty(),
                deferred: Set::empty(),
                queued: Set::empty(),
            }),
    {
        broadcast use vstd::std_specs::hash::group_hash_axioms;

        let futures = PendingFutures {
            next_id: 1,
            reserved: HashSet::new(),
            senders: HashMap::new(),
            channels: HashMap::new(),
        };
        assert(futures.ids() =~= (OperationIds {
            next_id: 1,
            reserved: Set::empty(),
            deferred: Set::empty(),
            queued: Set::empty(),
        }));
        futures
    }

    /// Whether a script waits for a deferred result under `future_id`.
    pub fn contains(&self, future_id: i64) -> (waits: bool)
        ensures
            waits == self.ids().deferred.contains(future_id),
    {
        broadcast use vstd::std_specs::hash::group_hash_axioms;

        self.senders.contains_key(&future_id)
    }

    /// Whether the queued request `exec_id` still waits for its result.
    pub fn is_queued(&self, exec_id: i64) -> (waits: bool)
        ensures
            waits == self.ids().queued.contains(exec_id),
    {
        broadcast use vstd::std_specs::hash::group_hash_axioms;

        self.channels.contains_key(&exec_id)
    }

    /// Whether a deferred result can be registered under `future_id`.
    pub fn accepts(&self, future_id: i64) -> (accepted: bool)
        ensures
            accepted == self.ids().accepts(future_id),
    {
        broadcast use vstd::std_specs::hash::group_hash_axioms;

        self.reserved.contains(&future_id) || (self.next_id <= future_id && future_id < i64::MAX)
    }

    /// Opens a completion channel for the deferred result `future_id` and
    /// keeps its sending half; the caller waits on the receiving half. The
    /// id must be one that the registry handed out for this, or a new one.
    /// Any other id is refused and the registry stays as it is: the id was
    /// used before, and what is sent under it may belong to the earlier
    /// operation.
    pub fn register(&mut self, future_id: i64) -> (receiver: Option<Receiver<String>>)
        requires
            old(self).wf(),
        ensures
            final(self).wf(),
            receiver is Some <==> old(self).ids().accepts(future_id),
            final(self).ids() == if old(self).ids().accepts(future_id) {
                old(self).ids().registered(future_id)
            } else {
                old(self).ids()
            },
    {
        broadcast use vstd::std_specs::hash::group_hash_axioms;

        let ghost before = self.ids();
        if self.reserved.contains(&future_id) {
            self.reserved.remove(&future_id);
        } else if self.next_id <= future_id && future_id < i64::MAX {
            self.next_id = future_id + 1;
        } else {
            return None;
        }
        let (sender, receiver) = open_channel();
        self.senders.insert(future_id, sender);
        proof {
            let after = self.ids();
            assert(after =~= before.registered(future_id));
            assert(before.knows(future_id) ==> before.one_kind(future_id));
            assert forall|id: i64| #[trigger] after.knows(id) implies id < after.next_id
                && after.one_kind(id) by {
                if id != future_id {
                    assert(before.knows(id));
                }
            }
        }
        Some(receiver)
    }

    /// Gives up the deferred result `future_id`, if a script waits for it.
    pub fn remove(&mut self, future_id: i64)
        requires
            old(self).wf(),
        ensures
            final(self).wf(),
            final(self).ids() == old(self).ids().without_deferred(future_id),
    {
        broadcast use vstd::std_specs::hash::group_hash_axioms;

        let ghost before = self.ids();
        self.senders.remove(&future_id);
        proof {
            let after = self.ids();
            assert(after =~= before.without_deferred(future_id));
            assert forall|id: i64| #[trigger] after.knows(id) implies id < after.next_id
                && after.one_kind(id) by {
                assert(before.knows(id));
            }
        }
    }

    /// Opens a completion channel for a request under the next id and keeps
    /// its sending half, or returns `None` where no id is left.
    pub fn post(&mut self) -> (ticket: Option<(i64, Receiver<String>)>)
        requires
            old(self).wf(),
        ensures
            final(self).wf(),
            ticket is Some <==> old(self).ids().has_next(),
            ticket matches Some(pair) ==> pair.0 == old(self).ids().next_id,
            final(self).ids() == if old(self).ids().has_next() {
                old(self).ids().posting()
            } else {
                old(self).ids()
            },
    {
        broadcast use vstd::std_specs::hash::group_hash_axioms;

        if self.next_id == i64::MAX {
            return None;
        }
        let ghost before = self.ids();
        let exec_id = self.next_id;
        let (sender, receiver) = open_channel();
        self.next_id = exec_id + 1;
        self.channels.insert(exec_id, sender);
        proof {
            let after = self.ids();
            assert(after =~= before.posting());
            assert(!before.knows(exec_id));
            assert forall|id: i64| #[trigger] after.knows(id) implies id < after.next_id
                && after.one_kind(id) by {
                if id != exec_id {
                    assert(before.knows(id));
                }
            }
        }
        Some((exec_id, receiver))
    }

    /// Takes the sending half of the queued request `exec_id` out of the
    /// registry.
    pub(crate) fn take_request(&mut self, exec_id: i64) -> (sender: Option<Sender<String>>)
        requires
            old(self).wf(),
        ensures
            final(self).wf(),
            sender is Some <==> old(self).ids().queued.contains(exec_id),
            final(self).ids() == old(self).ids().delivered(exec_id),
    {
        broadcast use vstd::std_specs::hash::group_hash_axioms;

        let ghost before = self.ids();
        let sender = self.channels.remove(&exec_id);
        proof {
            let after = self.ids();
            assert(after =~= before.delivered(exec_id));
            assert forall|id: i64| #[trigger] after.knows(id) implies id < after.next_id
                && after.one_kind(id) by {
                assert(before.knows(id));
            }
        }
        sender
    }

    /// Takes the sending half of the operation `future_id` out of the
    /// registry: that of a deferred result or that of a queued request. An
    /// id is of one kind, so there is one channel at most.
    fn take(&mut self, future_id: i64) -> (sender: Option<Sender<String>>)
        requires
            old(self).wf(),
        ensures
            final(self).wf(),
            sender is Some <==> old(self).ids().waits(future_id),
            final(self).ids() == old(self).ids().completed(future_id),
    {
        broadcast use vstd::std_specs::hash::group_hash_axioms;

        let ghost before = self.ids();
        proof {
            assert(before.knows(future_id) ==> before.one_kind(future_id));
        }
        let sender = match self.senders.remove(&future_id) {
            Some(sender) => Some(sender),
            None => self.channels.remove(&future_id),
        };
        proof {
            let after = self.ids();
            assert(after =~= before.completed(future_id));
            assert forall|id: i64| #[trigger] after.knows(id) implies id < after.next_id
                && after.one_kind(id) by {
                assert(before.knows(id));
            }
        }
        sender
    }
}

/// Hands out the next id for a deferred result and reserves it, or returns
/// `None` where no id is left. Each id is handed out once; ids go upward
/// from 1, past every id that the host named itself.
pub fn generate_future_id(futures: &mut PendingFutures) -> (id: Option<i64>)
    requires
        old(futures).wf(),
    ensures
        final(futures).wf(),
        match id {
            Some(next) => old(futures).ids().has_next() && next == old(futures).ids().next_id
                && final(futures).ids() == old(futures).ids().reserving(),
            None => !old(futures).ids().has_next() && final(futures).ids() == old(futures).ids(),
        },
{
    broadcast use vstd::std_specs::hash::group_hash_axioms;

    if futures.next_id == i64::MAX {
        return None;
    }
    let ghost before = futures.ids();
    let id = futures.next_id;
    futures.next_id = id + 1;
    futures.reserved.insert(id);
    proof {
        let after = futures.ids();
        assert(after =~= before.reserving());
        assert(!before.knows(id));
        assert forall|other: i64| #[trigger] after.knows(other) implies other < after.next_id
            && after.one_kind(other) by {
            if other != id {
                assert(before.knows(other));
            }
        }
    }
    Some(id)
}

/// How a completion ended.
#[derive(Debug, Clone, Copy, PartialEq, Eq)]
pub enum Completion {
    /// The waiting script has the value.
    Delivered,
    /// The id was known, but the script had stopped waiting.
    ReceiverDropped,
    /// Nothing waits under this id.
    NotFound,
}

/// How a completion ended, given what was found under the id: `None` where
/// nothing waited, else the channel's answer, which is `true` where it took
/// the value.
pub open spec fn completion_of(answer: Option<bool>) -> Completion {
    match answer {
        Some(true) => Completion::Delivered,
        Some(false) => Completion::ReceiverDropped,
        None => Completion::NotFound,
    }
}

/// Tells how a completion ended from what was found under the id.
pub fn completion_outcome(answer: Option<bool>) -> (completion: Completion)
    ensures
        completion == completion_of(answer),
{
    match answer {
        Some(true) => Completion::Delivered,
        Some(false) => Completion::ReceiverDropped,
        None => Completion::NotFound,
    }
}

/// Completes the operation `future_id` with `value`.
///
/// An operation is a deferred result that a script waits for, or a request
/// that a background evaluation posted to the queue: the host completes
/// either by its id. The value is sent on the one channel that is kept under
/// the id. The id leaves the registry with the completion, whatever the
/// channel then does with the value: a second completion under the same id is
/// `NotFound`, and so is a completion that comes after the wait was given
/// up.
pub fn complete_future(futures: &mut PendingFutures, future_id: i64, value: String) -> (completion:
    Completion)
    requires
        old(futures).wf(),
    ensures
        final(futures).wf(),
        completion is NotFound <==> !old(futures).ids().waits(future_id),
        final(futures).ids() == old(futures).ids().completed(future_id),
{
    let answer = match futures.take(future_id) {
        Some(sender) => Some(send_value(sender, value)),
        None => None,
    };
    completion_outcome(answer)
}

/// The message for a completion under an id that nothing waits under.
pub open spec fn future_not_found_message(future_id: i64) -> Seq<char> {
    "Future ID "@ + decimal_text(future_id as int) + " not found in registry"@
}

/// The message for a completion whose waiter has gone.
pub open spec fn receiver_dropped_message(future_id: i64) -> Seq<char> {
    "Failed to send result for future "@ + decimal_text(future_id as int) + ": receiver dropped"@
}

/// The status code of a completion, and the message that goes with it: 0 and
/// no message where the script has the value, else -1.
pub open spec fn completion_report(completion: Completion, future_id: i64) -> (
    i32,
    Option<Seq<char>>,
) {
    match completion {
        Completion::Delivered => (0i32, None),
        Completion::ReceiverDropped => (-1i32, Some(receiver_dropped_message(future_id))),
        Completion::NotFound => (-1i32, Some(future_not_found_message(future_id))),
    }
}

/// Records how a completion ended: stores the message of a failed one in
/// `last_error` and returns the status code.
pub fn report_completion(last_error: &mut LastError, completion: Completion, future_id: i64) -> (status:
    i32)
    ensures
        status == completion_report(completion, future_id).0,
        completion is Delivered ==> final(last_error)@ == old(last_error)@,
        !(completion is Delivered) ==> final(last_error)@ == completion_report(
            completion,
            future_id,
        ).1,
{
    match completion {
        Completion::Delivered => 0,
        Completion::ReceiverDropped => {
            let id_text = i64_to_text(future_id);
            let head = concat("Failed to send result for future ", id_text.as_str());
            let message = concat(head.as_str(), ": receiver dropped");
            assert(message@ =~= receiver_dropped_message(future_id));
            set_last_error(last_error, message.as_str());
            -1
        },
        Completion::NotFound => {
            let id_text = i64_to_text(future_id);
            let head = concat("Future ID ", id_text.as_str());
            let message = concat(head.as_str(), " not found in registry");
            assert(message@ =~= future_not_found_message(future_id));
            set_last_error(last_error, message.as_str());
            -1
        },
    }
}

/// The host completes the operation `future_id`: a deferred result that a
/// script waits for, or a request that it took off the queue.
///
/// `result_json` is `None` where the host passed no text at all; the
/// registry is then left alone. Otherwise the value is handed to the call
/// that waits under `future_id`, as [`complete_future`] says. The status is
/// 0 where that call has the value and -1 else, with the reason in
/// `last_error`.
pub fn rhai_complete_future(
    futures: &mut PendingFutures,
    last_error: &mut LastError,
    future_id: i64,
    result_json: Option<String>,
) -> (status: i32)
    requires
        old(futures).wf(),
    ensures
        final(futures).wf(),
        status == 0 || status == -1,
        result_json is None ==> {
            &&& status == -1
            &&& final(last_error)@ == Some("Result JSON pointer is null"@)
            &&& final(futures).ids() == old(futures).ids()
        },
        result_json is Some ==> {
            &&& final(futures).ids() == old(futures).ids().completed(future_id)
            &&& status == 0 ==> old(futures).ids().waits(future_id) && final(last_error)@ is None
            &&& !old(futures).ids().waits(future_id) ==> status == -1 && final(last_error)@
                == Some(future_not_found_message(future_id))
            &&& old(futures).ids().waits(future_id) && status == -1 ==> final(last_error)@
                == Some(receiver_dropped_message(future_id))
        },
{
    clear_last_error(last_error);
    match result_json {
        None => {
            set_last_error(last_error, "Result JSON pointer is null");
            -1
        },
        Some(value) => {
            let completion = complete_future(futures, future_id, value);
            report_completion(last_error, completion, future_id)
        },
    }
}

/// Ends the wait for the deferred result `future_id`.
///
/// A delivered value is the result. Where the wait ended without one, the
/// entry is removed before the error is returned, so that a completion that
/// comes later finds nothing and is reported as such.
pub fn finish_pending_wait(
    futures: &mut PendingFutures,
    future_id: i64,
    outcome: WaitOutcome,
    timeout_seconds: u64,
) -> (result: Result<String, CallError>)
    requires
        old(futures).wf(),
    ensures
        final(futures).wf(),
        match result {
            Ok(value) => deferred_result(outcome, timeout_seconds) == Ok::<Seq<char>, CallError>(
                value@,
            ),
            Err(error) => deferred_result(outcome, timeout_seconds) == Err::<Seq<char>, CallError>(
                error,
            ),
        },
        final(futures).ids() == old(futures).ids().after_wait(future_id, outcome),
{
    match outcome {
        WaitOutcome::Delivered(value) => Ok(value),
        WaitOutcome::Closed => {
            futures.remove(future_id);
            Err(CallError::ChannelClosed)
        },
        WaitOutcome::TimedOut => {
            futures.remove(future_id);
            Err(CallError::TimedOut(timeout_seconds))
        },
    }
}

/// A registered operation is completed exactly once: the first completion
/// finds it, and a second one under the same id finds nothing.
pub proof fn law_complete_exactly_once(ids: OperationIds, future_id: i64)
    requires
        ids.wf(),
        ids.accepts(future_id),
    ensures
        ids.registered(future_id).waits(future_id),
        !ids.registered(future_id).completed(future_id).waits(future_id),
{
}

/// A queued request is completed by its id as a deferred result is: once it
/// is posted, a completion under its id finds it, and a second one finds
/// nothing.
pub proof fn law_completion_releases_a_queued_request(ids: OperationIds)
    requires
        ids.wf(),
        ids.has_next(),
    ensures
        ids.posting().waits(ids.next_id),
        !ids.posting().completed(ids.next_id).waits(ids.next_id),
{
}

/// A completion reaches one channel at most: no id is that of a deferred
/// result and of a queued request at once.
pub proof fn law_completion_reaches_one_channel(ids: OperationIds, id: i64)
    requires
        ids.wf(),
    ensures
        !(ids.deferred.contains(id) && ids.queued.contains(id)),
{
    if ids.deferred.contains(id) {
        assert(ids.knows(id));
    }
}

/// An operation whose wait timed out is gone: the waiter sees the timeout,
/// the id is retired, and a completion that comes later finds nothing.
pub proof fn law_timeout_forgets_the_operation(
    ids: OperationIds,
    future_id: i64,
    timeout_seconds: u64,
)
    requires
        ids.wf(),
        ids.accepts(future_id),
    ensures
        deferred_result(WaitOutcome::TimedOut, timeout_seconds) == Err::<Seq<char>, CallError>(
            CallError::TimedOut(timeout_seconds),
        ),
        !ids.registered(future_id).after_wait(future_id, WaitOutcome::TimedOut).waits(future_id),
        ids.registered(future_id).after_wait(future_id, WaitOutcome::TimedOut).retired(future_id),
{
    let registered = ids.registered(future_id);
    if ids.reserved.contains(future_id) {
        assert(ids.knows(future_id));
    } else {
        assert(!ids.knows(future_id)) by {
            if ids.knows(future_id) {
                assert(future_id < ids.next_id);
            }
        }
    }
}

/// Ids are never used again. An id that is retired is refused as the id of
/// a deferred result and is not the id that the registry hands out next, and
/// it stays retired whatever happens to the registry: no operation that
/// comes later can wait under it, so a late completion reaches no one.
pub proof fn law_retired_ids_stay_retired(ids: OperationIds, id: i64, other: i64)
    requires
        ids.wf(),
        ids.retired(id),
    ensures
        !ids.waits(id),
        !ids.accepts(id),
        ids.next_id != id,
        ids.has_next() ==> ids.reserving().retired(id) && ids.posting().retired(id),
        ids.accepts(other) ==> ids.registered(other).retired(id),
        ids.completed(other).retired(id),
        ids.delivered(other).retired(id),
        ids.without_deferred(other).retired(id),
{
}

/// Completions and registrations under other ids leave an operation alone.
pub proof fn law_other_operations_are_untouched(ids: OperationIds, future_id: i64, other_id: i64)
    requires
        future_id != other_id,
    ensures
        ids.completed(other_id).waits(future_id) == ids.waits(future_id),
        ids.registered(other_id).waits(future_id) == ids.waits(future_id),
        ids.without_deferred(other_id).waits(future_id) == ids.waits(future_id),
{
}

/// The tagged answer of a host function, as read from its JSON text.
pub struct CallbackResponse<'a> {
    /// "success", "pending" or "error".
    pub status: &'a String,
    /// The id of the result that follows, in a pending answer.
    pub future_id: Option<i64>,
    /// The result, as a JSON value.
    pub value: Option<&'a Value>,
    /// The result, as JSON text.
    pub value_json: Option<&'a String>,
    /// The message of a failure.
    pub error: Option<&'a String>,
}

/// What a [`CallbackResponse`] holds.
pub struct ResponseView {
    pub status: Seq<char>,
    pub future_id: Option<i64>,
    pub value: Option<JsonTree>,
    pub value_json: Option<Seq<char>>,
    pub error: Option<Seq<char>>,
}

impl<'a> View for CallbackResponse<'a> {
    type V = ResponseView;

    open spec fn view(&self) -> ResponseView {
        ResponseView {
            status: self.status@,
            future_id: self.future_id,
            value: match self.value {
                Some(value) => Some(json_model(*value)),
                None => None,
            },
            value_json: match self.value_json {
                Some(text) => Some(text@),
                None => None,
            },
            error: match self.error {
                Some(text) => Some(text@),
                None => None,
            },
        }
    }
}

/// A field that may be missing: `null` counts as missing.
pub open spec fn optional_field(fields: Map<Seq<char>, JsonTree>, name: Seq<char>) -> Option<
    JsonTree,
> {
    if fields.contains_key(name) && !(fields[name] is Null) {
        Some(fields[name])
    } else {
        None
    }
}

/// Whether a field is missing or holds text.
pub open spec fn is_optional_text(fields: Map<Seq<char>, JsonTree>, name: Seq<char>) -> bool {
    optional_field(fields, name) matches Some(tree) ==> tree is Text
}

/// The text of a field that may be missing.
pub open spec fn optional_text(fields: Map<Seq<char>, JsonTree>, name: Seq<char>) -> Option<
    Seq<char>,
> {
    match optional_field(fields, name) {
        Some(JsonTree::Text(text)) => Some(text),
        _ => None,
    }
}

/// Whether a field is missing or holds an integer.
pub open spec fn is_optional_int(fields: Map<Seq<char>, JsonTree>, name: Seq<char>) -> bool {
    optional_field(fields, name) matches Some(tree) ==> tree is Int
}

/// The integer of a field that may be missing.
pub open spec fn optional_int(fields: Map<Seq<char>, JsonTree>, name: Seq<char>) -> Option<i64> {
    match optional_field(fields, name) {
        Some(JsonTree::Int(number)) => Some(number),
        _ => None,
    }
}

/// The response that a JSON value stands for, or `None` where it stands for
/// none. A response is an object. Its `status` is text and must be there; its
/// `future_id` is an integer, its `value_json` and `error` are text and its
/// `value` is any JSON value, and each of these may be missing or `null`.
/// Other fields are ignored.
pub open spec fn response_of(tree: JsonTree) -> Option<ResponseView> {
    match tree {
        JsonTree::Object(fields) => {
            if fields.contains_key("status"@) && fields["status"@] is Text && is_optional_int(
                fields,
                "future_id"@,
            ) && is_optional_text(fields, "value_json"@) && is_optional_text(fields, "error"@) {
                Some(
                    ResponseView {
                        status: fields["status"@]->Text_0,
                        future_id: optional_int(fields, "future_id"@),
                        value: optional_field(fields, "value"@),
                        value_json: optional_text(fields, "value_json"@),
                        error: optional_text(fields, "error"@),
                    },
                )
            } else {
                None
            }
        },
        _ => None,
    }
}

/// Reads a field that may be missing.
fn read_optional_field<'a>(fields: &Vec<(&'a String, &'a Value)>, name: &str) -> (found: Option<
    &'a Value,
>)
    requires
        distinct_keys(field_trees(fields@)),
    ensures
        match found {
            Some(value) => optional_field(entries_map(field_trees(fields@)), name@) == Some(
                json_model(*value),
            ),
            None => optional_field(entries_map(field_trees(fields@)), name@) is None,
        },
{
    match find_field(fields, name) {
        Some(value) => match json_unpack(value) {
            JsonView::Null => None,
            _ => Some(value),
        },
        None => None,
    }
}

/// Reads a field that is text where it is there. The outer `None` says that
/// the field holds something else.
fn read_optional_text<'a>(fields: &Vec<(&'a String, &'a Value)>, name: &str) -> (found: Option<
    Option<&'a String>,
>)
    requires
        distinct_keys(field_trees(fields@)),
    ensures
        found is Some <==> is_optional_text(entries_map(field_trees(fields@)), name@),
        found matches Some(Some(text)) ==> optional_text(
            entries_map(field_trees(fields@)),
            name@,
        ) == Some(text@),
        found matches Some(None) ==> optional_text(entries_map(field_trees(fields@)), name@)
            is None,
{
    match read_optional_field(fields, name) {
        Some(value) => match json_unpack(value) {
            JsonView::Text(text) => Some(Some(text)),
            _ => None,
        },
        None => Some(None),
    }
}

/// Reads a field that is an integer where it is there. The outer `None` says
/// that the field holds something else.
fn read_optional_int<'a>(fields: &Vec<(&'a String, &'a Value)>, name: &str) -> (found: Option<
    Option<i64>,
>)
    requires
        distinct_keys(field_trees(fields@)),
    ensures
        found is Some <==> is_optional_int(entries_map(field_trees(fields@)), name@),
        found matches Some(number) ==> optional_int(entries_map(field_trees(fields@)), name@)
            == number,
{
    match read_optional_field(fields, name) {
        Some(value) => match json_unpack(value) {
            JsonView::Number { integer: Some(number), unsigned, float_bits } => Some(Some(number)),
            _ => None,
        },
        None => Some(None),
    }
}

/// Reads the response that a JSON value stands for.
pub fn read_callback_response<'a>(root: &'a Value) -> (response: Option<CallbackResponse<'a>>)
    ensures
        match response {
            Some(read) => response_of(json_model(*root)) == Some(read@),
            None => response_of(json_model(*root)) is None,
        },
{
    let fields = match json_unpack(root) {
        JsonView::Object(fields) => fields,
        _ => {
            return None;
        },
    };
    let status = match find_field(&fields, "status") {
        Some(value) => match json_unpack(value) {
            JsonView::Text(text) => text,
            _ => {
                return None;
            },
        },
        None => {
            return None;
        },
    };
    let future_id = match read_optional_int(&fields, "future_id") {
        Some(number) => number,
        None => {
            return None;
        },
    };
    let value_json = match read_optional_text(&fields, "value_json") {
        Some(text) => text,
        None => {
            return None;
        },
    };
    let error = match read_optional_text(&fields, "error") {
        Some(text) => text,
        None => {
            return None;
        },
    };
    let value = read_optional_field(&fields, "value");
    Some(CallbackResponse { status, future_id, value, value_json, error })
}

/// Where the result of a successful answer is found.
pub enum ResultSource {
    /// In a JSON value, which is written as text first.
    Tree(JsonTree),
    /// In JSON text.
    Text(Seq<char>),
}

/// What an answer means to a synchronous call.
pub enum SyncOutcome {
    /// The function returned a result.
    Success(ResultSource),
    /// The result comes later, which a synchronous call cannot wait for.
    Pending,
    /// The function failed with this message.
    Failed(Seq<char>),
    /// The status is none of the three.
    Unknown(Seq<char>),
}

/// What an answer means to a synchronous call. The result is taken from
/// `value`, else from `value_json`, else it is `null`.
pub open spec fn sync_outcome(response: ResponseView) -> SyncOutcome {
    if response.status == "success"@ {
        SyncOutcome::Success(
            match response.value {
                Some(tree) => ResultSource::Tree(tree),
                None => match response.value_json {
                    Some(text) => ResultSource::Text(text),
                    None => ResultSource::Text("null"@),
                },
            },
        )
    } else if response.status == "pending"@ {
        SyncOutcome::Pending
    } else if response.status == "error"@ {
        SyncOutcome::Failed(
            match response.error {
                Some(message) => message,
                None => "Unknown error"@,
            },
        )
    } else {
        SyncOutcome::Unknown(response.status)
    }
}

/// Whether `result` is what reading `text` as a script value gives: the value
/// that the text stands for, or a failed conversion where it is not JSON.
pub open spec fn is_read_from(text: Seq<char>, result: Result<ScriptValue, CallError>) -> bool {
    match json_parse(text) {
        Some(tree) => result matches Ok(value) && value@ == decode(tree) && value.wf(),
        None => result matches Err(CallError::ConversionFailed(_)),
    }
}

/// Reads a result from JSON text.
fn read_result(text: &str) -> (result: Result<ScriptValue, CallError>)
    ensures
        is_read_from(text@, result),
{
    match json_to_rhai_dynamic(text) {
        Ok(value) => Ok(value),
        Err(error) => Err(CallError::ConversionFailed(error.message())),
    }
}

/// Whether `result` is what a synchronous call makes of `response`. A result
/// that is given as a JSON value is written as text and read from that.
pub open spec fn is_sync_result(response: ResponseView, result: Result<ScriptValue, CallError>)
    -> bool {
    match sync_outcome(response) {
        SyncOutcome::Success(ResultSource::Tree(tree)) => is_read_from(json_text(tree), result),
        SyncOutcome::Success(ResultSource::Text(text)) => is_read_from(text, result),
        SyncOutcome::Pending => result matches Err(CallError::AsyncInSyncEval),
        SyncOutcome::Failed(message) => result matches Err(CallError::Callback(text)) && text@
            == message,
        SyncOutcome::Unknown(status) => result matches Err(CallError::UnknownStatus(text)) && text@
            == status,
    }
}

/// The result of a synchronous call, given the host's answer.
///
/// A value is read and returned and an error is passed on. An answer that
/// announces the result for later cannot be waited for here: the call fails
/// at once and the context is marked, so that the evaluation can tell its
/// caller to evaluate in the background instead.
pub fn sync_response_result(context: &mut ExecutionContext, response: &CallbackResponse) -> (result:
    Result<ScriptValue, CallError>)
    ensures
        is_sync_result(response@, result),
        final(context).in_async_eval() == old(context).in_async_eval(),
        final(context).async_invoked() == (old(context).async_invoked() || sync_outcome(
            response@,
        ) is Pending),
{
    if same_text(response.status.as_str(), "success") {
        match response.value {
            Some(value) => read_result(value_text(value).as_str()),
            None => match response.value_json {
                Some(text) => read_result(text.as_str()),
                None => read_result("null"),
            },
        }
    } else if same_text(response.status.as_str(), "pending") {
        mark_async_invoked(context);
        Err(CallError::AsyncInSyncEval)
    } else if same_text(response.status.as_str(), "error") {
        match response.error {
            Some(message) => Err(CallError::Callback(message.clone())),
            None => Err(CallError::Callback("Unknown error".to_owned())),
        }
    } else {
        Err(CallError::UnknownStatus(response.status.clone()))
    }
}

/// What is said of an answer that is JSON and no response.
pub const NOT_A_RESPONSE_TEXT: &'static str = "not a callback response";

/// Whether `result` is what a synchronous call makes of the text that the
/// host function returned, where `None` stands for no text at all.
pub open spec fn is_sync_call_result(
    result_json: Option<Seq<char>>,
    result: Result<ScriptValue, CallError>,
) -> bool {
    match result_json {
        None => result matches Err(CallError::NullResult),
        Some(text) => match json_parse(text) {
            None => result matches Err(CallError::MalformedResponse(_)),
            Some(tree) => match response_of(tree) {
                None => result matches Err(CallError::MalformedResponse(detail)) && detail@
                    == NOT_A_RESPONSE_TEXT@,
                Some(response) => is_sync_result(response, result),
            },
        },
    }
}

/// Whether the text that a host function returned announces a result for
/// later.
pub open spec fn announces_later(result_json: Option<Seq<char>>) -> bool {
    result_json matches Some(text) && json_parse(text) matches Some(tree) && response_of(tree)
        matches Some(response) && sync_outcome(response) is Pending
}

/// The result of a call on the caller's own thread, once the host function
/// has returned `result_json` (`None`: it returned nothing).
pub fn invoke_dart_callback_sync(context: &mut ExecutionContext, result_json: Option<&str>) -> (result:
    Result<ScriptValue, CallError>)
    ensures
        is_sync_call_result(
            match result_json {
                Some(text) => Some(text@),
                None => None,
            },
            result,
        ),
        final(context).in_async_eval() == old(context).in_async_eval(),
        final(context).async_invoked() == (old(context).async_invoked() || announces_later(
            match result_json {
                Some(text) => Some(text@),
                None => None,
            },
        )),
{
    let text = match result_json {
        Some(text) => text,
        None => {
            return Err(CallError::NullResult);
        },
    };
    let root = match parse_json(text) {
        Ok(root) => root,
        Err(detail) => {
            return Err(CallError::MalformedResponse(detail));
        },
    };
    match read_callback_response(&root) {
        Some(response) => sync_response_result(context, &response),
        None => Err(CallError::MalformedResponse(NOT_A_RESPONSE_TEXT.to_owned())),
    }
}


/// What an answer means to a call that may wait.
pub enum AsyncOutcome {
    /// The function returned a result.
    Success(ResultSource),
    /// The result comes later, under this id; `None` where the answer names
    /// no id.
    Pending(Option<i64>),
    /// The function failed with this message.
    Failed(Seq<char>),
    /// The status is none of the three.
    Unknown(Seq<char>),
}

/// What an answer means to a call that may wait. The result is taken from
/// `value_json`, else from `value`, else it is `null`.
pub open spec fn async_outcome(response: ResponseView) -> AsyncOutcome {
    if response.status == "success"@ {
        AsyncOutcome::Success(
            match response.value_json {
                Some(text) => ResultSource::Text(text),
                None => match response.value {
                    Some(tree) => ResultSource::Tree(tree),
                    None => ResultSource::Text("null"@),
                },
            },
        )
    } else if response.status == "pending"@ {
        AsyncOutcome::Pending(response.future_id)
    } else if response.status == "error"@ {
        AsyncOutcome::Failed(
            match response.error {
                Some(message) => message,
                None => "Unknown error from Dart callback"@,
            },
        )
    } else {
        AsyncOutcome::Unknown(response.status)
    }
}

/// How a call that may wait goes on once the host function has answered.
pub enum AsyncCall {
    /// The call is over, with this result as JSON text or this error.
    Done(Result<String, CallError>),
    /// The result comes later. A completion channel is registered under
    /// `future_id`; the caller waits on `receiver` for as long as the binding
    /// allows and reports to [`finish_pending_wait`].
    Waiting { future_id: i64, receiver: Receiver<String> },
}

/// Whether `call` is what a call that may wait makes of `response`, where
/// the registry holds `ids`. A pending answer must name an id that the
/// registry accepts; one that was used before is refused.
pub open spec fn is_async_step(ids: OperationIds, response: ResponseView, call: AsyncCall) -> bool {
    match async_outcome(response) {
        AsyncOutcome::Success(ResultSource::Text(text)) => call matches AsyncCall::Done(Ok(same))
            && same@ == text,
        AsyncOutcome::Success(ResultSource::Tree(tree)) => call matches AsyncCall::Done(Ok(text))
            && text@ == json_text(tree),
        AsyncOutcome::Pending(None) => call matches AsyncCall::Done(
            Err(CallError::MissingFutureId),
        ),
        AsyncOutcome::Pending(Some(id)) => if ids.accepts(id) {
            call matches AsyncCall::Waiting { future_id, receiver } && future_id == id
        } else {
            call matches AsyncCall::Done(Err(CallError::StaleFutureId(stale))) && stale == id
        },
        AsyncOutcome::Failed(message) => call matches AsyncCall::Done(Err(CallError::Host(text)))
            && text@ == message,
        AsyncOutcome::Unknown(status) => call matches AsyncCall::Done(
            Err(CallError::InvalidStatus(text)),
        ) && text@ == status,
    }
}

/// The ids once a call that may wait has seen `response`: a pending answer
/// that names an id that the registry accepts registers it.
pub open spec fn ids_after_response(ids: OperationIds, response: ResponseView) -> OperationIds {
    match async_outcome(response) {
        AsyncOutcome::Pending(Some(id)) => if ids.accepts(id) {
            ids.registered(id)
        } else {
            ids
        },
        _ => ids,
    }
}

/// The next step of a call that may wait, given the host's answer.
///
/// A value or an error ends the call. A pending answer marks the context and
/// registers a completion channel under the id that the host named; an
/// answer that names none, or one that was used before, is an error.
pub fn async_response_step(
    context: &mut ExecutionContext,
    futures: &mut PendingFutures,
    response: &CallbackResponse,
) -> (call: AsyncCall)
    requires
        old(futures).wf(),
    ensures
        final(futures).wf(),
        is_async_step(old(futures).ids(), response@, call),
        final(futures).ids() == ids_after_response(old(futures).ids(), response@),
        final(context).in_async_eval() == old(context).in_async_eval(),
        final(context).async_invoked() == (old(context).async_invoked() || async_outcome(
            response@,
        ) is Pending),
{
    if same_text(response.status.as_str(), "success") {
        match response.value_json {
            Some(text) => AsyncCall::Done(Ok(text.clone())),
            None => match response.value {
                Some(value) => AsyncCall::Done(Ok(value_text(value))),
                None => AsyncCall::Done(Ok("null".to_owned())),
            },
        }
    } else if same_text(response.status.as_str(), "pending") {
        mark_async_invoked(context);
        match response.future_id {
            Some(future_id) => match futures.register(future_id) {
                Some(receiver) => AsyncCall::Waiting { future_id, receiver },
                None => AsyncCall::Done(Err(CallError::StaleFutureId(future_id))),
            },
            None => AsyncCall::Done(Err(CallError::MissingFutureId)),
        }
    } else if same_text(response.status.as_str(), "error") {
        match response.error {
            Some(message) => AsyncCall::Done(Err(CallError::Host(message.clone()))),
            None => AsyncCall::Done(
                Err(CallError::Host("Unknown error from Dart callback".to_owned())),
            ),
        }
    } else {
        AsyncCall::Done(Err(CallError::InvalidStatus(response.status.clone())))
    }
}

/// The response that the text of a host function's answer stands for.
pub open spec fn response_in(result_json: Option<Seq<char>>) -> Option<ResponseView> {
    match result_json {
        Some(text) => match json_parse(text) {
            Some(tree) => response_of(tree),
            None => None,
        },
        None => None,
    }
}

/// The next step of a call that may wait, once the host function has
/// returned `result_json` (`None`: it returned nothing).
///
/// Text that is no response ends the call with an error and changes
/// nothing. Any response is handled as [`async_response_step`] says.
pub fn invoke_dart_callback_async(
    context: &mut ExecutionContext,
    futures: &mut PendingFutures,
    result_json: Option<&str>,
) -> (call: AsyncCall)
    requires
        old(futures).wf(),
    ensures
        final(futures).wf(),
        match response_in(
            match result_json {
                Some(text) => Some(text@),
                None => None,
            },
        ) {
            Some(response) => {
                &&& is_async_step(old(futures).ids(), response, call)
                &&& final(futures).ids() == ids_after_response(old(futures).ids(), response)
                &&& final(context).async_invoked() == (old(context).async_invoked()
                    || async_outcome(response) is Pending)
            },
            None => {
                &&& (result_json is None ==> (call matches AsyncCall::Done(
                    Err(CallError::NullResult),
                )))
                &&& (result_json is Some ==> (call matches AsyncCall::Done(
                    Err(CallError::MalformedResponse(detail)),
                ) && (json_parse(result_json->Some_0@) is Some ==> detail@
                    == NOT_A_RESPONSE_TEXT@)))
                &&& final(futures).ids() == old(futures).ids()
                &&& final(context).async_invoked() == old(context).async_invoked()
            },
        },
        final(context).in_async_eval() == old(context).in_async_eval(),
{
    let text = match result_json {
        Some(text) => text,
        None => {
            return AsyncCall::Done(Err(CallError::NullResult));
        },
    };
    let root = match parse_json(text) {
        Ok(root) => root,
        Err(detail) => {
            return AsyncCall::Done(Err(CallError::MalformedResponse(detail)));
        },
    };
    match read_callback_response(&root) {
        Some(response) => async_response_step(context, futures, &response),
        None => AsyncCall::Done(Err(CallError::MalformedResponse(NOT_A_RESPONSE_TEXT.to_owned()))),
    }
}

/// The texts of a list, with `separator` between each two.
pub open spec fn joined(texts: Seq<Seq<char>>, separator: Seq<char>) -> Seq<char>
    decreases texts.len(),
{
    if texts.len() == 0 {
        Seq::empty()
    } else if texts.len() == 1 {
        texts[0]
    } else {
        joined(texts.drop_last(), separator) + separator + texts.last()
    }
}

/// The JSON text of each argument.
pub open spec fn argument_texts(args: Seq<ScriptValue>) -> Seq<Seq<char>> {
    Seq::new(args.len(), |i: int| json_text(encode(args[i]@)))
}

/// The JSON array that carries the arguments of a call.
pub open spec fn arguments_text(args: Seq<ScriptValue>) -> Seq<char> {
    "["@ + joined(argument_texts(args), ","@) + "]"@
}

/// Writes the arguments of a call as the text of a JSON array. Each argument
/// is written by itself, and the texts are joined by commas.
///
/// This succeeds exactly where every argument has a wire form, and the text
/// is then as [`arguments_text`] says. The error is that of the first argument
/// that has none.
pub fn convert_args_to_json(args: &Vec<ScriptValue>) -> (written: Result<String, ValueError>)
    requires
        forall|i: int| 0 <= i < args@.len() ==> (#[trigger] args@[i]).wf(),
    ensures
        written is Ok <==> all_supported(args@),
        written matches Ok(text) ==> text@ == arguments_text(args@),
        written matches Err(error) ==> is_arguments_error(args@, error),
{
    let mut text = "[".to_owned();
    let mut index: usize = 0;
    while index < args.len()
        invariant
            index <= args.len(),
            forall|i: int| 0 <= i < args@.len() ==> (#[trigger] args@[i]).wf(),
            forall|i: int| 0 <= i < index ==> supported(#[trigger] args@[i]@),
            text@ == "["@ + joined(argument_texts(args@).take(index as int), ","@),
        decreases args.len() - index,
    {
        let item = match rhai_dynamic_to_json(&args[index]) {
            Ok(item) => item,
            Err(error) => {
                assert(!supported(args@[index as int]@));
                return Err(error);
            },
        };
        let ghost before = text@;
        if index > 0 {
            text.append(",");
        }
        text.append(item.as_str());
        proof {
            let texts = argument_texts(args@);
            let shorter = texts.take(index as int);
            let longer = texts.take(index as int + 1);
            assert(longer.drop_last() =~= shorter);
            assert(longer.last() == item@);
            if index == 0 {
                assert(joined(shorter, ","@) =~= Seq::<char>::empty());
                assert(text@ =~= "["@ + joined(longer, ","@));
            } else {
                assert(text@ =~= "["@ + joined(longer, ","@));
            }
        }
        index += 1;
    }
    proof {
        assert(argument_texts(args@).take(index as int) =~= argument_texts(args@));
    }
    text.append("]");
    Ok(text)
}

/// Whether every argument has a wire form.
pub open spec fn all_supported(args: Seq<ScriptValue>) -> bool {
    forall|i: int| 0 <= i < args.len() ==> supported(#[trigger] args[i]@)
}

/// Whether `error` is why the arguments of a call are not written: it names
/// the type of a value without a wire form in the first argument that holds
/// one.
pub open spec fn is_arguments_error(args: Seq<ScriptValue>, error: ValueError) -> bool {
    error matches ValueError::UnsupportedType(kind) && exists|i: int|
        0 <= i < args.len() && !supported(#[trigger] args[i]@) && holds_other(args[i]@, kind@)
            && forall|j: int| 0 <= j < i ==> supported(#[trigger] args[j]@)
}

/// The way that a call takes.
#[derive(Debug, Clone, PartialEq, Eq)]
pub enum Route {
    /// On the caller's own thread: invoke the host function under
    /// `callback_id` with `args_json` and report its answer to
    /// [`invoke_dart_callback_sync`].
    Inline { callback_id: i64, args_json: String },
    /// From the thread of a background evaluation: post the call to the
    /// request queue, wait for the delivery and report to
    /// [`queued_call_result`].
    Queued { function_name: String, args_json: String },
}

/// A host function as it is bound to a name.
#[derive(Debug, Clone, PartialEq, Eq)]
pub struct CallbackInfo {
    /// The id by which the host knows the function.
    pub callback_id: i64,
    /// Seconds that a deferred result of this function may take.
    pub async_timeout_seconds: u64,
    /// The name under which scripts call the function.
    pub function_name: String,
}

/// The message of a call whose arguments could not be written.
pub open spec fn arguments_failure(error: ValueError) -> Seq<char> {
    "Failed to convert arg to JSON: "@ + error.spec_message()
}

/// Whether `route` is the way of a call to `info` from `context`, given the
/// attempt to write its arguments: inline on the caller's own thread, queued
/// on the thread of a background evaluation, and a failure where the
/// arguments could not be written.
pub open spec fn is_route(
    context: ExecutionContext,
    info: CallbackInfo,
    written: Result<Seq<char>, ValueError>,
    route: Result<Route, CallError>,
) -> bool {
    match written {
        Ok(text) => if context.in_async_eval() {
            route matches Ok(Route::Queued { function_name, args_json }) && function_name@
                == info.function_name@ && args_json@ == text
        } else {
            route matches Ok(Route::Inline { callback_id, args_json }) && callback_id
                == info.callback_id && args_json@ == text
        },
        Err(error) => route matches Err(CallError::ArgumentsFailed(detail)) && detail@
            == arguments_failure(error),
    }
}

/// Chooses the way of a call, given the attempt to write its arguments.
///
/// On the thread of a background evaluation the call goes through the
/// request queue, because the host may only be entered from its own thread.
/// Anywhere else the host function is invoked in place.
pub fn choose_route(
    context: &ExecutionContext,
    info: &CallbackInfo,
    written: Result<String, ValueError>,
) -> (route: Result<Route, CallError>)
    ensures
        is_route(
            *context,
            *info,
            match written {
                Ok(text) => Ok(text@),
                Err(error) => Err(error),
            },
            route,
        ),
{
    let args_json = match written {
        Ok(text) => text,
        Err(error) => {
            let detail = concat("Failed to convert arg to JSON: ", error.message().as_str());
            return Err(CallError::ArgumentsFailed(detail));
        },
    };
    if is_async_eval_mode(context) {
        Ok(Route::Queued { function_name: info.function_name.clone(), args_json })
    } else {
        Ok(Route::Inline { callback_id: info.callback_id, args_json })
    }
}

/// Chooses the way of a call to the host function `info` with `args`.
///
/// The arguments are written as JSON first. Where each of them has a wire
/// form the call goes the way that [`choose_route`] says; else it fails with
/// the error of the first that has none.
pub fn invoke_dart_callback_vec_async(
    context: &ExecutionContext,
    info: &CallbackInfo,
    args: &Vec<ScriptValue>,
) -> (route: Result<Route, CallError>)
    requires
        forall|i: int| 0 <= i < args@.len() ==> (#[trigger] args@[i]).wf(),
    ensures
        route is Ok <==> all_supported(args@),
        route is Ok ==> is_route(*context, *info, Ok(arguments_text(args@)), route),
        route is Err ==> exists|error: ValueError|
            is_arguments_error(args@, error) && is_route(*context, *info, Err(error), route),
{
    let written = convert_args_to_json(args);
    proof {
        if written is Err {
            assert(is_arguments_error(args@, written->Err_0));
        }
    }
    choose_route(context, info, written)
}

/// The message that a delivered result carries where the host function
/// failed: the text of the field `error` of a JSON object.
pub open spec fn delivered_error(tree: JsonTree) -> Option<Seq<char>> {
    match tree {
        JsonTree::Object(fields) => if fields.contains_key("error"@) {
            match fields["error"@] {
                JsonTree::Text(message) => Some(message),
                _ => None,
            }
        } else {
            None
        },
        _ => None,
    }
}

/// Whether `result` is what a call through the request queue makes of the
/// end of its wait.
pub open spec fn is_queued_result(
    waited: Result<Seq<char>, RequestError>,
    result: Result<ScriptValue, CallError>,
) -> bool {
    match waited {
        Err(error) => result matches Err(CallError::Function(detail)) && detail@
            == error.spec_message(),
        Ok(text) => match json_parse(text) {
            None => result matches Err(CallError::ConversionFailed(_)),
            Some(tree) => match delivered_error(tree) {
                Some(message) => result matches Err(CallError::Function(detail)) && detail@
                    == message,
                None => result matches Ok(value) && value@ == decode(tree) && value.wf(),
            },
        },
    }
}

/// Reads the message of a failed host function out of a delivered result.
fn read_delivered_error(root: &Value) -> (message: Option<String>)
    ensures
        match message {
            Some(text) => delivered_error(json_model(*root)) == Some(text@),
            None => delivered_error(json_model(*root)) is None,
        },
{
    match json_unpack(root) {
        JsonView::Object(fields) => match find_field(&fields, "error") {
            Some(value) => match json_unpack(value) {
                JsonView::Text(message) => Some(message.clone()),
                _ => None,
            },
            None => None,
        },
        _ => None,
    }
}

/// The result of a call that went through the request queue, once its wait
/// has ended.
///
/// A wait that ended without a delivery fails the call. A delivered object
/// with a text field `error` says that the host function failed. Any other
/// delivery is the result.
pub fn queued_call_result(waited: Result<String, RequestError>) -> (result: Result<
    ScriptValue,
    CallError,
>)
    ensures
        is_queued_result(
            match waited {
                Ok(text) => Ok(text@),
                Err(error) => Err(error),
            },
            result,
        ),
{
    match waited {
        Ok(json) => {
            let root = match parse_json(json.as_str()) {
                Ok(root) => root,
                Err(detail) => {
                    let error = ValueError::Parse(detail);
                    return Err(CallError::ConversionFailed(error.message()));
                },
            };
            match read_delivered_error(&root) {
                Some(message) => Err(CallError::Function(message)),
                None => match json_value_to_dynamic(&root) {
                    Ok(value) => Ok(value),
                    Err(error) => Err(CallError::ConversionFailed(error.message())),
                },
            }
        },
        Err(error) => Err(CallError::Function(error.message())),
    }
}

/// What a binding holds.
pub struct BindingView {
    pub callback_id: i64,
    pub async_timeout_seconds: u64,
    pub function_name: Seq<char>,
}

impl View for CallbackInfo {
    type V = BindingView;

    open spec fn view(&self) -> BindingView {
        BindingView {
            callback_id: self.callback_id,
            async_timeout_seconds: self.async_timeout_seconds,
            function_name: self.function_name@,
        }
    }
}

/// Each binding of a list under its name.
pub open spec fn binding_entries(list: Seq<CallbackInfo>) -> Seq<(Seq<char>, BindingView)> {
    list.map_values(|info: CallbackInfo| (info.function_name@, info@))
}

/// The table of host functions: under each name the binding that was
/// registered last.
///
/// The bindings are kept in a list that holds each name once and is searched
/// by name. What a name resolves to is then proved from the names themselves,
/// where a hash map with text for keys would rest on a hash of the text that
/// nothing here specifies.
pub struct CallbackRegistry {
    list: Vec<CallbackInfo>,
}

impl CallbackRegistry {
    /// The binding of each name that has one.
    pub closed spec fn bindings(self) -> Map<Seq<char>, BindingView> {
        entries_map(binding_entries(self.list@))
    }

    /// No name is held twice.
    pub closed spec fn wf(self) -> bool {
        distinct_keys(binding_entries(self.list@))
    }

    /// A table without bindings.
    pub fn new() -> (table: Self)
        ensures
            table.wf(),
            table.bindings() == Map::<Seq<char>, BindingView>::empty(),
    {
        let table = CallbackRegistry { list: Vec::new() };
        assert(binding_entries(table.list@) =~= Seq::empty());
        table
    }

    /// Where `name` stands in the list, if it does.
    fn position(&self, name: &str) -> (found: Option<usize>)
        requires
            self.wf(),
        ensures
            match found {
                Some(index) => index < self.list@.len() && self.list@[index as int].function_name@
                    == name@,
                None => !self.bindings().contains_key(name@),
            },
    {
        let mut index: usize = 0;
        while index < self.list.len()
            invariant
                index <= self.list.len(),
                forall|i: int| 0 <= i < index ==> (#[trigger] self.list@[i]).function_name@ != name@,
            decreases self.list.len() - index,
        {
            if same_text(self.list[index].function_name.as_str(), name) {
                return Some(index);
            }
            index += 1;
        }
        proof {
            lemma_entries_map_keys(binding_entries(self.list@));
            assert forall|i: int| 0 <= i < self.list@.len() implies (#[trigger] binding_entries(
                self.list@,
            )[i]).0 != name@ by {
                assert(self.list@[i].function_name@ != name@);
            }
        }
        None
    }

    /// The binding of `name`, if it has one.
    pub fn get(&self, name: &str) -> (found: Option<&CallbackInfo>)
        requires
            self.wf(),
        ensures
            match found {
                Some(info) => self.bindings().contains_key(name@) && self.bindings()[name@]
                    == info@,
                None => !self.bindings().contains_key(name@),
            },
    {
        match self.position(name) {
            Some(index) => {
                proof {
                    lemma_entries_map_lookup(binding_entries(self.list@), index as int);
                }
                Some(&self.list[index])
            },
            None => None,
        }
    }

    /// Binds the name of `info` to it, in place of what the name was bound
    /// to before.
    pub fn insert(&mut self, info: CallbackInfo)
        requires
            old(self).wf(),
        ensures
            final(self).wf(),
            final(self).bindings() == old(self).bindings().insert(info.function_name@, info@),
    {
        let ghost before = binding_entries(self.list@);
        match self.position(info.function_name.as_str()) {
            Some(index) => {
                proof {
                    lemma_entries_map_update(before, index as int, info@);
                }
                self.list.set(index, info);
                assert(binding_entries(self.list@) =~= before.update(
                    index as int,
                    (before[index as int].0, info@),
                ));
            },
            None => {
                proof {
                    lemma_entries_map_push(before, (info.function_name@, info@));
                    lemma_entries_map_keys(before);
                }
                self.list.push(info);
                assert(binding_entries(self.list@) =~= before.push((info.function_name@, info@)));
                assert forall|i: int, j: int|
                    0 <= i < j < binding_entries(self.list@).len() implies (
                #[trigger] binding_entries(self.list@)[i]).0 != (#[trigger] binding_entries(
                    self.list@,
                )[j]).0 by {
                    if j == before.len() {
                        assert(before[i].0 != info.function_name@);
                    } else {
                        assert(before[i].0 != before[j].0);
                    }
                }
            },
        }
    }
}

/// What the host is told where a registration names no function.
pub const NO_FUNCTION_NAME_MESSAGE: &'static str = "Function name pointer is null";

/// Why a registration is refused, if it is: the engine is looked at first.
pub open spec fn registration_refusal(has_engine: bool, has_name: bool) -> Option<Seq<char>> {
    if !has_engine {
        Some(NO_ENGINE_MESSAGE@)
    } else if !has_name {
        Some(NO_FUNCTION_NAME_MESSAGE@)
    } else {
        None
    }
}

/// Registers a host function under a name, and answers 0, or -1 where the
/// registration is refused.
///
/// The binding takes the time for deferred results from the engine that it
/// is registered with. A name that was bound before is bound anew.
pub fn rhai_register_function(
    table: &mut CallbackRegistry,
    last_error: &mut LastError,
    engine: Option<&CRhaiEngine>,
    name: Option<&str>,
    callback_id: i64,
) -> (status: i32)
    requires
        old(table).wf(),
    ensures
        final(table).wf(),
        final(last_error)@ == registration_refusal(engine is Some, name is Some),
        match (engine, name) {
            (Some(wrapper), Some(text)) => status == 0 && final(table).bindings() == old(
                table,
            ).bindings().insert(
                text@,
                (BindingView {
                    callback_id,
                    async_timeout_seconds: wrapper.spec_async_timeout_seconds(),
                    function_name: text@,
                }),
            ),
            _ => status == -1 && final(table).bindings() == old(table).bindings(),
        },
{
    clear_last_error(last_error);
    let wrapper = match engine {
        Some(wrapper) => wrapper,
        None => {
            set_last_error(last_error, NO_ENGINE_MESSAGE);
            return -1;
        },
    };
    let text = match name {
        Some(text) => text,
        None => {
            set_last_error(last_error, NO_FUNCTION_NAME_MESSAGE);
            return -1;
        },
    };
    let info = CallbackInfo {
        callback_id,
        async_timeout_seconds: wrapper.async_timeout_seconds(),
        function_name: text.to_owned(),
    };
    table.insert(info);
    0
}

/// A name resolves to the binding that was registered last, and registering
/// a name leaves every other name as it was.
pub proof fn law_registration_overwrites(
    bindings: Map<Seq<char>, BindingView>,
    first: BindingView,
    second: BindingView,
    other: Seq<char>,
)
    requires
        first.function_name == second.function_name,
        other != first.function_name,
    ensures
        bindings.insert(first.function_name, first).insert(
            second.function_name,
            second,
        )[second.function_name] == second,
        bindings.insert(first.function_name, first).insert(
            second.function_name,
            second,
        ).contains_key(other) == bindings.contains_key(other),
        bindings.contains_key(other) ==> bindings.insert(first.function_name, first).insert(
            second.function_name,
            second,
        )[other] == bindings[other],
{
}

/// What an answer in the older format means.
pub enum VerdictOutcome {
    /// The function returned a result, which is found here.
    Value(ResultSource),
    /// The function returned no result.
    Unit,
    /// The function failed with this message.
    Failed(Seq<char>),
    /// The answer has no verdict.
    Invalid,
}

/// What an answer in the older format means. Such an answer is an object
/// whose field `success` holds a boolean. After a success the result is the
/// text of `value_json` where that is a string, else the field `value`
/// where it is there, else nothing. After a failure the message is the text
/// of `error`.
pub open spec fn verdict_outcome(tree: JsonTree) -> VerdictOutcome {
    match tree {
        JsonTree::Object(fields) => if fields.contains_key("success"@) && fields["success"@]
            is Bool {
            if fields["success"@]->Bool_0 {
                if fields.contains_key("value_json"@) && fields["value_json"@] is Text {
                    VerdictOutcome::Value(ResultSource::Text(fields["value_json"@]->Text_0))
                } else if fields.contains_key("value"@) {
                    VerdictOutcome::Value(ResultSource::Tree(fields["value"@]))
                } else {
                    VerdictOutcome::Unit
                }
            } else {
                VerdictOutcome::Failed(
                    if fields.contains_key("error"@) && fields["error"@] is Text {
                        fields["error"@]->Text_0
                    } else {
                        "Unknown error from Dart callback"@
                    },
                )
            }
        } else {
            VerdictOutcome::Invalid
        },
        _ => VerdictOutcome::Invalid,
    }
}

/// Whether `result` is what a call makes of an answer in the older format.
pub open spec fn is_verdict_result(outcome: VerdictOutcome, result: Result<ScriptValue, CallError>)
    -> bool {
    match outcome {
        VerdictOutcome::Value(ResultSource::Tree(tree)) => is_read_from(json_text(tree), result),
        VerdictOutcome::Value(ResultSource::Text(text)) => is_read_from(text, result),
        VerdictOutcome::Unit => result matches Ok(value) && value@ == ScriptTree::Unit,
        VerdictOutcome::Failed(message) => result matches Err(CallError::Host(text)) && text@
            == message,
        VerdictOutcome::Invalid => result matches Err(CallError::InvalidResultFormat),
    }
}

/// Whether `result` is what a call makes of the text that the host function
/// returned in the older format, where `None` stands for no text at all.
pub open spec fn is_verdict_call_result(
    result_json: Option<Seq<char>>,
    result: Result<ScriptValue, CallError>,
) -> bool {
    match result_json {
        None => result matches Err(CallError::NullResult),
        Some(text) => match json_parse(text) {
            None => result matches Err(CallError::MalformedResult(_)),
            Some(tree) => is_verdict_result(verdict_outcome(tree), result),
        },
    }
}

/// Reads a field that holds text.
fn read_text_field<'a>(fields: &Vec<(&'a String, &'a Value)>, name: &str) -> (found: Option<
    &'a String,
>)
    requires
        distinct_keys(field_trees(fields@)),
    ensures
        match found {
            Some(text) => {
                &&& entries_map(field_trees(fields@)).contains_key(name@)
                &&& entries_map(field_trees(fields@))[name@] == JsonTree::Text(text@)
            },
            None => !(entries_map(field_trees(fields@)).contains_key(name@) && entries_map(
                field_trees(fields@),
            )[name@] is Text),
        },
{
    match find_field(fields, name) {
        Some(value) => match json_unpack(value) {
            JsonView::Text(text) => Some(text),
            _ => None,
        },
        None => None,
    }
}

/// The result of a call whose host function answers in the older format,
/// once it has returned `result_json` (`None`: it returned nothing).
///
/// The older format knows no deferred results: an answer is a success with
/// or without a value, or a failure with its message.
pub fn invoke_dart_callback_vec(result_json: Option<&str>) -> (result: Result<
    ScriptValue,
    CallError,
>)
    ensures
        is_verdict_call_result(
            match result_json {
                Some(text) => Some(text@),
                None => None,
            },
            result,
        ),
{
    let text = match result_json {
        Some(text) => text,
        None => {
            return Err(CallError::NullResult);
        },
    };
    let root = match parse_json(text) {
        Ok(root) => root,
        Err(detail) => {
            return Err(CallError::MalformedResult(detail));
        },
    };
    let fields = match json_unpack(&root) {
        JsonView::Object(fields) => fields,
        _ => {
            return Err(CallError::InvalidResultFormat);
        },
    };
    let success = match find_field(&fields, "success") {
        Some(value) => match json_unpack(value) {
            JsonView::Bool(flag) => flag,
            _ => {
                return Err(CallError::InvalidResultFormat);
            },
        },
        None => {
            return Err(CallError::InvalidResultFormat);
        },
    };
    if !success {
        return match read_text_field(&fields, "error") {
            Some(message) => Err(CallError::Host(message.clone())),
            None => Err(CallError::Host("Unknown error from Dart callback".to_owned())),
        };
    }
    match read_text_field(&fields, "value_json") {
        Some(value_json) => read_result(value_json.as_str()),
        None => match find_field(&fields, "value") {
            Some(value) => read_result(value_text(value).as_str()),
            None => Ok(ScriptValue::Unit),
        },
    }
}

} // verus!
