//! The decisions of the consumer task: which request opens the stream, which
//! request answers an ack, and which pull id a received message gets.
//!
//! The task itself waits on the stream and on two channels; what it decides
//! between two waits is here, as steps on a [`ConsumerTask`].

use crate::deadline_map::{Buckets, DeadlineMap};
use crate::message::{PubsubMessage, ReceivedMessage, RequestView, StreamingPullRequest};
use vstd::prelude::*;

verus! {

/// Nanoseconds in a second.
pub const NANOS_PER_SEC: u64 = 1_000_000_000;

/// The stream ack deadline announced where the configured one does not fit.
pub const FALLBACK_ACK_DEADLINE_SECS: i32 = 10;

/// The limit of outstanding messages announced where the queue size does not
/// fit.
pub const FALLBACK_MAX_OUTSTANDING: i64 = 128;

/// The stream ack deadline in whole seconds, or the fallback where that
/// number does not fit the request's field.
pub open spec fn stream_ack_deadline_secs(ack_deadline_ns: u64) -> i32 {
    if ack_deadline_ns / NANOS_PER_SEC <= i32::MAX {
        (ack_deadline_ns / NANOS_PER_SEC) as i32
    } else {
        FALLBACK_ACK_DEADLINE_SECS
    }
}

/// The queue size as a limit of outstanding messages, or the fallback where
/// it does not fit the request's field.
pub open spec fn max_outstanding(queue_size: usize) -> i64 {
    if queue_size <= i64::MAX {
        queue_size as i64
    } else {
        FALLBACK_MAX_OUTSTANDING
    }
}

/// The request that opens a stream: it binds the subscription and announces
/// the limits.
pub open spec fn opening_request_view(
    subscription_id: Seq<char>,
    client_id: Seq<char>,
    ack_deadline_ns: u64,
    queue_size: usize,
) -> RequestView {
    RequestView {
        subscription: subscription_id,
        ack_ids: Seq::empty(),
        modify_deadline_seconds: Seq::empty(),
        modify_deadline_ack_ids: Seq::empty(),
        stream_ack_deadline_seconds: stream_ack_deadline_secs(ack_deadline_ns),
        client_id,
        max_outstanding_messages: max_outstanding(queue_size),
        max_outstanding_bytes: 0,
    }
}

/// The request that acknowledges one token: it names no subscription.
pub open spec fn ack_request_view(client_id: Seq<char>, token: Seq<char>) -> RequestView {
    RequestView {
        subscription: Seq::empty(),
        ack_ids: seq![token],
        modify_deadline_seconds: Seq::empty(),
        modify_deadline_ack_ids: Seq::empty(),
        stream_ack_deadline_seconds: 0,
        client_id,
        max_outstanding_messages: 0,
        max_outstanding_bytes: 0,
    }
}

/// The state of one consumer task: its pull id counter and the tokens of the
/// messages it has handed on.
pub struct ConsumerTask {
    client_id: String,
    subscription_id: String,
    ack_deadline_ns: u64,
    pull_id: u64,
    ack_ids: DeadlineMap,
}

/// What a [`ConsumerTask`] holds.
pub struct TaskView {
    pub client_id: Seq<char>,
    pub subscription_id: Seq<char>,
    pub ack_deadline_ns: u64,
    /// The pull id given out last; 0 before the first.
    pub pull_id: u64,
    pub ack_ids: Buckets,
}

impl TaskView {
    /// The state after a received message at `now`: one that carries a
    /// message takes the next pull id and has its token recorded under it.
    pub open spec fn receive(self, ack_id: Seq<char>, carries_message: bool, now: u64) -> TaskView {
        if carries_message {
            TaskView {
                pull_id: (self.pull_id + 1) as u64,
                ack_ids: self.ack_ids.insert((self.pull_id + 1) as u64, ack_id, now),
                ..self
            }
        } else {
            self
        }
    }

    /// The state after an ack for `pull_id`: its token is gone.
    pub open spec fn acknowledge(self, pull_id: u64) -> TaskView {
        TaskView { ack_ids: self.ack_ids.remove(pull_id), ..self }
    }
}

impl View for ConsumerTask {
    type V = TaskView;

    closed spec fn view(&self) -> TaskView {
        TaskView {
            client_id: self.client_id@,
            subscription_id: self.subscription_id@,
            ack_deadline_ns: self.ack_deadline_ns,
            pull_id: self.pull_id,
            ack_ids: self.ack_ids@,
        }
    }
}

impl ConsumerTask {
    /// A task that has given out no pull id and holds no token; its map's
    /// deadline is the ack deadline and its first bucket opens at `now`.
    pub fn new(client_id: String, subscription_id: String, ack_deadline_ns: u64, now: u64) -> (task:
        ConsumerTask)
        ensures
            task@ == (TaskView {
                client_id: client_id@,
                subscription_id: subscription_id@,
                ack_deadline_ns,
                pull_id: 0,
                ack_ids: Buckets::empty(ack_deadline_ns, now),
            }),
    {
        ConsumerTask {
            client_id,
            subscription_id,
            ack_deadline_ns,
            pull_id: 0,
            ack_ids: DeadlineMap::new(ack_deadline_ns, now),
        }
    }

    /// The pull id given out last.
    pub fn last_pull_id(&self) -> (id: u64)
        ensures
            id == self@.pull_id,
    {
        self.pull_id
    }

    /// The first request of the stream.
    pub fn opening_request(&self, queue_size: usize) -> (request: StreamingPullRequest)
        ensures
            request@ == opening_request_view(
                self@.subscription_id,
                self@.client_id,
                self@.ack_deadline_ns,
                queue_size,
            ),
    {
        let secs: u64 = self.ack_deadline_ns / NANOS_PER_SEC;
        let deadline: i32 = if secs <= 2147483647 {
            secs as i32
        } else {
            FALLBACK_ACK_DEADLINE_SECS
        };
        let outstanding: i64 = if queue_size as u128 <= 9223372036854775807u128 {
            queue_size as i64
        } else {
            FALLBACK_MAX_OUTSTANDING
        };
        let request = StreamingPullRequest {
            subscription: self.subscription_id.clone(),
            ack_ids: Vec::new(),
            modify_deadline_seconds: Vec::new(),
            modify_deadline_ack_ids: Vec::new(),
            stream_ack_deadline_seconds: deadline,
            client_id: self.client_id.clone(),
            max_outstanding_messages: outstanding,
            max_outstanding_bytes: 0,
        };
        assert(request.ack_ids.deep_view() =~= Seq::empty());
        assert(request.modify_deadline_ack_ids.deep_view() =~= Seq::empty());
        request
    }

    /// An ack for `pull_id` has arrived: where its token is still held, the
    /// token leaves the map and the request that acknowledges it comes back;
    /// where it is not, nothing is sent.
    pub fn on_ack(&mut self, pull_id: u64) -> (request: Option<StreamingPullRequest>)
        ensures
            final(self)@ == old(self)@.acknowledge(pull_id),
            match old(self)@.ack_ids.lookup(pull_id) {
                Some(token) => request.is_some() && request.unwrap()@ == ack_request_view(
                    old(self)@.client_id,
                    token,
                ),
                None => request.is_none(),
            },
    {
        match self.ack_ids.remove(&pull_id) {
            Some(token) => {
                let ghost t = token@;
                let mut ack_ids: Vec<String> = Vec::new();
                ack_ids.push(token);
                let request = StreamingPullRequest {
                    subscription: String::new(),
                    ack_ids,
                    modify_deadline_seconds: Vec::new(),
                    modify_deadline_ack_ids: Vec::new(),
                    stream_ack_deadline_seconds: 0,
                    client_id: self.client_id.clone(),
                    max_outstanding_messages: 0,
                    max_outstanding_bytes: 0,
                };
                assert(request.ack_ids.deep_view() =~= seq![t]);
                assert(request.modify_deadline_ack_ids.deep_view() =~= Seq::empty());
                Some(request)
            },
            None => None,
        }
    }

    /// One element of an inbound batch has arrived at `now`: where it
    /// carries a message, the message gets the next pull id, its token is
    /// recorded under that id, and both are handed on; where it carries
    /// none, nothing changes.
    pub fn on_message(&mut self, received: ReceivedMessage, now: u64) -> (delivery: Option<
        (u64, PubsubMessage),
    >)
        requires
            old(self)@.pull_id < u64::MAX,
        ensures
            final(self)@ == old(self)@.receive(received.ack_id@, received.message.is_some(), now),
            match received.message {
                Some(message) => delivery == Some((final(self)@.pull_id, message))
                    && final(self)@.pull_id == old(self)@.pull_id + 1
                    && final(self)@.ack_ids.lookup(final(self)@.pull_id) == Some(received.ack_id@),
                None => delivery.is_none(),
            },
    {
        let ReceivedMessage { ack_id, message } = received;
        match message {
            Some(message) => {
                self.pull_id = self.pull_id + 1;
                self.ack_ids.insert(self.pull_id, ack_id, now);
                Some((self.pull_id, message))
            },
            None => None,
        }
    }
}

/// One element of an inbound batch, as a trace records it.
pub struct Arrival {
    pub ack_id: Seq<char>,
    pub carries_message: bool,
    pub at: u64,
}

impl TaskView {
    /// The state after `arrivals`, received in order.
    pub open spec fn receive_all(self, arrivals: Seq<Arrival>) -> TaskView
        decreases arrivals.len(),
    {
        if arrivals.len() == 0 {
            self
        } else {
            self.receive_all(arrivals.drop_last()).receive(
                arrivals.last().ack_id,
                arrivals.last().carries_message,
                arrivals.last().at,
            )
        }
    }

    /// The pull ids handed on while `arrivals` are received, in order.
    pub open spec fn pull_ids(self, arrivals: Seq<Arrival>) -> Seq<u64>
        decreases arrivals.len(),
    {
        if arrivals.len() == 0 {
            Seq::empty()
        } else if arrivals.last().carries_message {
            self.pull_ids(arrivals.drop_last()).push(self.receive_all(arrivals).pull_id)
        } else {
            self.pull_ids(arrivals.drop_last())
        }
    }
}

/// The pull ids that a task hands on are consecutive: the first follows
/// the task's counter, each later one follows the one before, and elements
/// without a message take none. The counter ends at the last id handed on.
pub proof fn lemma_pull_ids_consecutive(task: TaskView, arrivals: Seq<Arrival>)
    requires
        task.pull_id + arrivals.len() <= u64::MAX,
    ensures
        task.pull_ids(arrivals).len() <= arrivals.len(),
        task.receive_all(arrivals).pull_id == task.pull_id + task.pull_ids(arrivals).len(),
        forall|i: int|
            0 <= i < task.pull_ids(arrivals).len() ==> #[trigger] task.pull_ids(arrivals)[i]
                == task.pull_id + 1 + i,
    decreases arrivals.len(),
{
    if arrivals.len() > 0 {
        lemma_pull_ids_consecutive(task, arrivals.drop_last());
    }
}

/// Only the opening request binds a subscription: with a subscription id
/// that is not empty, the opening request names it, and no request that
/// acknowledges a token names any.
pub proof fn lemma_only_opening_binds(
    subscription_id: Seq<char>,
    client_id: Seq<char>,
    ack_deadline_ns: u64,
    queue_size: usize,
    token: Seq<char>,
)
    requires
        subscription_id.len() > 0,
    ensures
        opening_request_view(
            subscription_id,
            client_id,
            ack_deadline_ns,
            queue_size,
        ).subscription.len() > 0,
        opening_request_view(subscription_id, client_id, ack_deadline_ns, queue_size).client_id
            == client_id,
        ack_request_view(client_id, token).subscription.len() == 0,
        ack_request_view(client_id, token).ack_ids == seq![token],
{
}

/// Where the token of a delivered message ends up while later elements
/// arrive less than one deadline after it: in green, or in blue under a
/// green bucket that was opened no earlier than the delivery.
proof fn lemma_token_in_a_bucket(task: TaskView, ack_id: Seq<char>, at: u64, later: Seq<Arrival>)
    requires
        task.pull_id + 1 + later.len() <= u64::MAX,
        forall|i: int|
            0 <= i < later.len() ==> at <= (#[trigger] later[i]).at && later[i].at - at
                < task.ack_ids.deadline,
    ensures
        task.receive(ack_id, true, at).receive_all(later).ack_ids.lookup(
            (task.pull_id + 1) as u64,
        ) == Some(ack_id),
        task.receive(ack_id, true, at).receive_all(later).ack_ids.deadline
            == task.ack_ids.deadline,
        task.receive(ack_id, true, at).receive_all(later).pull_id > task.pull_id,
        task.receive(ack_id, true, at).receive_all(later).pull_id <= task.pull_id + 1
            + later.len(),
        !task.receive(ack_id, true, at).receive_all(later).ack_ids.green.contains_key(
            (task.pull_id + 1) as u64,
        ) ==> at <= task.receive(ack_id, true, at).receive_all(later).ack_ids.green_opened,
    decreases later.len(),
{
    if later.len() > 0 {
        let earlier = later.drop_last();
        assert(later.last() == later[later.len() - 1]);
        assert forall|i: int| 0 <= i < earlier.len() implies at <= (#[trigger] earlier[i]).at
            && earlier[i].at - at < task.ack_ids.deadline by {
            assert(earlier[i] == later[i]);
        }
        lemma_token_in_a_bucket(task, ack_id, at, earlier);
    }
}

/// A delivered message can be acknowledged for one deadline: after the
/// task has handed on a message with `ack_id`, and whatever else arrives
/// less than one deadline later, the map still holds `ack_id` under the
/// message's pull id, so that an ack for it is answered with the request
/// for `ack_id`.
pub proof fn lemma_ack_finds_token(task: TaskView, ack_id: Seq<char>, at: u64, later: Seq<Arrival>)
    requires
        task.pull_id + 1 + later.len() <= u64::MAX,
        forall|i: int|
            0 <= i < later.len() ==> at <= (#[trigger] later[i]).at && later[i].at - at
                < task.ack_ids.deadline,
    ensures
        task.receive(ack_id, true, at).receive_all(later).ack_ids.lookup(
            (task.pull_id + 1) as u64,
        ) == Some(ack_id),
{
    lemma_token_in_a_bucket(task, ack_id, at, later);
}

/// What can happen to a task between two waits.
pub enum TaskEvent {
    /// An element of an inbound batch has arrived.
    Arrived(Arrival),
    /// The pipeline has acknowledged this pull id.
    Acked(u64),
}

impl TaskView {
    /// Every key of the map is a pull id that was given out, and no key
    /// is in both buckets.
    pub open spec fn wf(self) -> bool {
        &&& forall|k: u64|
            self.ack_ids.green.contains_key(k) || self.ack_ids.blue.contains_key(k) ==> 1 <= k
                <= self.pull_id
        &&& forall|k: u64|
            !(self.ack_ids.green.contains_key(k) && self.ack_ids.blue.contains_key(k))
    }

    /// The state after one event.
    pub open spec fn step(self, event: TaskEvent) -> TaskView {
        match event {
            TaskEvent::Arrived(a) => self.receive(a.ack_id, a.carries_message, a.at),
            TaskEvent::Acked(pull_id) => self.acknowledge(pull_id),
        }
    }

    /// The state after `events`, in order.
    pub open spec fn run(self, events: Seq<TaskEvent>) -> TaskView
        decreases events.len(),
    {
        if events.len() == 0 {
            self
        } else {
            self.run(events.drop_last()).step(events.last())
        }
    }
}

/// A task that has just been made is well formed.
pub proof fn lemma_new_task_is_well_formed(
    client_id: Seq<char>,
    subscription_id: Seq<char>,
    ack_deadline_ns: u64,
    now: u64,
)
    ensures
        (TaskView {
            client_id,
            subscription_id,
            ack_deadline_ns,
            pull_id: 0,
            ack_ids: Buckets::empty(ack_deadline_ns, now),
        }).wf(),
{
}

/// A pull id is never in both buckets: whatever happens to a well-formed
/// task, short of its counter running out, it stays well formed and its
/// counter does not go back.
pub proof fn lemma_stays_well_formed(task: TaskView, events: Seq<TaskEvent>)
    requires
        task.wf(),
        task.pull_id + events.len() <= u64::MAX,
    ensures
        task.run(events).wf(),
        task.pull_id <= task.run(events).pull_id <= task.pull_id + events.len(),
    decreases events.len(),
{
    if events.len() > 0 {
        lemma_stays_well_formed(task, events.drop_last());
    }
}

/// A token is acknowledged at most once: after an ack for a pull id that
/// was given out, and whatever happens later, short of the counter running
/// out, the map holds nothing under that id, so that another ack for it is
/// answered with no request.
pub proof fn lemma_acknowledged_at_most_once(task: TaskView, pull_id: u64, later: Seq<TaskEvent>)
    requires
        task.wf(),
        pull_id <= task.pull_id,
        task.pull_id + later.len() <= u64::MAX,
    ensures
        task.acknowledge(pull_id).run(later).ack_ids.lookup(pull_id).is_none(),
    decreases later.len(),
{
    if later.len() > 0 {
        lemma_acknowledged_at_most_once(task, pull_id, later.drop_last());
        assert(task.acknowledge(pull_id).wf());
        lemma_stays_well_formed(task.acknowledge(pull_id), later.drop_last());
    }
}

} // verus!
