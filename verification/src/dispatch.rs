//! Serialised hand-off of concurrent queries into the one script engine.
//!
//! The engine runs one invocation at a time. The dispatcher decides, from
//! its state and each event, which query enters the engine next and whose
//! answer goes out; the caller performs the invocation and reports back.

use vstd::prelude::*;

verus! {

/// What the engine is doing.
#[derive(Debug, Clone, Copy, PartialEq, Eq)]
pub enum Slot {
    /// No invocation is in progress.
    Idle,
    /// The query runs and its client waits for the answer.
    Serving(u64),
    /// The query runs to completion for a client that has gone away.
    Draining(u64),
}

/// What the caller does once an invocation has ended.
#[derive(Debug, Clone, Copy, PartialEq, Eq)]
pub struct Completion {
    /// The query whose answer is sent back, if its client still waits.
    pub reply_to: Option<u64>,
    /// The query that enters the engine now, if one was waiting.
    pub next: Option<u64>,
}

/// The mathematical state of a [`Dispatcher`]: the engine's slot and the
/// waiting queries, oldest first.
pub struct DispatcherView {
    pub slot: Slot,
    pub waiting: Seq<u64>,
}

impl DispatcherView {
    /// The queries inside the engine: none or one.
    pub open spec fn in_engine(self) -> Set<u64> {
        match self.slot {
            Slot::Idle => Set::empty(),
            Slot::Serving(query) => set![query],
            Slot::Draining(query) => set![query],
        }
    }

    /// Whether a query that arrives now enters the engine at once.
    pub open spec fn admits(self) -> bool {
        self.slot is Idle
    }

    /// The state after `query` has arrived: it takes the idle slot or joins
    /// the end of the queue.
    pub open spec fn submitted(self, query: u64) -> DispatcherView {
        if self.slot is Idle {
            DispatcherView { slot: Slot::Serving(query), waiting: self.waiting }
        } else {
            DispatcherView { slot: self.slot, waiting: self.waiting.push(query) }
        }
    }

    /// The query whose answer goes out when the invocation in progress
    /// ends.
    pub open spec fn reply_due(self) -> Option<u64> {
        match self.slot {
            Slot::Serving(query) => Some(query),
            _ => None,
        }
    }

    /// The query that takes the slot when the invocation in progress ends.
    pub open spec fn successor(self) -> Option<u64> {
        if self.waiting.len() > 0 {
            Some(self.waiting[0])
        } else {
            None
        }
    }

    /// The state after the invocation in progress has ended: the oldest
    /// waiting query takes the slot, or the slot falls idle.
    pub open spec fn completed(self) -> DispatcherView {
        if self.waiting.len() > 0 {
            DispatcherView { slot: Slot::Serving(self.waiting[0]), waiting: self.waiting.skip(1) }
        } else {
            DispatcherView { slot: Slot::Idle, waiting: self.waiting }
        }
    }

    /// The state after `n` invocations in a row have ended.
    pub open spec fn drained(self, n: nat) -> DispatcherView
        decreases n,
    {
        if n == 0 {
            self
        } else {
            self.completed().drained((n - 1) as nat)
        }
    }

    /// The state after the client of `query` has gone away. A running
    /// invocation keeps the slot until it ends; a waiting query leaves the
    /// queue.
    pub open spec fn disconnected(self, query: u64) -> DispatcherView {
        if self.slot == Slot::Serving(query) {
            DispatcherView { slot: Slot::Draining(query), waiting: self.waiting }
        } else {
            DispatcherView { slot: self.slot, waiting: without(self.waiting, query) }
        }
    }
}

/// The place of the first `query` in `queue`, or the queue's length where
/// it does not occur.
pub open spec fn position(queue: Seq<u64>, query: u64) -> int
    decreases queue.len(),
{
    if queue.len() == 0 {
        0
    } else if queue[0] == query {
        0
    } else {
        1 + position(queue.skip(1), query)
    }
}

/// The queue without the first occurrence of `query`.
pub open spec fn without(queue: Seq<u64>, query: u64) -> Seq<u64> {
    if position(queue, query) < queue.len() {
        queue.remove(position(queue, query))
    } else {
        queue
    }
}

/// `query` does not occur among the first `n` of `queue`.
pub open spec fn absent_before(queue: Seq<u64>, n: int, query: u64) -> bool {
    forall|k: int| 0 <= k < n ==> #[trigger] queue[k] != query
}

/// Where `query` does not occur before place `n`, its position is `n` if
/// it stands there, and is the length if `n` is the length.
pub proof fn position_found(queue: Seq<u64>, n: int, query: u64)
    requires
        0 <= n <= queue.len(),
        absent_before(queue, n, query),
        n < queue.len() ==> queue[n] == query,
    ensures
        position(queue, query) == n,
    decreases n,
{
    if n > 0 {
        assert(queue[0] != query);
        let rest = queue.skip(1);
        assert forall|k: int| 0 <= k < n - 1 implies #[trigger] rest[k] != query by {
            assert(rest[k] == queue[k + 1]);
        }
        position_found(rest, n - 1, query);
    }
}

/// The serialisation boundary in front of the script engine.
pub struct Dispatcher {
    slot: Slot,
    waiting: Vec<u64>,
}

impl View for Dispatcher {
    type V = DispatcherView;

    closed spec fn view(&self) -> DispatcherView {
        DispatcherView { slot: self.slot, waiting: self.waiting@ }
    }
}

impl Dispatcher {
    /// A dispatcher with an idle engine and nobody waiting.
    pub fn new() -> (dispatcher: Dispatcher)
        ensures
            dispatcher@.slot == Slot::Idle,
            dispatcher@.waiting == Seq::<u64>::empty(),
    {
        Dispatcher { slot: Slot::Idle, waiting: Vec::new() }
    }

    /// What the engine is doing.
    pub fn slot(&self) -> (slot: Slot)
        ensures
            slot == self@.slot,
    {
        self.slot
    }

    /// How many queries wait for the engine.
    pub fn backlog(&self) -> (n: usize)
        ensures
            n == self@.waiting.len(),
    {
        self.waiting.len()
    }

    /// Takes in a query. Returns `true` where the caller invokes the engine
    /// with it now, which is exactly where the engine was idle; otherwise
    /// the query waits its turn.
    pub fn submit(&mut self, query: u64) -> (start: bool)
        ensures
            start == old(self)@.admits(),
            final(self)@ == old(self)@.submitted(query),
    {
        match self.slot {
            Slot::Idle => {
                self.slot = Slot::Serving(query);
                true
            },
            _ => {
                self.waiting.push(query);
                false
            },
        }
    }

    /// Records that the invocation in progress has ended. Says whose answer
    /// to send, and which query the caller invokes the engine with next.
    pub fn complete(&mut self) -> (done: Completion)
        ensures
            done.reply_to == old(self)@.reply_due(),
            done.next == old(self)@.successor(),
            final(self)@ == old(self)@.completed(),
    {
        let reply_to = match self.slot {
            Slot::Serving(query) => Some(query),
            _ => None,
        };
        if self.waiting.len() > 0 {
            let query = self.waiting.remove(0);
            proof {
                assert(self.waiting@ =~= old(self).waiting@.skip(1));
            }
            self.slot = Slot::Serving(query);
            Completion { reply_to, next: Some(query) }
        } else {
            self.slot = Slot::Idle;
            Completion { reply_to, next: None }
        }
    }

    /// Records that the client of `query` has gone away. The engine is not
    /// interrupted: a running invocation ends in its own time and its
    /// answer is dropped.
    pub fn disconnect(&mut self, query: u64)
        ensures
            final(self)@ == old(self)@.disconnected(query),
    {
        let serving = match self.slot {
            Slot::Serving(current) => current == query,
            _ => false,
        };
        if serving {
            self.slot = Slot::Draining(query);
            return ;
        }
        let mut i: usize = 0;
        while i < self.waiting.len()
            invariant
                i <= self.waiting.len(),
                self.slot == old(self).slot,
                self.slot != Slot::Serving(query),
                self.waiting@ == old(self).waiting@,
                absent_before(self.waiting@, i as int, query),
            decreases self.waiting.len() - i,
        {
            if self.waiting[i] == query {
                proof {
                    position_found(self.waiting@, i as int, query);
                }
                self.waiting.remove(i);
                return ;
            }
            i += 1;
        }
        proof {
            position_found(self.waiting@, i as int, query);
        }
    }
}

/// At most one query is inside the engine, in every state.
pub proof fn engine_holds_at_most_one(state: DispatcherView)
    ensures
        state.in_engine().finite(),
        state.in_engine().len() <= 1,
{
}

/// A query enters the engine only when the engine holds none: on arrival
/// only into an idle slot, and after a completion only in place of the
/// invocation that ended.
pub proof fn entry_needs_free_engine(state: DispatcherView, query: u64)
    ensures
        state.submitted(query).in_engine() != state.in_engine() ==> state.in_engine()
            == Set::<u64>::empty(),
        state.submitted(query).in_engine().contains(query) || state.submitted(
            query,
        ).waiting.contains(query),
        state.successor() matches Some(next) ==> state.completed().in_engine() == set![next],
        state.successor() is None ==> state.completed().in_engine() == Set::<u64>::empty(),
{
    if state.slot is Idle {
    } else {
        let after = state.submitted(query);
        assert(after.waiting[state.waiting.len() as int] == query);
    }
}

/// Every waiting query gets its turn, first come first served: with the
/// engine busy, the query at place `k` of the queue holds the slot after
/// `k + 1` completions, and its client is the one answered by the
/// completion after that.
pub proof fn waiting_queries_are_served_in_order(state: DispatcherView, k: nat)
    requires
        k < state.waiting.len(),
    ensures
        state.drained(k + 1).slot == Slot::Serving(state.waiting[k as int]),
        state.drained(k + 1).reply_due() == Some(state.waiting[k as int]),
    decreases k,
{
    let after = state.completed();
    if k == 0 {
        assert(after.drained(0) == after);
    } else {
        assert(after.waiting[(k - 1) as int] == state.waiting[k as int]);
        waiting_queries_are_served_in_order(after, (k - 1) as nat);
    }
}

/// Once as many invocations have ended as queries were waiting, and one
/// more, the engine is idle and nobody waits.
pub proof fn backlog_drains(state: DispatcherView)
    ensures
        state.drained(state.waiting.len() + 1).slot == Slot::Idle,
        state.drained(state.waiting.len() + 1).waiting.len() == 0,
    decreases state.waiting.len(),
{
    let after = state.completed();
    if state.waiting.len() == 0 {
        assert(after.drained(0) == after);
    } else {
        backlog_drains(after);
    }
}

/// A client that goes away while its query runs changes nothing for the
/// others: the invocation keeps the slot, no answer is due for it, and the
/// state after it ends is the one that would have followed anyway.
pub proof fn disconnect_mid_invocation_is_harmless(state: DispatcherView, query: u64)
    requires
        state.slot == Slot::Serving(query),
    ensures
        state.disconnected(query).in_engine() == state.in_engine(),
        state.disconnected(query).waiting == state.waiting,
        state.disconnected(query).reply_due() is None,
        state.disconnected(query).successor() == state.successor(),
        state.disconnected(query).completed() == state.completed(),
{
}

/// A client that goes away while its query waits gives up its place and
/// never takes the slot; the invocation in progress is not touched.
pub proof fn disconnect_while_waiting_frees_place(state: DispatcherView, query: u64)
    requires
        state.slot != Slot::Serving(query),
        state.waiting.contains(query),
    ensures
        state.disconnected(query).slot == state.slot,
        state.disconnected(query).waiting.len() == state.waiting.len() - 1,
        state.disconnected(query).waiting == state.waiting.remove(
            position(state.waiting, query),
        ),
        0 <= position(state.waiting, query) < state.waiting.len(),
        state.waiting[position(state.waiting, query)] == query,
{
    position_is_first(state.waiting, query);
}

/// The position of a query is within the queue's bounds or its length; it
/// holds the query where it is within bounds, and a queue that contains
/// the query has it within bounds.
pub proof fn position_is_first(queue: Seq<u64>, query: u64)
    ensures
        0 <= position(queue, query) <= queue.len(),
        position(queue, query) < queue.len() ==> queue[position(queue, query)] == query,
        queue.contains(query) ==> position(queue, query) < queue.len(),
        absent_before(queue, position(queue, query), query),
    decreases queue.len(),
{
    if queue.len() > 0 && queue[0] != query {
        let rest = queue.skip(1);
        position_is_first(rest, query);
        let p = position(queue, query);
        assert(p == 1 + position(rest, query));
        if p < queue.len() {
            assert(queue[p] == rest[p - 1]);
        }
        if queue.contains(query) {
            let i = choose|i: int| 0 <= i < queue.len() && queue[i] == query;
            assert(rest[i - 1] == query);
            assert(rest.contains(query));
        }
        assert forall|k: int| 0 <= k < p implies #[trigger] queue[k] != query by {
            if k > 0 {
                assert(queue[k] == rest[k - 1]);
            }
        }
    }
}

} // verus!
