//! What holds of a session over time: which schema a feed is read under,
//! in which order commands are answered, and how many requests are on the
//! wire.

use crate::connection::{ConnError, RxView};
use crate::interface::MessageView;
use crate::session::{
    initial, queued, step, turned, CommandView, EffectView, StateView,
};
use vstd::prelude::*;

verus! {

/// The state after the messages of `msgs` have been dispatched in order, and
/// the effect of each.
pub open spec fn run<C>(s: StateView<C>, msgs: Seq<RxView>) -> (StateView<C>, Seq<EffectView<C>>)
    decreases msgs.len(),
{
    if msgs.len() == 0 {
        (s, Seq::empty())
    } else {
        let (mid, effects) = run(s, msgs.drop_last());
        let (end, effect) = step(mid, msgs.last());
        (end, effects.push(effect))
    }
}

/// The schema in force after `msgs`: the keys of the last description among
/// them, or `before` if there is none.
pub open spec fn schema_after(before: Option<Seq<Seq<char>>>, msgs: Seq<RxView>) -> Option<
    Seq<Seq<char>>,
>
    decreases msgs.len(),
{
    if msgs.len() == 0 {
        before
    } else {
        match msgs.last().payload {
            MessageView::Description { keys } => Some(keys),
            _ => schema_after(before, msgs.drop_last()),
        }
    }
}

/// The state after the commands of `commands` have been queued in order, and
/// what each queueing sent at once.
pub open spec fn queue_all<C>(s: StateView<C>, commands: Seq<CommandView<C>>) -> (
    StateView<C>,
    Seq<Option<MessageView>>,
)
    decreases commands.len(),
{
    if commands.len() == 0 {
        (s, Seq::empty())
    } else {
        let (mid, sent) = queue_all(s, commands.drop_last());
        let (end, now) = queued(mid, commands.last());
        (end, sent.push(now))
    }
}

/// Every message of a run has its effect.
pub proof fn lemma_run_len<C>(s: StateView<C>, msgs: Seq<RxView>)
    ensures
        run(s, msgs).1.len() == msgs.len(),
    decreases msgs.len(),
{
    if msgs.len() > 0 {
        lemma_run_len(s, msgs.drop_last());
    }
}

/// The effect of the message at `i` of a run is that of one step from the
/// state that the messages before it left.
pub proof fn lemma_run_by_prefix<C>(s: StateView<C>, msgs: Seq<RxView>, i: int)
    requires
        0 <= i < msgs.len(),
    ensures
        run(s, msgs).1[i] == step(run(s, msgs.take(i)).0, msgs[i]).1,
    decreases msgs.len(),
{
    let front = msgs.drop_last();
    lemma_run_len(s, front);
    if i == msgs.len() - 1 {
        assert(msgs.take(i) =~= front);
    } else {
        lemma_run_by_prefix(s, front, i);
        assert(front.take(i) =~= msgs.take(i));
    }
}

/// Dispatch touches the schema only on a description: after any run the
/// schema is that of the last description, and the flag is as it was.
pub proof fn lemma_run_schema<C>(s: StateView<C>, msgs: Seq<RxView>)
    ensures
        run(s, msgs).0.feed_schema == schema_after(s.feed_schema, msgs),
        run(s, msgs).0.running == s.running,
    decreases msgs.len(),
{
    if msgs.len() > 0 {
        lemma_run_schema(s, msgs.drop_last());
    }
}

/// A feed is read under the schema that was current when it was dispatched:
/// the keys of the last description before it, never those of a later one.
/// It reaches the callback exactly when such a schema exists and the sample
/// has one value for each key.
pub proof fn lemma_feed_under_current_schema<C>(s: StateView<C>, msgs: Seq<RxView>, i: int)
    requires
        0 <= i < msgs.len(),
        msgs[i].payload is Feed,
    ensures
        run(s, msgs).1[i] == match schema_after(s.feed_schema, msgs.take(i)) {
            Some(keys) => if keys.len() == msgs[i].payload->values.len() {
                EffectView::<C>::Feed {
                    time: msgs[i].time,
                    keys,
                    values: msgs[i].payload->values,
                }
            } else {
                EffectView::<C>::Nothing
            },
            None => EffectView::<C>::Nothing,
        },
{
    lemma_run_by_prefix(s, msgs, i);
    lemma_run_schema(s, msgs.take(i));
}

/// Until a description has arrived no feed reaches the callback.
pub proof fn lemma_no_feed_before_description<C>(s: StateView<C>, msgs: Seq<RxView>, i: int)
    requires
        s.feed_schema is None,
        forall|k: int| 0 <= k < msgs.len() ==> !((#[trigger] msgs[k]).payload is Description),
        0 <= i < msgs.len(),
    ensures
        !(run(s, msgs).1[i] is Feed),
{
    lemma_run_by_prefix(s, msgs, i);
    lemma_run_schema(s, msgs.take(i));
    lemma_schema_kept(s.feed_schema, msgs.take(i));
}

/// Where no message is a description the schema stays as it was.
pub proof fn lemma_schema_kept(before: Option<Seq<Seq<char>>>, msgs: Seq<RxView>)
    requires
        forall|k: int| 0 <= k < msgs.len() ==> !((#[trigger] msgs[k]).payload is Description),
    ensures
        schema_after(before, msgs) == before,
    decreases msgs.len(),
{
    if msgs.len() > 0 {
        assert(!(msgs[msgs.len() - 1].payload is Description));
        lemma_schema_kept(before, msgs.drop_last());
    }
}

/// Every sample handed to the feed callback has one value for each key of
/// the schema it comes with.
pub proof fn lemma_feed_is_aligned<C>(s: StateView<C>, rx: RxView)
    ensures
        step(s, rx).1 matches EffectView::Feed { keys, values, .. } ==> keys.len() == values.len(),
{
}

/// A response that finds no command waiting is dropped: nothing is
/// completed, nothing is sent, and the state is as before.
pub proof fn lemma_orphan_response<C>(s: StateView<C>, rx: RxView)
    requires
        rx.payload is Response,
        s.pending.len() == 0,
    ensures
        step(s, rx) == (s, EffectView::<C>::Nothing),
{
}

/// Queueing appends: after `commands` the queue is what it was, followed by
/// them. Only a command queued onto an empty queue is sent at once.
pub proof fn lemma_queue_all<C>(s: StateView<C>, commands: Seq<CommandView<C>>)
    ensures
        queue_all(s, commands).0 == (StateView { pending: s.pending + commands, ..s }),
        queue_all(s, commands).1.len() == commands.len(),
        forall|k: int|
            0 <= k < commands.len() ==> #[trigger] queue_all(s, commands).1[k] == if s.pending.len()
                + k == 0 {
                Some(commands[k].message)
            } else {
                None
            },
    decreases commands.len(),
{
    if commands.len() == 0 {
        assert(s.pending + commands =~= s.pending);
    } else {
        let front = commands.drop_last();
        lemma_queue_all(s, front);
        assert((s.pending + front).push(commands.last()) =~= s.pending + commands);
    }
}

/// Responses complete the waiting commands oldest first. The response at
/// `k` of a run of responses, no longer than the queue, goes to the command
/// at `k` of the queue, and the command after it is sent next.
pub proof fn lemma_responses_in_order<C>(s: StateView<C>, answers: Seq<RxView>, k: int)
    requires
        forall|j: int| 0 <= j < answers.len() ==> (#[trigger] answers[j]).payload is Response,
        answers.len() <= s.pending.len(),
        0 <= k < answers.len(),
    ensures
        run(s, answers).0 == (StateView {
            pending: s.pending.subrange(answers.len() as int, s.pending.len() as int),
            ..s
        }),
        run(s, answers).1[k] == (EffectView::Complete {
            on_complete: s.pending[k].on_complete,
            response: answers[k].payload->response,
            transmit: if k + 1 < s.pending.len() {
                Some(s.pending[k + 1].message)
            } else {
                None
            },
        }),
    decreases answers.len(),
{
    let n = answers.len() as int;
    let front = answers.drop_last();
    let mid = StateView { pending: s.pending.subrange(n - 1, s.pending.len() as int), ..s };
    lemma_run_len(s, front);
    if n == 1 {
        assert(mid.pending =~= s.pending);
    } else {
        lemma_responses_in_order(s, front, 0);
    }
    assert(run(s, front).0 == mid);
    assert(answers.last().payload is Response);
    let rest = mid.pending.subrange(1, mid.pending.len() as int);
    assert(rest =~= s.pending.subrange(n, s.pending.len() as int));
    assert(mid.pending[0] == s.pending[n - 1]);
    if n < s.pending.len() {
        assert(rest[0] == s.pending[n]);
    }
    if k < n - 1 {
        lemma_responses_in_order(s, front, k);
    }
}

/// First in, first out. Commands queued onto an empty queue and then
/// answered one by one: only the first is sent when queued; the answer at
/// `k` completes the command at `k` and sends the command after it, and the
/// last answer sends nothing and leaves the queue empty.
pub proof fn lemma_fifo<C>(
    s: StateView<C>,
    commands: Seq<CommandView<C>>,
    answers: Seq<RxView>,
    k: int,
)
    requires
        s.pending.len() == 0,
        answers.len() == commands.len(),
        forall|j: int| 0 <= j < answers.len() ==> (#[trigger] answers[j]).payload is Response,
        0 <= k < commands.len(),
    ensures
        queue_all(s, commands).1[k] == if k == 0 {
            Some(commands[0].message)
        } else {
            None
        },
        run(queue_all(s, commands).0, answers).1[k] == (EffectView::Complete {
            on_complete: commands[k].on_complete,
            response: answers[k].payload->response,
            transmit: if k + 1 < commands.len() {
                Some(commands[k + 1].message)
            } else {
                None
            },
        }),
        run(queue_all(s, commands).0, answers).0.pending.len() == 0,
{
    lemma_queue_all(s, commands);
    assert(s.pending + commands =~= commands);
    lemma_responses_in_order(queue_all(s, commands).0, answers, k);
}

/// What can happen to a session: a caller queues a command, or the
/// transport hands over a message.
pub enum Event<C> {
    Queue(CommandView<C>),
    Receive(RxView),
}

/// A session together with its past: the messages that it has had sent, in
/// order, and the number of commands that it has completed.
pub struct Trace<C> {
    pub state: StateView<C>,
    pub sent: Seq<MessageView>,
    pub completed: nat,
}

/// The trace after one more event.
pub open spec fn advance<C>(t: Trace<C>, event: Event<C>) -> Trace<C> {
    match event {
        Event::Queue(command) => {
            let (state, now) = queued(t.state, command);
            Trace {
                state,
                sent: match now {
                    Some(m) => t.sent.push(m),
                    None => t.sent,
                },
                completed: t.completed,
            }
        },
        Event::Receive(rx) => {
            let (state, effect) = step(t.state, rx);
            match effect {
                EffectView::Complete { transmit, .. } => Trace {
                    state,
                    sent: match transmit {
                        Some(m) => t.sent.push(m),
                        None => t.sent,
                    },
                    completed: t.completed + 1,
                },
                _ => Trace { state, ..t },
            }
        },
    }
}

/// The trace of a session that started in its initial state and has seen
/// `events`, in order.
pub open spec fn history<C>(events: Seq<Event<C>>) -> Trace<C>
    decreases events.len(),
{
    if events.len() == 0 {
        Trace { state: initial(), sent: Seq::empty(), completed: 0 }
    } else {
        advance(history(events.drop_last()), events.last())
    }
}

/// At most one request is on the wire, and it is that of the oldest command:
/// every message sent but the last has been answered, and the last is the
/// message of the command at the front of the queue, if the queue holds
/// one.
pub open spec fn one_in_flight<C>(t: Trace<C>) -> bool {
    &&& t.sent.len() == t.completed + (if t.state.pending.len() > 0 {
        1nat
    } else {
        0nat
    })
    &&& t.state.pending.len() > 0 ==> t.sent.last() == t.state.pending[0].message
}

/// Whatever is queued and whatever arrives, in whatever order, a session
/// has at most one request on the wire, and it is that of its oldest
/// command.
pub proof fn lemma_one_in_flight<C>(events: Seq<Event<C>>)
    ensures
        one_in_flight(history(events)),
    decreases events.len(),
{
    if events.len() > 0 {
        lemma_one_in_flight(events.drop_last());
        let before = history(events.drop_last());
        match events.last() {
            Event::Queue(command) => {
                assert(before.state.pending.push(command)[0] == if before.state.pending.len()
                    == 0 {
                    command
                } else {
                    before.state.pending[0]
                });
            },
            Event::Receive(rx) => {},
        }
    }
}

/// Once shutdown has been asked for, every turn of the dispatch loop is the
/// last, whatever it received, and leaves the flag cleared.
pub proof fn lemma_shutdown_is_final<C>(s: StateView<C>, received: Result<RxView, ConnError>)
    requires
        !s.running,
    ensures
        turned(s, received).2,
        !turned(s, received).0.running,
{
}

} // verus!
