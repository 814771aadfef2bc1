//! What holds of the pipeline as a whole: the worker and the channel taken
//! together, over everything that can happen to them.
//!
//! A [`System`] is a worker with its channel. A [`Happening`] is one thing
//! that an emitting thread, the driver or the worker does to it while the
//! worker holds the receiver, stated with the same functions as the
//! contracts of [`crate::Channel`] and [`crate::Worker`].

use crate::channel::ChannelView;
use crate::record::RecordView;
use crate::transmission::DiagnosticView;
use crate::worker::{ActionView, ConnectionState, EventView, StateView, WorkerView};
use vstd::prelude::*;

verus! {

/// A worker and the channel it consumes.
pub struct System {
    pub worker: WorkerView,
    pub channel: ChannelView,
}

/// One thing that happens to a [`System`].
pub enum Happening {
    /// An emitting thread hands off a record (`Channel::send`).
    Enqueued(RecordView),
    /// One more sender is taken from one that is held (`Channel::add_sender`).
    SenderAdded,
    /// A sender is given up (`Channel::drop_sender`).
    SenderDropped,
    /// The driver answers a connect or a send (`Worker::step`). An event
    /// that does not come from the connection is no answer and is left out.
    Answered(EventView),
    /// The worker looks at the channel (`Worker::poll`).
    Polled,
}

impl System {
    /// The system after `happening`.
    pub open spec fn after(self, happening: Happening) -> System {
        match happening {
            Happening::Enqueued(record) => System {
                channel: self.channel.after_send(record),
                ..self
            },
            Happening::SenderAdded => System {
                channel: self.channel.after_add_sender(),
                ..self
            },
            Happening::SenderDropped => System {
                channel: self.channel.after_drop_sender(),
                ..self
            },
            Happening::Answered(event) => if event.from_connection() {
                System { worker: self.worker.next(event), ..self }
            } else {
                self
            },
            Happening::Polled => System {
                worker: self.worker.after_poll(self.channel),
                channel: self.worker.channel_after_poll(self.channel),
            },
        }
    }

    /// The record that `happening` puts on the queue, if it does.
    pub open spec fn accepted_by(self, happening: Happening) -> Seq<RecordView> {
        match happening {
            Happening::Enqueued(record) if self.channel.accepts() => seq![record],
            _ => Seq::empty(),
        }
    }

    /// The record that `happening` makes the worker ask to have sent, if it
    /// does: the one that a poll takes off the queue.
    pub open spec fn attempted_by(self, happening: Happening) -> Seq<RecordView> {
        match happening {
            Happening::Polled => match self.worker.arrival(self.channel) {
                Some(EventView::Received(record)) => seq![record],
                _ => Seq::empty(),
            },
            _ => Seq::empty(),
        }
    }

    /// The system after all of `happenings`, in their order.
    pub open spec fn run(self, happenings: Seq<Happening>) -> System
        decreases happenings.len(),
    {
        if happenings.len() == 0 {
            self
        } else {
            self.after(happenings[0]).run(happenings.drop_first())
        }
    }

    /// The records that were put on the queue in the course of `happenings`,
    /// in the order in which they were.
    pub open spec fn accepted(self, happenings: Seq<Happening>) -> Seq<RecordView>
        decreases happenings.len(),
    {
        if happenings.len() == 0 {
            Seq::empty()
        } else {
            self.accepted_by(happenings[0]) + self.after(happenings[0]).accepted(
                happenings.drop_first(),
            )
        }
    }

    /// The records that the worker asked to have sent in the course of
    /// `happenings`, in the order in which it asked.
    pub open spec fn attempted(self, happenings: Seq<Happening>) -> Seq<RecordView>
        decreases happenings.len(),
    {
        if happenings.len() == 0 {
            Seq::empty()
        } else {
            self.attempted_by(happenings[0]) + self.after(happenings[0]).attempted(
                happenings.drop_first(),
            )
        }
    }
}

/// One hand-off for each of `records`, in their order.
pub open spec fn enqueues(records: Seq<RecordView>) -> Seq<Happening> {
    Seq::new(records.len(), |i: int| Happening::Enqueued(records[i]))
}

/// One round of the worker for each of `outcomes`: it looks at the channel,
/// and the driver answers the send with the outcome.
pub open spec fn rounds(outcomes: Seq<EventView>) -> Seq<Happening>
    decreases outcomes.len(),
{
    if outcomes.len() == 0 {
        Seq::empty()
    } else {
        seq![Happening::Polled, Happening::Answered(outcomes[0])] + rounds(
            outcomes.drop_first(),
        )
    }
}

/// The rounds for `outcomes`, and one more look at the channel.
pub open spec fn last_rounds(outcomes: Seq<EventView>) -> Seq<Happening> {
    rounds(outcomes) + seq![Happening::Polled]
}

/// Each of `outcomes` is the outcome of a send, a success or a failure.
pub open spec fn send_outcomes(outcomes: Seq<EventView>) -> bool {
    forall|i: int| 0 <= i < outcomes.len() ==> (#[trigger] outcomes[i]).from_send()
}

/// A run over `first` and then `second` is the run over `second` from
/// where the run over `first` ended, and what was accepted and attempted
/// adds up.
pub proof fn law_runs_compose(system: System, first: Seq<Happening>, second: Seq<Happening>)
    ensures
        system.run(first + second) == system.run(first).run(second),
        system.accepted(first + second) == system.accepted(first) + system.run(first).accepted(
            second,
        ),
        system.attempted(first + second) == system.attempted(first) + system.run(
            first,
        ).attempted(second),
    decreases first.len(),
{
    if first.len() == 0 {
        assert(first + second =~= second);
        assert(system.accepted(first) + system.run(first).accepted(second) =~= system.accepted(
            second,
        ));
        assert(system.attempted(first) + system.run(first).attempted(second)
            =~= system.attempted(second));
    } else {
        let next = system.after(first[0]);
        assert((first + second)[0] == first[0]);
        assert((first + second).drop_first() =~= first.drop_first() + second);
        law_runs_compose(next, first.drop_first(), second);
        assert(system.accepted(first + second) =~= system.accepted(first) + system.run(
            first,
        ).accepted(second));
        assert(system.attempted(first + second) =~= system.attempted(first) + system.run(
            first,
        ).attempted(second));
    }
}

/// Nothing is lost, doubled or reordered between the hand-off and the
/// worker: whatever happens, the records that the worker asked to have sent,
/// followed by those that still wait, are the records that waited at the
/// start followed by those that were accepted since, all in their order.
pub proof fn law_first_in_first_out(system: System, happenings: Seq<Happening>)
    ensures
        system.attempted(happenings) + system.run(happenings).channel.queue
            == system.channel.queue + system.accepted(happenings),
    decreases happenings.len(),
{
    if happenings.len() == 0 {
        assert(system.attempted(happenings) + system.channel.queue =~= system.channel.queue
            + system.accepted(happenings));
    } else {
        let next = system.after(happenings[0]);
        law_first_in_first_out(next, happenings.drop_first());
        assert(system.attempted_by(happenings[0]) + next.channel.queue =~= system.channel.queue
            + system.accepted_by(happenings[0]));
        let rest_attempted = next.attempted(happenings.drop_first());
        let rest_accepted = next.accepted(happenings.drop_first());
        let end = system.run(happenings).channel.queue;
        let first_attempted = system.attempted_by(happenings[0]);
        let first_accepted = system.accepted_by(happenings[0]);
        assert(system.attempted(happenings) + end =~= first_attempted + (rest_attempted + end));
        assert(system.channel.queue + system.accepted(happenings) =~= (system.channel.queue
            + first_accepted) + rest_accepted);
        assert(first_attempted + (next.channel.queue + rest_accepted) =~= (first_attempted
            + next.channel.queue) + rest_accepted);
    }
}

/// A poll that takes a record off the queue asks for exactly that record to
/// be sent, under the worker's tag.
pub proof fn law_attempt_is_a_send(system: System, record: RecordView)
    requires
        system.attempted_by(Happening::Polled) == seq![record],
    ensures
        record == system.channel.queue[0],
        system.after(Happening::Polled).worker.action() == ActionView::Send(
            system.worker.transmission(record),
        ),
{
    assert(seq![record][0] == record);
}

/// A record goes out as it came in: the transmission that the worker asks
/// for when it takes a record off the queue carries the worker's tag, the
/// record's target, level and message as the three fields of its payload,
/// and the record's instant as its timestamp.
pub proof fn law_transmission_round_trip(system: System)
    requires
        system.worker.state is Waiting,
        system.channel.ready(),
    ensures
        system.after(Happening::Polled).worker.action() matches ActionView::Send(transmission)
            && transmission.tag == system.worker.tag && transmission.payload() == seq![
            ("target"@, system.channel.queue[0].target),
            ("level"@, system.channel.queue[0].level),
            ("message"@, system.channel.queue[0].message),
        ] && transmission.timestamp() == system.channel.queue[0].time,
{
}

/// The worker asks for a record to be sent only after it took that record
/// off the queue: where a happening leaves a record in flight, either the
/// record was in flight before, or the happening is the poll that took it.
pub proof fn law_sends_come_from_the_queue(
    system: System,
    happening: Happening,
    record: RecordView,
)
    requires
        system.after(happening).worker.state == StateView::Sending(record),
    ensures
        system.worker.state == StateView::Sending(record) || system.attempted_by(happening)
            == seq![record],
{
}

/// The worker asks for a connection once, at its start, and sends only
/// while it is connected: its request is to connect exactly while the
/// connection is being set up, a request to send comes only from a
/// connected worker, and a worker that has left its first state never
/// returns to it.
pub proof fn law_connection_is_set_up_once(system: System, happenings: Seq<Happening>)
    ensures
        system.worker.action() is Connect <==> system.worker.connection()
            == ConnectionState::Connecting,
        system.worker.action() is Send ==> system.worker.connection()
            == ConnectionState::Connected,
        !(system.worker.state is Initializing) ==> !(system.run(
            happenings,
        ).worker.state is Initializing),
    decreases happenings.len(),
{
    if happenings.len() > 0 {
        law_connection_is_set_up_once(system.after(happenings[0]), happenings.drop_first());
    }
}

/// Once a worker that has ended gave up the receiver, every hand-off is
/// refused and the queue stays empty.
pub proof fn law_released_channel_refuses(channel: ChannelView, record: RecordView)
    ensures
        !channel.after_drop_receiver().accepts(),
        channel.after_drop_receiver().after_send(record) == channel.after_drop_receiver(),
        channel.after_drop_receiver().queue.len() == 0,
{
}

/// The records of a single producer are attempted in the order in which
/// they were handed off, however the sends turn out: with a waiting worker
/// and an open, empty channel, after the hand-off of `records` and one round
/// of the worker for each, the worker has asked for each of them in turn, it
/// waits again and the queue is empty.
pub proof fn law_single_producer_order(
    system: System,
    records: Seq<RecordView>,
    outcomes: Seq<EventView>,
)
    requires
        system.worker.state is Waiting,
        system.channel.accepts(),
        system.channel.queue.len() == 0,
        outcomes.len() == records.len(),
        send_outcomes(outcomes),
    ensures
        system.attempted(enqueues(records) + rounds(outcomes)) == records,
        system.run(enqueues(records) + rounds(outcomes)).worker == system.worker,
        system.run(enqueues(records) + rounds(outcomes)).channel == system.channel,
{
    law_runs_compose(system, enqueues(records), rounds(outcomes));
    law_enqueues_are_queued(system, records);
    let loaded = system.run(enqueues(records));
    assert(loaded.channel.queue =~= records);
    law_backlog_is_drained(loaded, outcomes);
    assert(system.attempted(enqueues(records)) + records =~= records);
    assert(loaded.run(rounds(outcomes)).channel.queue =~= system.channel.queue);
}

/// While the channel accepts, a run of hand-offs queues every record, in
/// order, and touches nothing else; the worker asks for nothing meanwhile.
pub proof fn law_enqueues_are_queued(system: System, records: Seq<RecordView>)
    requires
        system.channel.accepts(),
    ensures
        system.run(enqueues(records)).worker == system.worker,
        system.run(enqueues(records)).channel == (ChannelView {
            queue: system.channel.queue + records,
            ..system.channel
        }),
        system.accepted(enqueues(records)) == records,
        system.attempted(enqueues(records)).len() == 0,
    decreases records.len(),
{
    let happenings = enqueues(records);
    if records.len() == 0 {
        assert(system.channel.queue + records =~= system.channel.queue);
        assert(system.accepted(happenings) =~= records);
    } else {
        let next = system.after(happenings[0]);
        assert(happenings.drop_first() =~= enqueues(records.drop_first()));
        law_enqueues_are_queued(next, records.drop_first());
        assert(next.channel.queue + records.drop_first() =~= system.channel.queue + records);
        assert(system.accepted(happenings) =~= records);
        assert(system.attempted(happenings) =~= Seq::<RecordView>::empty());
    }
}

/// A waiting worker works off a backlog in order, whatever comes of each
/// send: after one round for each queued record it has asked for each of
/// them in turn, it waits again and the queue is empty. A send that fails
/// holds up none of those behind it.
pub proof fn law_backlog_is_drained(system: System, outcomes: Seq<EventView>)
    requires
        system.worker.state is Waiting,
        system.channel.receiver,
        outcomes.len() == system.channel.queue.len(),
        send_outcomes(outcomes),
    ensures
        system.attempted(rounds(outcomes)) == system.channel.queue,
        system.accepted(rounds(outcomes)).len() == 0,
        system.run(rounds(outcomes)).worker == system.worker,
        system.run(rounds(outcomes)).channel == (ChannelView {
            queue: Seq::empty(),
            ..system.channel
        }),
    decreases outcomes.len(),
{
    let happenings = rounds(outcomes);
    if outcomes.len() == 0 {
        assert(system.channel.queue =~= Seq::empty());
        assert(system.attempted(happenings) =~= system.channel.queue);
    } else {
        let rest = rounds(outcomes.drop_first());
        assert(outcomes[0].from_send());
        assert(happenings[0] == Happening::Polled);
        assert(happenings[1] == Happening::Answered(outcomes[0]));
        assert(happenings.drop_first().drop_first() =~= rest);
        let polled = system.after(Happening::Polled);
        let answered = polled.after(Happening::Answered(outcomes[0]));
        assert(answered.worker == system.worker);
        assert(answered.channel.queue == system.channel.queue.drop_first());
        assert(send_outcomes(outcomes.drop_first())) by {
            let rest_outcomes = outcomes.drop_first();
            assert forall|i: int| 0 <= i < rest_outcomes.len() implies (
                #[trigger] rest_outcomes[i]
            ).from_send() by {
                assert(rest_outcomes[i] == outcomes[i + 1]);
            }
        }
        law_backlog_is_drained(answered, outcomes.drop_first());
        let tail = happenings.drop_first();
        assert(tail[0] == happenings[1]);
        assert(tail.drop_first() =~= rest);
        assert(polled.run(tail) == answered.run(rest));
        assert(system.run(happenings) == answered.run(rest));
        assert(polled.attempted(tail) =~= answered.attempted(rest));
        assert(system.attempted(happenings) =~= seq![system.channel.queue[0]]
            + answered.attempted(rest));
        assert(polled.accepted(tail) =~= answered.accepted(rest));
        assert(system.accepted(happenings) =~= answered.accepted(rest));
        assert(system.attempted(happenings) =~= system.channel.queue);
    }
}

/// A worker that has ended stays ended and asks for nothing more: whatever
/// happens, it is unchanged, its action is to stop, and no record is
/// attempted or taken off the queue.
pub proof fn law_stopped_worker_is_silent(system: System, happenings: Seq<Happening>)
    requires
        system.worker.stopped(),
    ensures
        system.run(happenings).worker == system.worker,
        system.run(happenings).worker.action() == ActionView::Stop,
        system.attempted(happenings).len() == 0,
        system.run(happenings).channel.queue == system.channel.queue + system.accepted(
            happenings,
        ),
    decreases happenings.len(),
{
    if happenings.len() > 0 {
        law_stopped_worker_is_silent(system.after(happenings[0]), happenings.drop_first());
    }
    law_first_in_first_out(system, happenings);
    assert(system.attempted(happenings) + system.run(happenings).channel.queue
        =~= system.run(happenings).channel.queue);
}

/// Once the last sender is gone the worker ends after the backlog: after
/// one round for each record that still waits, and one more look at the
/// channel, it is closed, having asked for the records of the backlog in
/// their order and for no other, and it asks for nothing ever after.
pub proof fn law_ends_after_last_sender(
    system: System,
    outcomes: Seq<EventView>,
    later: Seq<Happening>,
)
    requires
        system.worker.state is Waiting,
        system.channel.receiver,
        system.channel.senders == 0,
        outcomes.len() == system.channel.queue.len(),
        send_outcomes(outcomes),
    ensures
        last_rounds(outcomes).len() == 2 * system.channel.queue.len() + 1,
        system.run(last_rounds(outcomes)).worker.state is Closed,
        system.attempted(last_rounds(outcomes)) == system.channel.queue,
        system.run(last_rounds(outcomes)).attempted(later).len() == 0,
        system.run(last_rounds(outcomes) + later).worker.state is Closed,
{
    let last = seq![Happening::Polled];
    law_backlog_is_drained(system, outcomes);
    law_runs_compose(system, rounds(outcomes), last);
    let drained = system.run(rounds(outcomes));
    assert(drained.channel.disconnected());
    let ended = drained.after(Happening::Polled);
    assert(last[0] == Happening::Polled);
    assert(last.drop_first() =~= Seq::<Happening>::empty());
    assert(ended.run(last.drop_first()) == ended);
    assert(drained.run(last) == ended);
    assert(ended.attempted(last.drop_first()) =~= Seq::<RecordView>::empty());
    assert(drained.attempted(last) =~= Seq::<RecordView>::empty());
    assert(system.attempted(rounds(outcomes) + last) =~= system.channel.queue);
    law_stopped_worker_is_silent(ended, later);
    law_runs_compose(system, rounds(outcomes) + last, later);
    law_rounds_len(outcomes);
}

/// A run of rounds has two happenings for each outcome.
pub proof fn law_rounds_len(outcomes: Seq<EventView>)
    ensures
        rounds(outcomes).len() == 2 * outcomes.len(),
    decreases outcomes.len(),
{
    if outcomes.len() > 0 {
        law_rounds_len(outcomes.drop_first());
    }
}

/// A send that fails is reported and costs only its own record: the worker
/// waits again, and its next look at a channel with a record takes that
/// record and asks for it to be sent.
pub proof fn law_send_failure_is_isolated(system: System, detail: Seq<char>)
    requires
        system.worker.state is Sending,
    ensures
        system.worker.report(EventView::SendFailed(detail)) == Some(
            DiagnosticView::SendFailed(detail),
        ),
        system.worker.next(EventView::SendFailed(detail)) == (WorkerView {
            state: StateView::Waiting,
            ..system.worker
        }),
        system.channel.ready() ==> system.after(
            Happening::Answered(EventView::SendFailed(detail)),
        ).after(Happening::Polled).worker.action() == ActionView::Send(
            system.worker.transmission(system.channel.queue[0]),
        ),
{
}

/// A failure to connect ends the worker and leaves the channel as it is:
/// the failure is reported, a hand-off is accepted just as before, and
/// whatever happens afterwards no record is ever attempted.
pub proof fn law_connect_failure_is_final(
    system: System,
    detail: Seq<char>,
    later: Seq<Happening>,
)
    requires
        system.worker.state is Initializing,
    ensures
        system.worker.report(EventView::ConnectFailed(detail)) == Some(
            DiagnosticView::ConnectFailed(detail),
        ),
        system.after(Happening::Answered(EventView::ConnectFailed(detail))).worker.state is Failed,
        system.after(Happening::Answered(EventView::ConnectFailed(detail))).channel
            == system.channel,
        system.after(Happening::Answered(EventView::ConnectFailed(detail))).attempted(
            later,
        ).len() == 0,
        system.after(Happening::Answered(EventView::ConnectFailed(detail))).run(
            later,
        ).worker.state is Failed,
{
    law_stopped_worker_is_silent(
        system.after(Happening::Answered(EventView::ConnectFailed(detail))),
        later,
    );
}

/// Whether a hand-off is accepted depends on the ends of the channel alone,
/// not on the worker or on the backlog: a channel that accepts takes the
/// record at the end of its queue whatever the worker's state, and nothing
/// that the worker or its driver does makes it refuse.
pub proof fn law_enqueue_is_independent_of_worker(
    system: System,
    record: RecordView,
    happening: Happening,
)
    requires
        system.channel.accepts(),
        !(happening is SenderDropped),
    ensures
        system.after(Happening::Enqueued(record)).channel.queue == system.channel.queue.push(
            record,
        ),
        system.after(Happening::Enqueued(record)).worker == system.worker,
        system.after(happening).channel.accepts(),
{
}

} // verus!
