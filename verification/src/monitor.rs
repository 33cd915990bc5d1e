//! The device monitor: the latest snapshot of a polled device, the queue of
//! commands waiting for it, and the decisions of the actor that polls it.

use std::collections::VecDeque;
use vstd::prelude::*;

verus! {

/// Milliseconds that the actor waits before it reconnects after a failure.
pub const WAIT_AFTER_ERROR: u64 = 8000;

/// Milliseconds of one short wait between two polls.
pub const TICK: u64 = 1000;

/// What can be done to a snapshot slot.
pub enum SlotOp<S> {
    /// The actor stores a fresh snapshot.
    Publish(S),
    /// A reader takes the snapshot out and leaves the slot empty.
    Take,
    /// A reader looks at the snapshot and leaves it in place.
    Peek,
}

/// The slot after an operation.
pub open spec fn slot_after<S>(slot: Option<S>, op: SlotOp<S>) -> Option<S> {
    match op {
        SlotOp::Publish(snapshot) => Some(snapshot),
        SlotOp::Take => None,
        SlotOp::Peek => slot,
    }
}

/// What an operation hands to its caller.
pub open spec fn slot_read<S>(slot: Option<S>, op: SlotOp<S>) -> Option<S> {
    match op {
        SlotOp::Publish(_) => None,
        SlotOp::Take => slot,
        SlotOp::Peek => slot,
    }
}

/// The slot after a run of operations on an empty slot.
pub open spec fn slot_after_all<S>(ops: Seq<SlotOp<S>>) -> Option<S>
    decreases ops.len(),
{
    if ops.len() == 0 {
        None
    } else {
        slot_after(slot_after_all(ops.drop_last()), ops.last())
    }
}

/// The snapshots that a run of operations handed to readers, in order.
pub open spec fn reads<S>(ops: Seq<SlotOp<S>>) -> Seq<S>
    decreases ops.len(),
{
    if ops.len() == 0 {
        Seq::empty()
    } else {
        match slot_read(slot_after_all(ops.drop_last()), ops.last()) {
            Some(snapshot) => reads(ops.drop_last()).push(snapshot),
            None => reads(ops.drop_last()),
        }
    }
}

/// The snapshots that a run of operations stored, in order.
pub open spec fn published<S>(ops: Seq<SlotOp<S>>) -> Seq<S>
    decreases ops.len(),
{
    if ops.len() == 0 {
        Seq::empty()
    } else {
        match ops.last() {
            SlotOp::Publish(snapshot) => published(ops.drop_last()).push(snapshot),
            _ => published(ops.drop_last()),
        }
    }
}

/// No item carries an earlier time stamp than an item before it.
pub open spec fn ascending<S>(items: Seq<S>, stamp: spec_fn(S) -> int) -> bool {
    forall|i: int, j: int|
        0 <= i <= j < items.len() ==> stamp(#[trigger] items[i]) <= stamp(#[trigger] items[j])
}

proof fn lemma_reads_follow_published<S>(ops: Seq<SlotOp<S>>, stamp: spec_fn(S) -> int)
    requires
        ascending(published(ops), stamp),
    ensures
        ascending(reads(ops), stamp),
        slot_after_all(ops) is Some ==> published(ops).len() > 0 && published(ops).last()
            == slot_after_all(ops)->0,
        forall|k: int|
            0 <= k < reads(ops).len() ==> published(ops).len() > 0 && stamp(
                #[trigger] reads(ops)[k],
            ) <= stamp(published(ops).last()),
    decreases ops.len(),
{
    if ops.len() > 0 {
        let before = ops.drop_last();
        let stored = published(before);
        assert(ascending(stored, stamp)) by {
            assert forall|i: int, j: int| 0 <= i <= j < stored.len() implies stamp(
                #[trigger] stored[i],
            ) <= stamp(#[trigger] stored[j]) by {
                assert(stored[i] == published(ops)[i]);
                assert(stored[j] == published(ops)[j]);
            }
        }
        lemma_reads_follow_published(before, stamp);
        match ops.last() {
            SlotOp::Publish(snapshot) => {
                if stored.len() > 0 {
                    assert(published(ops)[stored.len() - 1] == stored.last());
                    assert(published(ops)[stored.len() as int] == snapshot);
                }
            },
            _ => {},
        }
    }
}

/// Readers of a slot never go back in time: if the actor stores snapshots
/// whose time stamps do not decrease, the snapshots handed to readers, by
/// taking or by peeking, carry time stamps that do not decrease either.
pub proof fn lemma_reads_never_go_back<S>(ops: Seq<SlotOp<S>>, stamp: spec_fn(S) -> int)
    requires
        ascending(published(ops), stamp),
    ensures
        ascending(reads(ops), stamp),
{
    lemma_reads_follow_published(ops, stamp);
}

/// The commands of a queue in the order in which they leave it.
pub open spec fn drained<A>(queue: Seq<A>) -> Seq<A>
    decreases queue.len(),
{
    if queue.len() == 0 {
        Seq::empty()
    } else {
        seq![queue[0]] + drained(queue.drop_first())
    }
}

/// A queue hands its commands out unchanged and in the order in which they
/// came: what leaves the queue is what entered it.
pub proof fn lemma_queue_round_trip<A>(queue: Seq<A>)
    ensures
        drained(queue) == queue,
    decreases queue.len(),
{
    if queue.len() > 0 {
        lemma_queue_round_trip(queue.drop_first());
        assert(seq![queue[0]] + queue.drop_first() =~= queue);
    }
}

/// A command that enters an empty queue is the next to leave it, and a
/// command that enters behind others leaves after them.
pub proof fn lemma_queue_is_fifo<A>(queue: Seq<A>, action: A)
    ensures
        queue.push(action).len() == queue.len() + 1,
        queue.len() == 0 ==> queue.push(action)[0] == action && queue.push(action).drop_first()
            == queue,
        queue.len() > 0 ==> queue.push(action)[0] == queue[0] && queue.push(action).drop_first()
            == queue.drop_first().push(action),
{
    if queue.len() == 0 {
        assert(queue.push(action).drop_first() =~= queue);
    } else {
        assert(queue.push(action).drop_first() =~= queue.drop_first().push(action));
    }
}

/// A monitor as contracts see it.
pub struct MonitorView<S, A> {
    /// The snapshot of the last successful poll that no reader has taken.
    pub latest: Option<S>,
    /// Commands that wait for the actor, oldest first.
    pub pending: Seq<A>,
    /// False once shutdown was requested.
    pub running: bool,
}

/// What a device's actor and its users share: the snapshot slot, the command
/// queue and the running flag.
pub struct DeviceMonitor<S, A> {
    latest: Option<S>,
    pending: VecDeque<A>,
    running: bool,
}

impl<S, A> View for DeviceMonitor<S, A> {
    type V = MonitorView<S, A>;

    closed spec fn view(&self) -> MonitorView<S, A> {
        MonitorView { latest: self.latest, pending: self.pending@, running: self.running }
    }
}

impl<S, A> DeviceMonitor<S, A> {
    /// A running monitor with an empty slot and no commands.
    pub fn new() -> (monitor: Self)
        ensures
            monitor@.latest is None,
            monitor@.pending.len() == 0,
            monitor@.running,
    {
        DeviceMonitor { latest: None, pending: VecDeque::new(), running: true }
    }

    /// Stores the snapshot of a successful poll in place of the one before.
    pub fn publish(&mut self, snapshot: S)
        ensures
            final(self)@.latest == slot_after(old(self)@.latest, SlotOp::Publish(snapshot)),
            final(self)@.pending == old(self)@.pending,
            final(self)@.running == old(self)@.running,
    {
        self.latest = Some(snapshot);
    }

    /// Hands the latest snapshot over and leaves the slot empty until the next poll.
    pub fn get_current_params(&mut self) -> (snapshot: Option<S>)
        ensures
            snapshot == slot_read(old(self)@.latest, SlotOp::Take),
            final(self)@.latest == slot_after(old(self)@.latest, SlotOp::Take),
            final(self)@.pending == old(self)@.pending,
            final(self)@.running == old(self)@.running,
    {
        self.latest.take()
    }

    /// Shows the latest snapshot and leaves it in the slot.
    pub fn peek(&self) -> (snapshot: Option<&S>)
        ensures
            match snapshot {
                Some(s) => slot_read(self@.latest, SlotOp::Peek) == Some(*s),
                None => slot_read(self@.latest, SlotOp::Peek) is None,
            },
    {
        self.latest.as_ref()
    }

    /// Puts a command behind those that wait already.
    pub fn enqueue(&mut self, action: A)
        ensures
            final(self)@.pending == old(self)@.pending.push(action),
            final(self)@.latest == old(self)@.latest,
            final(self)@.running == old(self)@.running,
    {
        self.pending.push_back(action);
    }

    /// Takes the oldest waiting command out, for the actor to apply it once.
    pub fn next_action(&mut self) -> (action: Option<A>)
        ensures
            match action {
                Some(a) => old(self)@.pending.len() > 0 && a == old(self)@.pending[0]
                    && final(self)@.pending == old(self)@.pending.drop_first(),
                None => old(self)@.pending.len() == 0 && final(self)@.pending == old(
                    self,
                )@.pending,
            },
            final(self)@.latest == old(self)@.latest,
            final(self)@.running == old(self)@.running,
    {
        let action = self.pending.pop_front();
        proof {
            if action is Some {
                assert(self.pending@ =~= old(self).pending@.drop_first());
            }
        }
        action
    }

    /// How many commands wait.
    pub fn pending_actions(&self) -> (count: usize)
        ensures
            count == self@.pending.len(),
    {
        self.pending.len()
    }

    /// Whether the actor is to go on.
    pub fn is_running(&self) -> (running: bool)
        ensures
            running == self@.running,
    {
        self.running
    }

    /// Requests shutdown; snapshot and commands stay as they are.
    pub fn shutdown(&mut self)
        ensures
            !final(self)@.running,
            final(self)@.latest == old(self)@.latest,
            final(self)@.pending == old(self)@.pending,
    {
        self.running = false;
    }
}

/// Where the polling actor stands.
#[derive(Debug, Clone, Copy, PartialEq, Eq, Structural)]
pub enum PollerPhase {
    /// The actor has not begun.
    Created,
    /// A connection attempt is under way.
    Connecting,
    /// A poll of all register ranges is under way.
    Polling,
    /// Between two polls, until the given time in milliseconds.
    Waiting { until: u64 },
    /// Waiting to reconnect after a failure.
    BackingOff,
    /// Shutdown was observed.
    Stopped,
}

/// What happened since the actor's last command.
#[derive(Debug, Clone, Copy, PartialEq, Eq, Structural)]
pub enum PollerEvent {
    /// The actor begins.
    Started,
    /// The connection was opened.
    Connected,
    /// The connection could not be opened.
    ConnectFailed,
    /// All ranges were read and decoded, and the snapshot was published at
    /// the given time in milliseconds.
    Polled { now: u64 },
    /// A read failed or a payload did not decode.
    PollFailed,
    /// A short wait ended at the given time in milliseconds.
    Ticked { now: u64 },
    /// The wait after a failure ended.
    BackedOff,
}

/// What the actor does next.
#[derive(Debug, Clone, Copy, PartialEq, Eq, Structural)]
pub enum PollerCommand {
    /// Open the connection.
    Connect,
    /// Read all register ranges, decode them and publish the snapshot.
    Poll,
    /// Apply the oldest waiting command, if there is one, then wait for `TICK`.
    Serve,
    /// Drop the connection and wait for `WAIT_AFTER_ERROR`.
    BackOff,
    /// Leave the loop.
    Stop,
}

impl PollerCommand {
    /// Milliseconds that the actor waits while it carries a command out.
    pub open spec fn wait(&self) -> u64 {
        match self {
            PollerCommand::Serve => TICK,
            PollerCommand::BackOff => WAIT_AFTER_ERROR,
            _ => 0,
        }
    }

    /// Computes `wait`.
    pub fn wait_millis(&self) -> (millis: u64)
        ensures
            millis == self.wait(),
    {
        match self {
            PollerCommand::Serve => TICK,
            PollerCommand::BackOff => WAIT_AFTER_ERROR,
            _ => 0,
        }
    }
}

/// The command that a phase stands for.
pub open spec fn command_of(phase: PollerPhase) -> PollerCommand {
    match phase {
        PollerPhase::Created => PollerCommand::Connect,
        PollerPhase::Connecting => PollerCommand::Connect,
        PollerPhase::Polling => PollerCommand::Poll,
        PollerPhase::Waiting { .. } => PollerCommand::Serve,
        PollerPhase::BackingOff => PollerCommand::BackOff,
        PollerPhase::Stopped => PollerCommand::Stop,
    }
}

/// The end of the wait that follows a poll.
pub open spec fn wait_end(now: u64, interval: u64) -> u64 {
    if now + interval > u64::MAX {
        u64::MAX
    } else {
        (now + interval) as u64
    }
}

/// The actor's next phase.  Shutdown is observed before anything else; a
/// failure leads to the wait before reconnecting; an event that does not
/// answer the phase's command changes nothing.
pub open spec fn next_phase(
    phase: PollerPhase,
    event: PollerEvent,
    running: bool,
    interval: u64,
) -> PollerPhase {
    if !running || phase is Stopped {
        PollerPhase::Stopped
    } else {
        match (phase, event) {
            (PollerPhase::Created, PollerEvent::Started) => PollerPhase::Connecting,
            (PollerPhase::Connecting, PollerEvent::Connected) => PollerPhase::Polling,
            (PollerPhase::Connecting, PollerEvent::ConnectFailed) => PollerPhase::BackingOff,
            (PollerPhase::Polling, PollerEvent::Polled { now }) => if now < wait_end(
                now,
                interval,
            ) {
                PollerPhase::Waiting { until: wait_end(now, interval) }
            } else {
                PollerPhase::Polling
            },
            (PollerPhase::Polling, PollerEvent::PollFailed) => PollerPhase::BackingOff,
            (PollerPhase::Waiting { until }, PollerEvent::Ticked { now }) => if now < until {
                PollerPhase::Waiting { until }
            } else {
                PollerPhase::Polling
            },
            (PollerPhase::BackingOff, PollerEvent::BackedOff) => PollerPhase::Connecting,
            _ => phase,
        }
    }
}

/// The decisions of the actor that polls one device.
pub struct Poller {
    phase: PollerPhase,
    interval: u64,
}

impl Poller {
    pub closed spec fn phase(&self) -> PollerPhase {
        self.phase
    }

    /// Milliseconds between a poll and the next.
    pub closed spec fn interval(&self) -> u64 {
        self.interval
    }

    /// An actor that has not begun, polling every `interval` milliseconds.
    pub fn new(interval: u64) -> (poller: Poller)
        ensures
            poller.phase() is Created,
            poller.interval() == interval,
    {
        Poller { phase: PollerPhase::Created, interval }
    }

    pub fn current_phase(&self) -> (phase: PollerPhase)
        ensures
            phase == self.phase(),
    {
        self.phase
    }

    /// Takes an event and the running flag, and says what to do next.
    pub fn step(&mut self, event: PollerEvent, running: bool) -> (command: PollerCommand)
        ensures
            final(self).phase() == next_phase(
                old(self).phase(),
                event,
                running,
                old(self).interval(),
            ),
            final(self).interval() == old(self).interval(),
            command == command_of(final(self).phase()),
    {
        let next: PollerPhase = if !running {
            PollerPhase::Stopped
        } else {
            match (self.phase, event) {
                (PollerPhase::Stopped, _) => PollerPhase::Stopped,
                (PollerPhase::Created, PollerEvent::Started) => PollerPhase::Connecting,
                (PollerPhase::Connecting, PollerEvent::Connected) => PollerPhase::Polling,
                (PollerPhase::Connecting, PollerEvent::ConnectFailed) => PollerPhase::BackingOff,
                (PollerPhase::Polling, PollerEvent::Polled { now }) => {
                    let until: u64 = now.saturating_add(self.interval);
                    if now < until {
                        PollerPhase::Waiting { until }
                    } else {
                        PollerPhase::Polling
                    }
                },
                (PollerPhase::Polling, PollerEvent::PollFailed) => PollerPhase::BackingOff,
                (PollerPhase::Waiting { until }, PollerEvent::Ticked { now }) => {
                    if now < until {
                        PollerPhase::Waiting { until }
                    } else {
                        PollerPhase::Polling
                    }
                },
                (PollerPhase::BackingOff, PollerEvent::BackedOff) => PollerPhase::Connecting,
                (phase, _) => phase,
            }
        };
        self.phase = next;
        match next {
            PollerPhase::Created => PollerCommand::Connect,
            PollerPhase::Connecting => PollerCommand::Connect,
            PollerPhase::Polling => PollerCommand::Poll,
            PollerPhase::Waiting { .. } => PollerCommand::Serve,
            PollerPhase::BackingOff => PollerCommand::BackOff,
            PollerPhase::Stopped => PollerCommand::Stop,
        }
    }
}

/// The actor stops when shutdown is requested and never otherwise; it
/// applies commands only between two polls; and after a failed connection
/// attempt or a failed poll it waits before it connects again.
pub proof fn lemma_poller(phase: PollerPhase, event: PollerEvent, running: bool, interval: u64)
    ensures
        ({
            let next = next_phase(phase, event, running, interval);
            &&& !running ==> next is Stopped
            &&& next is Stopped ==> !running || phase is Stopped
            &&& command_of(next) is Serve ==> next is Waiting && (phase is Polling
                || phase is Waiting)
            &&& running && phase is Connecting && event is ConnectFailed ==> next is BackingOff
            &&& running && phase is Polling && event is PollFailed ==> next is BackingOff
            &&& next is Connecting ==> phase is Connecting || (phase is Created && event is Started)
                || (phase is BackingOff && event is BackedOff)
        }),
{
}

} // verus!
