//! The session supervisor: one run of the agent against one broker
//! session. Connecting retries on the reconnect schedule; once connected,
//! the inbound pump classifies transport events and feeds the bounded
//! queue; the availability heartbeat publishes liveness until the stop
//! signal, then publishes the farewell and disconnects; and the run's end
//! is judged by which racing branch resolved. The network itself lives at
//! the runtime's edge.

use vstd::prelude::*;
use crate::commands::Commands;
use crate::queue::{BoundedQueue, PushOutcome};
use crate::retry::{advance_spec, Backoff};
use crate::snake_case::snake_of;
use crate::topics::topic_of;

verus! {

/// Why a run is being stopped.
#[derive(Clone, Copy, Debug, PartialEq, Eq, Structural)]
pub enum StopReason {
    Shutdown,
    Sleep,
}

impl StopReason {
    /// How the reason reads in a log line.
    pub open spec fn spec_name(self) -> Seq<char> {
        match self {
            StopReason::Shutdown => "shutting down"@,
            StopReason::Sleep => "sleeping"@,
        }
    }

    /// How the reason reads in a log line.
    pub fn as_str(&self) -> (r: &'static str)
        ensures
            r@ == self.spec_name(),
    {
        match self {
            StopReason::Shutdown => "shutting down",
            StopReason::Sleep => "sleeping",
        }
    }
}

/// The static identity of the agent's runs: host identity, topics and the
/// command set, built once at startup.
pub struct MainLoop {
    pub hostname: String,
    pub machine_id: String,
    pub topic_base: String,
    pub availability_topic: String,
    pub commands: Commands,
    pub interval_in_minutes: u16,
}

impl MainLoop {
    /// Derives the run identity: the topic base is the configured base plus
    /// the host slug, availability lives under it, and the commands under
    /// its `command` branch.
    pub fn new(hostname: &str, machine_id: &str, base_topic: &str, interval_in_minutes: u16) -> (r:
        Self)
        ensures
            r.hostname@ == hostname@,
            r.machine_id@ == machine_id@,
            r.topic_base@ == topic_of(base_topic@, snake_of(hostname@)),
            r.availability_topic@ == topic_of(r.topic_base@, "availability"@),
            r.commands.reboot_command.topic@ == topic_of(
                topic_of(r.topic_base@, "command"@),
                "reboot"@,
            ),
            r.commands.suspend_command.topic@ == topic_of(
                topic_of(r.topic_base@, "command"@),
                "suspend"@,
            ),
            r.interval_in_minutes == interval_in_minutes,
    {
        let slug = crate::snake_case::make_snake_case(hostname);
        let topic_base = crate::topics::make_topic(base_topic, slug.as_str());
        let availability_topic = crate::topics::make_topic(topic_base.as_str(), "availability");
        let commands = crate::commands::create_commands(topic_base.as_str());
        MainLoop {
            hostname: String::from_str(hostname),
            machine_id: String::from_str(machine_id),
            topic_base,
            availability_topic,
            commands,
            interval_in_minutes,
        }
    }
}

/// The status interval in milliseconds.
pub fn interval_ms(interval_in_minutes: u16) -> (r: u64)
    ensures
        r == interval_in_minutes * 60_000,
{
    (interval_in_minutes as u64) * 60_000
}

/// The budget of one status round: four fifths of the interval, so a slow
/// round can never starve the next tick.
pub fn round_timeout_ms(interval: u64) -> (r: u64)
    requires
        interval <= u64::MAX / 4,
    ensures
        r == interval * 4 / 5,
{
    interval * 4 / 5
}

/// What polling the transport during connection establishment yielded.
pub enum ConnectPoll {
    Acknowledged,
    OtherEvent,
    Failed,
}

/// What the connection manager does next while establishing.
#[derive(Clone, Copy, Debug, PartialEq, Eq, Structural)]
pub enum ConnectAction {
    Established,
    KeepPolling,
    RetryAfterMs(u64),
}

/// Decides the next step of connection establishment: an acknowledgement
/// ends the retrying for good, any other event keeps polling, and a failure
/// earns the schedule's next delay.
pub fn connect_step(backoff: &mut Backoff, poll: ConnectPoll) -> (r: ConnectAction)
    requires
        old(backoff).wf(),
    ensures
        final(backoff).wf(),
        match poll {
            ConnectPoll::Acknowledged => r == ConnectAction::Established && *final(backoff)
                == *old(backoff),
            ConnectPoll::OtherEvent => r == ConnectAction::KeepPolling && *final(backoff) == *old(
                backoff,
            ),
            ConnectPoll::Failed => r == ConnectAction::RetryAfterMs(old(backoff).current_ms)
                && final(backoff).current_ms == advance_spec(old(backoff).current_ms),
        },
{
    match poll {
        ConnectPoll::Acknowledged => ConnectAction::Established,
        ConnectPoll::OtherEvent => ConnectAction::KeepPolling,
        ConnectPoll::Failed => ConnectAction::RetryAfterMs(backoff.next_delay()),
    }
}

/// What one poll of the established transport yielded.
pub enum PumpEvent {
    IncomingPublish(String),
    OutgoingDisconnect,
    Other,
}

/// What the pump does with one event.
#[derive(Clone, Copy, Debug, PartialEq, Eq, Structural)]
pub enum PumpAction {
    Enqueued,
    DroppedFull,
    Continue,
    Stop,
}

/// Feeds one transport event through the pump: an inbound message is
/// reduced to its topic and queued, a full queue drops it without ever
/// blocking, the outbound disconnect ends the pump, anything else is
/// ignored.
pub fn pump_step(queue: &mut BoundedQueue, event: PumpEvent) -> (r: PumpAction)
    requires
        old(queue).wf(),
    ensures
        final(queue).wf(),
        final(queue).cap() == old(queue).cap(),
        match event {
            PumpEvent::IncomingPublish(t) => if old(queue).contents().len() < old(queue).cap() {
                r == PumpAction::Enqueued && final(queue).contents() == old(
                    queue,
                ).contents().push(t@)
            } else {
                r == PumpAction::DroppedFull && final(queue).contents() == old(queue).contents()
            },
            PumpEvent::OutgoingDisconnect => r == PumpAction::Stop && final(queue).contents()
                == old(queue).contents(),
            PumpEvent::Other => r == PumpAction::Continue && final(queue).contents() == old(
                queue,
            ).contents(),
        },
{
    match event {
        PumpEvent::IncomingPublish(topic) => match queue.push(topic) {
            PushOutcome::Accepted => PumpAction::Enqueued,
            PushOutcome::Dropped => PumpAction::DroppedFull,
        },
        PumpEvent::OutgoingDisconnect => PumpAction::Stop,
        PumpEvent::Other => PumpAction::Continue,
    }
}

/// What the availability heartbeat sends.
#[derive(Clone, Copy, Debug, PartialEq, Eq, Structural)]
pub enum HeartbeatAction {
    PublishOnline,
    PublishOffline,
    Disconnect,
}

/// What reaches the heartbeat: its timer tick, or the stop signal.
#[derive(Clone, Copy, Debug, PartialEq, Eq, Structural)]
pub enum HeartbeatEvent {
    Tick,
    Stop(StopReason),
}

/// One heartbeat step: ticks publish liveness until the stop signal; the
/// stop publishes the farewell and disconnects, and silences every further
/// tick.
pub open spec fn hb_step(stopped: bool, event: HeartbeatEvent) -> (bool, Seq<HeartbeatAction>) {
    match event {
        HeartbeatEvent::Tick => (
            stopped,
            if stopped {
                Seq::empty()
            } else {
                seq![HeartbeatAction::PublishOnline]
            },
        ),
        HeartbeatEvent::Stop(_) => (
            true,
            seq![HeartbeatAction::PublishOffline, HeartbeatAction::Disconnect],
        ),
    }
}

/// The heartbeat run over a whole event sequence: the final state and every
/// action sent, in order.
pub open spec fn hb_run(stopped: bool, events: Seq<HeartbeatEvent>) -> (bool, Seq<HeartbeatAction>)
    decreases events.len(),
{
    if events.len() == 0 {
        (stopped, Seq::empty())
    } else {
        let prev = hb_run(stopped, events.drop_last());
        let step = hb_step(prev.0, events.last());
        (step.0, prev.1 + step.1)
    }
}

/// The availability heartbeat's state.
pub struct Heartbeat {
    pub stopped: bool,
}

impl Heartbeat {
    /// A live heartbeat.
    pub fn new() -> (r: Self)
        ensures
            r.stopped == false,
    {
        Heartbeat { stopped: false }
    }

    /// Feeds one event through the heartbeat.
    pub fn step(&mut self, event: HeartbeatEvent) -> (r: Vec<HeartbeatAction>)
        ensures
            final(self).stopped == hb_step(old(self).stopped, event).0,
            r@ == hb_step(old(self).stopped, event).1,
    {
        let mut out: Vec<HeartbeatAction> = Vec::new();
        match event {
            HeartbeatEvent::Tick => {
                if !self.stopped {
                    out.push(HeartbeatAction::PublishOnline);
                }
                proof {
                    assert(out@ =~= hb_step(old(self).stopped, event).1);
                }
            },
            HeartbeatEvent::Stop(_) => {
                self.stopped = true;
                out.push(HeartbeatAction::PublishOffline);
                out.push(HeartbeatAction::Disconnect);
                proof {
                    assert(out@ =~= hb_step(old(self).stopped, event).1);
                }
            },
        }
        out
    }
}

/// Once the stop signal has been taken, no later event makes the heartbeat
/// publish liveness again, and it stays stopped: the farewell is final.
pub proof fn lemma_no_online_after_stop(events: Seq<HeartbeatEvent>)
    ensures
        hb_run(true, events).0 == true,
        !hb_run(true, events).1.contains(HeartbeatAction::PublishOnline),
    decreases events.len(),
{
    if events.len() > 0 {
        lemma_no_online_after_stop(events.drop_last());
        let prev = hb_run(true, events.drop_last());
        let step = hb_step(prev.0, events.last());
        assert forall|i: int| 0 <= i < (prev.1 + step.1).len() implies (prev.1 + step.1)[i]
            != HeartbeatAction::PublishOnline by {
            if i < prev.1.len() {
                assert(!prev.1.contains(HeartbeatAction::PublishOnline));
            }
        }
    }
}

/// The four racing branches of the steady state, by how each resolved.
#[derive(Clone, Copy, Debug, PartialEq, Eq, Structural)]
pub enum RunBranch {
    PumpEnded(bool),
    AvailabilityEnded(bool),
    CommandsEnded(bool),
    PublisherEnded,
}

/// How a run's end is judged.
#[derive(Clone, Copy, Debug, PartialEq, Eq, Structural)]
pub enum RunVerdict {
    CleanShutdown,
    Fault,
}

/// Judges the branch that resolved the steady-state race: only the
/// availability branch completing cleanly is a clean shutdown; every other
/// resolution is a fault.
pub fn classify_run_end(branch: &RunBranch) -> (r: RunVerdict)
    ensures
        (r == RunVerdict::CleanShutdown) <==> (branch == RunBranch::AvailabilityEnded(true)),
{
    match branch {
        RunBranch::AvailabilityEnded(true) => RunVerdict::CleanShutdown,
        _ => RunVerdict::Fault,
    }
}

} // verus!
