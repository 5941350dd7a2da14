use mqtt2ha_reporter::commands::create_commands;
use mqtt2ha_reporter::main_loop::{
    classify_run_end, connect_step, pump_step, ConnectAction, ConnectPoll, Heartbeat,
    HeartbeatAction, HeartbeatEvent, PumpAction, PumpEvent, RunBranch, RunVerdict, StopReason,
};
use mqtt2ha_reporter::publisher::{plan_round, ReadOutcome, SensorFailure, SensorRead};
use mqtt2ha_reporter::queue::{BoundedQueue, PushOutcome};
use mqtt2ha_reporter::rate::RateSampler;
use mqtt2ha_reporter::retry::Backoff;
use mqtt2ha_reporter::sleep_monitor::{
    sleep_event_of_signal, CoordAction, CoordEvent, SleepCoordinator, SleepEvent,
};

#[test]
fn round_publishes_successes_and_logs_failures() {
    let outcomes = vec![
        ReadOutcome::Success(SensorRead {
            topic: "base/cpu".into(),
            payload: "{\"total\":12.5}".into(),
        }),
        ReadOutcome::Failure(SensorFailure {
            sensor: "net".into(),
            message: "read failed".into(),
        }),
        ReadOutcome::Success(SensorRead {
            topic: "base/memory".into(),
            payload: "{\"mem_use\":1}".into(),
        }),
        ReadOutcome::Failure(SensorFailure {
            sensor: "apt".into(),
            message: "spawn failed".into(),
        }),
    ];
    let plan = plan_round(outcomes);
    let topics: Vec<&str> = plan.publishes.iter().map(|p| p.topic.as_str()).collect();
    assert_eq!(topics, vec!["base/cpu", "base/memory"]);
    let failed: Vec<&str> = plan.failures.iter().map(|f| f.sensor.as_str()).collect();
    assert_eq!(failed, vec!["net", "apt"]);
    assert_eq!(plan.publishes.len() + plan.failures.len(), 4);
}

#[test]
fn rate_sampler_computes_rates() {
    let mut s = RateSampler::new(1000, 0);
    let rate_milli = s.step(1600, 60_000).unwrap();
    assert_eq!(rate_milli as f32 / 1000.0, 10.0);

    let mut s = RateSampler::new(0, 0);
    let rate_milli = s.step(0, 60_000).unwrap();
    assert_eq!(rate_milli as f32 / 1000.0, 0.0);
}

#[test]
fn rate_sampler_needs_elapsed_time() {
    let mut s = RateSampler::new(5, 100);
    assert_eq!(s.step(9, 100), None);
}

#[test]
fn full_queue_drops_instead_of_blocking() {
    let capacity = 4;
    let mut q = BoundedQueue::new(capacity);
    let mut dropped = 0;
    for i in 0..capacity + 1 {
        match q.push(format!("topic/{i}")) {
            PushOutcome::Accepted => {}
            PushOutcome::Dropped => dropped += 1,
        }
    }
    assert!(dropped >= 1);
    assert_eq!(q.len(), capacity);
    // The oldest entries survive, in order.
    assert_eq!(q.pop().unwrap(), "topic/0");
    assert_eq!(q.pop().unwrap(), "topic/1");
}

#[test]
fn pump_reports_the_drop() {
    let mut q = BoundedQueue::new(1);
    assert_eq!(
        pump_step(&mut q, PumpEvent::IncomingPublish("a".into())),
        PumpAction::Enqueued
    );
    assert_eq!(
        pump_step(&mut q, PumpEvent::IncomingPublish("b".into())),
        PumpAction::DroppedFull
    );
    assert_eq!(pump_step(&mut q, PumpEvent::Other), PumpAction::Continue);
    assert_eq!(pump_step(&mut q, PumpEvent::OutgoingDisconnect), PumpAction::Stop);
}

#[test]
fn no_online_after_stop() {
    let mut hb = Heartbeat::new();
    assert_eq!(hb.step(HeartbeatEvent::Tick), vec![HeartbeatAction::PublishOnline]);
    assert_eq!(
        hb.step(HeartbeatEvent::Stop(StopReason::Shutdown)),
        vec![HeartbeatAction::PublishOffline, HeartbeatAction::Disconnect]
    );
    assert_eq!(hb.step(HeartbeatEvent::Tick), vec![]);
    assert_eq!(hb.step(HeartbeatEvent::Tick), vec![]);
}

#[test]
fn only_availability_completion_is_clean() {
    assert_eq!(
        classify_run_end(&RunBranch::AvailabilityEnded(true)),
        RunVerdict::CleanShutdown
    );
    assert_eq!(classify_run_end(&RunBranch::AvailabilityEnded(false)), RunVerdict::Fault);
    assert_eq!(classify_run_end(&RunBranch::PumpEnded(true)), RunVerdict::Fault);
    assert_eq!(classify_run_end(&RunBranch::CommandsEnded(false)), RunVerdict::Fault);
    assert_eq!(classify_run_end(&RunBranch::PublisherEnded), RunVerdict::Fault);
}

#[test]
fn sleep_wake_cycle_sequences_lock_and_runs() {
    let (mut coord, mut actions) = SleepCoordinator::begin();
    actions.extend(coord.step(CoordEvent::RunEnded(StopReason::Sleep)));
    actions.extend(coord.step(CoordEvent::Wake));
    assert_eq!(
        actions,
        vec![
            CoordAction::AcquireLock,
            CoordAction::StartRun,
            CoordAction::ReleaseLock,
            CoordAction::AwaitWake,
            CoordAction::AcquireLock,
            CoordAction::StartRun,
        ]
    );
    // On shutdown the coordinator releases the lock and exits for good.
    let mut end = coord.step(CoordEvent::RunEnded(StopReason::Shutdown));
    assert_eq!(end, vec![CoordAction::ReleaseLock, CoordAction::Exit]);
    end = coord.step(CoordEvent::Wake);
    assert_eq!(end, vec![]);
}

#[test]
fn sleep_signal_classification() {
    assert_eq!(sleep_event_of_signal(true), SleepEvent::PreparingSleep);
    assert_eq!(sleep_event_of_signal(false), SleepEvent::WakingUp);
}

#[test]
fn backoff_is_nondecreasing_and_capped() {
    let mut b = Backoff::new();
    let mut last = 0;
    for _ in 0..40 {
        let d = b.next_delay();
        assert!(d >= last);
        assert!(d <= 60_000);
        last = d;
    }
    assert_eq!(last, 60_000);
}

#[test]
fn acknowledgement_stops_retrying() {
    let mut b = Backoff::new();
    assert_eq!(connect_step(&mut b, ConnectPoll::Failed), ConnectAction::RetryAfterMs(500));
    assert_eq!(connect_step(&mut b, ConnectPoll::Failed), ConnectAction::RetryAfterMs(750));
    assert_eq!(connect_step(&mut b, ConnectPoll::OtherEvent), ConnectAction::KeepPolling);
    assert_eq!(connect_step(&mut b, ConnectPoll::Acknowledged), ConnectAction::Established);
}

#[test]
fn command_topics_are_under_the_command_branch() {
    let commands = create_commands("home/nodes/myhost");
    assert_eq!(commands.reboot_command.topic, "home/nodes/myhost/command/reboot");
    assert_eq!(commands.suspend_command.topic, "home/nodes/myhost/command/suspend");
}
