use pump1090::error::PumpError;
use pump1090::pump::{Action, Event, Phase, Pump, SendReport, BACKOFF_MS};

fn connected_pump() -> Pump {
    let (mut pump, _) = Pump::start();
    assert_eq!(pump.step(Event::Connected), Action::AwaitTrigger);
    pump
}

#[test]
fn start_connects_at_once() {
    let (pump, first) = Pump::start();
    assert_eq!(pump.phase, Phase::Connecting { attempt: 1 });
    assert_eq!(pump.last_token, None);
    assert_eq!(first, Action::Connect { attempt: 1, delay_ms: 0 });
}

#[test]
fn connect_retries_with_fixed_backoff() {
    let (mut pump, _) = Pump::start();
    for n in 0..4u64 {
        let a = pump.step(Event::ConnectFailed);
        assert_eq!(a, Action::Connect { attempt: n + 2, delay_ms: BACKOFF_MS });
        assert!(BACKOFF_MS >= 5000);
    }
    assert_eq!(pump.phase, Phase::Connecting { attempt: 5 });
    assert_eq!(pump.step(Event::Connected), Action::AwaitTrigger);
    assert_eq!(pump.phase, Phase::Idle { run_count: 1 });
}

#[test]
fn attempt_counter_saturates() {
    let mut pump = Pump { phase: Phase::Connecting { attempt: u64::MAX }, last_token: None };
    let a = pump.step(Event::ConnectFailed);
    assert_eq!(a, Action::Connect { attempt: u64::MAX, delay_ms: BACKOFF_MS });
    assert_eq!(pump.phase, Phase::Connecting { attempt: u64::MAX });
}

#[test]
fn full_cycle_counts_runs() {
    let mut pump = connected_pump();
    assert_eq!(pump.step(Event::Trigger { token: None }), Action::Read);
    assert_eq!(pump.phase, Phase::Reading { run_count: 1 });
    let a = pump.step(Event::ReadDone(Ok(String::from("{}"))));
    assert_eq!(a, Action::Send(String::from("{}")));
    assert_eq!(pump.phase, Phase::Sending { run_count: 1 });
    assert_eq!(pump.step(Event::SendDone(SendReport::Delivered)), Action::AwaitTrigger);
    assert_eq!(pump.phase, Phase::Idle { run_count: 2 });
}

#[test]
fn one_send_per_trigger() {
    let mut pump = connected_pump();
    assert_eq!(pump.step(Event::Trigger { token: None }), Action::Read);
    assert_eq!(pump.step(Event::ReadDone(Ok(String::from("a")))), Action::Send(String::from("a")));
    // a second read result in the same cycle is not sent again
    assert_eq!(pump.step(Event::ReadDone(Ok(String::from("a")))), Action::Ignore);
    assert_eq!(pump.step(Event::Trigger { token: None }), Action::Ignore);
    assert_eq!(pump.phase, Phase::Sending { run_count: 1 });
}

#[test]
fn read_failure_keeps_connection() {
    let mut pump = connected_pump();
    pump.step(Event::Trigger { token: None });
    let a = pump.step(Event::ReadDone(Err(PumpError::ReadFailure)));
    assert_eq!(a, Action::Skip(PumpError::ReadFailure));
    assert_eq!(pump.phase, Phase::Idle { run_count: 1 });
}

#[test]
fn parse_failure_keeps_connection() {
    let mut pump = connected_pump();
    pump.step(Event::Trigger { token: None });
    let a = pump.step(Event::ReadDone(Err(PumpError::ParseFailure)));
    assert_eq!(a, Action::Skip(PumpError::ParseFailure));
    assert_eq!(pump.phase, Phase::Idle { run_count: 1 });
}

#[test]
fn missing_file_then_present_file() {
    let mut pump = connected_pump();
    assert_eq!(pump.step(Event::Trigger { token: None }), Action::Read);
    assert_eq!(
        pump.step(Event::ReadDone(Err(PumpError::ReadFailure))),
        Action::Skip(PumpError::ReadFailure)
    );
    assert_eq!(pump.step(Event::Trigger { token: None }), Action::Read);
    assert_eq!(
        pump.step(Event::ReadDone(Ok(String::from("data")))),
        Action::Send(String::from("data"))
    );
    assert_eq!(pump.step(Event::SendDone(SendReport::Delivered)), Action::AwaitTrigger);
    assert_eq!(pump.phase, Phase::Idle { run_count: 2 });
}

#[test]
fn send_failure_reconnects_once() {
    let mut pump = connected_pump();
    pump.step(Event::Trigger { token: None });
    pump.step(Event::ReadDone(Ok(String::from("x"))));
    let a = pump.step(Event::SendDone(SendReport::ProbeFailed));
    assert_eq!(a, Action::Connect { attempt: 1, delay_ms: 0 });
    assert_eq!(pump.phase, Phase::Connecting { attempt: 1 });
    // no cycle runs before the connection is back
    assert_eq!(pump.step(Event::Trigger { token: None }), Action::Ignore);
    assert_eq!(pump.step(Event::Connected), Action::AwaitTrigger);
    assert_eq!(pump.phase, Phase::Idle { run_count: 1 });
}

#[test]
fn data_failure_after_probe_is_like_probe_failure() {
    let mut a = connected_pump();
    a.step(Event::Trigger { token: Some(3) });
    a.step(Event::ReadDone(Ok(String::from("x"))));
    let mut b = a;
    let ra = a.step(Event::SendDone(SendReport::DataFailed));
    let rb = b.step(Event::SendDone(SendReport::ProbeFailed));
    assert_eq!(ra, rb);
    assert_eq!(a, b);
    assert_eq!(ra, Action::Connect { attempt: 1, delay_ms: 0 });
}

#[test]
fn repeated_token_runs_one_cycle() {
    let mut pump = connected_pump();
    let mut reads = 0;
    let mut sends = 0;
    for _ in 0..2 {
        if pump.step(Event::Trigger { token: Some(42) }) == Action::Read {
            reads += 1;
            if let Action::Send(_) = pump.step(Event::ReadDone(Ok(String::from("p")))) {
                sends += 1;
                pump.step(Event::SendDone(SendReport::Delivered));
            }
        }
    }
    assert_eq!(reads, 1);
    assert_eq!(sends, 1);
    assert_eq!(pump.last_token, Some(42));
    // a new token starts a new cycle
    assert_eq!(pump.step(Event::Trigger { token: Some(43) }), Action::Read);
}

#[test]
fn timer_ticks_are_never_deduplicated() {
    let mut pump = connected_pump();
    pump.step(Event::Trigger { token: Some(7) });
    pump.step(Event::ReadDone(Err(PumpError::ReadFailure)));
    assert_eq!(pump.step(Event::Trigger { token: None }), Action::Read);
    assert_eq!(pump.last_token, Some(7));
}

#[test]
fn run_count_saturates() {
    let mut pump = Pump { phase: Phase::Sending { run_count: u64::MAX }, last_token: None };
    assert_eq!(pump.step(Event::SendDone(SendReport::Delivered)), Action::AwaitTrigger);
    assert_eq!(pump.phase, Phase::Idle { run_count: u64::MAX });
}

#[test]
fn out_of_phase_events_are_ignored() {
    let (mut pump, _) = Pump::start();
    let before = pump;
    assert_eq!(pump.step(Event::SendDone(SendReport::Delivered)), Action::Ignore);
    assert_eq!(pump.step(Event::ReadDone(Ok(String::new()))), Action::Ignore);
    assert_eq!(pump, before);
    let mut idle = connected_pump();
    assert_eq!(idle.step(Event::Connected), Action::Ignore);
    assert_eq!(idle.step(Event::ConnectFailed), Action::Ignore);
    assert_eq!(idle.phase, Phase::Idle { run_count: 1 });
}
