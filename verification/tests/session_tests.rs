use ebpf_tool::channel::{ChannelSet, SubmitOutcome};
use ebpf_tool::filter::Filter;
use ebpf_tool::probe::{
    AttachConditions, AttachError, AttachHandle, ProbeDescriptor, ProbeKind, ProgramHandle,
};
use ebpf_tool::program::{sys_enter_tracepoint, KernelMaps, ProbeContext, ProbeMode};
use ebpf_tool::schema::SyscallEvent;
use ebpf_tool::session::{
    step, timer_expired, Session, SessionError, SessionState, StopReason, Trigger, NANOS_PER_SEC,
};

const ALL_GOOD: AttachConditions =
    AttachConditions { target_exists: true, has_capability: true, verifier_accepts: true };
const MISSING: AttachConditions =
    AttachConditions { target_exists: false, has_capability: true, verifier_accepts: true };

fn tracepoint(category: &str, name: &str) -> ProbeDescriptor {
    ProbeDescriptor::StaticTracepoint { category: category.to_string(), name: name.to_string() }
}

fn kprobe(symbol: &str) -> ProbeDescriptor {
    ProbeDescriptor::DynamicFunctionProbe { symbol: symbol.to_string() }
}

fn program(kind: ProbeKind) -> ProgramHandle {
    ProgramHandle { kind, image_length: 64 }
}

fn event(n: u64) -> SyscallEvent {
    SyscallEvent { pid: 1, tid: 1, syscall_nr: n, timestamp_ns: n, comm: [0u8; 16] }
}

fn numbers(events: &[SyscallEvent]) -> Vec<u64> {
    events.iter().map(|e| e.syscall_nr).collect()
}

const STATES: [SessionState; 5] = [
    SessionState::Idle,
    SessionState::Attaching,
    SessionState::Running,
    SessionState::Draining,
    SessionState::Stopped,
];

const TRIGGERS: [Trigger; 8] = [
    Trigger::Start,
    Trigger::ProbeAttached { last: false },
    Trigger::ProbeAttached { last: true },
    Trigger::AttachFailed,
    Trigger::TimerExpired,
    Trigger::Cancel,
    Trigger::ReaderError,
    Trigger::DrainComplete,
];

#[test]
fn the_transition_table_is_exact() {
    for state in STATES {
        for trigger in TRIGGERS {
            let expected = match (state, trigger) {
                (SessionState::Idle, Trigger::Start) => SessionState::Attaching,
                (SessionState::Idle, Trigger::Cancel) => SessionState::Stopped,
                (SessionState::Attaching, Trigger::ProbeAttached { last: false }) => {
                    SessionState::Attaching
                }
                (SessionState::Attaching, Trigger::ProbeAttached { last: true }) => {
                    SessionState::Running
                }
                (SessionState::Attaching, Trigger::AttachFailed) => SessionState::Stopped,
                (SessionState::Attaching, Trigger::Cancel) => SessionState::Stopped,
                (SessionState::Running, Trigger::TimerExpired) => SessionState::Draining,
                (SessionState::Running, Trigger::Cancel) => SessionState::Draining,
                (SessionState::Running, Trigger::ReaderError) => SessionState::Draining,
                (SessionState::Draining, Trigger::DrainComplete) => SessionState::Stopped,
                (s, _) => s,
            };
            assert_eq!(step(state, trigger), expected, "{:?} on {:?}", state, trigger);
        }
    }
}

#[test]
fn no_transition_skips_draining() {
    for trigger in TRIGGERS {
        let next = step(SessionState::Running, trigger);
        assert!(next == SessionState::Running || next == SessionState::Draining);
        assert_eq!(step(SessionState::Stopped, trigger), SessionState::Stopped);
    }
    for state in STATES {
        for trigger in TRIGGERS {
            if step(state, trigger) == SessionState::Stopped {
                assert_ne!(state, SessionState::Running);
            }
        }
    }
}

#[test]
fn the_timer_is_exact() {
    assert_eq!(NANOS_PER_SEC, 1_000_000_000);
    assert!(!timer_expired(1, 0, 999_999_999));
    assert!(timer_expired(1, 0, 1_000_000_000));
    assert!(timer_expired(1, 0, 1_000_000_001));
    assert!(!timer_expired(2, 500, 2_000_000_499));
    assert!(timer_expired(2, 500, 2_000_000_500));
    assert!(!timer_expired(5, 100, 50));
    assert!(!timer_expired(0, 0, u64::MAX));
    assert!(!timer_expired(0, 0, 0));
    assert!(timer_expired(18446744073, 0, 18446744073000000000));
    assert!(!timer_expired(18446744073, 0, 18446744072999999999));
    assert!(!timer_expired(18446744074, 0, u64::MAX));
    assert!(!timer_expired(u64::MAX, 0, u64::MAX));
}

#[test]
fn test_kprobe_respects_duration() {
    let mut session = Session::new(vec![kprobe("do_sys_openat2")], Filter::any(), 2);
    assert!(session.start(1_000));
    session.attach_next(&program(ProbeKind::DynamicFunctionProbe), ALL_GOOD, 5_000).unwrap();
    assert_eq!(session.current_state(), SessionState::Running);
    assert!(!session.tick(5_000));
    assert!(!session.tick(5_000 + 2 * NANOS_PER_SEC - 1));
    assert_eq!(session.current_state(), SessionState::Running);
    assert!(session.tick(5_000 + 2 * NANOS_PER_SEC));
    assert_eq!(session.current_state(), SessionState::Draining);
    assert_eq!(session.stop_reason(), Some(StopReason::Completed));
    assert_eq!(session.attachments(), 0);
    assert!(!session.tick(5_000 + 3 * NANOS_PER_SEC));
}

#[test]
fn a_session_without_duration_ends_only_when_cancelled() {
    let mut session = Session::new(vec![kprobe("vfs_read")], Filter::any(), 0);
    session.start(0);
    session.attach_next(&program(ProbeKind::DynamicFunctionProbe), ALL_GOOD, 0).unwrap();
    for now in [0, 1, NANOS_PER_SEC, 1_000 * NANOS_PER_SEC, u64::MAX] {
        assert!(!session.tick(now));
        assert_eq!(session.current_state(), SessionState::Running);
    }
    session.cancel();
    assert_eq!(session.current_state(), SessionState::Draining);
    assert_eq!(session.stop_reason(), Some(StopReason::Cancelled));
    assert_eq!(session.attachments(), 0);
}

#[test]
fn session_with_one_tracepoint_runs_one_second_and_stops() {
    let mut channels = ChannelSet::new(2, 1024);
    let mut session =
        Session::new(vec![tracepoint("syscalls", "sys_enter_openat")], Filter::any(), 1);
    assert_eq!(session.current_state(), SessionState::Idle);
    assert!(session.start(0));
    assert_eq!(session.current_state(), SessionState::Attaching);
    assert_eq!(session.next_descriptor(), Some(&tracepoint("syscalls", "sys_enter_openat")));
    let attached = session.attach_next(&program(ProbeKind::StaticTracepoint), ALL_GOOD, 100);
    assert_eq!(attached, Ok(AttachHandle { id: 0 }));
    assert_eq!(session.current_state(), SessionState::Running);
    assert_eq!(session.attachments(), 1);
    assert_eq!(session.next_descriptor(), None);
    for n in 0..5u64 {
        assert_eq!(channels.submit((n % 2) as usize, event(n)), Some(SubmitOutcome::Queued));
    }
    assert_eq!(numbers(&session.collect(&mut channels)), vec![0, 2, 4, 1, 3]);
    channels.submit(0, event(5));
    assert!(!session.tick(100 + NANOS_PER_SEC - 1));
    assert!(session.tick(100 + NANOS_PER_SEC));
    assert_eq!(session.current_state(), SessionState::Draining);
    let summary = session.finish(&mut channels).unwrap();
    assert_eq!(session.current_state(), SessionState::Stopped);
    assert_eq!(summary.reason, StopReason::Completed);
    assert_eq!(numbers(&summary.events), vec![5]);
    assert_eq!(summary.dropped, 0);
    assert_eq!(session.attachments(), 0);
    assert!(session.finish(&mut channels).is_none());
}

#[test]
fn attach_to_a_missing_target_stops_the_session_before_it_runs() {
    let mut session =
        Session::new(vec![kprobe("nonexistent_function_xyz123")], Filter::any(), 1);
    session.start(0);
    assert_eq!(session.current_state(), SessionState::Attaching);
    let err = session
        .attach_next(&program(ProbeKind::DynamicFunctionProbe), MISSING, 0)
        .unwrap_err();
    assert_eq!(
        err,
        SessionError::Attach {
            error: AttachError::TargetNotFound {
                target: "nonexistent_function_xyz123".to_string(),
            },
        }
    );
    assert_eq!(session.current_state(), SessionState::Stopped);
    assert_eq!(session.stop_reason(), Some(StopReason::AttachFailed));
    assert_eq!(session.attachments(), 0);
    assert!(!session.tick(u64::MAX));
    assert_eq!(session.current_state(), SessionState::Stopped);
}

#[test]
fn a_failed_attach_rolls_back_the_earlier_ones() {
    let descriptors = vec![kprobe("a"), kprobe("b"), kprobe("missing")];
    let mut session = Session::new(descriptors, Filter::any(), 0);
    session.start(0);
    let program = program(ProbeKind::DynamicFunctionProbe);
    assert_eq!(session.attach_next(&program, ALL_GOOD, 0), Ok(AttachHandle { id: 0 }));
    assert_eq!(session.current_state(), SessionState::Attaching);
    assert_eq!(session.attach_next(&program, ALL_GOOD, 0), Ok(AttachHandle { id: 1 }));
    assert_eq!(session.attachments(), 2);
    assert_eq!(session.next_descriptor(), Some(&kprobe("missing")));
    let err = session.attach_next(&program, MISSING, 0).unwrap_err();
    assert_eq!(
        err,
        SessionError::Attach { error: AttachError::TargetNotFound { target: "missing".to_string() } }
    );
    assert_eq!(session.attachments(), 0);
    assert_eq!(session.current_state(), SessionState::Stopped);
    assert_eq!(
        session.attach_next(&program, ALL_GOOD, 0),
        Err(SessionError::WrongState { state: SessionState::Stopped })
    );
}

#[test]
fn steps_out_of_turn_change_nothing() {
    let mut channels = ChannelSet::new(1, 4);
    channels.submit(0, event(1));
    let mut session = Session::new(vec![kprobe("a")], Filter::any(), 1);
    let program = program(ProbeKind::DynamicFunctionProbe);
    assert_eq!(
        session.attach_next(&program, ALL_GOOD, 0),
        Err(SessionError::WrongState { state: SessionState::Idle })
    );
    assert!(!session.tick(u64::MAX));
    session.reader_failed();
    assert_eq!(session.current_state(), SessionState::Idle);
    assert!(session.collect(&mut channels).is_empty());
    assert!(session.finish(&mut channels).is_none());
    assert_eq!(session.next_descriptor(), None);
    assert!(session.start(7));
    assert!(!session.start(8));
    assert!(session.collect(&mut channels).is_empty());
    session.reader_failed();
    assert_eq!(session.current_state(), SessionState::Attaching);
    assert_eq!(numbers(&channels.drain_all()), vec![1]);
}

#[test]
fn cancelling_before_the_session_runs_stops_it() {
    let mut session = Session::new(vec![kprobe("a"), kprobe("b")], Filter::any(), 0);
    session.cancel();
    assert_eq!(session.current_state(), SessionState::Stopped);
    assert_eq!(session.stop_reason(), Some(StopReason::Cancelled));
    let mut session = Session::new(vec![kprobe("a"), kprobe("b")], Filter::any(), 0);
    session.start(0);
    session.attach_next(&program(ProbeKind::DynamicFunctionProbe), ALL_GOOD, 0).unwrap();
    assert_eq!(session.attachments(), 1);
    session.cancel();
    assert_eq!(session.current_state(), SessionState::Stopped);
    assert_eq!(session.attachments(), 0);
    session.cancel();
    assert_eq!(session.current_state(), SessionState::Stopped);
    assert_eq!(session.stop_reason(), Some(StopReason::Cancelled));
}

#[test]
fn a_reader_error_drains_the_session() {
    let mut channels = ChannelSet::new(1, 2);
    let mut session = Session::new(Vec::new(), Filter::any(), 10);
    assert!(session.start(3));
    assert_eq!(session.current_state(), SessionState::Running);
    for n in 0..4 {
        channels.submit(0, event(n));
    }
    session.reader_failed();
    assert_eq!(session.current_state(), SessionState::Draining);
    assert_eq!(session.stop_reason(), Some(StopReason::ReaderFailed));
    session.cancel();
    assert_eq!(session.stop_reason(), Some(StopReason::ReaderFailed));
    let summary = session.finish(&mut channels).unwrap();
    assert_eq!(summary.reason, StopReason::ReaderFailed);
    assert_eq!(numbers(&summary.events), vec![0, 1]);
    assert_eq!(summary.dropped, 2);
    assert_eq!(session.current_state(), SessionState::Stopped);
}

#[test]
fn test_trace_runs_successfully() {
    let mut maps = KernelMaps::new(2, 8, 16);
    let filter = Filter::from_options(None, None, Some("openat")).unwrap();
    let mut session = Session::new(vec![tracepoint("raw_syscalls", "sys_enter")], filter, 1);
    session.start(0);
    session.attach_next(&program(ProbeKind::StaticTracepoint), ALL_GOOD, 0).unwrap();
    let mut comm = [0u8; 16];
    comm[..2].copy_from_slice(b"ls");
    for (n, nr) in [257u64, 0, 257, 1, 257].iter().enumerate() {
        let ctx = ProbeContext {
            pid_tgid: (9u64 << 32) | 9,
            timestamp_ns: n as u64,
            cpu: (n % 2) as u32,
            comm: Some(comm),
            first_arg: Some(*nr),
            return_value: None,
            instruction_pointer: 0,
        };
        assert_eq!(sys_enter_tracepoint(&ctx, ProbeMode::Stream, &mut maps), 0);
    }
    let seen = session.collect(&mut maps.channels);
    assert_eq!(seen.len(), 3);
    assert!(seen.iter().all(|e| e.syscall_nr == 257 && e.pid == 9 && e.comm == comm));
    assert_eq!(seen.iter().map(|e| e.timestamp_ns).collect::<Vec<u64>>(), vec![0, 2, 4]);
    assert!(session.tick(NANOS_PER_SEC));
    let summary = session.finish(&mut maps.channels).unwrap();
    assert!(summary.events.is_empty());
    assert_eq!(summary.dropped, 0);
    assert_eq!(summary.reason, StopReason::Completed);
}
