use ebpf_tool::program::{
    exec_tracepoint, get_cpu_id, hello_kprobe, hello_uprobe, hello_uretprobe, net_rx_tracepoint,
    perf_sample, run_probe, sched_tracepoint, send_event, split_pid_tgid, sys_enter_tracepoint,
    syscall_kprobe, try_hello_kprobe, try_read_syscall_args, try_record, try_syscall_kprobe,
    KernelMaps, ProbeContext, ProbeMode, ERR_CHANNEL_FULL, ERR_NO_READER, ERR_READ_FAILED,
    ERR_TABLE_FULL, EVENT_EXEC, EVENT_NONE, PROBE_OK,
};
use ebpf_tool::schema::{SyscallEvent, SyscallKey};

fn bash() -> [u8; 16] {
    let mut comm = [0u8; 16];
    comm[..4].copy_from_slice(b"bash");
    comm
}

fn context() -> ProbeContext {
    ProbeContext {
        pid_tgid: (1234u64 << 32) | 5678,
        timestamp_ns: 99,
        cpu: 1,
        comm: Some(bash()),
        first_arg: Some(257),
        return_value: Some(3),
        instruction_pointer: 0xffff_ffff_8100_0000,
    }
}

fn only_event(maps: &mut KernelMaps) -> SyscallEvent {
    let events = maps.channels.drain_all();
    assert_eq!(events.len(), 1);
    events[0]
}

#[test]
fn the_combined_identifier_is_split() {
    assert_eq!(split_pid_tgid((1234u64 << 32) | 5678), (1234, 5678));
    assert_eq!(split_pid_tgid(0), (0, 0));
    assert_eq!(split_pid_tgid(u64::MAX), (u32::MAX, u32::MAX));
    assert_eq!(split_pid_tgid(0xffff_ffff), (0, u32::MAX));
    assert_eq!(split_pid_tgid(1 << 32), (1, 0));
}

#[test]
fn the_context_is_read() {
    let ctx = context();
    assert_eq!(get_cpu_id(&ctx), 1);
    assert_eq!(try_read_syscall_args(&ctx), Ok(257));
    let blind = ProbeContext { first_arg: None, ..ctx };
    assert_eq!(try_read_syscall_args(&blind), Err(ERR_READ_FAILED));
    assert_eq!(ERR_READ_FAILED, -14);
    assert_eq!(ERR_NO_READER, -2);
    assert_eq!(ERR_CHANNEL_FULL, -28);
    assert_eq!(ERR_TABLE_FULL, -7);
}

#[test]
fn test_kprobe_shows_events() {
    let mut maps = KernelMaps::new(2, 4, 4);
    assert_eq!(syscall_kprobe(&context(), ProbeMode::Stream, &mut maps), PROBE_OK);
    assert_eq!(maps.failures, 0);
    let e = only_event(&mut maps);
    assert_eq!(e.pid, 1234);
    assert_eq!(e.tid, 5678);
    assert_eq!(e.syscall_nr, 257);
    assert_eq!(e.timestamp_ns, 99);
    assert_eq!(e.comm, bash());
    assert!(maps.table.snapshot().is_empty());
}

#[test]
fn each_program_takes_its_identifier_from_its_own_place() {
    let ctx = context();
    let mut maps = KernelMaps::new(2, 16, 4);
    assert_eq!(hello_kprobe(&ctx, ProbeMode::Stream, &mut maps), 0);
    assert_eq!(syscall_kprobe(&ctx, ProbeMode::Stream, &mut maps), 0);
    assert_eq!(hello_uprobe(&ctx, ProbeMode::Stream, &mut maps), 0);
    assert_eq!(hello_uretprobe(&ctx, ProbeMode::Stream, &mut maps), 0);
    assert_eq!(sys_enter_tracepoint(&ctx, ProbeMode::Stream, &mut maps), 0);
    assert_eq!(sched_tracepoint(&ctx, ProbeMode::Stream, &mut maps), 0);
    assert_eq!(exec_tracepoint(&ctx, ProbeMode::Stream, &mut maps), 0);
    assert_eq!(net_rx_tracepoint(&ctx, ProbeMode::Stream, &mut maps), 0);
    assert_eq!(perf_sample(&ctx, ProbeMode::Stream, &mut maps), 0);
    let ids: Vec<u64> = maps.channels.drain_all().iter().map(|e| e.syscall_nr).collect();
    assert_eq!(
        ids,
        vec![EVENT_NONE, 257, EVENT_NONE, 3, 257, EVENT_NONE, EVENT_EXEC, EVENT_NONE, 0xffff_ffff_8100_0000]
    );
    assert_eq!(EVENT_NONE, 0);
    assert_eq!(EVENT_EXEC, 59);
    assert_eq!(maps.failures, 0);
}

#[test]
fn count_mode_steps_the_counter_of_process_and_event() {
    let ctx = context();
    let mut maps = KernelMaps::new(2, 4, 4);
    for _ in 0..3 {
        assert_eq!(sys_enter_tracepoint(&ctx, ProbeMode::Count, &mut maps), PROBE_OK);
    }
    assert_eq!(exec_tracepoint(&ctx, ProbeMode::Count, &mut maps), PROBE_OK);
    assert_eq!(
        maps.table.snapshot(),
        vec![(SyscallKey::new(1234, 257), 3), (SyscallKey::new(1234, 59), 1)]
    );
    assert!(maps.channels.drain_all().is_empty());
    assert_eq!(maps.failures, 0);
}

#[test]
fn a_failed_read_is_swallowed_and_counted() {
    let mut maps = KernelMaps::new(2, 4, 4);
    let nameless = ProbeContext { comm: None, ..context() };
    assert_eq!(hello_kprobe(&nameless, ProbeMode::Stream, &mut maps), PROBE_OK);
    assert_eq!(hello_kprobe(&nameless, ProbeMode::Count, &mut maps), PROBE_OK);
    let blind = ProbeContext { first_arg: None, return_value: None, ..context() };
    assert_eq!(syscall_kprobe(&blind, ProbeMode::Stream, &mut maps), PROBE_OK);
    assert_eq!(hello_uretprobe(&blind, ProbeMode::Count, &mut maps), PROBE_OK);
    assert_eq!(maps.failures, 4);
    assert!(maps.channels.drain_all().is_empty());
    assert!(maps.table.snapshot().is_empty());
    assert_eq!(try_hello_kprobe(&nameless, ProbeMode::Stream, &mut maps), Err(ERR_READ_FAILED));
    assert_eq!(try_syscall_kprobe(&blind, ProbeMode::Stream, &mut maps), Err(ERR_READ_FAILED));
    assert_eq!(maps.failures, 4);
}

#[test]
fn a_full_channel_loses_the_event_and_counts_it() {
    let mut maps = KernelMaps::new(2, 1, 4);
    let ctx = context();
    assert_eq!(try_syscall_kprobe(&ctx, ProbeMode::Stream, &mut maps), Ok(PROBE_OK));
    assert_eq!(try_syscall_kprobe(&ctx, ProbeMode::Stream, &mut maps), Err(ERR_CHANNEL_FULL));
    assert_eq!(syscall_kprobe(&ctx, ProbeMode::Stream, &mut maps), PROBE_OK);
    assert_eq!(maps.failures, 1);
    assert_eq!(maps.channels.dropped(), 2);
    assert_eq!(maps.channels.drain_all().len(), 1);
}

#[test]
fn a_cpu_without_channel_has_no_reader() {
    let mut maps = KernelMaps::new(1, 4, 4);
    let ctx = context();
    assert_eq!(try_hello_kprobe(&ctx, ProbeMode::Stream, &mut maps), Err(ERR_NO_READER));
    assert_eq!(send_event(&mut maps, 5, &SyscallEvent::new()), Err(ERR_NO_READER));
    assert_eq!(send_event(&mut maps, 0, &SyscallEvent::new()), Ok(()));
    assert_eq!(hello_kprobe(&ctx, ProbeMode::Stream, &mut maps), PROBE_OK);
    assert_eq!(maps.failures, 1);
    assert_eq!(maps.channels.dropped(), 0);
    assert_eq!(maps.channels.drain_all().len(), 1);
}

#[test]
fn a_full_table_loses_the_count_and_counts_the_loss() {
    let mut maps = KernelMaps::new(2, 4, 1);
    let ctx = context();
    assert_eq!(try_record(&ctx, Some(1), ProbeMode::Count, &mut maps), Ok(PROBE_OK));
    assert_eq!(try_record(&ctx, Some(2), ProbeMode::Count, &mut maps), Err(ERR_TABLE_FULL));
    assert_eq!(run_probe(&ctx, Some(2), ProbeMode::Count, &mut maps), PROBE_OK);
    assert_eq!(run_probe(&ctx, Some(1), ProbeMode::Count, &mut maps), PROBE_OK);
    assert_eq!(maps.failures, 1);
    assert_eq!(maps.table.lost(), 2);
    assert_eq!(maps.table.snapshot(), vec![(SyscallKey::new(1234, 1), 2)]);
}

#[test]
fn the_count_of_failures_stops_at_the_largest_number() {
    let mut maps = KernelMaps::new(1, 4, 4);
    maps.failures = u64::MAX - 1;
    let nameless = ProbeContext { comm: None, ..context() };
    assert_eq!(hello_kprobe(&nameless, ProbeMode::Stream, &mut maps), PROBE_OK);
    assert_eq!(maps.failures, u64::MAX);
    assert_eq!(hello_kprobe(&nameless, ProbeMode::Stream, &mut maps), PROBE_OK);
    assert_eq!(maps.failures, u64::MAX);
}

#[test]
fn counting_table_path_counts_at_least_ten_events() {
    let mut maps = KernelMaps::new(4, 64, 10240);
    let watched = ProbeContext { pid_tgid: (42u64 << 32) | 42, first_arg: Some(1), ..context() };
    let other = ProbeContext { pid_tgid: (43u64 << 32) | 43, first_arg: Some(0), ..context() };
    for n in 0..12u64 {
        let ctx = ProbeContext { timestamp_ns: n, cpu: (n % 4) as u32, ..watched };
        assert_eq!(sys_enter_tracepoint(&ctx, ProbeMode::Count, &mut maps), PROBE_OK);
        if n % 3 == 0 {
            assert_eq!(sys_enter_tracepoint(&other, ProbeMode::Count, &mut maps), PROBE_OK);
        }
    }
    let snapshot = maps.table.snapshot();
    let count = snapshot
        .iter()
        .find(|(k, _)| *k == SyscallKey::new(42, 1))
        .map(|(_, c)| *c)
        .unwrap();
    assert!(count >= 10);
    assert_eq!(count, 12);
    assert_eq!(maps.table.get(&SyscallKey::new(43, 0)), 4);
}

#[test]
fn the_record_is_assembled_from_the_context() {
    let ctx = context();
    let e = ebpf_tool::program::build_event(&ctx, 257).unwrap();
    assert_eq!((e.pid, e.tid, e.syscall_nr, e.timestamp_ns), (1234, 5678, 257, 99));
    assert_eq!(e.comm, bash());
    let nameless = ProbeContext { comm: None, ..ctx };
    assert!(ebpf_tool::program::build_event(&nameless, 257).is_none());
}
