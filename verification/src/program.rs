//! The probe programs, as they run on the producer's side.
//!
//! A program is a one-shot handler: it reads a fixed context, and either
//! submits one record to the channel of the current CPU or steps one counter.
//! It allocates nothing, loops over nothing unbounded, and always returns the
//! success code. What goes wrong inside is counted, never passed on.

use crate::channel::{submitted, ChannelSet, EventChannel, SubmitOutcome};
use crate::counting::{next_count, stepped, CountingTable};
use crate::schema::{SyscallEvent, SyscallKey, COMM_LEN};
use vstd::prelude::*;

verus! {

/// The code that every program returns.
pub const PROBE_OK: u32 = 0;

/// A read of the context failed.
pub const ERR_READ_FAILED: i64 = -14;

/// No consumer reads the channel of this CPU.
pub const ERR_NO_READER: i64 = -2;

/// The channel of this CPU is full.
pub const ERR_CHANNEL_FULL: i64 = -28;

/// The counting table is full.
pub const ERR_TABLE_FULL: i64 = -7;

/// Identifier of the events of a probe that reads none.
pub const EVENT_NONE: u64 = 0;

/// Identifier of the events of the process-execution tracepoint.
pub const EVENT_EXEC: u64 = 59;

/// What the kernel's read-only accessors give a program when it fires.
#[derive(Debug, Clone, Copy)]
pub struct ProbeContext {
    /// Process id in the upper 32 bits, thread id in the lower.
    pub pid_tgid: u64,
    /// Monotonic time in nanoseconds.
    pub timestamp_ns: u64,
    /// Number of the CPU that runs the program.
    pub cpu: u32,
    /// The command name, where reading it succeeded.
    pub comm: Option<[u8; COMM_LEN]>,
    /// The first argument of the probed call, where reading it succeeded.
    pub first_arg: Option<u64>,
    /// The value that the probed call returned, where there is one.
    pub return_value: Option<u64>,
    /// The instruction pointer at the moment of the sample.
    pub instruction_pointer: u64,
}

/// Where a program puts what it saw.
#[derive(Debug, Clone, Copy, PartialEq, Eq, Structural)]
pub enum ProbeMode {
    /// One record into the channel of the current CPU.
    Stream,
    /// One step of the counter of the process and the event.
    Count,
}

/// What the programs share with the consumer.
#[derive(Debug)]
pub struct KernelMaps {
    /// One channel per CPU.
    pub channels: ChannelSet,
    /// The counting table.
    pub table: CountingTable,
    /// How many firings recorded nothing.
    pub failures: u64,
}

impl KernelMaps {
    /// The invariant of the channels and of the table.
    pub open spec fn wf(&self) -> bool {
        self.channels.wf() && self.table.wf()
    }

    /// Whether the channel of `cpu`, if there is one, can count one more event.
    pub open spec fn has_room(&self, cpu: u32) -> bool {
        cpu < self.channels.channels().len() ==> self.channels.channels()[cpu as int].produced_count()
            < u64::MAX
    }

    /// Empty channels for `cpus` CPUs and an empty table.
    pub fn new(cpus: usize, channel_capacity: usize, table_capacity: usize) -> (m: Self)
        ensures
            m.wf(),
            m.channels.channels().len() == cpus,
            forall|cpu: u32| m.has_room(cpu),
            m.table.counts() == Map::<SyscallKey, u64>::empty(),
            m.table.bound() == table_capacity,
            m.failures == 0,
    {
        KernelMaps {
            channels: ChannelSet::new(cpus, channel_capacity),
            table: CountingTable::new(table_capacity),
            failures: 0,
        }
    }
}

/// The process id that `pid_tgid` holds: its upper 32 bits.
pub open spec fn pid_of(pid_tgid: u64) -> u32 {
    (pid_tgid / 0x1_0000_0000) as u32
}

/// The thread id that `pid_tgid` holds: its lower 32 bits.
pub open spec fn tid_of(pid_tgid: u64) -> u32 {
    (pid_tgid % 0x1_0000_0000) as u32
}

/// Splits the combined identifier into process id and thread id.
pub fn split_pid_tgid(pid_tgid: u64) -> (r: (u32, u32))
    ensures
        r.0 == pid_of(pid_tgid),
        r.1 == tid_of(pid_tgid),
{
    assert(pid_tgid >> 32 == pid_tgid / 0x1_0000_0000) by (bit_vector);
    assert(pid_tgid & 0xffff_ffff == pid_tgid % 0x1_0000_0000) by (bit_vector);
    let pid = (pid_tgid >> 32) as u32;
    let tid = (pid_tgid & 0xffff_ffff) as u32;
    (pid, tid)
}

/// The record of a firing with context `ctx`, command name `comm` and event
/// identifier `id`.
pub open spec fn record_of(ctx: ProbeContext, comm: [u8; COMM_LEN], id: u64) -> SyscallEvent {
    SyscallEvent {
        pid: pid_of(ctx.pid_tgid),
        tid: tid_of(ctx.pid_tgid),
        syscall_nr: id,
        timestamp_ns: ctx.timestamp_ns,
        comm,
    }
}

/// What handing an event to the channel of `cpu` will give.
pub open spec fn expected_outcome(channels: Seq<EventChannel>, cpu: u32) -> Option<SubmitOutcome> {
    if cpu >= channels.len() {
        None
    } else if channels[cpu as int].pending().len() < channels[cpu as int].bound() {
        Some(SubmitOutcome::Queued)
    } else {
        Some(SubmitOutcome::Dropped)
    }
}

/// The result that a program's inner step reports for an outcome.
pub open spec fn outcome_code(outcome: Option<SubmitOutcome>) -> Result<u32, i64> {
    match outcome {
        None => Err(ERR_NO_READER),
        Some(SubmitOutcome::Queued) => Ok(PROBE_OK),
        Some(SubmitOutcome::Dropped) => Err(ERR_CHANNEL_FULL),
    }
}

/// How one firing changes the shared state, and what its inner step reports.
///
/// Without a command name or an identifier nothing is recorded. In stream
/// mode the record goes to the channel of the current CPU. In count mode the
/// counter of the process and the event is stepped. The count of failures is
/// not touched here.
pub open spec fn fired(
    before: KernelMaps,
    after: KernelMaps,
    ctx: ProbeContext,
    id: Option<u64>,
    mode: ProbeMode,
    result: Result<u32, i64>,
) -> bool {
    &&& after.failures == before.failures
    &&& if ctx.comm is None || id is None {
        &&& after.channels == before.channels
        &&& after.table == before.table
        &&& result == Err::<u32, i64>(ERR_READ_FAILED)
    } else {
        match mode {
            ProbeMode::Stream => {
                let outcome = expected_outcome(before.channels.channels(), ctx.cpu);
                &&& after.table == before.table
                &&& submitted(
                    before.channels.channels(),
                    after.channels.channels(),
                    ctx.cpu as usize,
                    record_of(ctx, ctx.comm->Some_0, id->Some_0),
                    outcome,
                )
                &&& result == outcome_code(outcome)
            },
            ProbeMode::Count => {
                let key = SyscallKey { pid: pid_of(ctx.pid_tgid), _pad: 0, syscall_nr: id->Some_0 };
                &&& after.channels == before.channels
                &&& stepped(before.table, after.table, key, result is Ok)
                &&& result is Ok ==> result == Ok::<u32, i64>(PROBE_OK)
                &&& result is Err ==> result == Err::<u32, i64>(ERR_TABLE_FULL)
            },
        }
    }
}

/// How one run of a program changes the shared state: as [`fired`] says for
/// some inner result, and a run that recorded nothing is counted as a
/// failure.
pub open spec fn ran(
    before: KernelMaps,
    after: KernelMaps,
    ctx: ProbeContext,
    id: Option<u64>,
    mode: ProbeMode,
) -> bool {
    exists|result: Result<u32, i64>|
        {
            &&& #[trigger] fired(
                before,
                KernelMaps { failures: before.failures, ..after },
                ctx,
                id,
                mode,
                result,
            )
            &&& after.failures == if result is Ok {
                before.failures
            } else {
                next_count(before.failures)
            }
        }
}

/// Assembles the record of a firing with identifier `id`; `None` where
/// reading the command name failed.
pub fn build_event(ctx: &ProbeContext, id: u64) -> (r: Option<SyscallEvent>)
    ensures
        r == match ctx.comm {
            Some(comm) => Some(record_of(*ctx, comm, id)),
            None => None,
        },
{
    match ctx.comm {
        Some(comm) => {
            let (pid, tid) = split_pid_tgid(ctx.pid_tgid);
            Some(SyscallEvent { pid, tid, syscall_nr: id, timestamp_ns: ctx.timestamp_ns, comm })
        },
        None => None,
    }
}

/// The number of the CPU that runs the program.
pub fn get_cpu_id(ctx: &ProbeContext) -> (cpu: u32)
    ensures
        cpu == ctx.cpu,
{
    ctx.cpu
}

/// Reads the first argument of the probed call: for the entry of a system
/// call, its number.
pub fn try_read_syscall_args(ctx: &ProbeContext) -> (r: Result<u64, i64>)
    ensures
        r == match ctx.first_arg {
            Some(arg) => Ok::<u64, i64>(arg),
            None => Err::<u64, i64>(ERR_READ_FAILED),
        },
{
    match ctx.first_arg {
        Some(arg) => Ok(arg),
        None => Err(ERR_READ_FAILED),
    }
}

/// Submits `event` to the channel of `cpu`.
pub fn send_event(maps: &mut KernelMaps, cpu: u32, event: &SyscallEvent) -> (r: Result<(), i64>)
    requires
        old(maps).wf(),
        old(maps).has_room(cpu),
    ensures
        final(maps).wf(),
        final(maps).table == old(maps).table,
        final(maps).failures == old(maps).failures,
        submitted(
            old(maps).channels.channels(),
            final(maps).channels.channels(),
            cpu as usize,
            *event,
            expected_outcome(old(maps).channels.channels(), cpu),
        ),
        r is Ok <==> expected_outcome(old(maps).channels.channels(), cpu) == Some(
            SubmitOutcome::Queued,
        ),
        r is Err ==> Err::<u32, i64>(r->Err_0) == outcome_code(
            expected_outcome(old(maps).channels.channels(), cpu),
        ),
{
    match maps.channels.submit(cpu as usize, *event) {
        None => Err(ERR_NO_READER),
        Some(SubmitOutcome::Queued) => Ok(()),
        Some(SubmitOutcome::Dropped) => Err(ERR_CHANNEL_FULL),
    }
}

/// The inner step of every program: records one firing with identifier `id`
/// and reports what went wrong, if anything did.
pub fn try_record(ctx: &ProbeContext, id: Option<u64>, mode: ProbeMode, maps: &mut KernelMaps) -> (r:
    Result<u32, i64>)
    requires
        old(maps).wf(),
        mode == ProbeMode::Stream ==> old(maps).has_room(ctx.cpu),
    ensures
        final(maps).wf(),
        fired(*old(maps), *final(maps), *ctx, id, mode, r),
{
    let id = match id {
        Some(id) => id,
        None => {
            return Err(ERR_READ_FAILED);
        },
    };
    let event = match build_event(ctx, id) {
        Some(event) => event,
        None => {
            return Err(ERR_READ_FAILED);
        },
    };
    match mode {
        ProbeMode::Stream => {
            match send_event(maps, get_cpu_id(ctx), &event) {
                Ok(()) => Ok(PROBE_OK),
                Err(code) => Err(code),
            }
        },
        ProbeMode::Count => {
            if maps.table.increment(SyscallKey::new(event.pid, id)) {
                Ok(PROBE_OK)
            } else {
                Err(ERR_TABLE_FULL)
            }
        },
    }
}

/// Runs one program: records the firing, counts a failure where nothing was
/// recorded, and returns the success code either way.
pub fn run_probe(ctx: &ProbeContext, id: Option<u64>, mode: ProbeMode, maps: &mut KernelMaps) -> (code:
    u32)
    requires
        old(maps).wf(),
        mode == ProbeMode::Stream ==> old(maps).has_room(ctx.cpu),
    ensures
        code == PROBE_OK,
        final(maps).wf(),
        ran(*old(maps), *final(maps), *ctx, id, mode),
{
    let r = try_record(ctx, id, mode, maps);
    let ghost mid = *maps;
    if r.is_err() {
        maps.failures = if maps.failures == u64::MAX {
            maps.failures
        } else {
            maps.failures + 1
        };
    }
    proof {
        let shown = KernelMaps { failures: old(maps).failures, ..*maps };
        assert(shown.channels == mid.channels);
        assert(shown.table == mid.table);
        assert(shown == mid);
        assert(fired(*old(maps), shown, *ctx, id, mode, r));
    }
    PROBE_OK
}

/// Inner step of [`hello_kprobe`].
pub fn try_hello_kprobe(ctx: &ProbeContext, mode: ProbeMode, maps: &mut KernelMaps) -> (r: Result<
    u32,
    i64,
>)
    requires
        old(maps).wf(),
        mode == ProbeMode::Stream ==> old(maps).has_room(ctx.cpu),
    ensures
        final(maps).wf(),
        fired(*old(maps), *final(maps), *ctx, Some(EVENT_NONE), mode, r),
{
    try_record(ctx, Some(EVENT_NONE), mode, maps)
}

/// Inner step of [`syscall_kprobe`].
pub fn try_syscall_kprobe(ctx: &ProbeContext, mode: ProbeMode, maps: &mut KernelMaps) -> (r: Result<
    u32,
    i64,
>)
    requires
        old(maps).wf(),
        mode == ProbeMode::Stream ==> old(maps).has_room(ctx.cpu),
    ensures
        final(maps).wf(),
        fired(*old(maps), *final(maps), *ctx, ctx.first_arg, mode, r),
{
    match try_read_syscall_args(ctx) {
        Ok(nr) => try_record(ctx, Some(nr), mode, maps),
        Err(_) => try_record(ctx, None, mode, maps),
    }
}

/// Entry of a kernel function: records the firing with no event identifier.
pub fn hello_kprobe(ctx: &ProbeContext, mode: ProbeMode, maps: &mut KernelMaps) -> (code: u32)
    requires
        old(maps).wf(),
        mode == ProbeMode::Stream ==> old(maps).has_room(ctx.cpu),
    ensures
        code == PROBE_OK,
        final(maps).wf(),
        ran(*old(maps), *final(maps), *ctx, Some(EVENT_NONE), mode),
{
    run_probe(ctx, Some(EVENT_NONE), mode, maps)
}

/// Entry of a system call: the identifier is the first argument.
pub fn syscall_kprobe(ctx: &ProbeContext, mode: ProbeMode, maps: &mut KernelMaps) -> (code: u32)
    requires
        old(maps).wf(),
        mode == ProbeMode::Stream ==> old(maps).has_room(ctx.cpu),
    ensures
        code == PROBE_OK,
        final(maps).wf(),
        ran(*old(maps), *final(maps), *ctx, ctx.first_arg, mode),
{
    run_probe(ctx, ctx.first_arg, mode, maps)
}

/// Entry of a function of a binary: records the firing with no event
/// identifier.
pub fn hello_uprobe(ctx: &ProbeContext, mode: ProbeMode, maps: &mut KernelMaps) -> (code: u32)
    requires
        old(maps).wf(),
        mode == ProbeMode::Stream ==> old(maps).has_room(ctx.cpu),
    ensures
        code == PROBE_OK,
        final(maps).wf(),
        ran(*old(maps), *final(maps), *ctx, Some(EVENT_NONE), mode),
{
    run_probe(ctx, Some(EVENT_NONE), mode, maps)
}

/// Return of a function of a binary: the identifier is the returned value.
pub fn hello_uretprobe(ctx: &ProbeContext, mode: ProbeMode, maps: &mut KernelMaps) -> (code: u32)
    requires
        old(maps).wf(),
        mode == ProbeMode::Stream ==> old(maps).has_room(ctx.cpu),
    ensures
        code == PROBE_OK,
        final(maps).wf(),
        ran(*old(maps), *final(maps), *ctx, ctx.return_value, mode),
{
    run_probe(ctx, ctx.return_value, mode, maps)
}

/// Static tracepoint at the entry of a system call: the identifier is the
/// call's number, the first field of the tracepoint.
pub fn sys_enter_tracepoint(ctx: &ProbeContext, mode: ProbeMode, maps: &mut KernelMaps) -> (code:
    u32)
    requires
        old(maps).wf(),
        mode == ProbeMode::Stream ==> old(maps).has_room(ctx.cpu),
    ensures
        code == PROBE_OK,
        final(maps).wf(),
        ran(*old(maps), *final(maps), *ctx, ctx.first_arg, mode),
{
    run_probe(ctx, ctx.first_arg, mode, maps)
}

/// Static tracepoint of the scheduler: records the firing with no event
/// identifier.
pub fn sched_tracepoint(ctx: &ProbeContext, mode: ProbeMode, maps: &mut KernelMaps) -> (code: u32)
    requires
        old(maps).wf(),
        mode == ProbeMode::Stream ==> old(maps).has_room(ctx.cpu),
    ensures
        code == PROBE_OK,
        final(maps).wf(),
        ran(*old(maps), *final(maps), *ctx, Some(EVENT_NONE), mode),
{
    run_probe(ctx, Some(EVENT_NONE), mode, maps)
}

/// Static tracepoint of process execution: the identifier is that of the
/// system call that executes a program.
pub fn exec_tracepoint(ctx: &ProbeContext, mode: ProbeMode, maps: &mut KernelMaps) -> (code: u32)
    requires
        old(maps).wf(),
        mode == ProbeMode::Stream ==> old(maps).has_room(ctx.cpu),
    ensures
        code == PROBE_OK,
        final(maps).wf(),
        ran(*old(maps), *final(maps), *ctx, Some(EVENT_EXEC), mode),
{
    run_probe(ctx, Some(EVENT_EXEC), mode, maps)
}

/// Static tracepoint of packet reception: records the firing with no event
/// identifier.
pub fn net_rx_tracepoint(ctx: &ProbeContext, mode: ProbeMode, maps: &mut KernelMaps) -> (code: u32)
    requires
        old(maps).wf(),
        mode == ProbeMode::Stream ==> old(maps).has_room(ctx.cpu),
    ensures
        code == PROBE_OK,
        final(maps).wf(),
        ran(*old(maps), *final(maps), *ctx, Some(EVENT_NONE), mode),
{
    run_probe(ctx, Some(EVENT_NONE), mode, maps)
}

/// Periodic sample: the identifier is the instruction pointer.
pub fn perf_sample(ctx: &ProbeContext, mode: ProbeMode, maps: &mut KernelMaps) -> (code: u32)
    requires
        old(maps).wf(),
        mode == ProbeMode::Stream ==> old(maps).has_room(ctx.cpu),
    ensures
        code == PROBE_OK,
        final(maps).wf(),
        ran(*old(maps), *final(maps), *ctx, Some(ctx.instruction_pointer), mode),
{
    run_probe(ctx, Some(ctx.instruction_pointer), mode, maps)
}

} // verus!
