//! The commands of the tool, as plans.
//!
//! A command does not act: `run` checks its arguments and says what is to be
//! done. Whoever holds the plan carries it out.

use crate::filter::Filter;
use crate::namespace::NamespaceKind;
use crate::probe::ProbeDescriptor;
use crate::text::{all_digits, decimal_value, parse_u64, str_eq};
use vstd::prelude::*;
use vstd::string::*;

verus! {

/// The period of the CPU controller in microseconds.
pub const CPU_PERIOD_US: u64 = 100000;

/// The most characters that the name of a network interface may have.
pub const MAX_INTERFACE_NAME: usize = 15;

/// Why a command was refused.
#[derive(Debug, Clone, PartialEq, Eq)]
pub enum CommandError {
    /// A path is empty.
    EmptyPath,
    /// Not a memory limit.
    InvalidLimit { text: String },
    /// Not a CPU quota.
    InvalidQuota { text: String },
    /// Not a name of a network namespace or interface.
    InvalidName { name: String },
    /// Not an identifier of a container.
    InvalidId { id: String },
}

/// A limit of a resource.
#[derive(Debug, Clone, Copy, PartialEq, Eq, Structural)]
pub enum Limit {
    /// No limit.
    Unlimited,
    /// At most this much.
    Amount(u64),
}

/// The factor for which the suffix `c` of a memory limit stands.
pub open spec fn unit_factor(c: char) -> Option<u64> {
    if c == 'K' || c == 'k' {
        Some(1024u64)
    } else if c == 'M' || c == 'm' {
        Some(1048576u64)
    } else if c == 'G' || c == 'g' {
        Some(1073741824u64)
    } else {
        None
    }
}

/// The amount that `digits` times `factor` writes, where `digits` is a number
/// and the amount fits in 64 bits.
pub open spec fn scaled(digits: Seq<char>, factor: u64) -> Option<Limit> {
    if digits.len() > 0 && all_digits(digits) && decimal_value(digits) * factor <= u64::MAX {
        Some(Limit::Amount((decimal_value(digits) * factor) as u64))
    } else {
        None
    }
}

/// The limit that `text` writes: `max` for none; else a decimal number of
/// bytes, or a decimal number followed by one of `K`, `M`, `G` (or their
/// small letters) for that many times 1024, 1024² or 1024³ bytes.
pub open spec fn memory_limit_of(text: Seq<char>) -> Option<Limit> {
    if text == seq!['m', 'a', 'x'] {
        Some(Limit::Unlimited)
    } else if text.len() > 0 && unit_factor(text.last()) is Some {
        scaled(text.drop_last(), unit_factor(text.last())->Some_0)
    } else {
        scaled(text, 1)
    }
}

/// The quota that `text` writes: `max` for none; else a decimal number of
/// microseconds per period, which is not 0.
pub open spec fn cpu_quota_of(text: Seq<char>) -> Option<Limit> {
    if text == seq!['m', 'a', 'x'] {
        Some(Limit::Unlimited)
    } else if scaled(text, 1) is Some && scaled(text, 1) != Some(Limit::Amount(0)) {
        scaled(text, 1)
    } else {
        None
    }
}

fn unit_of(c: char) -> (r: Option<u64>)
    ensures
        r == unit_factor(c),
{
    if c == 'K' || c == 'k' {
        Some(1024)
    } else if c == 'M' || c == 'm' {
        Some(1048576)
    } else if c == 'G' || c == 'g' {
        Some(1073741824)
    } else {
        None
    }
}

fn scale(digits: &str, factor: u64) -> (r: Option<Limit>)
    requires
        factor >= 1,
    ensures
        r == scaled(digits@, factor),
{
    match parse_u64(digits) {
        None => {
            proof {
                if digits@.len() > 0 && all_digits(digits@) {
                    assert(decimal_value(digits@) * factor > u64::MAX) by (nonlinear_arith)
                        requires
                            decimal_value(digits@) > u64::MAX,
                            factor >= 1,
                    ;
                }
            }
            None
        },
        Some(v) => {
            if v > u64::MAX / factor {
                assert(v * factor > u64::MAX) by (nonlinear_arith)
                    requires
                        v > u64::MAX / factor,
                        factor >= 1,
                ;
                None
            } else {
                assert(v * factor <= u64::MAX) by (nonlinear_arith)
                    requires
                        v <= u64::MAX / factor,
                        factor >= 1,
                ;
                Some(Limit::Amount(v * factor))
            }
        },
    }
}

/// Reads a memory limit.
pub fn parse_memory_limit(text: &str) -> (r: Option<Limit>)
    ensures
        r == memory_limit_of(text@),
{
    proof {
        reveal_strlit("max");
        assert("max"@ =~= seq!['m', 'a', 'x']);
    }
    if str_eq(text, "max") {
        return Some(Limit::Unlimited);
    }
    let n = text.unicode_len();
    if n > 0 {
        match unit_of(text.get_char(n - 1)) {
            Some(factor) => {
                let digits = text.substring_char(0, n - 1);
                assert(digits@ =~= text@.drop_last());
                return scale(digits, factor);
            },
            None => {},
        }
    }
    scale(text, 1)
}

/// Reads a CPU quota.
pub fn parse_cpu_quota(text: &str) -> (r: Option<Limit>)
    ensures
        r == cpu_quota_of(text@),
{
    proof {
        reveal_strlit("max");
        assert("max"@ =~= seq!['m', 'a', 'x']);
    }
    if str_eq(text, "max") {
        return Some(Limit::Unlimited);
    }
    match scale(text, 1) {
        Some(Limit::Amount(v)) => if v == 0 {
            None
        } else {
            Some(Limit::Amount(v))
        },
        _ => None,
    }
}

/// Whether `name` can name a network interface or namespace: 1 to 15
/// characters, none of them a slash, a space or a colon.
pub open spec fn valid_name(name: Seq<char>) -> bool {
    &&& 0 < name.len() <= MAX_INTERFACE_NAME
    &&& forall|i: int|
        0 <= i < name.len() ==> #[trigger] name[i] != '/' && name[i] != ' ' && name[i] != ':'
}

/// Whether `name` can name a network interface or namespace.
pub fn is_valid_name(name: &str) -> (r: bool)
    ensures
        r == valid_name(name@),
{
    let n = name.unicode_len();
    if n == 0 || n > MAX_INTERFACE_NAME {
        return false;
    }
    let mut i: usize = 0;
    while i < n
        invariant
            i <= n,
            n == name@.len(),
            forall|j: int|
                0 <= j < i ==> #[trigger] name@[j] != '/' && name@[j] != ' ' && name@[j] != ':',
        decreases n - i,
    {
        let c = name.get_char(i);
        if c == '/' || c == ' ' || c == ':' {
            return false;
        }
        i += 1;
    }
    true
}

/// Whether `c` may stand in the identifier of a container.
pub open spec fn id_char(c: char) -> bool {
    ('a' <= c <= 'z') || ('A' <= c <= 'Z') || ('0' <= c <= '9') || c == '_' || c == '-' || c
        == '.' || c == '+'
}

/// Whether `id` can identify a container: at least one character, each a
/// letter, a digit or one of `_`, `-`, `.`, `+`.
pub open spec fn valid_id(id: Seq<char>) -> bool {
    &&& id.len() > 0
    &&& forall|i: int| 0 <= i < id.len() ==> id_char(#[trigger] id[i])
}

/// Whether `id` can identify a container.
pub fn is_valid_id(id: &str) -> (r: bool)
    ensures
        r == valid_id(id@),
{
    let n = id.unicode_len();
    if n == 0 {
        return false;
    }
    let mut i: usize = 0;
    while i < n
        invariant
            i <= n,
            n == id@.len(),
            forall|j: int| 0 <= j < i ==> id_char(#[trigger] id@[j]),
        decreases n - i,
    {
        let c = id.get_char(i);
        let ok = ('a' <= c && c <= 'z') || ('A' <= c && c <= 'Z') || ('0' <= c && c <= '9') || c
            == '_' || c == '-' || c == '.' || c == '+';
        if !ok {
            assert(!id_char(id@[i as int]));
            return false;
        }
        i += 1;
    }
    true
}

fn copy_of(s: &String) -> (r: String)
    ensures
        r@ == s@,
{
    String::from_str(s.as_str())
}

/// Commands on control groups.
#[derive(Debug, Clone, PartialEq, Eq)]
pub enum CgroupCommand {
    /// Create a group.
    Create { path: String },
    /// Delete a group.
    Delete { path: String },
    /// Put a process into a group.
    Attach { path: String, pid: u32 },
    /// Limit the memory of a group.
    Memory { path: String, limit: String },
    /// Limit the CPU time of a group.
    Cpu { path: String, quota: String },
}

/// What a command on control groups asks for.
#[derive(Debug, Clone, PartialEq, Eq)]
pub enum CgroupAction {
    /// Create the directory of the group.
    CreateGroup { path: String },
    /// Remove the directory of the group.
    RemoveGroup { path: String },
    /// Write the process id to the group's list of processes.
    AddProcess { path: String, pid: u32 },
    /// Write the limit to the group's memory maximum.
    SetMemoryMax { path: String, limit: Limit },
    /// Write the quota and the period to the group's CPU maximum.
    SetCpuMax { path: String, quota: Limit, period_us: u64 },
}

impl CgroupCommand {
    /// The path of the group that the command names.
    pub open spec fn path(&self) -> Seq<char> {
        match self {
            CgroupCommand::Create { path } => path@,
            CgroupCommand::Delete { path } => path@,
            CgroupCommand::Attach { path, .. } => path@,
            CgroupCommand::Memory { path, .. } => path@,
            CgroupCommand::Cpu { path, .. } => path@,
        }
    }

    /// Whether `r` is the plan of the command. An empty path is refused
    /// before anything else; then a limit or quota that cannot be read.
    pub open spec fn planned(&self, r: Result<CgroupAction, CommandError>) -> bool {
        if self.path().len() == 0 {
            r == Err::<CgroupAction, CommandError>(CommandError::EmptyPath)
        } else {
            match self {
                CgroupCommand::Create { path } => r matches Ok(CgroupAction::CreateGroup { path: p })
                    && p@ == path@,
                CgroupCommand::Delete { path } => r matches Ok(CgroupAction::RemoveGroup { path: p })
                    && p@ == path@,
                CgroupCommand::Attach { path, pid } => r matches Ok(
                    CgroupAction::AddProcess { path: p, pid: q },
                ) && p@ == path@ && q == pid,
                CgroupCommand::Memory { path, limit } => match memory_limit_of(limit@) {
                    Some(l) => r matches Ok(CgroupAction::SetMemoryMax { path: p, limit: m })
                        && p@ == path@ && m == l,
                    None => r matches Err(CommandError::InvalidLimit { text }) && text@ == limit@,
                },
                CgroupCommand::Cpu { path, quota } => match cpu_quota_of(quota@) {
                    Some(l) => r matches Ok(
                        CgroupAction::SetCpuMax { path: p, quota: m, period_us },
                    ) && p@ == path@ && m == l && period_us == CPU_PERIOD_US,
                    None => r matches Err(CommandError::InvalidQuota { text }) && text@ == quota@,
                },
            }
        }
    }

    /// The plan of the command.
    pub fn run(&self) -> (r: Result<CgroupAction, CommandError>)
        ensures
            self.planned(r),
    {
        match self {
            CgroupCommand::Create { path } => {
                if path.as_str().unicode_len() == 0 {
                    return Err(CommandError::EmptyPath);
                }
                Ok(CgroupAction::CreateGroup { path: copy_of(path) })
            },
            CgroupCommand::Delete { path } => {
                if path.as_str().unicode_len() == 0 {
                    return Err(CommandError::EmptyPath);
                }
                Ok(CgroupAction::RemoveGroup { path: copy_of(path) })
            },
            CgroupCommand::Attach { path, pid } => {
                if path.as_str().unicode_len() == 0 {
                    return Err(CommandError::EmptyPath);
                }
                Ok(CgroupAction::AddProcess { path: copy_of(path), pid: *pid })
            },
            CgroupCommand::Memory { path, limit } => {
                if path.as_str().unicode_len() == 0 {
                    return Err(CommandError::EmptyPath);
                }
                match parse_memory_limit(limit.as_str()) {
                    Some(l) => Ok(CgroupAction::SetMemoryMax { path: copy_of(path), limit: l }),
                    None => Err(CommandError::InvalidLimit { text: copy_of(limit) }),
                }
            },
            CgroupCommand::Cpu { path, quota } => {
                if path.as_str().unicode_len() == 0 {
                    return Err(CommandError::EmptyPath);
                }
                match parse_cpu_quota(quota.as_str()) {
                    Some(l) => Ok(
                        CgroupAction::SetCpuMax {
                            path: copy_of(path),
                            quota: l,
                            period_us: CPU_PERIOD_US,
                        },
                    ),
                    None => Err(CommandError::InvalidQuota { text: copy_of(quota) }),
                }
            },
        }
    }
}

/// Commands on network namespaces.
#[derive(Debug, Clone, PartialEq, Eq)]
pub enum NetCommand {
    /// Create a network namespace.
    Create { name: String },
    /// Delete a network namespace.
    Delete { name: String },
    /// Connect the host and a network namespace by a pair of interfaces.
    Veth { host: String, ns: String },
}

/// What a command on network namespaces asks for.
#[derive(Debug, Clone, PartialEq, Eq)]
pub enum NetAction {
    /// Create the namespace of this name.
    CreateNamespace { name: String },
    /// Delete the namespace of this name.
    DeleteNamespace { name: String },
    /// Create a pair of interfaces, `host` on the host's side and `peer`
    /// inside the namespace `namespace`.
    CreateVethPair { host: String, peer: String, namespace: String },
}

impl NetCommand {
    /// The first name of the command that is no valid name, if there is one.
    pub open spec fn bad_name(&self) -> Option<Seq<char>> {
        match self {
            NetCommand::Create { name } => if valid_name(name@) {
                None
            } else {
                Some(name@)
            },
            NetCommand::Delete { name } => if valid_name(name@) {
                None
            } else {
                Some(name@)
            },
            NetCommand::Veth { host, ns } => if !valid_name(host@) {
                Some(host@)
            } else if !valid_name(ns@) {
                Some(ns@)
            } else {
                None
            },
        }
    }

    /// Whether `r` is the plan of the command. A name that is not valid is
    /// refused.
    pub open spec fn planned(&self, r: Result<NetAction, CommandError>) -> bool {
        match self.bad_name() {
            Some(bad) => r matches Err(CommandError::InvalidName { name }) && name@ == bad,
            None => match self {
                NetCommand::Create { name } => r matches Ok(NetAction::CreateNamespace { name: n })
                    && n@ == name@,
                NetCommand::Delete { name } => r matches Ok(NetAction::DeleteNamespace { name: n })
                    && n@ == name@,
                NetCommand::Veth { host, ns } => r matches Ok(
                    NetAction::CreateVethPair { host: h, peer, namespace },
                ) && h@ == host@ && peer@ == ns@ && namespace@ == ns@,
            },
        }
    }

    /// The plan of the command.
    pub fn run(&self) -> (r: Result<NetAction, CommandError>)
        ensures
            self.planned(r),
    {
        match self {
            NetCommand::Create { name } => {
                if !is_valid_name(name.as_str()) {
                    return Err(CommandError::InvalidName { name: copy_of(name) });
                }
                Ok(NetAction::CreateNamespace { name: copy_of(name) })
            },
            NetCommand::Delete { name } => {
                if !is_valid_name(name.as_str()) {
                    return Err(CommandError::InvalidName { name: copy_of(name) });
                }
                Ok(NetAction::DeleteNamespace { name: copy_of(name) })
            },
            NetCommand::Veth { host, ns } => {
                if !is_valid_name(host.as_str()) {
                    return Err(CommandError::InvalidName { name: copy_of(host) });
                }
                if !is_valid_name(ns.as_str()) {
                    return Err(CommandError::InvalidName { name: copy_of(ns) });
                }
                Ok(
                    NetAction::CreateVethPair {
                        host: copy_of(host),
                        peer: copy_of(ns),
                        namespace: copy_of(ns),
                    },
                )
            },
        }
    }
}

/// Commands on namespaces.
#[derive(Debug, Clone, Copy, PartialEq, Eq, Structural)]
pub enum NsCommand {
    /// A new process namespace, with a shell in it.
    Pid,
    /// A new mount namespace, with a temporary directory of its own.
    Mount,
    /// A small container: process, mount and host name namespaces together.
    Container,
}

/// What a command on namespaces asks for.
#[derive(Debug, Clone, PartialEq, Eq)]
pub struct NsAction {
    /// The namespaces to create, in order.
    pub namespaces: Vec<NamespaceKind>,
    /// The flags of these namespaces together.
    pub flags: u64,
    /// Whether to go on in a child process.
    pub fork_child: bool,
    /// Whether to mount a temporary directory of its own.
    pub private_tmp: bool,
    /// Whether to mount a process file system of its own.
    pub private_proc: bool,
    /// Whether to set a host name inside.
    pub set_hostname: bool,
}

impl NsCommand {
    /// The namespaces that the command creates, in order.
    pub open spec fn namespaces(self) -> Seq<NamespaceKind> {
        match self {
            NsCommand::Pid => seq![NamespaceKind::Pid],
            NsCommand::Mount => seq![NamespaceKind::Mount],
            NsCommand::Container => seq![
                NamespaceKind::Pid,
                NamespaceKind::Mount,
                NamespaceKind::Uts,
            ],
        }
    }

    /// The flags of these namespaces together.
    pub open spec fn flags(self) -> u64 {
        match self {
            NsCommand::Pid => 0x2000_0000,
            NsCommand::Mount => 0x0002_0000,
            NsCommand::Container => 0x2402_0000,
        }
    }

    /// The plan of the command: the namespaces and their flags; a child
    /// process where a process namespace is among them; a temporary
    /// directory for the mount namespace alone; a process file system and a
    /// host name for the container.
    pub fn run(&self) -> (r: NsAction)
        ensures
            r.namespaces@ == self.namespaces(),
            r.flags == self.flags(),
            r.fork_child == (*self != NsCommand::Mount),
            r.private_tmp == (*self == NsCommand::Mount),
            r.private_proc == (*self == NsCommand::Container),
            r.set_hostname == (*self == NsCommand::Container),
    {
        let mut namespaces: Vec<NamespaceKind> = Vec::new();
        match self {
            NsCommand::Pid => {
                namespaces.push(NamespaceKind::Pid);
                assert(namespaces@ =~= self.namespaces());
                NsAction {
                    namespaces,
                    flags: NamespaceKind::Pid.clone_flag(),
                    fork_child: true,
                    private_tmp: false,
                    private_proc: false,
                    set_hostname: false,
                }
            },
            NsCommand::Mount => {
                namespaces.push(NamespaceKind::Mount);
                assert(namespaces@ =~= self.namespaces());
                NsAction {
                    namespaces,
                    flags: NamespaceKind::Mount.clone_flag(),
                    fork_child: false,
                    private_tmp: true,
                    private_proc: false,
                    set_hostname: false,
                }
            },
            NsCommand::Container => {
                namespaces.push(NamespaceKind::Pid);
                namespaces.push(NamespaceKind::Mount);
                namespaces.push(NamespaceKind::Uts);
                assert(namespaces@ =~= self.namespaces());
                let flags = NamespaceKind::Pid.clone_flag() | NamespaceKind::Mount.clone_flag()
                    | NamespaceKind::Uts.clone_flag();
                assert(0x2000_0000u64 | 0x0002_0000u64 | 0x0400_0000u64 == 0x2402_0000u64)
                    by (bit_vector);
                NsAction {
                    namespaces,
                    flags,
                    fork_child: true,
                    private_tmp: false,
                    private_proc: true,
                    set_hostname: true,
                }
            },
        }
    }
}

/// Commands on container bundles.
#[derive(Debug, Clone, PartialEq, Eq)]
pub enum OciCommand {
    /// Make a bundle directory.
    Init { path: String },
    /// Run a container from a bundle.
    Run { path: String, id: String },
}

/// What a command on container bundles asks for.
#[derive(Debug, Clone, PartialEq, Eq)]
pub enum OciAction {
    /// Create the root file system directory and write the configuration.
    InitBundle { bundle: String, rootfs: String, config: String },
    /// Hand the bundle to the runtime under this identifier.
    RunBundle { bundle: String, id: String },
}

impl OciCommand {
    /// Whether `r` is the plan of the command. An empty path is refused
    /// first, then an identifier that is not valid. The root file system
    /// and the configuration lie directly in the bundle.
    pub open spec fn planned(&self, r: Result<OciAction, CommandError>) -> bool {
        match self {
            OciCommand::Init { path } => if path@.len() == 0 {
                r == Err::<OciAction, CommandError>(CommandError::EmptyPath)
            } else {
                r matches Ok(OciAction::InitBundle { bundle, rootfs, config }) && bundle@ == path@
                    && rootfs@ == path@ + "/rootfs"@ && config@ == path@ + "/config.json"@
            },
            OciCommand::Run { path, id } => if path@.len() == 0 {
                r == Err::<OciAction, CommandError>(CommandError::EmptyPath)
            } else if !valid_id(id@) {
                r matches Err(CommandError::InvalidId { id: bad }) && bad@ == id@
            } else {
                r matches Ok(OciAction::RunBundle { bundle, id: run_id }) && bundle@ == path@
                    && run_id@ == id@
            },
        }
    }

    /// The plan of the command.
    pub fn run(&self) -> (r: Result<OciAction, CommandError>)
        ensures
            self.planned(r),
    {
        match self {
            OciCommand::Init { path } => {
                if path.as_str().unicode_len() == 0 {
                    return Err(CommandError::EmptyPath);
                }
                let mut rootfs = copy_of(path);
                rootfs.append("/rootfs");
                let mut config = copy_of(path);
                config.append("/config.json");
                Ok(OciAction::InitBundle { bundle: copy_of(path), rootfs, config })
            },
            OciCommand::Run { path, id } => {
                if path.as_str().unicode_len() == 0 {
                    return Err(CommandError::EmptyPath);
                }
                if !is_valid_id(id.as_str()) {
                    return Err(CommandError::InvalidId { id: copy_of(id) });
                }
                Ok(OciAction::RunBundle { bundle: copy_of(path), id: copy_of(id) })
            },
        }
    }
}

/// Commands on tracing.
#[derive(Debug, Clone, Copy, PartialEq, Eq, Structural)]
pub enum TraceCommand {
    /// Check what tracing needs of the environment.
    Check,
    /// Trace system calls, of one process or of all.
    Syscalls { pid: Option<u32> },
    /// Trace the life of processes: creation, execution, exit.
    Events,
}

/// What a command on tracing asks for.
#[derive(Debug, Clone)]
pub enum TraceAction {
    /// Check the environment.
    CheckEnvironment,
    /// Run a session with these probes and this filter until it is
    /// cancelled.
    StartSession { descriptors: Vec<ProbeDescriptor>, filter: Filter },
}

/// Whether `d` is the static tracepoint of `category` and `name`.
pub open spec fn is_tracepoint(d: ProbeDescriptor, category: Seq<char>, name: Seq<char>) -> bool {
    d matches ProbeDescriptor::StaticTracepoint { category: c, name: n } && c@ == category && n@
        == name
}

fn tracepoint(category: &str, name: &str) -> (d: ProbeDescriptor)
    ensures
        is_tracepoint(d, category@, name@),
{
    ProbeDescriptor::StaticTracepoint {
        category: String::from_str(category),
        name: String::from_str(name),
    }
}

impl TraceCommand {
    /// Whether `r` is the plan of the command: the check; or a session on
    /// the entry of every system call, filtered by the process where one is
    /// given; or a session on the three tracepoints of a process's life,
    /// with no filter.
    pub open spec fn planned(self, r: TraceAction) -> bool {
        match self {
            TraceCommand::Check => r is CheckEnvironment,
            TraceCommand::Syscalls { pid } => {
                &&& r matches TraceAction::StartSession { descriptors, filter }
                &&& descriptors@.len() == 1
                &&& is_tracepoint(descriptors@[0], "raw_syscalls"@, "sys_enter"@)
                &&& filter.pid == pid
                &&& filter.comm is None
                &&& filter.syscall_nr is None
            },
            TraceCommand::Events => {
                &&& r matches TraceAction::StartSession { descriptors, filter }
                &&& descriptors@.len() == 3
                &&& is_tracepoint(descriptors@[0], "sched"@, "sched_process_fork"@)
                &&& is_tracepoint(descriptors@[1], "sched"@, "sched_process_exec"@)
                &&& is_tracepoint(descriptors@[2], "sched"@, "sched_process_exit"@)
                &&& filter.pid is None
                &&& filter.comm is None
                &&& filter.syscall_nr is None
            },
        }
    }

    /// The plan of the command.
    pub fn run(&self) -> (r: TraceAction)
        ensures
            self.planned(r),
    {
        match self {
            TraceCommand::Check => TraceAction::CheckEnvironment,
            TraceCommand::Syscalls { pid } => {
                let mut descriptors: Vec<ProbeDescriptor> = Vec::new();
                descriptors.push(tracepoint("raw_syscalls", "sys_enter"));
                TraceAction::StartSession {
                    descriptors,
                    filter: Filter { pid: *pid, comm: None, syscall_nr: None },
                }
            },
            TraceCommand::Events => {
                let mut descriptors: Vec<ProbeDescriptor> = Vec::new();
                descriptors.push(tracepoint("sched", "sched_process_fork"));
                descriptors.push(tracepoint("sched", "sched_process_exec"));
                descriptors.push(tracepoint("sched", "sched_process_exit"));
                TraceAction::StartSession { descriptors, filter: Filter::any() }
            },
        }
    }
}

} // verus!
