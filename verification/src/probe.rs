//! Probe descriptors and the bookkeeping of loaded programs and attachments.
//!
//! The manager decides; it does not talk to the kernel. Whoever drives it
//! reports what the kernel and the environment said as plain values, and learns
//! from the result what to do next.

use crate::errno::{E2BIG, EACCES, ENOENT, EPERM};
use crate::text::{decimal_text, str_eq, u64_to_decimal};
use vstd::prelude::*;
use vstd::string::*;

verus! {

/// Size in bytes of the header of a program image.
pub const IMAGE_HEADER_SIZE: usize = 64;

/// The machine number that marks an image as a probe program.
pub const IMAGE_MACHINE: u16 = 247;

/// The kinds of instrumentation points.
#[derive(Debug, Clone, Copy, PartialEq, Eq, Structural)]
pub enum ProbeKind {
    DynamicFunctionProbe,
    DynamicFunctionReturnProbe,
    StaticTracepoint,
    UserspaceFunctionProbe,
    UserspaceReturnProbe,
    PeriodicSample,
}

/// What to instrument: the kind of probe together with its target.
#[derive(Debug, Clone, PartialEq, Eq)]
pub enum ProbeDescriptor {
    /// Entry of a kernel function.
    DynamicFunctionProbe { symbol: String },
    /// Return of a kernel function.
    DynamicFunctionReturnProbe { symbol: String },
    /// A static tracepoint, by category and name.
    StaticTracepoint { category: String, name: String },
    /// Entry of a function of a binary.
    UserspaceFunctionProbe { binary: String, symbol: String },
    /// Return of a function of a binary.
    UserspaceReturnProbe { binary: String, symbol: String },
    /// A periodic sample, by frequency in hertz.
    PeriodicSample { frequency_hz: u64 },
}

impl ProbeDescriptor {
    /// The kind of the probe.
    pub open spec fn spec_kind(&self) -> ProbeKind {
        match self {
            ProbeDescriptor::DynamicFunctionProbe { .. } => ProbeKind::DynamicFunctionProbe,
            ProbeDescriptor::DynamicFunctionReturnProbe { .. } => {
                ProbeKind::DynamicFunctionReturnProbe
            },
            ProbeDescriptor::StaticTracepoint { .. } => ProbeKind::StaticTracepoint,
            ProbeDescriptor::UserspaceFunctionProbe { .. } => ProbeKind::UserspaceFunctionProbe,
            ProbeDescriptor::UserspaceReturnProbe { .. } => ProbeKind::UserspaceReturnProbe,
            ProbeDescriptor::PeriodicSample { .. } => ProbeKind::PeriodicSample,
        }
    }

    /// The target as one string: the symbol; `binary:symbol`; `category/name`;
    /// or the frequency in decimal.
    pub open spec fn label(&self) -> Seq<char> {
        match self {
            ProbeDescriptor::DynamicFunctionProbe { symbol } => symbol@,
            ProbeDescriptor::DynamicFunctionReturnProbe { symbol } => symbol@,
            ProbeDescriptor::StaticTracepoint { category, name } => category@ + seq!['/'] + name@,
            ProbeDescriptor::UserspaceFunctionProbe { binary, symbol } => binary@ + seq![':']
                + symbol@,
            ProbeDescriptor::UserspaceReturnProbe { binary, symbol } => binary@ + seq![':']
                + symbol@,
            ProbeDescriptor::PeriodicSample { frequency_hz } => decimal_text(*frequency_hz as nat),
        }
    }

    /// The name of the program that serves the descriptor: one for each kind
    /// but the return of a kernel function, which none serves. A static
    /// tracepoint is served by its category: system calls, process
    /// execution, the scheduler, the network; any other category by none.
    pub open spec fn program(&self) -> Option<Seq<char>> {
        match self {
            ProbeDescriptor::DynamicFunctionProbe { .. } => Some("hello_kprobe"@),
            ProbeDescriptor::DynamicFunctionReturnProbe { .. } => None,
            ProbeDescriptor::StaticTracepoint { category, name } => if category@ == "syscalls"@
                || category@ == "raw_syscalls"@ {
                Some("sys_enter_tracepoint"@)
            } else if category@ == "sched"@ && name@ == "sched_process_exec"@ {
                Some("exec_tracepoint"@)
            } else if category@ == "sched"@ {
                Some("sched_tracepoint"@)
            } else if category@ == "net"@ {
                Some("net_rx_tracepoint"@)
            } else {
                None
            },
            ProbeDescriptor::UserspaceFunctionProbe { .. } => Some("hello_uprobe"@),
            ProbeDescriptor::UserspaceReturnProbe { .. } => Some("hello_uretprobe"@),
            ProbeDescriptor::PeriodicSample { .. } => Some("perf_sample"@),
        }
    }

    /// The name of the program that serves the descriptor.
    pub fn program_name(&self) -> (r: Option<&'static str>)
        ensures
            r is Some <==> self.program() is Some,
            r is Some ==> r->Some_0@ == self.program()->Some_0,
    {
        match self {
            ProbeDescriptor::DynamicFunctionProbe { .. } => Some("hello_kprobe"),
            ProbeDescriptor::DynamicFunctionReturnProbe { .. } => None,
            ProbeDescriptor::StaticTracepoint { category, name } => {
                if str_eq(category.as_str(), "syscalls") || str_eq(
                    category.as_str(),
                    "raw_syscalls",
                ) {
                    Some("sys_enter_tracepoint")
                } else if str_eq(category.as_str(), "sched") && str_eq(
                    name.as_str(),
                    "sched_process_exec",
                ) {
                    Some("exec_tracepoint")
                } else if str_eq(category.as_str(), "sched") {
                    Some("sched_tracepoint")
                } else if str_eq(category.as_str(), "net") {
                    Some("net_rx_tracepoint")
                } else {
                    None
                }
            },
            ProbeDescriptor::UserspaceFunctionProbe { .. } => Some("hello_uprobe"),
            ProbeDescriptor::UserspaceReturnProbe { .. } => Some("hello_uretprobe"),
            ProbeDescriptor::PeriodicSample { .. } => Some("perf_sample"),
        }
    }

    /// The kind of the probe.
    pub fn kind(&self) -> (k: ProbeKind)
        ensures
            k == self.spec_kind(),
    {
        match self {
            ProbeDescriptor::DynamicFunctionProbe { .. } => ProbeKind::DynamicFunctionProbe,
            ProbeDescriptor::DynamicFunctionReturnProbe { .. } => {
                ProbeKind::DynamicFunctionReturnProbe
            },
            ProbeDescriptor::StaticTracepoint { .. } => ProbeKind::StaticTracepoint,
            ProbeDescriptor::UserspaceFunctionProbe { .. } => ProbeKind::UserspaceFunctionProbe,
            ProbeDescriptor::UserspaceReturnProbe { .. } => ProbeKind::UserspaceReturnProbe,
            ProbeDescriptor::PeriodicSample { .. } => ProbeKind::PeriodicSample,
        }
    }

    /// The target as one string.
    pub fn target(&self) -> (t: String)
        ensures
            t@ == self.label(),
    {
        proof {
            reveal_strlit("/");
            reveal_strlit(":");
        }
        match self {
            ProbeDescriptor::DynamicFunctionProbe { symbol } => String::from_str(symbol.as_str()),
            ProbeDescriptor::DynamicFunctionReturnProbe { symbol } => String::from_str(
                symbol.as_str(),
            ),
            ProbeDescriptor::StaticTracepoint { category, name } => {
                let mut t = String::from_str(category.as_str());
                t.append("/");
                t.append(name.as_str());
                assert("/"@ =~= seq!['/']);
                t
            },
            ProbeDescriptor::UserspaceFunctionProbe { binary, symbol } => {
                let mut t = String::from_str(binary.as_str());
                t.append(":");
                t.append(symbol.as_str());
                assert(":"@ =~= seq![':']);
                t
            },
            ProbeDescriptor::UserspaceReturnProbe { binary, symbol } => {
                let mut t = String::from_str(binary.as_str());
                t.append(":");
                t.append(symbol.as_str());
                assert(":"@ =~= seq![':']);
                t
            },
            ProbeDescriptor::PeriodicSample { frequency_hz } => u64_to_decimal(*frequency_hz),
        }
    }
}

/// Why a program image was not loaded. None of these is worth a retry.
#[derive(Debug, Clone, Copy, PartialEq, Eq, Structural)]
pub enum LoadError {
    /// There is no image: it has no bytes.
    ImageMissing,
    /// The image does not begin with the header of a probe program.
    ImageMalformed { length: usize },
    /// The kernel's verifier found the program too large.
    ProgramTooLarge,
    /// The kernel's verifier found a loop without a bound.
    UnboundedLoop,
    /// The kernel's verifier found a memory access without a check.
    UncheckedMemoryAccess,
}

/// What the kernel's verifier said of a program image.
#[derive(Debug, Clone, Copy, PartialEq, Eq, Structural)]
pub enum KernelVerdict {
    Accepted,
    TooLarge,
    UnboundedLoop,
    UncheckedMemoryAccess,
}

/// The machine number that the header of `image` names: two bytes at offset
/// 18, in the byte order that the byte at offset 5 tells (2 for the most
/// significant byte first).
pub open spec fn image_machine(image: Seq<u8>) -> int
    recommends
        image.len() >= IMAGE_HEADER_SIZE,
{
    if image[5] == 2 {
        image[18] as int * 256 + image[19] as int
    } else {
        image[19] as int * 256 + image[18] as int
    }
}

/// Whether `image` begins with the header of a probe program: an object file
/// of the 64-bit class for the probe machine.
pub open spec fn has_program_header(image: Seq<u8>) -> bool {
    &&& image.len() >= IMAGE_HEADER_SIZE
    &&& image[0] == 0x7f
    &&& image[1] == 0x45
    &&& image[2] == 0x4c
    &&& image[3] == 0x46
    &&& image[4] == 2
    &&& (image[5] == 1 || image[5] == 2)
    &&& image_machine(image) == IMAGE_MACHINE
}

/// The fault of `image` that is seen before the kernel is asked, if it has
/// one.
pub open spec fn image_fault(image: Seq<u8>) -> Option<LoadError> {
    if image.len() == 0 {
        Some(LoadError::ImageMissing)
    } else if !has_program_header(image) {
        Some(LoadError::ImageMalformed { length: image.len() as usize })
    } else {
        None
    }
}

/// The failure of loading `image` on the kernel's `verdict`, if it fails. The
/// image's own faults come first.
pub open spec fn load_failure(image: Seq<u8>, verdict: KernelVerdict) -> Option<LoadError> {
    match image_fault(image) {
        Some(e) => Some(e),
        None => match verdict {
            KernelVerdict::Accepted => None,
            KernelVerdict::TooLarge => Some(LoadError::ProgramTooLarge),
            KernelVerdict::UnboundedLoop => Some(LoadError::UnboundedLoop),
            KernelVerdict::UncheckedMemoryAccess => Some(LoadError::UncheckedMemoryAccess),
        },
    }
}

/// Validates a program image before it is handed to the kernel.
pub fn validate_image(image: &[u8]) -> (r: Result<(), LoadError>)
    ensures
        r == match image_fault(image@) {
            Some(e) => Err::<(), LoadError>(e),
            None => Ok::<(), LoadError>(()),
        },
{
    let length = image.len();
    if length == 0 {
        return Err(LoadError::ImageMissing);
    }
    if length < IMAGE_HEADER_SIZE {
        return Err(LoadError::ImageMalformed { length });
    }
    let magic = image[0] == 0x7f && image[1] == 0x45 && image[2] == 0x4c && image[3] == 0x46;
    let class = image[4] == 2;
    let order = image[5];
    let machine: u16 = if order == 2 {
        image[18] as u16 * 256 + image[19] as u16
    } else {
        image[19] as u16 * 256 + image[18] as u16
    };
    if magic && class && (order == 1 || order == 2) && machine == IMAGE_MACHINE {
        Ok(())
    } else {
        Err(LoadError::ImageMalformed { length })
    }
}

/// Whether `pattern` occurs in `text`.
pub open spec fn occurs_in(text: Seq<char>, pattern: Seq<char>) -> bool {
    exists|i: int|
        0 <= i && i + pattern.len() <= text.len() && #[trigger] text.subrange(
            i,
            i + pattern.len(),
        ) == pattern
}

/// Whether `pattern` occurs in `text`.
pub fn contains_text(text: &str, pattern: &str) -> (r: bool)
    ensures
        r == occurs_in(text@, pattern@),
{
    let n = text.unicode_len();
    let m = pattern.unicode_len();
    if m > n {
        return false;
    }
    if m == 0 {
        assert(text@.subrange(0int, 0int + pattern@.len()) =~= pattern@);
        return true;
    }
    let mut i: usize = 0;
    while i <= n - m
        invariant
            0 < m <= n,
            n == text@.len(),
            m == pattern@.len(),
            i <= n - m + 1,
            forall|j: int| 0 <= j < i ==> #[trigger] text@.subrange(j, j + m) != pattern@,
        decreases n - m + 1 - i,
    {
        if str_eq(text.substring_char(i, i + m), pattern) {
            return true;
        }
        i += 1;
    }
    false
}

/// The verdict that the kernel's answer to loading amounts to: error number
/// 0 accepts; else the program is too large where the number or the
/// verifier's log says so; else it has a loop without bound where the log
/// speaks of a back-edge or an infinite loop; else a memory access without a
/// check.
pub open spec fn verdict_of(errno: i32, log: Seq<char>) -> KernelVerdict {
    if errno == 0 {
        KernelVerdict::Accepted
    } else if errno == E2BIG || occurs_in(log, "too large"@) {
        KernelVerdict::TooLarge
    } else if occurs_in(log, "back-edge"@) || occurs_in(log, "infinite loop"@) {
        KernelVerdict::UnboundedLoop
    } else {
        KernelVerdict::UncheckedMemoryAccess
    }
}

/// Reads the kernel's answer to loading a program: the error number, 0 for
/// none, and the verifier's log.
pub fn classify_verdict(errno: i32, log: &str) -> (v: KernelVerdict)
    ensures
        v == verdict_of(errno, log@),
{
    if errno == 0 {
        KernelVerdict::Accepted
    } else if errno == E2BIG || contains_text(log, "too large") {
        KernelVerdict::TooLarge
    } else if contains_text(log, "back-edge") || contains_text(log, "infinite loop") {
        KernelVerdict::UnboundedLoop
    } else {
        KernelVerdict::UncheckedMemoryAccess
    }
}

/// A loaded program.
#[derive(Debug, Clone, Copy, PartialEq, Eq, Structural)]
pub struct ProgramHandle {
    /// The kind of probe that the program serves.
    pub kind: ProbeKind,
    /// The length of its image in bytes.
    pub image_length: usize,
}

/// One attachment of a program to a target.
#[derive(Debug, Clone, Copy, PartialEq, Eq, Structural)]
pub struct AttachHandle {
    /// The number that the manager gave to the attachment.
    pub id: u64,
}

/// Why an attachment failed. None of these is worth a retry.
#[derive(Debug, Clone, PartialEq, Eq)]
pub enum AttachError {
    /// The named function or tracepoint does not exist.
    TargetNotFound { target: String },
    /// The caller lacks the capability that attaching needs.
    PermissionDenied { target: String },
    /// The kernel's verifier refuses the program at this attach point.
    VerifierRejected { target: String },
}

/// The three ways an attachment fails.
#[derive(Debug, Clone, Copy, PartialEq, Eq, Structural)]
pub enum AttachErrorKind {
    TargetNotFound,
    PermissionDenied,
    VerifierRejected,
}

impl AttachError {
    /// The kind of the failure.
    pub open spec fn spec_kind(&self) -> AttachErrorKind {
        match self {
            AttachError::TargetNotFound { .. } => AttachErrorKind::TargetNotFound,
            AttachError::PermissionDenied { .. } => AttachErrorKind::PermissionDenied,
            AttachError::VerifierRejected { .. } => AttachErrorKind::VerifierRejected,
        }
    }

    /// The target that the failure names.
    pub open spec fn spec_target(&self) -> Seq<char> {
        match self {
            AttachError::TargetNotFound { target } => target@,
            AttachError::PermissionDenied { target } => target@,
            AttachError::VerifierRejected { target } => target@,
        }
    }

    /// The one-line cause that precedes the target in [`AttachError::message`].
    pub open spec fn cause(kind: AttachErrorKind) -> Seq<char> {
        match kind {
            AttachErrorKind::TargetNotFound => "target not found: "@,
            AttachErrorKind::PermissionDenied => "requires elevated privileges to attach: "@,
            AttachErrorKind::VerifierRejected => "verifier rejected the program for: "@,
        }
    }

    /// The kind of the failure.
    pub fn kind(&self) -> (k: AttachErrorKind)
        ensures
            k == self.spec_kind(),
    {
        match self {
            AttachError::TargetNotFound { .. } => AttachErrorKind::TargetNotFound,
            AttachError::PermissionDenied { .. } => AttachErrorKind::PermissionDenied,
            AttachError::VerifierRejected { .. } => AttachErrorKind::VerifierRejected,
        }
    }

    /// The target that the failure names.
    pub fn target(&self) -> (t: &str)
        ensures
            t@ == self.spec_target(),
    {
        match self {
            AttachError::TargetNotFound { target } => target.as_str(),
            AttachError::PermissionDenied { target } => target.as_str(),
            AttachError::VerifierRejected { target } => target.as_str(),
        }
    }

    /// One line for the user: the cause, then the exact target.
    pub fn message(&self) -> (m: String)
        ensures
            m@ == Self::cause(self.spec_kind()) + self.spec_target(),
    {
        let mut m = match self {
            AttachError::TargetNotFound { .. } => String::from_str("target not found: "),
            AttachError::PermissionDenied { .. } => String::from_str(
                "requires elevated privileges to attach: ",
            ),
            AttachError::VerifierRejected { .. } => String::from_str(
                "verifier rejected the program for: ",
            ),
        };
        m.append(self.target());
        m
    }
}

/// What was found out about one attachment before and while trying it.
#[derive(Debug, Clone, Copy, PartialEq, Eq, Structural)]
pub struct AttachConditions {
    /// Whether the named function or tracepoint exists.
    pub target_exists: bool,
    /// Whether the caller holds the capability that attaching needs.
    pub has_capability: bool,
    /// Whether the kernel's verifier accepts the program at this attach point.
    pub verifier_accepts: bool,
}

impl AttachConditions {
    /// The conditions that one attempt to attach shows: `errno` is the error
    /// number that the kernel gave, 0 for none; `symbol_missing` tells that
    /// the target was looked up and not found; `privileged` is what the
    /// capability check said. A missing target shows in the lookup or in the
    /// number of a missing file; a missing capability in the check or in the
    /// numbers of a missing permission and a refused access; any other
    /// number is the verifier's refusal.
    pub open spec fn of_attempt(errno: i32, symbol_missing: bool, privileged: bool) -> Self {
        AttachConditions {
            target_exists: !symbol_missing && errno != ENOENT,
            has_capability: privileged && errno != EPERM && errno != EACCES,
            verifier_accepts: errno == 0 || errno == ENOENT || errno == EPERM || errno == EACCES,
        }
    }

    /// The conditions that one attempt to attach shows.
    pub fn from_attempt(errno: i32, symbol_missing: bool, privileged: bool) -> (c: Self)
        ensures
            c == Self::of_attempt(errno, symbol_missing, privileged),
    {
        AttachConditions {
            target_exists: !symbol_missing && errno != ENOENT,
            has_capability: privileged && errno != EPERM && errno != EACCES,
            verifier_accepts: errno == 0 || errno == ENOENT || errno == EPERM || errno == EACCES,
        }
    }
}

/// The failure, if any, of attaching a program for probes of `program_kind` to
/// a target of `descriptor_kind` under `conditions`. A target that does not
/// exist is reported before anything else; a program of another kind than the
/// descriptor counts as refused by the verifier.
pub open spec fn attach_failure(
    program_kind: ProbeKind,
    descriptor_kind: ProbeKind,
    conditions: AttachConditions,
) -> Option<AttachErrorKind> {
    if !conditions.target_exists {
        Some(AttachErrorKind::TargetNotFound)
    } else if !conditions.has_capability {
        Some(AttachErrorKind::PermissionDenied)
    } else if !conditions.verifier_accepts || program_kind != descriptor_kind {
        Some(AttachErrorKind::VerifierRejected)
    } else {
        None
    }
}

/// Owner of the attachments. Nothing else detaches them.
#[derive(Debug)]
pub struct ProbeManager {
    issued: u64,
    live: Vec<u64>,
}

impl ProbeManager {
    /// The invariant: every live attachment has a number that was issued, and
    /// none is held twice.
    pub closed spec fn wf(&self) -> bool {
        &&& forall|i: int| 0 <= i < self.live@.len() ==> #[trigger] self.live@[i] < self.issued
        &&& forall|i: int, j: int|
            0 <= i < j < self.live@.len() ==> #[trigger] self.live@[i] < #[trigger] self.live@[j]
    }

    /// The numbers of the live attachments.
    pub closed spec fn attached(&self) -> Set<u64> {
        self.live@.to_set()
    }

    /// How many attachments were ever made.
    pub closed spec fn issued(&self) -> u64 {
        self.issued
    }

    /// A manager without attachments.
    pub fn new() -> (m: Self)
        ensures
            m.wf(),
            m.attached() == Set::<u64>::empty(),
            m.issued() == 0,
    {
        let m = ProbeManager { issued: 0, live: Vec::new() };
        assert(m.live@.to_set() =~= Set::<u64>::empty());
        m
    }

    /// Loads a program image for probes of `kind`. `verdict` is what the
    /// kernel's verifier said of the image; it counts only where the image
    /// itself is sound.
    pub fn load(&self, kind: ProbeKind, image: &[u8], verdict: KernelVerdict) -> (r: Result<
        ProgramHandle,
        LoadError,
    >)
        ensures
            r == match load_failure(image@, verdict) {
                Some(e) => Err::<ProgramHandle, LoadError>(e),
                None => Ok::<ProgramHandle, LoadError>(
                    (ProgramHandle { kind, image_length: image@.len() as usize }),
                ),
            },
    {
        match validate_image(image) {
            Err(e) => Err(e),
            Ok(()) => match verdict {
                KernelVerdict::Accepted => Ok(ProgramHandle { kind, image_length: image.len() }),
                KernelVerdict::TooLarge => Err(LoadError::ProgramTooLarge),
                KernelVerdict::UnboundedLoop => Err(LoadError::UnboundedLoop),
                KernelVerdict::UncheckedMemoryAccess => Err(LoadError::UncheckedMemoryAccess),
            },
        }
    }

    /// Attaches `program` to the target of `descriptor`.
    ///
    /// Fails with the kind that [`attach_failure`] gives, naming the exact
    /// target, and then changes nothing. Otherwise the attachment gets the
    /// next number and is live.
    pub fn attach(
        &mut self,
        program: &ProgramHandle,
        descriptor: &ProbeDescriptor,
        conditions: AttachConditions,
    ) -> (r: Result<AttachHandle, AttachError>)
        requires
            old(self).wf(),
            old(self).issued() < u64::MAX,
        ensures
            final(self).wf(),
            match attach_failure(program.kind, descriptor.spec_kind(), conditions) {
                Some(kind) => {
                    &&& r is Err
                    &&& r->Err_0.spec_kind() == kind
                    &&& r->Err_0.spec_target() == descriptor.label()
                    &&& final(self).attached() == old(self).attached()
                    &&& final(self).issued() == old(self).issued()
                },
                None => {
                    &&& r is Ok
                    &&& r->Ok_0.id == old(self).issued()
                    &&& !old(self).attached().contains(r->Ok_0.id)
                    &&& final(self).attached() == old(self).attached().insert(r->Ok_0.id)
                    &&& final(self).issued() == old(self).issued() + 1
                },
            },
    {
        if !conditions.target_exists {
            return Err(AttachError::TargetNotFound { target: descriptor.target() });
        }
        if !conditions.has_capability {
            return Err(AttachError::PermissionDenied { target: descriptor.target() });
        }
        if !conditions.verifier_accepts || program.kind != descriptor.kind() {
            return Err(AttachError::VerifierRejected { target: descriptor.target() });
        }
        let id = self.issued;
        proof {
            if old(self).live@.contains(id) {
                let i = choose|i: int| 0 <= i < old(self).live@.len() && old(self).live@[i] == id;
                assert(old(self).live@[i] < old(self).issued);
            }
        }
        self.live.push(id);
        self.issued = id + 1;
        proof {
            assert(self.live@ == old(self).live@.push(id));
            assert(self.live@.to_set() =~= old(self).live@.to_set().insert(id)) by {
                assert forall|x: u64| self.live@.contains(x) <==> (old(self).live@.contains(x) || x
                    == id) by {
                    if self.live@.contains(x) {
                        let i = choose|i: int| 0 <= i < self.live@.len() && self.live@[i] == x;
                        if i < old(self).live@.len() {
                            assert(old(self).live@[i] == x);
                        }
                    }
                    if old(self).live@.contains(x) {
                        let i = choose|i: int|
                            0 <= i < old(self).live@.len() && old(self).live@[i] == x;
                        assert(self.live@[i] == x);
                    }
                    if x == id {
                        assert(self.live@[old(self).live@.len() as int] == x);
                    }
                }
            }
        }
        Ok(AttachHandle { id })
    }

    /// Whether the attachment is live.
    pub fn is_attached(&self, handle: &AttachHandle) -> (r: bool)
        requires
            self.wf(),
        ensures
            r == self.attached().contains(handle.id),
    {
        let mut i: usize = 0;
        while i < self.live.len()
            invariant
                i <= self.live@.len(),
                forall|j: int| 0 <= j < i ==> self.live@[j] != handle.id,
            decreases self.live@.len() - i,
        {
            if self.live[i] == handle.id {
                assert(self.live@.contains(handle.id));
                return true;
            }
            i += 1;
        }
        assert(!self.live@.contains(handle.id));
        false
    }

    /// The number of live attachments.
    pub fn attached_count(&self) -> (n: usize)
        requires
            self.wf(),
        ensures
            n == self.attached().len(),
    {
        proof {
            self.lemma_live_distinct();
            self.live@.unique_seq_to_set();
        }
        self.live.len()
    }

    /// Releases the attachment. A handle that is not live, because it was
    /// released before, changes nothing. Returns whether it was live.
    pub fn detach(&mut self, handle: &AttachHandle) -> (was_live: bool)
        requires
            old(self).wf(),
        ensures
            final(self).wf(),
            was_live == old(self).attached().contains(handle.id),
            final(self).attached() == old(self).attached().remove(handle.id),
            final(self).issued() == old(self).issued(),
    {
        let mut i: usize = 0;
        while i < self.live.len()
            invariant
                self.wf(),
                *self == *old(self),
                i <= self.live@.len(),
                forall|j: int| 0 <= j < i ==> self.live@[j] != handle.id,
            decreases self.live@.len() - i,
        {
            if self.live[i] == handle.id {
                self.live.remove(i);
                proof {
                    let before = old(self).live@;
                    let after = self.live@;
                    assert(after == before.remove(i as int));
                    assert(before.contains(handle.id));
                    assert(after.to_set() =~= before.to_set().remove(handle.id)) by {
                        assert forall|x: u64| after.contains(x) <==> (before.contains(x) && x
                            != handle.id) by {
                            if after.contains(x) {
                                let k = choose|k: int| 0 <= k < after.len() && after[k] == x;
                                if k < i {
                                    assert(before[k] == x);
                                } else {
                                    assert(before[k + 1] == x);
                                }
                            }
                            if before.contains(x) && x != handle.id {
                                let k = choose|k: int| 0 <= k < before.len() && before[k] == x;
                                if k < i {
                                    assert(after[k] == x);
                                } else {
                                    assert(after[k - 1] == x);
                                }
                            }
                        }
                    }
                    assert forall|a: int, b: int| 0 <= a < b < after.len() implies #[trigger] after[a]
                        < #[trigger] after[b] by {
                        let a0 = if a < i { a } else { a + 1 };
                        let b0 = if b < i { b } else { b + 1 };
                        assert(after[a] == before[a0]);
                        assert(after[b] == before[b0]);
                    }
                    assert forall|a: int| 0 <= a < after.len() implies #[trigger] after[a]
                        < self.issued by {
                        let a0 = if a < i { a } else { a + 1 };
                        assert(after[a] == before[a0]);
                    }
                }
                return true;
            }
            i += 1;
        }
        proof {
            assert(!self.live@.contains(handle.id));
            assert(self.live@.to_set().remove(handle.id) =~= self.live@.to_set());
        }
        false
    }

    /// Releases every live attachment and returns how many there were.
    pub fn detach_all(&mut self) -> (n: usize)
        requires
            old(self).wf(),
        ensures
            final(self).wf(),
            final(self).attached() == Set::<u64>::empty(),
            final(self).issued() == old(self).issued(),
            n == old(self).attached().len(),
    {
        proof {
            self.lemma_live_distinct();
            self.live@.unique_seq_to_set();
        }
        let n = self.live.len();
        self.live.clear();
        assert(self.live@.to_set() =~= Set::<u64>::empty());
        n
    }

    proof fn lemma_live_distinct(&self)
        requires
            self.wf(),
        ensures
            self.live@.no_duplicates(),
    {
        assert forall|i: int, j: int|
            0 <= i < self.live@.len() && 0 <= j < self.live@.len() && i != j implies self.live@[i]
            != self.live@[j] by {
            if i < j {
                assert(self.live@[i] < self.live@[j]);
            } else {
                assert(self.live@[j] < self.live@[i]);
            }
        }
    }
}

/// Releasing an attachment a second time changes nothing: the set of live
/// attachments after one release is the set after two.
pub proof fn lemma_detach_idempotent(attached: Set<u64>, id: u64)
    ensures
        attached.remove(id).remove(id) == attached.remove(id),
        !attached.remove(id).contains(id),
{
    assert(attached.remove(id).remove(id) =~= attached.remove(id));
}

/// A target that does not exist is reported as not found, whatever else holds.
pub proof fn lemma_missing_target_is_not_found(
    program_kind: ProbeKind,
    descriptor_kind: ProbeKind,
    conditions: AttachConditions,
)
    requires
        !conditions.target_exists,
    ensures
        attach_failure(program_kind, descriptor_kind, conditions) == Some(
            AttachErrorKind::TargetNotFound,
        ),
{
}

} // verus!
