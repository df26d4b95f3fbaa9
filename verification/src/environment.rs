//! What the environment must offer before a probe can be loaded.

use crate::text::{
    all_digits, all_hex_digits, decimal_value, hex_value, is_digit, parse_hex_u64, parse_u64,
};
use vstd::prelude::*;
use vstd::string::*;

verus! {

/// The capability that lets a process administer the system.
pub const CAP_SYS_ADMIN: u64 = 21;

/// The capability that lets a process load programs into the kernel.
pub const CAP_BPF: u64 = 39;

/// The oldest kernel that is supported: major and minor.
pub const MIN_KERNEL_MAJOR: u32 = 5;

/// The oldest kernel that is supported: major and minor.
pub const MIN_KERNEL_MINOR: u32 = 8;

/// Whether bit `bit` of `mask` is set.
pub open spec fn has_bit(mask: u64, bit: u64) -> bool
    recommends
        bit < 64,
{
    (mask >> bit) & 1 == 1
}

/// Whether a process with effective user `euid` and effective capabilities
/// `capabilities` may load and attach programs: the superuser may, and so may
/// whoever holds one of the two capabilities.
pub open spec fn may_load_programs(euid: u32, capabilities: u64) -> bool {
    euid == 0 || has_bit(capabilities, CAP_BPF) || has_bit(capabilities, CAP_SYS_ADMIN)
}

/// Whether a process with effective user `euid` and effective capabilities
/// `capabilities` may load and attach programs.
pub fn check_bpf_capability(euid: u32, capabilities: u64) -> (r: bool)
    ensures
        r == may_load_programs(euid, capabilities),
{
    euid == 0 || (capabilities >> CAP_BPF) & 1 == 1 || (capabilities >> CAP_SYS_ADMIN) & 1 == 1
}

/// Whether the capabilities that `mask` writes in hexadecimal, as the
/// process file system shows them, hold the one of administering the system;
/// `None` where `mask` is no such number.
pub open spec fn admin_in(mask: Seq<char>) -> Option<bool> {
    if mask.len() > 0 && all_hex_digits(mask) && hex_value(mask) <= u64::MAX {
        Some(has_bit(hex_value(mask) as u64, CAP_SYS_ADMIN))
    } else {
        None
    }
}

/// Reads a mask of capabilities in hexadecimal and says whether it holds the
/// capability of administering the system, which creating a namespace of
/// any kind but the user kind needs.
pub fn has_cap_sys_admin(mask: &str) -> (r: Option<bool>)
    ensures
        r == admin_in(mask@),
{
    match parse_hex_u64(mask) {
        Some(bits) => Some((bits >> CAP_SYS_ADMIN) & 1 == 1),
        None => None,
    }
}

/// A kernel version.
#[derive(Debug, Clone, Copy, PartialEq, Eq, Structural)]
pub struct KernelVersion {
    pub major: u32,
    pub minor: u32,
    pub patch: u32,
}

impl KernelVersion {
    /// Whether the version is at least the oldest supported one.
    pub open spec fn supported(self) -> bool {
        self.major > MIN_KERNEL_MAJOR || (self.major == MIN_KERNEL_MAJOR && self.minor
            >= MIN_KERNEL_MINOR)
    }

    /// Whether the version is at least the oldest supported one.
    pub fn is_supported(&self) -> (r: bool)
        ensures
            r == self.supported(),
    {
        self.major > MIN_KERNEL_MAJOR || (self.major == MIN_KERNEL_MAJOR && self.minor
            >= MIN_KERNEL_MINOR)
    }
}

/// The end of the run of digits of `s` that starts at `from`.
pub open spec fn digits_end(s: Seq<char>, from: int) -> int
    decreases s.len() - from,
{
    if 0 <= from < s.len() && is_digit(s[from]) {
        digits_end(s, from + 1)
    } else {
        from
    }
}

/// The number that the run of digits of `s` from `from` on writes, where
/// there is at least one digit and the number fits in 32 bits.
pub open spec fn number_at(s: Seq<char>, from: int) -> Option<u32> {
    let end = digits_end(s, from);
    if 0 <= from < end <= s.len() && decimal_value(s.subrange(from, end)) <= u32::MAX {
        Some(decimal_value(s.subrange(from, end)) as u32)
    } else {
        None
    }
}

/// The version that a kernel release string names: `major.minor`, then
/// `.patch` where digits follow a second dot, and 0 for the patch where they
/// do not. What comes after is not looked at. `None` where the string does
/// not begin so, or where a number does not fit in 32 bits.
pub open spec fn version_of(release: Seq<char>) -> Option<KernelVersion> {
    let a = digits_end(release, 0);
    let b = digits_end(release, a + 1);
    let c = digits_end(release, b + 1);
    if number_at(release, 0) is None || a >= release.len() || release[a] != '.' || number_at(
        release,
        a + 1,
    ) is None {
        None
    } else if b < release.len() && release[b] == '.' && c > b + 1 {
        match number_at(release, b + 1) {
            Some(patch) => Some(
                KernelVersion {
                    major: number_at(release, 0)->Some_0,
                    minor: number_at(release, a + 1)->Some_0,
                    patch,
                },
            ),
            None => None,
        }
    } else {
        Some(
            KernelVersion {
                major: number_at(release, 0)->Some_0,
                minor: number_at(release, a + 1)->Some_0,
                patch: 0,
            },
        )
    }
}

proof fn lemma_digits_end(s: Seq<char>, from: int)
    requires
        0 <= from <= s.len(),
    ensures
        from <= digits_end(s, from) <= s.len(),
        all_digits(s.subrange(from, digits_end(s, from))),
        digits_end(s, from) < s.len() ==> !is_digit(s[digits_end(s, from)]),
    decreases s.len() - from,
{
    if from < s.len() && is_digit(s[from]) {
        lemma_digits_end(s, from + 1);
        let end = digits_end(s, from);
        assert forall|i: int| 0 <= i < end - from implies is_digit(
            #[trigger] s.subrange(from, end)[i],
        ) by {
            if i > 0 {
                assert(s.subrange(from, end)[i] == s.subrange(from + 1, end)[i - 1]);
            }
        }
    }
}

proof fn lemma_digits_end_step(s: Seq<char>, from: int, i: int)
    requires
        0 <= from <= i <= s.len(),
        forall|j: int| from <= j < i ==> is_digit(s[j]),
    ensures
        digits_end(s, from) == digits_end(s, i),
    decreases i - from,
{
    if from < i {
        lemma_digits_end_step(s, from + 1, i);
    }
}

/// Finds the end of the run of digits of `s` that starts at `from`.
fn scan_digits(s: &str, from: usize) -> (end: usize)
    requires
        from <= s@.len(),
    ensures
        end == digits_end(s@, from as int),
        from <= end <= s@.len(),
{
    let n = s.unicode_len();
    let mut i = from;
    while i < n
        invariant
            from <= i <= n,
            n == s@.len(),
            forall|j: int| from <= j < i ==> is_digit(s@[j]),
        decreases n - i,
    {
        let c = s.get_char(i);
        if c < '0' || c > '9' {
            proof {
                lemma_digits_end_step(s@, from as int, i as int);
            }
            return i;
        }
        i += 1;
    }
    proof {
        lemma_digits_end_step(s@, from as int, i as int);
    }
    i
}

/// Reads the number that the run of digits of `s` from `from` on writes.
fn read_number(s: &str, from: usize) -> (r: (Option<u32>, usize))
    requires
        from <= s@.len(),
    ensures
        r.0 == number_at(s@, from as int),
        r.1 == digits_end(s@, from as int),
        from <= r.1 <= s@.len(),
{
    let end = scan_digits(s, from);
    if end == from {
        return (None, end);
    }
    let digits = s.substring_char(from, end);
    proof {
        lemma_digits_end(s@, from as int);
    }
    match parse_u64(digits) {
        Some(v) => {
            if v <= u32::MAX as u64 {
                (Some(v as u32), end)
            } else {
                (None, end)
            }
        },
        None => (None, end),
    }
}

/// Reads the version that a kernel release string names.
pub fn get_kernel_version(release: &str) -> (r: Option<KernelVersion>)
    ensures
        r == version_of(release@),
{
    let n = release.unicode_len();
    let (major, a) = read_number(release, 0);
    let major = match major {
        Some(v) => v,
        None => {
            return None;
        },
    };
    if a >= n || release.get_char(a) != '.' {
        return None;
    }
    let (minor, b) = read_number(release, a + 1);
    let minor = match minor {
        Some(v) => v,
        None => {
            return None;
        },
    };
    if b < n && release.get_char(b) == '.' {
        let (patch, c) = read_number(release, b + 1);
        if c > b + 1 {
            return match patch {
                Some(patch) => Some(KernelVersion { major, minor, patch }),
                None => None,
            };
        }
    }
    Some(KernelVersion { major, minor, patch: 0 })
}

/// What the check of the environment found.
#[derive(Debug, Clone, Copy, PartialEq, Eq, Structural)]
pub struct EnvironmentReport {
    /// The kernel's version, where its release string names one.
    pub kernel: Option<KernelVersion>,
    /// Whether the kernel is recent enough.
    pub kernel_ok: bool,
    /// Whether the kernel's type information is at hand.
    pub btf_ok: bool,
    /// Whether the process may load and attach programs.
    pub permission_ok: bool,
}

impl EnvironmentReport {
    /// Whether nothing is missing.
    pub open spec fn ready(self) -> bool {
        self.kernel_ok && self.btf_ok && self.permission_ok
    }

    /// Whether nothing is missing.
    pub fn is_ready(&self) -> (r: bool)
        ensures
            r == self.ready(),
    {
        self.kernel_ok && self.btf_ok && self.permission_ok
    }
}

/// Judges the environment from what was read of it: the kernel's release
/// string, whether the kernel's type information is present, the effective
/// user and the effective capabilities.
pub fn check_environment(release: &str, btf_present: bool, euid: u32, capabilities: u64) -> (r:
    EnvironmentReport)
    ensures
        r.kernel == version_of(release@),
        r.kernel_ok == (r.kernel is Some && r.kernel->Some_0.supported()),
        r.btf_ok == btf_present,
        r.permission_ok == may_load_programs(euid, capabilities),
{
    let kernel = get_kernel_version(release);
    let kernel_ok = match &kernel {
        Some(v) => v.is_supported(),
        None => false,
    };
    EnvironmentReport {
        kernel,
        kernel_ok,
        btf_ok: btf_present,
        permission_ok: check_bpf_capability(euid, capabilities),
    }
}

} // verus!
