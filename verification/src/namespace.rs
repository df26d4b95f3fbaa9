//! The kinds of namespaces and their names.

use crate::text::{all_digits, decimal_value, parse_u64, str_eq};
use vstd::prelude::*;
use vstd::string::*;

verus! {

/// The kinds of namespaces.
#[derive(Debug, Clone, Copy, PartialEq, Eq, Structural)]
pub enum NamespaceKind {
    Pid,
    Uts,
    Ipc,
    Mount,
    Net,
    User,
    Cgroup,
    Time,
}

impl NamespaceKind {
    /// The name of the kind, as it is shown to the user.
    pub open spec fn name(self) -> Seq<char> {
        match self {
            NamespaceKind::Pid => "PID"@,
            NamespaceKind::Uts => "UTS"@,
            NamespaceKind::Ipc => "IPC"@,
            NamespaceKind::Mount => "mount"@,
            NamespaceKind::Net => "network"@,
            NamespaceKind::User => "user"@,
            NamespaceKind::Cgroup => "cgroup"@,
            NamespaceKind::Time => "time"@,
        }
    }

    /// The flag that asks the kernel for a new namespace of the kind.
    pub open spec fn flag(self) -> u64 {
        match self {
            NamespaceKind::Pid => 0x2000_0000,
            NamespaceKind::Uts => 0x0400_0000,
            NamespaceKind::Ipc => 0x0800_0000,
            NamespaceKind::Mount => 0x0002_0000,
            NamespaceKind::Net => 0x4000_0000,
            NamespaceKind::User => 0x1000_0000,
            NamespaceKind::Cgroup => 0x0200_0000,
            NamespaceKind::Time => 0x0000_0080,
        }
    }

    /// Whether a process may create a namespace of the kind: one of the
    /// user kind always, one of any other kind only with the capability of
    /// administering the system.
    pub open spec fn creatable(self, has_admin: bool) -> bool {
        self == NamespaceKind::User || has_admin
    }

    /// Whether a process may create a namespace of the kind.
    pub fn can_create(&self, has_admin: bool) -> (r: bool)
        ensures
            r == self.creatable(has_admin),
    {
        match self {
            NamespaceKind::User => true,
            _ => has_admin,
        }
    }

    /// The name of the kind, as it is shown to the user.
    pub fn as_str(&self) -> (s: &'static str)
        ensures
            s@ == self.name(),
    {
        match self {
            NamespaceKind::Pid => "PID",
            NamespaceKind::Uts => "UTS",
            NamespaceKind::Ipc => "IPC",
            NamespaceKind::Mount => "mount",
            NamespaceKind::Net => "network",
            NamespaceKind::User => "user",
            NamespaceKind::Cgroup => "cgroup",
            NamespaceKind::Time => "time",
        }
    }

    /// The name of the kind, as it is shown to the user.
    pub fn to_string(&self) -> (s: String)
        ensures
            s@ == self.name(),
    {
        String::from_str(self.as_str())
    }

    /// The flag that asks the kernel for a new namespace of the kind.
    pub fn clone_flag(&self) -> (f: u64)
        ensures
            f == self.flag(),
    {
        match self {
            NamespaceKind::Pid => 0x2000_0000,
            NamespaceKind::Uts => 0x0400_0000,
            NamespaceKind::Ipc => 0x0800_0000,
            NamespaceKind::Mount => 0x0002_0000,
            NamespaceKind::Net => 0x4000_0000,
            NamespaceKind::User => 0x1000_0000,
            NamespaceKind::Cgroup => 0x0200_0000,
            NamespaceKind::Time => 0x0000_0080,
        }
    }
}

/// The kind of the namespace that the process file system lists under
/// `name`.
pub open spec fn kind_of_entry(name: Seq<char>) -> Option<NamespaceKind> {
    if name == "pid"@ {
        Some(NamespaceKind::Pid)
    } else if name == "uts"@ {
        Some(NamespaceKind::Uts)
    } else if name == "ipc"@ {
        Some(NamespaceKind::Ipc)
    } else if name == "mnt"@ {
        Some(NamespaceKind::Mount)
    } else if name == "net"@ {
        Some(NamespaceKind::Net)
    } else if name == "user"@ {
        Some(NamespaceKind::User)
    } else if name == "cgroup"@ {
        Some(NamespaceKind::Cgroup)
    } else if name == "time"@ {
        Some(NamespaceKind::Time)
    } else {
        None
    }
}

/// The kind of the namespace that the process file system lists under
/// `name`.
pub fn kind_from_entry(name: &str) -> (r: Option<NamespaceKind>)
    ensures
        r == kind_of_entry(name@),
{
    if str_eq(name, "pid") {
        Some(NamespaceKind::Pid)
    } else if str_eq(name, "uts") {
        Some(NamespaceKind::Uts)
    } else if str_eq(name, "ipc") {
        Some(NamespaceKind::Ipc)
    } else if str_eq(name, "mnt") {
        Some(NamespaceKind::Mount)
    } else if str_eq(name, "net") {
        Some(NamespaceKind::Net)
    } else if str_eq(name, "user") {
        Some(NamespaceKind::User)
    } else if str_eq(name, "cgroup") {
        Some(NamespaceKind::Cgroup)
    } else if str_eq(name, "time") {
        Some(NamespaceKind::Time)
    } else {
        None
    }
}

/// The line that shows one entry of a process's namespaces: the name, an
/// arrow, and what the entry links to.
pub fn proc_ns_line(name: &str, target: &str) -> (line: String)
    ensures
        line@ == name@ + " -> "@ + target@,
{
    let mut line = String::from_str(name);
    line.append(" -> ");
    line.append(target);
    line
}

/// The first place at or after `from` where `s` holds a colon; the length
/// of `s` where it holds none there.
pub open spec fn colon_at(s: Seq<char>, from: int) -> int
    decreases s.len() - from,
{
    if 0 <= from < s.len() && s[from] != ':' {
        colon_at(s, from + 1)
    } else {
        from
    }
}

/// What an entry of a process's namespaces links to: the name of a kind and
/// the number of the namespace.
#[derive(Debug, Clone, PartialEq, Eq)]
pub struct NamespaceLink {
    /// The name before the colon.
    pub name: String,
    /// The number in the brackets.
    pub inode: u64,
}

/// Whether `target` has the form of a link to a namespace: a name that is
/// not empty, a colon, and a decimal number that fits in 64 bits in square
/// brackets, with nothing after them.
pub open spec fn is_namespace_link(target: Seq<char>) -> bool {
    let colon = colon_at(target, 0);
    &&& 0 < colon
    &&& colon + 3 < target.len()
    &&& target[colon + 1] == '['
    &&& target.last() == ']'
    &&& all_digits(target.subrange(colon + 2, target.len() - 1))
    &&& decimal_value(target.subrange(colon + 2, target.len() - 1)) <= u64::MAX
}

proof fn lemma_colon_at(s: Seq<char>, from: int, i: int)
    requires
        0 <= from <= i <= s.len(),
        forall|j: int| from <= j < i ==> s[j] != ':',
    ensures
        colon_at(s, from) == colon_at(s, i),
    decreases i - from,
{
    if from < i {
        lemma_colon_at(s, from + 1, i);
    }
}

fn find_colon(s: &str) -> (at: usize)
    ensures
        at == colon_at(s@, 0),
        at <= s@.len(),
{
    let n = s.unicode_len();
    let mut i: usize = 0;
    while i < n
        invariant
            i <= n,
            n == s@.len(),
            forall|j: int| 0 <= j < i ==> s@[j] != ':',
        decreases n - i,
    {
        if s.get_char(i) == ':' {
            proof {
                lemma_colon_at(s@, 0, i as int);
            }
            return i;
        }
        i += 1;
    }
    proof {
        lemma_colon_at(s@, 0, i as int);
    }
    i
}

/// Reads what an entry of a process's namespaces links to, such as
/// `pid:[4026531836]`.
pub fn parse_namespace_link(target: &str) -> (r: Option<NamespaceLink>)
    ensures
        r is Some <==> is_namespace_link(target@),
        r is Some ==> {
            let colon = colon_at(target@, 0);
            &&& r->Some_0.name@ == target@.subrange(0, colon)
            &&& r->Some_0.inode == decimal_value(target@.subrange(colon + 2, target@.len() - 1))
        },
{
    let n = target.unicode_len();
    let colon = find_colon(target);
    if colon == 0 || n < 4 || colon >= n - 3 {
        return None;
    }
    if target.get_char(colon + 1) != '[' || target.get_char(n - 1) != ']' {
        return None;
    }
    let digits = target.substring_char(colon + 2, n - 1);
    match parse_u64(digits) {
        Some(inode) => {
            let name = target.substring_char(0, colon);
            Some(NamespaceLink { name: String::from_str(name), inode })
        },
        None => None,
    }
}

} // verus!
