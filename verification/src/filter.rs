//! A stateless predicate over decoded events, and the static table that
//! resolves event names to numeric identifiers.

use crate::schema::{SyscallEvent, COMM_LEN};
use crate::text::{all_digits, decimal_value, parse_u64, str_eq};
use vstd::prelude::*;
use vstd::string::*;

verus! {

/// One past the largest identifier that the name table knows.
pub const SYSCALL_TABLE_END: u64 = 258;

/// The name of the event with identifier `nr`, where the table has one.
pub open spec fn syscall_name_of(nr: u64) -> Option<Seq<char>> {
    if nr == 0 {
        Some("read"@)
    } else if nr == 1 {
        Some("write"@)
    } else if nr == 2 {
        Some("open"@)
    } else if nr == 3 {
        Some("close"@)
    } else if nr == 9 {
        Some("mmap"@)
    } else if nr == 16 {
        Some("ioctl"@)
    } else if nr == 39 {
        Some("getpid"@)
    } else if nr == 41 {
        Some("socket"@)
    } else if nr == 42 {
        Some("connect"@)
    } else if nr == 56 {
        Some("clone"@)
    } else if nr == 57 {
        Some("fork"@)
    } else if nr == 59 {
        Some("execve"@)
    } else if nr == 60 {
        Some("exit"@)
    } else if nr == 62 {
        Some("kill"@)
    } else if nr == 231 {
        Some("exit_group"@)
    } else if nr == 257 {
        Some("openat"@)
    } else {
        None
    }
}

/// The name of the event with identifier `nr`, where the table has one.
pub fn syscall_name(nr: u64) -> (r: Option<&'static str>)
    ensures
        r is Some <==> syscall_name_of(nr) is Some,
        r is Some ==> r->Some_0@ == syscall_name_of(nr)->Some_0,
{
    if nr == 0 {
        Some("read")
    } else if nr == 1 {
        Some("write")
    } else if nr == 2 {
        Some("open")
    } else if nr == 3 {
        Some("close")
    } else if nr == 9 {
        Some("mmap")
    } else if nr == 16 {
        Some("ioctl")
    } else if nr == 39 {
        Some("getpid")
    } else if nr == 41 {
        Some("socket")
    } else if nr == 42 {
        Some("connect")
    } else if nr == 56 {
        Some("clone")
    } else if nr == 57 {
        Some("fork")
    } else if nr == 59 {
        Some("execve")
    } else if nr == 60 {
        Some("exit")
    } else if nr == 62 {
        Some("kill")
    } else if nr == 231 {
        Some("exit_group")
    } else if nr == 257 {
        Some("openat")
    } else {
        None
    }
}

/// Whether the table gives `name` to an identifier.
pub open spec fn is_syscall_name(name: Seq<char>) -> bool {
    exists|nr: u64| syscall_name_of(nr) == Some(name)
}

/// The least identifier to which the table gives `name`; `None` where it
/// gives the name to none.
pub fn syscall_number(name: &str) -> (r: Option<u64>)
    ensures
        r is Some <==> is_syscall_name(name@),
        r is Some ==> syscall_name_of(r->Some_0) == Some(name@),
        r is Some ==> forall|m: u64| m < r->Some_0 ==> syscall_name_of(m) != Some(name@),
{
    let mut nr: u64 = 0;
    while nr < SYSCALL_TABLE_END
        invariant
            nr <= SYSCALL_TABLE_END,
            forall|m: u64| m < nr ==> syscall_name_of(m) != Some(name@),
        decreases SYSCALL_TABLE_END - nr,
    {
        match syscall_name(nr) {
            Some(known) => {
                if str_eq(known, name) {
                    return Some(nr);
                }
            },
            None => {},
        }
        nr += 1;
    }
    assert forall|m: u64| syscall_name_of(m) != Some(name@) by {
        if m >= SYSCALL_TABLE_END {
            assert(syscall_name_of(m) is None);
        }
    }
    None
}

/// The identifier that `text` stands for: that of the name, where the table
/// knows it; else the number that `text` writes in decimal.
pub open spec fn resolve_event(text: Seq<char>) -> Option<u64> {
    if is_syscall_name(text) {
        Some(choose|nr: u64| syscall_name_of(nr) == Some(text) && forall|m: u64| m < nr ==> syscall_name_of(m) != Some(text))
    } else if text.len() > 0 && all_digits(text) && decimal_value(text) <= u64::MAX {
        Some(decimal_value(text) as u64)
    } else {
        None
    }
}

/// Resolves an event name, or a number in decimal, to its identifier.
pub fn resolve_event_id(text: &str) -> (r: Option<u64>)
    ensures
        r == resolve_event(text@),
{
    match syscall_number(text) {
        Some(nr) => {
            proof {
                let c = choose|c: u64| syscall_name_of(c) == Some(text@) && forall|m: u64| m < c ==> syscall_name_of(m) != Some(text@);
                assert(!(c < nr) && !(nr < c));
            }
            Some(nr)
        },
        None => parse_u64(text),
    }
}

/// The command name that the kernel keeps for a process named by `bytes`:
/// the first 15 bytes, padded with zero bytes to 16.
pub open spec fn comm_of(bytes: Seq<u8>) -> Seq<u8> {
    Seq::new(COMM_LEN as nat, |i: int| if i < bytes.len() && i < COMM_LEN - 1 { bytes[i] } else { 0u8 })
}

/// The command name that the kernel keeps for a process called `name`.
pub fn comm_from_name(name: &str) -> (comm: [u8; COMM_LEN])
    ensures
        comm@ == comm_of(name.spec_bytes()),
{
    let bytes = name.as_bytes();
    let mut comm = [0u8;COMM_LEN];
    let mut i: usize = 0;
    while i < COMM_LEN - 1 && i < bytes.len()
        invariant
            i <= COMM_LEN - 1,
            i <= bytes@.len(),
            bytes@ == name.spec_bytes(),
            forall|j: int| 0 <= j < i ==> comm@[j] == bytes@[j],
            forall|j: int| i <= j < COMM_LEN ==> comm@[j] == 0u8,
        decreases COMM_LEN - i,
    {
        comm[i] = bytes[i];
        i += 1;
    }
    assert(comm@ =~= comm_of(name.spec_bytes()));
    comm
}

/// Whether two command names hold the same bytes.
pub fn comm_eq(a: &[u8; COMM_LEN], b: &[u8; COMM_LEN]) -> (r: bool)
    ensures
        r == (a@ == b@),
{
    let mut i: usize = 0;
    while i < COMM_LEN
        invariant
            i <= COMM_LEN,
            forall|j: int| 0 <= j < i ==> a@[j] == b@[j],
        decreases COMM_LEN - i,
    {
        if a[i] != b[i] {
            assert(a@[i as int] != b@[i as int]);
            return false;
        }
        i += 1;
    }
    assert(a@ =~= b@);
    true
}

/// Optional conditions on an event. An absent condition accepts every event.
#[derive(Debug, Clone, Copy)]
pub struct Filter {
    /// The process id that an event must have.
    pub pid: Option<u32>,
    /// The command name that an event must have.
    pub comm: Option<[u8; COMM_LEN]>,
    /// The identifier that an event must have.
    pub syscall_nr: Option<u64>,
}

/// Why a filter could not be built.
#[derive(Debug, Clone, PartialEq, Eq)]
pub enum FilterError {
    /// Neither a known event name nor a number.
    UnknownEvent { name: String },
}

impl Filter {
    /// Whether the filter accepts `e`: every condition that is present holds.
    pub open spec fn accepts(&self, e: SyscallEvent) -> bool {
        &&& self.pid is Some ==> e.pid == self.pid->Some_0
        &&& self.comm is Some ==> e.comm@ == self.comm->Some_0@
        &&& self.syscall_nr is Some ==> e.syscall_nr == self.syscall_nr->Some_0
    }

    /// The events of `events` that the filter accepts, in their order.
    pub open spec fn accepted(&self, events: Seq<SyscallEvent>) -> Seq<SyscallEvent> {
        events.filter(|e: SyscallEvent| self.accepts(e))
    }

    /// The filter that accepts every event.
    pub fn any() -> (f: Self)
        ensures
            f.pid is None,
            f.comm is None,
            f.syscall_nr is None,
    {
        Filter { pid: None, comm: None, syscall_nr: None }
    }

    /// The filter of the given conditions. `event` is an event name of the
    /// table or a number in decimal.
    pub fn from_options(pid: Option<u32>, process: Option<&str>, event: Option<&str>) -> (r: Result<
        Filter,
        FilterError,
    >)
        ensures
            r is Err <==> (event is Some && resolve_event(event->Some_0@) is None),
            r is Err ==> (r->Err_0 matches FilterError::UnknownEvent { name } && name@
                == event->Some_0@),
            r is Ok ==> {
                let f = r->Ok_0;
                &&& f.pid == pid
                &&& f.comm is Some <==> process is Some
                &&& process is Some ==> f.comm->Some_0@ == comm_of(process->Some_0.spec_bytes())
                &&& event is None ==> f.syscall_nr is None
                &&& event is Some ==> f.syscall_nr == resolve_event(event->Some_0@)
            },
    {
        let syscall_nr = match event {
            None => None,
            Some(text) => match resolve_event_id(text) {
                Some(nr) => Some(nr),
                None => {
                    return Err(FilterError::UnknownEvent { name: String::from_str(text) });
                },
            },
        };
        let comm = match process {
            None => None,
            Some(name) => Some(comm_from_name(name)),
        };
        Ok(Filter { pid, comm, syscall_nr })
    }

    /// Whether the filter accepts `e`.
    pub fn matches(&self, e: &SyscallEvent) -> (r: bool)
        ensures
            r == self.accepts(*e),
    {
        if let Some(pid) = self.pid {
            if e.pid != pid {
                return false;
            }
        }
        if let Some(nr) = self.syscall_nr {
            if e.syscall_nr != nr {
                return false;
            }
        }
        match &self.comm {
            Some(comm) => comm_eq(&e.comm, comm),
            None => true,
        }
    }

    /// The events of `events` that the filter accepts, in their order.
    pub fn apply(&self, events: &Vec<SyscallEvent>) -> (out: Vec<SyscallEvent>)
        ensures
            out@ == self.accepted(events@),
    {
        let mut out: Vec<SyscallEvent> = Vec::new();
        let mut i: usize = 0;
        proof {
            reveal(Seq::filter);
            assert(events@.subrange(0, 0) =~= Seq::<SyscallEvent>::empty());
        }
        while i < events.len()
            invariant
                i <= events@.len(),
                out@ == self.accepted(events@.subrange(0, i as int)),
            decreases events@.len() - i,
        {
            let e = events[i];
            proof {
                reveal(Seq::filter);
                let next = events@.subrange(0, i + 1);
                assert(next.drop_last() =~= events@.subrange(0, i as int));
                assert(next.last() == e);
            }
            if self.matches(&e) {
                out.push(e);
            }
            i += 1;
        }
        assert(events@.subrange(0, events@.len() as int) =~= events@);
        out
    }
}

/// Filtering by an identifier alone loses and invents nothing: every event of
/// the filtered stream has the identifier and occurs in the unfiltered stream,
/// and every event of the unfiltered stream that has the identifier occurs in
/// the filtered stream.
pub proof fn lemma_filter_by_event_id(events: Seq<SyscallEvent>, id: u64)
    ensures
        ({
            let f = Filter { pid: None, comm: None, syscall_nr: Some(id) };
            let out = f.accepted(events);
            &&& forall|i: int| 0 <= i < out.len() ==> (#[trigger] out[i]).syscall_nr == id
            &&& forall|i: int| 0 <= i < out.len() ==> events.contains(#[trigger] out[i])
            &&& forall|i: int|
                0 <= i < events.len() && (#[trigger] events[i]).syscall_nr == id ==> out.contains(
                    events[i],
                )
        }),
{
    let f = Filter { pid: None, comm: None, syscall_nr: Some(id) };
    lemma_filter_sound_and_complete(f, events);
}

/// A filter loses and invents nothing: the filtered stream holds accepted
/// events of the unfiltered stream only, and every accepted event of the
/// unfiltered stream.
pub proof fn lemma_filter_sound_and_complete(f: Filter, events: Seq<SyscallEvent>)
    ensures
        forall|i: int|
            0 <= i < f.accepted(events).len() ==> f.accepts(#[trigger] f.accepted(events)[i]),
        forall|i: int|
            0 <= i < f.accepted(events).len() ==> events.contains(#[trigger] f.accepted(events)[i]),
        forall|i: int|
            0 <= i < events.len() && f.accepts(#[trigger] events[i]) ==> f.accepted(
                events,
            ).contains(events[i]),
        f.accepted(events).len() <= events.len(),
{
    let pred = |e: SyscallEvent| f.accepts(e);
    let out = events.filter(pred);
    events.lemma_filter_len(pred);
    assert forall|i: int| 0 <= i < out.len() implies f.accepts(#[trigger] out[i]) by {
        events.lemma_filter_pred(pred, i);
    }
    assert forall|i: int| 0 <= i < out.len() implies events.contains(#[trigger] out[i]) by {
        lemma_filtered_is_member(events, pred, i);
    }
    assert forall|i: int| 0 <= i < events.len() && f.accepts(#[trigger] events[i]) implies out.contains(
        events[i],
    ) by {
        events.lemma_filter_contains(pred, i);
    }
}

/// Each element of a filtered sequence is an element of the sequence.
proof fn lemma_filtered_is_member(s: Seq<SyscallEvent>, pred: spec_fn(SyscallEvent) -> bool, i: int)
    requires
        0 <= i < s.filter(pred).len(),
    ensures
        s.contains(s.filter(pred)[i]),
    decreases s.len(),
{
    reveal(Seq::filter);
    if s.len() > 0 {
        let sub = s.drop_last().filter(pred);
        if i < sub.len() {
            lemma_filtered_is_member(s.drop_last(), pred, i);
            let x = sub[i];
            let k = choose|k: int| 0 <= k < s.drop_last().len() && s.drop_last()[k] == x;
            assert(s[k] == x);
        } else {
            assert(s[s.len() - 1] == s.last());
        }
    }
}

} // verus!
