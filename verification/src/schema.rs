//! Fixed-layout records shared by the producer and the consumer of events.
//!
//! A record has no pointers and no variable-length field. Its wire form is the
//! concatenation of its fields in declaration order, integers little-endian.

use vstd::bytes::*;
use vstd::prelude::*;
use vstd::slice::*;

verus! {

/// Length of the null-padded command name.
pub const COMM_LEN: usize = 16;

/// Default number of slots of a counting table.
pub const MAX_MAP_ENTRIES: u32 = 10240;

/// Size in bytes of the wire form of a [`SyscallEvent`].
pub const EVENT_SIZE: usize = 40;

/// Alignment in bytes of a [`SyscallEvent`] in shared memory.
pub const EVENT_ALIGN: usize = 8;

/// Size in bytes of the wire form of a [`SyscallKey`].
pub const KEY_SIZE: usize = 16;

/// Offset of the thread id in the wire form of an event.
pub const OFFSET_TID: usize = 4;

/// Offset of the event identifier in the wire form of an event.
pub const OFFSET_SYSCALL_NR: usize = 8;

/// Offset of the timestamp in the wire form of an event.
pub const OFFSET_TIMESTAMP: usize = 16;

/// Offset of the command name in the wire form of an event.
pub const OFFSET_COMM: usize = 24;

/// One observed event.
#[derive(Debug, Clone, Copy)]
pub struct SyscallEvent {
    /// Process id.
    pub pid: u32,
    /// Thread id.
    pub tid: u32,
    /// Numeric event identifier.
    pub syscall_nr: u64,
    /// Monotonic timestamp in nanoseconds.
    pub timestamp_ns: u64,
    /// Command name, padded with zero bytes.
    pub comm: [u8; COMM_LEN],
}

/// Why a byte string is not a record.
#[derive(Debug, Clone, Copy, PartialEq, Eq, Structural)]
pub enum DecodeError {
    /// Fewer bytes than a whole record.
    ShortRecord { expected: usize, actual: usize },
}

impl SyscallEvent {
    /// The wire form: 40 bytes, fields in order, integers little-endian.
    pub open spec fn wire(self) -> Seq<u8> {
        spec_u32_to_le_bytes(self.pid) + spec_u32_to_le_bytes(self.tid) + spec_u64_to_le_bytes(
            self.syscall_nr,
        ) + spec_u64_to_le_bytes(self.timestamp_ns) + self.comm@
    }

    /// Whether `self` is the record that the first 40 bytes of `b` hold.
    pub open spec fn read_from(self, b: Seq<u8>) -> bool {
        &&& b.len() >= EVENT_SIZE
        &&& self.pid == spec_u32_from_le_bytes(b.subrange(0, 4))
        &&& self.tid == spec_u32_from_le_bytes(b.subrange(4, 8))
        &&& self.syscall_nr == spec_u64_from_le_bytes(b.subrange(8, 16))
        &&& self.timestamp_ns == spec_u64_from_le_bytes(b.subrange(16, 24))
        &&& self.comm@ == b.subrange(24, 40)
    }

    /// Whether all fields are zero.
    pub open spec fn is_zeroed(self) -> bool {
        &&& self.pid == 0
        &&& self.tid == 0
        &&& self.syscall_nr == 0
        &&& self.timestamp_ns == 0
        &&& forall|i: int| 0 <= i < COMM_LEN ==> self.comm@[i] == 0u8
    }

    /// A zeroed event.
    pub fn new() -> (e: Self)
        ensures
            e.is_zeroed(),
    {
        SyscallEvent { pid: 0, tid: 0, syscall_nr: 0, timestamp_ns: 0, comm: [0u8;COMM_LEN] }
    }

    /// Encodes the event.
    pub fn to_bytes(&self) -> (out: Vec<u8>)
        ensures
            out@ == self.wire(),
            out@.len() == EVENT_SIZE,
    {
        proof {
            lemma_auto_spec_u32_to_from_le_bytes();
            lemma_auto_spec_u64_to_from_le_bytes();
        }
        let mut out = u32_to_le_bytes(self.pid);
        let mut part = u32_to_le_bytes(self.tid);
        out.append(&mut part);
        let mut part = u64_to_le_bytes(self.syscall_nr);
        out.append(&mut part);
        let mut part = u64_to_le_bytes(self.timestamp_ns);
        out.append(&mut part);
        let ghost head = out@;
        let mut i: usize = 0;
        while i < COMM_LEN
            invariant
                i <= COMM_LEN,
                out@ == head + self.comm@.subrange(0, i as int),
            decreases COMM_LEN - i,
        {
            out.push(self.comm[i]);
            i += 1;
        }
        assert(self.comm@.subrange(0, COMM_LEN as int) == self.comm@);
        out
    }

    /// Decodes the record at the start of `bytes`. Bytes after the record are
    /// not looked at.
    pub fn from_bytes(bytes: &[u8]) -> (r: Result<SyscallEvent, DecodeError>)
        ensures
            bytes@.len() < EVENT_SIZE <==> r == Err::<SyscallEvent, DecodeError>(
                (DecodeError::ShortRecord { expected: EVENT_SIZE, actual: bytes@.len() as usize }),
            ),
            bytes@.len() >= EVENT_SIZE <==> r is Ok,
            r is Ok ==> r->Ok_0.read_from(bytes@),
    {
        if bytes.len() < EVENT_SIZE {
            return Err(DecodeError::ShortRecord { expected: EVENT_SIZE, actual: bytes.len() });
        }
        let pid = u32_from_le_bytes(slice_subrange(bytes, 0, 4));
        let tid = u32_from_le_bytes(slice_subrange(bytes, 4, 8));
        let syscall_nr = u64_from_le_bytes(slice_subrange(bytes, 8, 16));
        let timestamp_ns = u64_from_le_bytes(slice_subrange(bytes, 16, 24));
        let mut comm = [0u8;COMM_LEN];
        let mut i: usize = 0;
        while i < COMM_LEN
            invariant
                i <= COMM_LEN,
                bytes@.len() >= EVENT_SIZE,
                forall|j: int| 0 <= j < i ==> comm@[j] == bytes@[24 + j],
            decreases COMM_LEN - i,
        {
            comm[i] = bytes[24 + i];
            i += 1;
        }
        assert(comm@ =~= bytes@.subrange(24, 40));
        Ok(SyscallEvent { pid, tid, syscall_nr, timestamp_ns, comm })
    }
}

impl Default for SyscallEvent {
    fn default() -> (e: Self)
        ensures
            e.is_zeroed(),
    {
        SyscallEvent::new()
    }
}

/// Key of a counting table: a process id (0 for system-wide) and an event
/// identifier. Two keys are equal when their bits are.
#[derive(Debug, Clone, Copy, PartialEq, Eq, Hash, Structural)]
pub struct SyscallKey {
    /// Process id, 0 for system-wide.
    pub pid: u32,
    /// Padding, always written as zero by [`SyscallKey::new`].
    pub _pad: u32,
    /// Numeric event identifier.
    pub syscall_nr: u64,
}

impl SyscallKey {
    /// The key of `pid` and `syscall_nr`, with zero padding.
    pub fn new(pid: u32, syscall_nr: u64) -> (k: Self)
        ensures
            k == (SyscallKey { pid, _pad: 0, syscall_nr }),
    {
        SyscallKey { pid, _pad: 0, syscall_nr }
    }

    /// The wire form: 16 bytes, fields in order, integers little-endian.
    pub open spec fn wire(self) -> Seq<u8> {
        spec_u32_to_le_bytes(self.pid) + spec_u32_to_le_bytes(self._pad) + spec_u64_to_le_bytes(
            self.syscall_nr,
        )
    }

    /// Encodes the key.
    pub fn to_bytes(&self) -> (out: Vec<u8>)
        ensures
            out@ == self.wire(),
            out@.len() == KEY_SIZE,
    {
        proof {
            lemma_auto_spec_u32_to_from_le_bytes();
            lemma_auto_spec_u64_to_from_le_bytes();
        }
        let mut out = u32_to_le_bytes(self.pid);
        let mut part = u32_to_le_bytes(self._pad);
        out.append(&mut part);
        let mut part = u64_to_le_bytes(self.syscall_nr);
        out.append(&mut part);
        out
    }
}

impl Default for SyscallKey {
    fn default() -> (k: Self)
        ensures
            k == (SyscallKey { pid: 0, _pad: 0, syscall_nr: 0 }),
    {
        SyscallKey::new(0, 0)
    }
}

/// Every record has a wire form of exactly [`EVENT_SIZE`] bytes, with each
/// field at its documented offset.
pub proof fn lemma_event_layout(e: SyscallEvent)
    ensures
        e.wire().len() == EVENT_SIZE,
        EVENT_SIZE % EVENT_ALIGN == 0,
        e.wire().subrange(0, OFFSET_TID as int) == spec_u32_to_le_bytes(e.pid),
        e.wire().subrange(OFFSET_TID as int, OFFSET_SYSCALL_NR as int) == spec_u32_to_le_bytes(
            e.tid,
        ),
        e.wire().subrange(OFFSET_SYSCALL_NR as int, OFFSET_TIMESTAMP as int)
            == spec_u64_to_le_bytes(e.syscall_nr),
        e.wire().subrange(OFFSET_TIMESTAMP as int, OFFSET_COMM as int) == spec_u64_to_le_bytes(
            e.timestamp_ns,
        ),
        e.wire().subrange(OFFSET_COMM as int, EVENT_SIZE as int) == e.comm@,
{
    lemma_auto_spec_u32_to_from_le_bytes();
    lemma_auto_spec_u64_to_from_le_bytes();
    let w = e.wire();
    assert(w.subrange(0, 4) =~= spec_u32_to_le_bytes(e.pid));
    assert(w.subrange(4, 8) =~= spec_u32_to_le_bytes(e.tid));
    assert(w.subrange(8, 16) =~= spec_u64_to_le_bytes(e.syscall_nr));
    assert(w.subrange(16, 24) =~= spec_u64_to_le_bytes(e.timestamp_ns));
    assert(w.subrange(24, 40) =~= e.comm@);
}

/// Decoding the wire form of a record gives the record back.
pub proof fn lemma_decode_encode(e: SyscallEvent, d: SyscallEvent)
    requires
        d.read_from(e.wire()),
    ensures
        d == e,
{
    lemma_event_layout(e);
    lemma_auto_spec_u32_to_from_le_bytes();
    lemma_auto_spec_u64_to_from_le_bytes();
    assert(d.comm@ =~= e.comm@);
    assert(d.comm == e.comm);
}

/// Encoding the record decoded from 40 bytes gives the bytes back.
pub proof fn lemma_encode_decode(b: Seq<u8>, d: SyscallEvent)
    requires
        b.len() == EVENT_SIZE,
        d.read_from(b),
    ensures
        d.wire() == b,
{
    lemma_auto_spec_u32_to_from_le_bytes();
    lemma_auto_spec_u64_to_from_le_bytes();
    assert(b.subrange(0, 4).len() == 4);
    assert(b.subrange(4, 8).len() == 4);
    assert(b.subrange(8, 16).len() == 8);
    assert(b.subrange(16, 24).len() == 8);
    assert(d.wire() =~= b.subrange(0, 4) + b.subrange(4, 8) + b.subrange(8, 16) + b.subrange(
        16,
        24,
    ) + b.subrange(24, 40));
    assert(d.wire() =~= b);
}

} // verus!
