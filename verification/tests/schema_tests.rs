use ebpf_tool::schema::{
    DecodeError, SyscallEvent, SyscallKey, COMM_LEN, EVENT_ALIGN, EVENT_SIZE, KEY_SIZE,
    MAX_MAP_ENTRIES, OFFSET_COMM, OFFSET_SYSCALL_NR, OFFSET_TID, OFFSET_TIMESTAMP,
};

fn sample_event() -> SyscallEvent {
    let mut comm = [0u8; COMM_LEN];
    comm[..4].copy_from_slice(b"bash");
    SyscallEvent {
        pid: 0x0102_0304,
        tid: 0x0a0b_0c0d,
        syscall_nr: 257,
        timestamp_ns: 0x1122_3344_5566_7788,
        comm,
    }
}

fn assert_copy<T: Copy>() {}

#[test]
fn test_syscall_event_size_and_alignment() {
    let size = core::mem::size_of::<SyscallEvent>();
    assert!(size >= 40 && size <= 48, "size is {}", size);
    assert_eq!(core::mem::align_of::<SyscallEvent>(), EVENT_ALIGN);
    assert_eq!(4 + 4 + 8 + 8 + COMM_LEN, EVENT_SIZE);
    assert_eq!(EVENT_SIZE % EVENT_ALIGN, 0);
    assert_eq!(SyscallEvent::new().to_bytes().len(), EVENT_SIZE);
    assert_eq!(sample_event().to_bytes().len(), EVENT_SIZE);
}

#[test]
fn test_syscall_event_is_copy() {
    assert_copy::<SyscallEvent>();
    assert_copy::<SyscallKey>();
    let a = sample_event();
    let b = a;
    assert_eq!(a.pid, b.pid);
    assert_eq!(a.comm, b.comm);
}

#[test]
fn test_syscall_key_new() {
    let key = SyscallKey::new(1234, 59);
    assert_eq!(key.pid, 1234);
    assert_eq!(key.syscall_nr, 59);
    assert_eq!(key._pad, 0);
    assert_eq!(key, SyscallKey { pid: 1234, _pad: 0, syscall_nr: 59 });
    assert_ne!(key, SyscallKey::new(1234, 60));
    assert_ne!(key, SyscallKey::new(1235, 59));
}

#[test]
fn syscall_event_new_is_zeroed() {
    let e = SyscallEvent::new();
    assert_eq!(e.pid, 0);
    assert_eq!(e.tid, 0);
    assert_eq!(e.syscall_nr, 0);
    assert_eq!(e.timestamp_ns, 0);
    assert_eq!(e.comm, [0u8; COMM_LEN]);
    let d = SyscallEvent::default();
    assert_eq!(d.pid, 0);
    assert_eq!(d.comm, [0u8; COMM_LEN]);
}

#[test]
fn syscall_key_default_is_system_wide_zero() {
    assert_eq!(SyscallKey::default(), SyscallKey::new(0, 0));
}

#[test]
fn constants_have_their_documented_values() {
    assert_eq!(COMM_LEN, 16);
    assert_eq!(MAX_MAP_ENTRIES, 10240);
    assert_eq!(EVENT_SIZE, 40);
    assert_eq!(KEY_SIZE, 16);
    assert_eq!(OFFSET_TID, 4);
    assert_eq!(OFFSET_SYSCALL_NR, 8);
    assert_eq!(OFFSET_TIMESTAMP, 16);
    assert_eq!(OFFSET_COMM, 24);
}

#[test]
fn event_wire_form_is_exact() {
    let bytes = sample_event().to_bytes();
    let mut expected: Vec<u8> = vec![
        0x04, 0x03, 0x02, 0x01, // pid
        0x0d, 0x0c, 0x0b, 0x0a, // tid
        0x01, 0x01, 0, 0, 0, 0, 0, 0, // 257
        0x88, 0x77, 0x66, 0x55, 0x44, 0x33, 0x22, 0x11, // timestamp
    ];
    expected.extend_from_slice(b"bash");
    expected.extend_from_slice(&[0u8; 12]);
    assert_eq!(bytes, expected);
}

#[test]
fn key_wire_form_is_exact() {
    let bytes = SyscallKey::new(0x0102_0304, 59).to_bytes();
    assert_eq!(
        bytes,
        vec![0x04, 0x03, 0x02, 0x01, 0, 0, 0, 0, 59, 0, 0, 0, 0, 0, 0, 0]
    );
}

#[test]
fn decode_gives_back_what_was_encoded() {
    let e = sample_event();
    let d = SyscallEvent::from_bytes(&e.to_bytes()).unwrap();
    assert_eq!(d.pid, e.pid);
    assert_eq!(d.tid, e.tid);
    assert_eq!(d.syscall_nr, e.syscall_nr);
    assert_eq!(d.timestamp_ns, e.timestamp_ns);
    assert_eq!(d.comm, e.comm);
}

#[test]
fn encode_gives_back_what_was_decoded() {
    let bytes: Vec<u8> = (0u8..40).collect();
    let d = SyscallEvent::from_bytes(&bytes).unwrap();
    assert_eq!(d.pid, 0x0302_0100);
    assert_eq!(d.tid, 0x0706_0504);
    assert_eq!(d.syscall_nr, 0x0f0e_0d0c_0b0a_0908);
    assert_eq!(d.timestamp_ns, 0x1716_1514_1312_1110);
    assert_eq!(d.to_bytes(), bytes);
}

#[test]
fn decode_ignores_bytes_after_the_record() {
    let mut bytes = sample_event().to_bytes();
    bytes.extend_from_slice(&[0xff; 5]);
    let d = SyscallEvent::from_bytes(&bytes).unwrap();
    assert_eq!(d.syscall_nr, 257);
    assert_eq!(d.comm, sample_event().comm);
}

#[test]
fn short_record_is_a_decode_error() {
    let bytes = sample_event().to_bytes();
    assert_eq!(
        SyscallEvent::from_bytes(&bytes[..39]).unwrap_err(),
        DecodeError::ShortRecord { expected: 40, actual: 39 }
    );
    assert_eq!(
        SyscallEvent::from_bytes(&[]).unwrap_err(),
        DecodeError::ShortRecord { expected: 40, actual: 0 }
    );
}
