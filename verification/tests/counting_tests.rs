use ebpf_tool::counting::CountingTable;
use ebpf_tool::schema::{SyscallKey, MAX_MAP_ENTRIES};

#[test]
fn a_new_table_is_empty() {
    let table = CountingTable::new(4);
    assert_eq!(table.len(), 0);
    assert_eq!(table.capacity(), 4);
    assert_eq!(table.lost(), 0);
    assert!(table.snapshot().is_empty());
    assert_eq!(table.get(&SyscallKey::new(1, 2)), 0);
    let table = CountingTable::with_default_capacity();
    assert_eq!(table.capacity(), MAX_MAP_ENTRIES as usize);
    assert_eq!(table.capacity(), 10240);
}

#[test]
fn increments_count_per_key() {
    let mut table = CountingTable::new(8);
    let open = SyscallKey::new(0, 257);
    let read = SyscallKey::new(0, 0);
    let read_of_7 = SyscallKey::new(7, 0);
    assert!(table.increment(open));
    assert!(table.increment(read));
    assert!(table.increment(open));
    assert!(table.increment(read_of_7));
    assert!(table.increment(open));
    assert_eq!(table.get(&open), 3);
    assert_eq!(table.get(&read), 1);
    assert_eq!(table.get(&read_of_7), 1);
    assert_eq!(table.get(&SyscallKey::new(7, 257)), 0);
    assert_eq!(table.len(), 3);
    assert_eq!(table.snapshot(), vec![(open, 3), (read, 1), (read_of_7, 1)]);
}

#[test]
fn test_stats_after_workload() {
    let mut table = CountingTable::with_default_capacity();
    let key = SyscallKey::new(0, 257);
    let before = table.get(&key);
    for _ in 0..10 {
        assert!(table.increment(key));
    }
    let snapshot = table.snapshot();
    let counted = snapshot.iter().find(|(k, _)| *k == key).map(|(_, c)| *c);
    assert_eq!(counted, Some(10));
    assert!(counted.unwrap() >= before + 10);
    for _ in 0..5 {
        table.increment(key);
    }
    assert_eq!(table.get(&key), 15);
}

#[test]
fn test_stats_shows_syscall_counts() {
    let mut table = CountingTable::new(16);
    for nr in [0u64, 1, 1, 257, 257, 257] {
        table.increment(SyscallKey::new(0, nr));
    }
    assert_eq!(
        table.snapshot(),
        vec![
            (SyscallKey::new(0, 0), 1),
            (SyscallKey::new(0, 1), 2),
            (SyscallKey::new(0, 257), 3),
        ]
    );
}

#[test]
fn a_full_table_counts_known_keys_and_loses_new_ones() {
    let mut table = CountingTable::new(2);
    let a = SyscallKey::new(1, 1);
    let b = SyscallKey::new(2, 2);
    let c = SyscallKey::new(3, 3);
    assert!(table.increment(a));
    assert!(table.increment(b));
    assert!(!table.increment(c));
    assert!(!table.increment(c));
    assert!(table.increment(a));
    assert_eq!(table.lost(), 2);
    assert_eq!(table.len(), 2);
    assert_eq!(table.get(&c), 0);
    assert_eq!(table.snapshot(), vec![(a, 2), (b, 1)]);
}

#[test]
fn a_table_without_slots_loses_everything() {
    let mut table = CountingTable::new(0);
    assert!(!table.increment(SyscallKey::new(1, 1)));
    assert_eq!(table.lost(), 1);
    assert!(table.snapshot().is_empty());
}

#[test]
fn counters_never_decrease() {
    let mut table = CountingTable::new(3);
    let keys = [SyscallKey::new(0, 1), SyscallKey::new(0, 2), SyscallKey::new(9, 1)];
    let mut last = [0u64; 3];
    for step in 0..60usize {
        table.increment(keys[(step * 7) % 3]);
        for (i, k) in keys.iter().enumerate() {
            let now = table.get(k);
            assert!(now >= last[i]);
            last[i] = now;
        }
    }
    assert_eq!(last.iter().sum::<u64>(), 60);
}

#[test]
fn clear_gives_a_fresh_table() {
    let mut table = CountingTable::new(1);
    let a = SyscallKey::new(1, 1);
    table.increment(a);
    table.increment(SyscallKey::new(2, 2));
    assert_eq!(table.lost(), 1);
    table.clear();
    assert_eq!(table.len(), 0);
    assert_eq!(table.lost(), 0);
    assert_eq!(table.capacity(), 1);
    assert_eq!(table.get(&a), 0);
    assert!(table.increment(SyscallKey::new(2, 2)));
    assert_eq!(table.snapshot(), vec![(SyscallKey::new(2, 2), 1)]);
}

#[test]
fn keys_differ_by_their_padding_too() {
    let mut table = CountingTable::new(4);
    let plain = SyscallKey::new(1, 1);
    let padded = SyscallKey { pid: 1, _pad: 5, syscall_nr: 1 };
    table.increment(plain);
    table.increment(padded);
    table.increment(padded);
    assert_eq!(table.get(&plain), 1);
    assert_eq!(table.get(&padded), 2);
}
