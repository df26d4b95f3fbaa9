use ebpf_tool::channel::{
    decode_samples, ChannelSet, EventChannel, SubmitOutcome, DEFAULT_CHANNEL_CAPACITY,
};
use ebpf_tool::schema::SyscallEvent;

fn event(n: u64) -> SyscallEvent {
    SyscallEvent { pid: 1, tid: 2, syscall_nr: n, timestamp_ns: 1000 + n, comm: [0u8; 16] }
}

fn numbers(events: &[SyscallEvent]) -> Vec<u64> {
    events.iter().map(|e| e.syscall_nr).collect()
}

#[test]
fn the_default_capacity_holds_several_hundred_events() {
    assert_eq!(DEFAULT_CHANNEL_CAPACITY, 1024);
    let mut channel = EventChannel::new(DEFAULT_CHANNEL_CAPACITY);
    for n in 0..1024 {
        assert_eq!(channel.push(event(n)), SubmitOutcome::Queued);
    }
    assert!(channel.is_full());
    assert_eq!(channel.dropped(), 0);
}

#[test]
fn a_new_channel_is_empty() {
    let channel = EventChannel::new(3);
    assert_eq!(channel.len(), 0);
    assert_eq!(channel.capacity(), 3);
    assert_eq!(channel.produced(), 0);
    assert_eq!(channel.observed(), 0);
    assert_eq!(channel.dropped(), 0);
    assert!(!channel.is_full());
}

#[test]
fn events_come_out_in_the_order_they_went_in() {
    let mut channel = EventChannel::new(4);
    for n in [5, 3, 9] {
        assert_eq!(channel.push(event(n)), SubmitOutcome::Queued);
    }
    assert_eq!(channel.pop().map(|e| e.syscall_nr), Some(5));
    assert_eq!(channel.push(event(7)), SubmitOutcome::Queued);
    assert_eq!(numbers(&channel.drain()), vec![3, 9, 7]);
    assert_eq!(channel.pop().map(|e| e.syscall_nr), None);
    assert_eq!(channel.observed(), 4);
    assert_eq!(channel.produced(), 4);
    assert!(channel.drain().is_empty());
    assert_eq!(channel.observed(), 4);
}

#[test]
fn a_full_channel_drops_the_newest_event() {
    let mut channel = EventChannel::new(2);
    assert_eq!(channel.push(event(1)), SubmitOutcome::Queued);
    assert_eq!(channel.push(event(2)), SubmitOutcome::Queued);
    assert!(channel.is_full());
    assert_eq!(channel.push(event(3)), SubmitOutcome::Dropped);
    assert_eq!(channel.push(event(4)), SubmitOutcome::Dropped);
    assert_eq!(channel.len(), 2);
    assert_eq!(channel.dropped(), 2);
    assert_eq!(channel.produced(), 4);
    assert_eq!(numbers(&channel.drain()), vec![1, 2]);
    assert_eq!(channel.push(event(5)), SubmitOutcome::Queued);
    assert_eq!(numbers(&channel.drain()), vec![5]);
}

#[test]
fn a_channel_without_room_drops_everything() {
    let mut channel = EventChannel::new(0);
    assert!(channel.is_full());
    assert_eq!(channel.push(event(1)), SubmitOutcome::Dropped);
    assert_eq!(channel.dropped(), 1);
    assert_eq!(channel.produced(), 1);
    assert!(channel.drain().is_empty());
}

#[test]
fn under_saturation_observed_and_dropped_make_up_produced() {
    let mut channel = EventChannel::new(8);
    let mut seen: Vec<u64> = Vec::new();
    let mut queued = 0u64;
    for n in 0..1000u64 {
        if channel.push(event(n)) == SubmitOutcome::Queued {
            queued += 1;
        }
        if n % 50 == 49 {
            seen.extend(numbers(&channel.drain()));
        }
        assert_eq!(
            channel.observed() + channel.dropped() + channel.len() as u64,
            channel.produced()
        );
    }
    seen.extend(numbers(&channel.drain()));
    assert_eq!(channel.produced(), 1000);
    assert_eq!(channel.observed(), 160);
    assert_eq!(channel.dropped(), 840);
    assert_eq!(channel.observed() + channel.dropped(), channel.produced());
    assert_eq!(seen.len() as u64, queued);
    let mut sorted = seen.clone();
    sorted.dedup();
    assert_eq!(sorted.len(), seen.len());
    assert!(seen.windows(2).all(|w| w[0] < w[1]));
}

#[test]
fn short_samples_are_skipped_and_counted() {
    let a = event(1).to_bytes();
    let b = event(2).to_bytes();
    let mut long = event(3).to_bytes();
    long.extend_from_slice(&[9, 9, 9]);
    let samples = vec![a, vec![1, 2, 3], b.clone(), Vec::new(), long, b[..39].to_vec()];
    let batch = decode_samples(&samples);
    assert_eq!(numbers(&batch.events), vec![1, 2, 3]);
    assert_eq!(batch.short_reads, 3);
    assert_eq!(batch.events[0].timestamp_ns, 1001);
    let empty = decode_samples(&Vec::new());
    assert!(empty.events.is_empty());
    assert_eq!(empty.short_reads, 0);
}

#[test]
fn each_cpu_has_its_own_channel() {
    let mut set = ChannelSet::new(3, 2);
    assert_eq!(set.cpus(), 3);
    assert_eq!(set.submit(0, event(1)), Some(SubmitOutcome::Queued));
    assert_eq!(set.submit(2, event(2)), Some(SubmitOutcome::Queued));
    assert_eq!(set.submit(0, event(3)), Some(SubmitOutcome::Queued));
    assert_eq!(set.submit(0, event(4)), Some(SubmitOutcome::Dropped));
    assert_eq!(set.submit(1, event(5)), Some(SubmitOutcome::Queued));
    assert_eq!(set.submit(3, event(6)), None);
    assert_eq!(set.dropped(), 1);
    assert_eq!(numbers(&set.drain_all()), vec![1, 3, 5, 2]);
    assert!(set.drain_all().is_empty());
    assert_eq!(set.dropped(), 1);
}

#[test]
fn test_perf_samples_all_cpus() {
    let mut set = ChannelSet::new(4, 16);
    for cpu in 0..4usize {
        for n in 0..3u64 {
            assert_eq!(set.submit(cpu, event(cpu as u64 * 10 + n)), Some(SubmitOutcome::Queued));
        }
    }
    assert_eq!(
        numbers(&set.drain_all()),
        vec![0, 1, 2, 10, 11, 12, 20, 21, 22, 30, 31, 32]
    );
}

#[test]
fn a_set_without_cpus_takes_nothing() {
    let mut set = ChannelSet::new(0, 4);
    assert_eq!(set.cpus(), 0);
    assert_eq!(set.submit(0, event(1)), None);
    assert!(set.drain_all().is_empty());
    assert_eq!(set.dropped(), 0);
}

#[test]
fn a_channel_can_count_until_its_counter_is_full() {
    let mut set = ChannelSet::new(2, 1);
    assert!(set.can_count(0));
    assert!(set.can_count(1));
    assert!(set.can_count(2));
    set.submit(0, event(1));
    set.submit(0, event(2));
    assert!(set.can_count(0));
}
