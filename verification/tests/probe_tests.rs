use kube_cache::probe::{
    next_packet_count, DiskSample, ProbeEvent, ProbeReport, RECORD_BYTES, SECTOR_BYTES,
};

#[test]
fn disk_completion_counts_sectors_of_512_bytes() {
    assert_eq!(ProbeEvent::disk_completion(0), ProbeEvent { duration_ns: 0, disk_bytes: 0 });
    assert_eq!(ProbeEvent::disk_completion(8), ProbeEvent { duration_ns: 0, disk_bytes: 4096 });
    assert_eq!(
        ProbeEvent::disk_completion(u32::MAX),
        ProbeEvent { duration_ns: 0, disk_bytes: 4294967295 * 512 }
    );
    assert_eq!(SECTOR_BYTES, 512);
}

#[test]
fn connect_latency_is_the_difference_on_the_clock() {
    assert_eq!(
        ProbeEvent::connect_latency(1_000, 4_500),
        ProbeEvent { duration_ns: 3_500, disk_bytes: 0 }
    );
    assert_eq!(ProbeEvent::connect_latency(7, 7).duration_ns, 0);
    assert_eq!(ProbeEvent::connect_latency(u64::MAX, 1).duration_ns, 2);
}

#[test]
fn record_is_sixteen_bytes_least_significant_first() {
    let e = ProbeEvent { duration_ns: 0x0102030405060708, disk_bytes: 513 };
    let bytes = e.to_bytes();
    assert_eq!(bytes.len(), RECORD_BYTES);
    assert_eq!(bytes, vec![8, 7, 6, 5, 4, 3, 2, 1, 1, 2, 0, 0, 0, 0, 0, 0]);
    assert_eq!(ProbeEvent::from_bytes(&bytes), Some(e));
}

#[test]
fn records_round_trip() {
    for e in [
        ProbeEvent { duration_ns: 0, disk_bytes: 0 },
        ProbeEvent { duration_ns: u64::MAX, disk_bytes: 1 },
        ProbeEvent { duration_ns: 1, disk_bytes: u64::MAX },
        ProbeEvent { duration_ns: 123456789, disk_bytes: 4096 },
    ] {
        assert_eq!(ProbeEvent::from_bytes(&e.to_bytes()), Some(e));
    }
}

#[test]
fn short_buffers_hold_no_record() {
    assert_eq!(ProbeEvent::from_bytes(&[]), None);
    assert_eq!(ProbeEvent::from_bytes(&[0u8; 15]), None);
    let mut long = vec![0u8; 1024];
    long[0] = 5;
    long[8] = 9;
    long[16] = 0xff;
    assert_eq!(ProbeEvent::from_bytes(&long), Some(ProbeEvent { duration_ns: 5, disk_bytes: 9 }));
}

#[test]
fn report_tells_latency_disk_and_stub_apart() {
    assert_eq!(
        ProbeEvent { duration_ns: 250, disk_bytes: 0 }.report(),
        ProbeReport { latency_ns: Some(250), disk: DiskSample::Nothing }
    );
    assert_eq!(
        ProbeEvent { duration_ns: 0, disk_bytes: 4096 }.report(),
        ProbeReport { latency_ns: None, disk: DiskSample::Bytes(4096) }
    );
    assert_eq!(
        ProbeEvent { duration_ns: 0, disk_bytes: 0 }.report(),
        ProbeReport { latency_ns: None, disk: DiskSample::Stub }
    );
    assert_eq!(
        ProbeEvent { duration_ns: 9, disk_bytes: 1 }.report(),
        ProbeReport { latency_ns: Some(9), disk: DiskSample::Bytes(1) }
    );
}

#[test]
fn packet_count_starts_at_one_and_wraps() {
    assert_eq!(next_packet_count(None), 1);
    assert_eq!(next_packet_count(Some(0)), 1);
    assert_eq!(next_packet_count(Some(41)), 42);
    assert_eq!(next_packet_count(Some(u32::MAX)), 0);
}

#[test]
fn unreadable_sector_count_stands_for_no_sectors() {
    assert_eq!(
        ProbeEvent::disk_completion_of(Some(8)),
        ProbeEvent { duration_ns: 0, disk_bytes: 4096 }
    );
    assert_eq!(ProbeEvent::disk_completion_of(None), ProbeEvent { duration_ns: 0, disk_bytes: 0 });
}
