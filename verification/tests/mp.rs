use rust_td::mp::{is_accept_report_point, mp_accept_memory_resource_range, td_accept_page};

#[test]
fn accept_page_run() {
    assert_eq!(td_accept_page(0x10_0000, 2), vec![0x10_0000, 0x10_1000]);
    assert_eq!(td_accept_page(0x10_0000, 0), Vec::<u64>::new());
    assert_eq!(td_accept_page(u64::MAX - 0xfff, 1), vec![u64::MAX - 0xfff]);
}

#[test]
fn accept_range_whole_chunks() {
    assert_eq!(
        mp_accept_memory_resource_range(0x80_0000, 0x4000),
        vec![0x80_0000, 0x80_1000, 0x80_2000, 0x80_3000]
    );
}

#[test]
fn accept_range_drops_partial_chunk() {
    assert_eq!(
        mp_accept_memory_resource_range(0x1000, 0x3fff),
        vec![0x1000, 0x2000]
    );
    assert_eq!(mp_accept_memory_resource_range(0x1000, 0x1fff), Vec::<u64>::new());
    assert_eq!(mp_accept_memory_resource_range(0x1000, 0), Vec::<u64>::new());
}

#[test]
fn accept_range_is_increasing_and_inside() {
    let address = 0x1_0000_0000u64;
    let size = 0x10_0000u64;
    let pages = mp_accept_memory_resource_range(address, size);
    assert_eq!(pages.len() as u64, size / 0x1000);
    for w in pages.windows(2) {
        assert_eq!(w[1], w[0] + 0x1000);
    }
    assert!(pages.iter().all(|&p| address <= p && p + 0x1000 <= address + size));
}

#[test]
fn accept_range_equals_chunk_runs() {
    let address = 0x40_0000u64;
    let pages = mp_accept_memory_resource_range(address, 0x6000);
    let mut by_chunks = Vec::new();
    for c in 0..3u64 {
        by_chunks.extend(td_accept_page(address + c * 0x2000, 2));
    }
    assert_eq!(pages, by_chunks);
}

#[test]
fn report_every_8mib() {
    assert!(is_accept_report_point(0));
    assert!(is_accept_report_point(0x80_0000));
    assert!(is_accept_report_point(0x1_0000_0000));
    assert!(!is_accept_report_point(0x80_2000));
}
