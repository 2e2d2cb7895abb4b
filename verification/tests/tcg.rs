use rust_td::tcg::{create_td_event, extend_rtmr, TPM_ALG_SHA384};

fn hex(s: &str) -> Vec<u8> {
    (0..s.len()).step_by(2).map(|i| u8::from_str_radix(&s[i..i + 2], 16).unwrap()).collect()
}

const SHA384_ABC: &str = "cb00753f45a35e8bb5a03d699ac65007272c32ab0eded1631a8b605a43ff5bed8086072ba1e7cc2358baeca134c825a7";
const SHA384_EMPTY: &str = "38b060a751ac96384cd9327eb1b1e36a21fdb71114be07434c0cc7bf63f6e1da274edebfe76f65fbd51ad2f14898b95b";

#[test]
fn pcr_to_rtmr_mapping() {
    let data = [7u8; 48];
    assert!(extend_rtmr(&data, 0).is_none());
    assert_eq!(extend_rtmr(&data, 1).map(|e| e.1), Some(0));
    assert_eq!(extend_rtmr(&data, 7).map(|e| e.1), Some(0));
    for pcr in 2..=6 {
        assert_eq!(extend_rtmr(&data, pcr).map(|e| e.1), Some(1));
    }
    for pcr in 8..=15 {
        assert_eq!(extend_rtmr(&data, pcr).map(|e| e.1), Some(2));
    }
    assert!(extend_rtmr(&data, 16).is_none());
    assert!(extend_rtmr(&data, u32::MAX).is_none());
    assert_eq!(extend_rtmr(&data, 3).unwrap().0.data, data);
}

#[test]
fn td_event_records_sha384() {
    let (header, extension) = create_td_event(1, 0x8000_0001, b"td hob", b"abc");
    assert_eq!(header.pcr_index, 1);
    assert_eq!(header.event_type, 0x8000_0001);
    assert_eq!(header.event_size, 6);
    assert_eq!(header.digest.count, 1);
    assert_eq!(header.digest.digests[0].hash_alg, TPM_ALG_SHA384);
    assert_eq!(header.digest.digests[0].digest.sha384.to_vec(), hex(SHA384_ABC));
    let (digest, mr_index) = extension.unwrap();
    assert_eq!(mr_index, 0);
    assert_eq!(digest.data.to_vec(), hex(SHA384_ABC));
}

#[test]
fn td_event_empty_data_and_unmapped_pcr() {
    let (header, extension) = create_td_event(0, 3, b"", b"");
    assert_eq!(header.event_size, 0);
    assert_eq!(header.digest.digests[0].digest.sha384.to_vec(), hex(SHA384_EMPTY));
    assert!(extension.is_none());
    let (_, extension) = create_td_event(9, 3, b"", b"abc");
    assert_eq!(extension.map(|e| e.1), Some(2));
}
