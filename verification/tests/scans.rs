use esp8266::scan::{OkScan, ReadyScan};
use esp8266::AdapterError;

fn reply(bytes: &[u8]) -> Vec<Option<Result<(), AdapterError>>> {
    let mut scan = OkScan::new();
    bytes.iter().map(|b| scan.feed(Ok(*b))).collect()
}

#[test]
fn the_announcement_is_noticed_with_its_last_byte() {
    let mut scan = ReadyScan::new();
    let noise = b"\x00\xffboot ready\rready\n";
    for b in noise {
        assert!(!scan.feed(*b));
    }
    for b in b"ready\r" {
        assert!(!scan.feed(*b));
    }
    assert!(scan.feed(b'\n'));
}

#[test]
fn an_announcement_alone_is_noticed() {
    let mut scan = ReadyScan::new();
    let found: Vec<bool> = b"ready\r\n".iter().map(|b| scan.feed(*b)).collect();
    assert_eq!(found, vec![false, false, false, false, false, false, true]);
}

#[test]
fn a_ready_scan_is_full_after_its_capacity() {
    let mut scan = ReadyScan::new();
    for _ in 0..1024 {
        assert!(!scan.is_full());
        assert!(!scan.feed(b'.'));
    }
    assert!(scan.is_full());
}

#[test]
fn an_ok_scan_is_full_after_its_capacity() {
    let mut scan = OkScan::new();
    for _ in 0..64 {
        assert!(!scan.is_full());
        assert_eq!(scan.feed(Ok(b'.')), None);
    }
    assert!(scan.is_full());
}

#[test]
fn a_reply_that_accepts_is_judged_with_its_last_byte() {
    let all = reply(b"ATE0\r\r\n\r\nOK\r\n");
    let (last, before) = all.split_last().unwrap();
    assert_eq!(*last, Some(Ok(())));
    assert!(before.iter().all(|v| v.is_none()));
}

#[test]
fn a_reply_that_refuses_is_judged_with_its_last_byte() {
    let all = reply(b"busy\r\nERROR\r\n");
    let (last, before) = all.split_last().unwrap();
    assert_eq!(*last, Some(Err(AdapterError::UnableToInitialize)));
    assert!(before.iter().all(|v| v.is_none()));
}

#[test]
fn a_reply_is_not_judged_by_a_part_of_a_mark() {
    assert!(reply(b"OK\r").iter().all(|v| v.is_none()));
    assert!(reply(b"RROR\r\n").iter().all(|v| v.is_none()));
    assert!(reply(b"ok\r\n").iter().all(|v| v.is_none()));
}

#[test]
fn a_reply_that_cannot_be_read_is_an_error() {
    let mut scan = OkScan::new();
    assert_eq!(scan.feed(Ok(b'O')), None);
    assert_eq!(scan.feed(Err(())), Some(Err(AdapterError::ReadError)));
}
