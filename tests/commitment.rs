use ibc_core::commitment::{append_bytes, commitment_preimage, push_be64};
use ibc_core::context::calculate_block_delay;
use ibc_core::height::{Height, TimeoutHeight, Timestamp};

#[test]
fn be64_bytes() {
    let mut v = vec![9u8];
    push_be64(&mut v, 0x0102_0304_0506_0708);
    assert_eq!(v, vec![9, 1, 2, 3, 4, 5, 6, 7, 8]);
    let mut w = Vec::new();
    push_be64(&mut w, u64::MAX);
    assert_eq!(w, vec![0xff; 8]);
}

#[test]
fn append_keeps_order() {
    let mut v = vec![1u8, 2];
    append_bytes(&mut v, &[3, 4, 5]);
    assert_eq!(v, vec![1, 2, 3, 4, 5]);
}

#[test]
fn preimage_layout() {
    let h = TimeoutHeight::At(Height { revision_number: 1, revision_height: 1000 });
    let t = Timestamp { nanoseconds: 5 };
    let r = commitment_preimage(&h, &t, &[0xaa, 0xbb]);
    let mut expected = vec![0, 0, 0, 0, 0, 0, 0, 5];
    expected.extend_from_slice(&[0, 0, 0, 0, 0, 0, 0, 1]);
    expected.extend_from_slice(&[0, 0, 0, 0, 0, 0, 0x03, 0xe8]);
    expected.extend_from_slice(&[0xaa, 0xbb]);
    assert_eq!(r, expected);
}

#[test]
fn preimage_without_timeout_height() {
    let r = commitment_preimage(&TimeoutHeight::Never, &Timestamp { nanoseconds: 0 }, &[7]);
    let mut expected = vec![0u8; 24];
    expected.push(7);
    assert_eq!(r, expected);
}

#[test]
fn block_delay_rounds_up() {
    assert_eq!(calculate_block_delay(10, 3), 4);
    assert_eq!(calculate_block_delay(9, 3), 3);
    assert_eq!(calculate_block_delay(0, 3), 0);
    assert_eq!(calculate_block_delay(5, 0), 0);
    assert_eq!(calculate_block_delay(u64::MAX, 2), u64::MAX / 2 + 1);
}

#[test]
fn height_order_within_revision() {
    let a = Height::new(1, 5);
    assert!(a.lt(&Height::new(1, 6)));
    assert!(!a.lt(&Height::new(2, 6)));
    assert!(!a.lt(&Height::new(1, 5)));
    let t = TimeoutHeight::At(Height::new(1, 1000));
    assert!(t.has_expired(&Height::new(1, 1000)));
    assert!(!t.has_expired(&Height::new(1, 999)));
    assert!(!TimeoutHeight::Never.has_expired(&Height::new(1, 1)));
}
