use solana_audit_kit::bytes::{extend_le_u64, pad_or_truncate};

#[test]
fn pad_shorter_input_fills_with_zeros() {
    assert_eq!(pad_or_truncate(&[1, 2, 3], 5), vec![1, 2, 3, 0, 0]);
}

#[test]
fn pad_longer_input_is_cut() {
    assert_eq!(pad_or_truncate(&[1, 2, 3, 4, 5, 6, 7, 8, 9, 10], 8), vec![1, 2, 3, 4, 5, 6, 7, 8]);
}

#[test]
fn pad_exact_length_is_unchanged() {
    let src = [9u8, 8, 7, 6];
    assert_eq!(pad_or_truncate(&src, 4), src.to_vec());
}

#[test]
fn pad_to_zero_length_is_empty() {
    assert_eq!(pad_or_truncate(&[1, 2, 3], 0), Vec::<u8>::new());
}

#[test]
fn pad_empty_input_is_all_zeros() {
    assert_eq!(pad_or_truncate(&[], 8), vec![0u8; 8]);
}

#[test]
fn pad_twice_changes_nothing() {
    let once = pad_or_truncate(&[5, 6, 7], 8);
    assert_eq!(pad_or_truncate(&once, 8), once);
    let cut = pad_or_truncate(&[1, 2, 3, 4, 5, 6, 7, 8, 9], 8);
    assert_eq!(pad_or_truncate(&cut, 8), cut);
}

#[test]
fn pad_then_shrink_equals_direct_shrink() {
    let src = [1u8, 2, 3];
    assert_eq!(pad_or_truncate(&pad_or_truncate(&src, 10), 5), pad_or_truncate(&src, 5));
    assert_eq!(pad_or_truncate(&pad_or_truncate(&src, 10), 2), vec![1, 2]);
}

#[test]
fn le_bytes_are_appended_least_significant_first() {
    let mut data = vec![0xaa];
    extend_le_u64(&mut data, 0x0102_0304_0506_0708);
    assert_eq!(data, vec![0xaa, 0x08, 0x07, 0x06, 0x05, 0x04, 0x03, 0x02, 0x01]);
}

#[test]
fn le_bytes_match_std_and_read_back() {
    for v in [0u64, 1, 255, 256, u64::MAX, 0xdead_beef_0000_0001] {
        let mut data = Vec::new();
        extend_le_u64(&mut data, v);
        assert_eq!(data, v.to_le_bytes().to_vec());
        let mut arr = [0u8; 8];
        arr.copy_from_slice(&data);
        assert_eq!(u64::from_le_bytes(arr), v);
    }
}
