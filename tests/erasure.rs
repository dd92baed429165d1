use bitwarden_backup::eraser::zero_fill;

#[test]
fn zero_fill_gives_as_many_zeros() {
    assert_eq!(zero_fill(0), Vec::<u8>::new());
    assert_eq!(zero_fill(5), vec![0u8; 5]);
    let plain = br#"{"folders":[{}],"items":[{}]}"#;
    let zeros = zero_fill(plain.len());
    assert_eq!(zeros.len(), plain.len());
    assert_ne!(&zeros[..], &plain[..]);
    assert!(zeros.iter().all(|b| *b == 0));
}
