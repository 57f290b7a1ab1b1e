use rusttracer::tuples::xand;

#[test]
fn sanity_check() {
    let result = 2 + 2;
    assert_eq!(result, 4);
}

#[test]
fn xand_is_true_when_flags_agree() {
    assert!(xand(true, true));
    assert!(xand(false, false));
    assert!(!xand(true, false));
    assert!(!xand(false, true));
}
