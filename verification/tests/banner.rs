use history_ring::banner::boot_banner;
use history_ring::recorder::Recorder;

#[test]
fn banner_is_the_fixed_identification_string() {
    let banner = boot_banner();
    assert_eq!(banner, b"Rust subsystem online (no_std)\0");
}

#[test]
fn banner_is_nul_terminated_with_no_interior_nul() {
    let banner = boot_banner();
    assert!(!banner.is_empty());
    assert_eq!(*banner.last().unwrap(), 0);
    assert!(banner[..banner.len() - 1].iter().all(|&b| b != 0));
}

#[test]
fn banner_is_invariant_across_calls_and_pushes() {
    let first = boot_banner();
    let mut rec = Recorder::new();
    for i in 0..20u8 {
        rec.history_push(&[i]);
        assert_eq!(boot_banner(), first);
    }
    assert_eq!(boot_banner(), first);
}
