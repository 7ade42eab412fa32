//! Surface sizing: rounding of logical size times density, and resize
//! idempotence.

use viz_core::surface::{phys_px, SurfaceState};

#[test]
fn physical_size_rounds_logical_times_density() {
    // 1000.5 logical pixels at density 2 is exactly 2001 physical pixels.
    assert_eq!(phys_px(1_000_500, 2_000), 2_001);
    // 100.25 logical pixels at density 2 is 200.5, which rounds up.
    assert_eq!(phys_px(100_250, 2_000), 201);
    // 100.2 logical pixels at density 2 is 200.4, which rounds down.
    assert_eq!(phys_px(100_200, 2_000), 200);
    // Density 1.25 on 1536 logical pixels lands exactly on 1920.
    assert_eq!(phys_px(1_536_000, 1_250), 1_920);
    assert_eq!(phys_px(0, 1_000), 0);
}

#[test]
fn adjusting_twice_with_the_same_reading_is_a_noop() {
    let mut s = SurfaceState::new(1_920_000, 1_080_000, 1_000);
    assert_eq!(s.phys_w, 1_920);
    assert_eq!(s.phys_h, 1_080);

    let changed = s.adjust_size(1_024_000, 768_000, 2_000);
    assert!(changed);
    assert_eq!(s.phys_w, 2_048);
    assert_eq!(s.phys_h, 1_536);

    let again = s.adjust_size(1_024_000, 768_000, 2_000);
    assert!(!again, "the second reconciliation must not reallocate");
    assert_eq!(s.phys_w, 2_048);
    assert_eq!(s.phys_h, 1_536);
}

#[test]
fn readings_with_the_same_physical_size_do_not_reallocate() {
    let mut s = SurfaceState::new(1_000_000, 500_000, 1_000);
    assert_eq!(s.phys_w, 1_000);
    // Halved logical size at doubled density: identical physical pixels.
    let changed = s.adjust_size(500_000, 250_000, 2_000);
    assert!(!changed);
    assert_eq!(s.phys_w, 1_000);
    assert_eq!(s.phys_h, 500);
}
