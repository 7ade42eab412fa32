//! The frame driver: pass ordering, per-variant animation inputs, and
//! target freshness across resizes.

use viz_core::driver::AppState;
use viz_core::pattern::ParamDraws;
use viz_core::post::PostTargets;
use viz_core::viz::{kind_at, VizKind, VIZ_COUNT};

fn draws(seed: u32) -> ParamDraws {
    ParamDraws {
        theta0: seed,
        theta_speed: seed,
        density: seed,
        thickness: seed,
        drift_x: seed,
        drift_y: seed,
        color_speed: seed,
        mode: seed,
        dot_theta0: seed,
        dot_theta_speed: seed,
        dot_drift_x: seed,
        dot_drift_y: seed,
        dot_density: seed,
        dot_rmin: seed,
        dot_rmax: seed,
    }
}

fn key(k: &str, code: &str) -> viz_core::sched::KeyInput {
    viz_core::sched::KeyInput {
        key: k.to_string(),
        code: code.to_string(),
        target_tag: "CANVAS".to_string(),
        target_editable: false,
    }
}

#[test]
fn the_first_frame_plans_the_first_segment() {
    let mut app = AppState::new(1_920_000, 1_080_000, 1_000);
    let plan = app.run_frame(10_000, &draws(1));
    assert_eq!(plan.frame, 0);
    assert!(plan.transitioned);
    assert_eq!(plan.label.as_deref(), Some("1/5 Pulsing Circle"));
    assert_eq!(plan.index, 0);
    assert_eq!(plan.kind, VizKind::PulseCircle);
    assert_eq!(plan.local_ms, 0);
    assert_eq!(plan.rot_mrad, 0, "the pulsing disc never rotates");
    assert_eq!(plan.composite.w, 1_920);
    assert_eq!(plan.composite.h, 1_080);
    assert_eq!(plan.composite.generation, 0);

    let next = app.run_frame(10_016, &draws(2));
    assert_eq!(next.frame, 1);
    assert!(!next.transitioned);
    assert!(next.label.is_none());
    assert_eq!(next.local_ms, 16);
}

#[test]
fn rotation_uniforms_follow_each_variant() {
    let mut app = AppState::new(800_000, 600_000, 1_000);
    app.run_frame(0, &draws(1));
    // Advance to the rotating square, then render mid-segment.
    app.handle_key(&key(" ", "Space"), 1_000, &draws(2));
    let plan = app.run_frame(6_000, &draws(3));
    assert_eq!(plan.kind, VizKind::RotatingSquare);
    assert_eq!(plan.local_ms, 5_000);
    assert_eq!(plan.rot_mrad, 5_000, "the square turns one milliradian per millisecond");

    // Advance to the star, which rotates at half speed.
    app.handle_key(&key(" ", "Space"), 7_000, &draws(4));
    let plan = app.run_frame(10_000, &draws(5));
    assert_eq!(plan.kind, VizKind::StarLines);
    assert_eq!(plan.rot_mrad, 1_500);
}

#[test]
fn variants_sit_at_their_registry_positions() {
    assert_eq!(VIZ_COUNT, 5);
    assert_eq!(kind_at(0), VizKind::PulseCircle);
    assert_eq!(kind_at(1), VizKind::RotatingSquare);
    assert_eq!(kind_at(2), VizKind::StarLines);
    assert_eq!(kind_at(3), VizKind::RadiatingSpokes);
    assert_eq!(kind_at(4), VizKind::ExpandingCrossLines);
    assert_eq!(kind_at(0).name(), "Pulsing Circle");
    assert_eq!(kind_at(4).name(), "Pulsing Plus");
}

#[test]
fn a_resize_invalidates_both_targets_together() {
    let mut t = PostTargets::new(1_920, 1_080);
    t.record_mask(0);
    t.record_scene(0);
    assert!(t.mask.is_some() && t.scene.is_some());

    let realloc = t.resize(1_280, 720);
    assert!(realloc);
    assert_eq!(t.generation, 1);
    assert!(t.mask.is_none(), "a resize discards the mask target's content");
    assert!(t.scene.is_none(), "a resize discards the scene target's content");

    let again = t.resize(1_280, 720);
    assert!(!again, "the second resize must not reallocate");
    assert_eq!(t.generation, 1);
}

#[test]
fn composites_after_a_resize_sample_fresh_targets() {
    let mut app = AppState::new(1_920_000, 1_080_000, 1_000);
    let before = app.run_frame(0, &draws(1));
    assert_eq!(before.composite.generation, 0);

    let realloc = app.handle_resize(1_280_000, 720_000, 1_000);
    assert!(realloc);
    assert!(app.targets.mask.is_none() && app.targets.scene.is_none());

    let after = app.run_frame(16, &draws(2));
    assert_eq!(after.composite.w, 1_280);
    assert_eq!(after.composite.h, 720);
    assert_eq!(after.composite.generation, 1);
    let mask = app.targets.mask.unwrap();
    assert_eq!(mask.frame, after.frame);
    assert_eq!((mask.w, mask.h), (1_280, 720));
    let scene = app.targets.scene.unwrap();
    assert_eq!(scene.frame, after.frame);
    assert_eq!((scene.w, scene.h), (1_280, 720));
}

#[test]
fn resize_reconciliation_is_idempotent_end_to_end() {
    let mut app = AppState::new(1_920_000, 1_080_000, 1_000);
    assert!(app.handle_resize(1_024_000, 768_000, 2_000));
    assert!(!app.handle_resize(1_024_000, 768_000, 2_000));
    assert_eq!(app.targets.generation, 1, "one reading, one reallocation");
    assert_eq!((app.targets.w, app.targets.h), (2_048, 1_536));
}

#[test]
fn frames_keep_the_pattern_record_between_transitions() {
    let mut app = AppState::new(640_000, 480_000, 1_000);
    let first = app.run_frame(0, &draws(11));
    let second = app.run_frame(16, &draws(99));
    assert!(!second.transitioned);
    assert_eq!(second.params, first.params, "no re-randomization inside a segment");
}
