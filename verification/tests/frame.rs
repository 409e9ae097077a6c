use rabbit_hole::frame::{raytrace_blending, FrameState, RaytraceAction, RenderPlan, Toggle};

#[test]
fn toggle_flips_on_key_down_only() {
    let mut t = Toggle::new(false);
    assert!(t.update(true));
    assert!(t.on);
    // held: no second flip
    assert!(!t.update(true));
    assert!(!t.update(true));
    assert!(t.on);
    // released, pressed again
    assert!(!t.update(false));
    assert!(t.update(true));
    assert!(!t.on);
}

#[test]
fn toggle_counts_key_presses() {
    let mut t = Toggle::new(true);
    let presses = [true, true, false, true, false, false, true, true];
    for p in presses {
        t.update(p);
    }
    // three key-downs: odd, so flipped
    assert!(!t.on);
    assert!(t.last_pressed);
}

#[test]
fn startup_state() {
    let s = FrameState::new();
    assert!(!s.raytrace.on);
    assert!(s.scene.on);
    assert!(s.navigating());
}

#[test]
fn raytrace_key_resets_then_clears() {
    let mut s = FrameState::new();
    assert_eq!(s.raytrace_key(true), RaytraceAction::ResetTracer);
    assert!(!s.navigating());
    assert_eq!(s.raytrace_key(true), RaytraceAction::Keep);
    assert_eq!(s.raytrace_key(false), RaytraceAction::Keep);
    assert_eq!(s.raytrace_key(true), RaytraceAction::ClearKeys);
    assert!(s.navigating());
}

#[test]
fn scene_key_ignored_while_ray_tracing() {
    let mut s = FrameState::new();
    s.scene_key(true);
    assert!(!s.scene.on);
    s.scene_key(false);
    s.raytrace_key(true);
    s.scene_key(true);
    assert!(!s.scene.on);
    assert!(!s.scene.last_pressed);
    s.raytrace_key(false);
    s.raytrace_key(true);
    s.scene_key(true);
    assert!(s.scene.on);
}

#[test]
fn render_plans() {
    let mut s = FrameState::new();
    assert_eq!(
        s.render_plan(false, false),
        RenderPlan { raster: true, offscreen: false, scene: true, filter_pass: false, raytrace: false }
    );
    assert_eq!(
        s.render_plan(true, true),
        RenderPlan { raster: true, offscreen: true, scene: true, filter_pass: true, raytrace: false }
    );
    s.raytrace_key(true);
    assert_eq!(
        s.render_plan(true, false),
        RenderPlan { raster: true, offscreen: true, scene: true, filter_pass: true, raytrace: true }
    );
    assert_eq!(
        s.render_plan(true, true),
        RenderPlan { raster: false, offscreen: false, scene: false, filter_pass: false, raytrace: true }
    );
}

#[test]
fn every_frame_draws_something() {
    for rt in [false, true] {
        for scene in [false, true] {
            for filter in [false, true] {
                for filled in [false, true] {
                    let s = FrameState {
                        raytrace: Toggle { on: rt, last_pressed: false },
                        scene: Toggle { on: scene, last_pressed: false },
                    };
                    let p = s.render_plan(filter, filled);
                    assert!(p.raster || p.raytrace);
                    assert_eq!(p.offscreen, p.filter_pass);
                }
            }
        }
    }
}

#[test]
fn overlay_blends_while_filling() {
    assert!(raytrace_blending(false));
    assert!(!raytrace_blending(true));
}
