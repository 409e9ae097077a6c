//! The per-frame decisions of the viewer: the key-driven switches for ray
//! tracing and for the scene, and which passes a frame draws.
//!
//! The caller polls the keys and the ray tracer, performs the actions these
//! functions return, and draws the passes of the plan.

use vstd::prelude::*;

verus! {

/// An on/off switch flipped by a key: it flips on the frame the key goes
/// down, and not again while the key stays down.
#[derive(Clone, Copy, PartialEq, Eq, Structural, Debug)]
pub struct Toggle {
    pub on: bool,
    pub last_pressed: bool,
}

/// Whether a key went down this frame.
pub open spec fn rising(last_pressed: bool, pressed: bool) -> bool {
    !last_pressed && pressed
}

/// The switch after a frame in which its key is `pressed` or not.
pub open spec fn toggle_next(t: Toggle, pressed: bool) -> Toggle {
    Toggle {
        on: if rising(t.last_pressed, pressed) {
            !t.on
        } else {
            t.on
        },
        last_pressed: pressed,
    }
}

impl Toggle {
    /// A switch in the given position whose key is up.
    pub fn new(on: bool) -> (t: Toggle)
        ensures
            t == (Toggle { on, last_pressed: false }),
    {
        Toggle { on, last_pressed: false }
    }

    /// Takes the key's state for this frame; tells whether the switch flipped.
    pub fn update(&mut self, pressed: bool) -> (flipped: bool)
        ensures
            *final(self) == toggle_next(*old(self), pressed),
            flipped == rising(old(self).last_pressed, pressed),
    {
        let flipped = !self.last_pressed && pressed;
        if flipped {
            self.on = !self.on;
        }
        self.last_pressed = pressed;
        flipped
    }
}

/// What the ray tracing key asks of the caller this frame.
#[derive(Clone, Copy, PartialEq, Eq, Structural, Debug)]
pub enum RaytraceAction {
    /// Nothing.
    Keep,
    /// Ray tracing was switched on: restart the tracer from the current camera.
    ResetTracer,
    /// Ray tracing was switched off: clear the sticky key flags before the
    /// navigation keys are read.
    ClearKeys,
}

/// The switches kept from frame to frame.
#[derive(Clone, Copy, PartialEq, Eq, Structural, Debug)]
pub struct FrameState {
    pub raytrace: Toggle,
    pub scene: Toggle,
}

/// Which passes a frame draws.
#[derive(Clone, Copy, PartialEq, Eq, Structural, Debug)]
pub struct RenderPlan {
    /// Rasterise the frame: sky box, then the scene if on, then the
    /// image-based-lighting object.
    pub raster: bool,
    /// Rasterise into the off-screen framebuffer rather than the window.
    pub offscreen: bool,
    /// Draw the scene objects (opaque, then semi-transparent).
    pub scene: bool,
    /// Draw the off-screen image to the window through the frosted-glass filter.
    pub filter_pass: bool,
    /// Run the ray tracer and draw its image over the window.
    pub raytrace: bool,
}

/// The action the ray tracing switch calls for after a frame in which its
/// key is `pressed` or not, from switch `t`.
pub open spec fn raytrace_action(t: Toggle, pressed: bool) -> RaytraceAction {
    if rising(t.last_pressed, pressed) {
        if !t.on {
            RaytraceAction::ResetTracer
        } else {
            RaytraceAction::ClearKeys
        }
    } else {
        RaytraceAction::Keep
    }
}

/// The passes of a frame: the rasteriser draws unless the ray tracer is on
/// and its image is complete; the filter, when held, sends the raster to the
/// off-screen framebuffer and back through the frosted glass.
pub open spec fn plan_of(s: FrameState, filter_held: bool, frame_filled: bool) -> RenderPlan {
    let raster = !s.raytrace.on || !frame_filled;
    RenderPlan {
        raster,
        offscreen: raster && filter_held,
        scene: raster && s.scene.on,
        filter_pass: raster && filter_held,
        raytrace: s.raytrace.on,
    }
}

impl FrameState {
    /// The state at start-up: ray tracing off, scene on, no key down.
    pub fn new() -> (s: FrameState)
        ensures
            s == (FrameState {
                raytrace: Toggle { on: false, last_pressed: false },
                scene: Toggle { on: true, last_pressed: false },
            }),
    {
        FrameState { raytrace: Toggle::new(false), scene: Toggle::new(true) }
    }

    /// Takes the ray tracing key's state for this frame.
    pub fn raytrace_key(&mut self, pressed: bool) -> (action: RaytraceAction)
        ensures
            final(self).raytrace == toggle_next(old(self).raytrace, pressed),
            final(self).scene == old(self).scene,
            action == raytrace_action(old(self).raytrace, pressed),
    {
        let flipped = self.raytrace.update(pressed);
        if flipped {
            if self.raytrace.on {
                RaytraceAction::ResetTracer
            } else {
                RaytraceAction::ClearKeys
            }
        } else {
            RaytraceAction::Keep
        }
    }

    /// Whether the camera, the material parameters and the scene switch
    /// follow the keys this frame: only while ray tracing is off.
    pub fn navigating(&self) -> (nav: bool)
        ensures
            nav == !self.raytrace.on,
    {
        !self.raytrace.on
    }

    /// Takes the scene key's state for this frame; while ray tracing is on
    /// the key is not read and the switch stays as it is.
    pub fn scene_key(&mut self, pressed: bool)
        ensures
            final(self).raytrace == old(self).raytrace,
            final(self).scene == if old(self).raytrace.on {
                old(self).scene
            } else {
                toggle_next(old(self).scene, pressed)
            },
    {
        if !self.raytrace.on {
            self.scene.update(pressed);
        }
    }

    /// The passes of this frame, given whether the filter key is held and
    /// whether the ray tracer's image is complete.
    pub fn render_plan(&self, filter_held: bool, frame_filled: bool) -> (plan: RenderPlan)
        ensures
            plan == plan_of(*self, filter_held, frame_filled),
            plan.raster == (!self.raytrace.on || !frame_filled),
            plan.offscreen == (plan.raster && filter_held),
            plan.scene == (plan.raster && self.scene.on),
            plan.filter_pass == (plan.raster && filter_held),
            plan.raytrace == self.raytrace.on,
    {
        let raster = !self.raytrace.on || !frame_filled;
        RenderPlan {
            raster,
            offscreen: raster && filter_held,
            scene: raster && self.scene.on,
            filter_pass: raster && filter_held,
            raytrace: self.raytrace.on,
        }
    }
}

/// Whether the ray traced image is blended over the raster: while it is
/// still being filled in, judged after this frame's tracing.
pub fn raytrace_blending(frame_filled: bool) -> (blend: bool)
    ensures
        blend == !frame_filled,
{
    !frame_filled
}

/// The switch after a frame for each entry of `presses`, in order.
pub open spec fn toggle_run(t: Toggle, presses: Seq<bool>) -> Toggle
    decreases presses.len(),
{
    if presses.len() == 0 {
        t
    } else {
        toggle_run(toggle_next(t, presses[0]), presses.drop_first())
    }
}

/// How many times the key goes down over `presses`, the key having been
/// `last_pressed` before.
pub open spec fn rising_edges(last_pressed: bool, presses: Seq<bool>) -> nat
    decreases presses.len(),
{
    if presses.len() == 0 {
        0
    } else {
        (if rising(last_pressed, presses[0]) {
            1nat
        } else {
            0nat
        }) + rising_edges(presses[0], presses.drop_first())
    }
}

/// Law of the switches: over any run of frames the switch has flipped once
/// for each time its key went down, so it ends in its first position exactly
/// when the key went down an even number of times; and it remembers the key's
/// last state.
pub proof fn law_toggle_counts_presses(t: Toggle, presses: Seq<bool>)
    ensures
        toggle_run(t, presses).on == (t.on != (rising_edges(t.last_pressed, presses) % 2 == 1)),
        toggle_run(t, presses).last_pressed == if presses.len() == 0 {
            t.last_pressed
        } else {
            presses.last()
        },
    decreases presses.len(),
{
    if presses.len() > 0 {
        let t1 = toggle_next(t, presses[0]);
        law_toggle_counts_presses(t1, presses.drop_first());
        if presses.len() > 1 {
            assert(presses.drop_first().last() == presses.last());
        }
    }
}

/// Law of the switches: holding a key down over any number of frames flips
/// its switch at most once, on the first frame, and only if the key was up
/// before.
pub proof fn law_held_key_flips_once(t: Toggle, n: nat)
    requires
        n > 0,
    ensures
        rising_edges(t.last_pressed, Seq::new(n, |i: int| true)) == if t.last_pressed {
            0nat
        } else {
            1nat
        },
        toggle_run(t, Seq::new(n, |i: int| true)).on == (t.on != !t.last_pressed),
{
    lemma_held_edges(t.last_pressed, n);
    law_toggle_counts_presses(t, Seq::new(n, |i: int| true));
}

proof fn lemma_held_edges(last_pressed: bool, n: nat)
    ensures
        rising_edges(last_pressed, Seq::new(n, |i: int| true)) == if n > 0 && !last_pressed {
            1nat
        } else {
            0nat
        },
    decreases n,
{
    if n > 0 {
        let s = Seq::new(n, |i: int| true);
        assert(s.drop_first() =~= Seq::new((n - 1) as nat, |i: int| true));
        lemma_held_edges(true, (n - 1) as nat);
    }
}

/// Law of the frame: every frame draws something, the raster or the ray
/// traced image; the raster is skipped only while the ray tracer shows a
/// complete image; and off-screen drawing always comes with the filter pass
/// that shows it.
pub proof fn law_every_frame_draws(s: FrameState, filter_held: bool, frame_filled: bool)
    ensures
        plan_of(s, filter_held, frame_filled).raster || plan_of(
            s,
            filter_held,
            frame_filled,
        ).raytrace,
        !plan_of(s, filter_held, frame_filled).raster <==> (s.raytrace.on && frame_filled),
        plan_of(s, filter_held, frame_filled).offscreen == plan_of(
            s,
            filter_held,
            frame_filled,
        ).filter_pass,
{
}

/// Law of the switches: turning ray tracing on always restarts the tracer,
/// turning it off always clears the sticky keys, and the tracer is never
/// restarted while ray tracing stays on or off.
pub proof fn law_raytrace_actions(t: Toggle, pressed: bool)
    ensures
        raytrace_action(t, pressed) == RaytraceAction::ResetTracer <==> (!t.on && toggle_next(
            t,
            pressed,
        ).on),
        raytrace_action(t, pressed) == RaytraceAction::ClearKeys <==> (t.on && !toggle_next(
            t,
            pressed,
        ).on),
{
}

/// Law of the frame plan, pass by pass: the raster is drawn unless the ray
/// tracer is on with a complete image; when it is drawn, the scene objects
/// go in exactly when the scene switch is on, and the frame goes off-screen
/// and through the frosted-glass filter exactly when the filter key is held,
/// whatever the scene switch; the ray traced image is drawn exactly while ray
/// tracing is on.
pub proof fn law_render_plan_passes(s: FrameState, filter_held: bool, frame_filled: bool)
    ensures
        plan_of(s, filter_held, frame_filled).raster == (!s.raytrace.on || !frame_filled),
        plan_of(s, filter_held, frame_filled).scene == ((!s.raytrace.on || !frame_filled)
            && s.scene.on),
        plan_of(s, filter_held, frame_filled).offscreen == ((!s.raytrace.on || !frame_filled)
            && filter_held),
        plan_of(s, filter_held, frame_filled).filter_pass == ((!s.raytrace.on || !frame_filled)
            && filter_held),
        plan_of(s, filter_held, frame_filled).raytrace == s.raytrace.on,
{
}

/// Law of a switch, frame by frame: it flips exactly when its key is down
/// now and was up the frame before, and it remembers the key's state.
pub proof fn law_toggle_step(t: Toggle, pressed: bool)
    ensures
        toggle_next(t, pressed).on == (t.on != (!t.last_pressed && pressed)),
        toggle_next(t, pressed).last_pressed == pressed,
{
}

/// Law of the ray tracing key, frame by frame: the tracer is restarted
/// exactly when the key goes down with ray tracing off, the sticky keys are
/// cleared exactly when it goes down with ray tracing on, and otherwise
/// nothing is asked.
pub proof fn law_raytrace_key_step(t: Toggle, pressed: bool)
    ensures
        (raytrace_action(t, pressed) == RaytraceAction::ResetTracer) == (!t.last_pressed
            && pressed && !t.on),
        (raytrace_action(t, pressed) == RaytraceAction::ClearKeys) == (!t.last_pressed && pressed
            && t.on),
        (raytrace_action(t, pressed) == RaytraceAction::Keep) == (t.last_pressed || !pressed),
{
}

} // verus!
