//! Jumping: coyote time, input buffering, multiple jumps, and a jump that
//! is cut short when the control is released.

use crate::components::{
    ControllerInput, ControllerMass, ControllerVelocity, FloatForce, Gravity, GravityForce,
};
use crate::fixed::Fixed;
use crate::ground::{GroundCast, GroundCaster};
use crate::timer::{lemma_tick_down_elapsed, tick_down, tick_down_spec};
use crate::vec3::Vec3;
use vstd::prelude::*;

verus! {

/// How the sustained jump force fades over the length of a jump.
#[derive(Clone, Copy, Debug, PartialEq, Eq, Structural)]
pub enum DecayCurve {
    /// Full force throughout.
    Constant,
    /// Falls off evenly from full force to none.
    Linear,
    /// Square root of what is left of the jump: full force for most of it,
    /// falling off steeply at the end.
    Sqrt,
}

/// What the jump state machine decided for a tick.
#[derive(Clone, Copy, Debug, PartialEq, Eq, Structural)]
pub enum JumpAction {
    /// No jump force this tick.
    Idle,
    /// A jump starts.
    Fire,
    /// The control was released mid-jump: brake the ascent.
    Brake,
    /// The control is held mid-jump: keep pushing.
    Sustain,
}

/// How the controller's jumping should behave, and where a jump stands.
#[derive(Clone, Copy, Debug)]
pub struct Jump {
    /// Force applied on the tick a jump begins.
    pub initial_force: Fixed,
    /// Force applied on every further tick of a jump.
    pub force: Fixed,
    /// How long to wait before another jump may begin.
    pub cooldown_duration: Fixed,
    /// Time left of the cooldown.
    pub cooldown_timer: Fixed,
    /// How long a jump can last.
    pub jump_duration: Fixed,
    /// Time left of the current jump.
    pub jump_timer: Fixed,
    /// How the sustained force fades; full force throughout if unset.
    pub decay_function: Option<DecayCurve>,
    /// Number of jumps before the ground must be touched again.
    pub jumps: u32,
    /// Jumps left before the ground must be touched again.
    pub remaining_jumps: u32,
    /// Whether the jump control was held on the previous tick.
    pub pressed_last_frame: bool,
    /// Share of the upward velocity that is taken away each tick after the
    /// control is released mid-jump.
    pub stop_force: Fixed,
    /// Time left during which a jump requested in the air still counts.
    pub buffer_timer: Fixed,
    /// How long before landing a jump may be requested.
    pub buffer_duration: Fixed,
    /// How long after leaving the ground a first jump is still allowed.
    pub coyote_duration: Fixed,
    /// Time left of the coyote window.
    pub coyote_timer: Fixed,
    /// How long ground sensing is suppressed while a jump is sustained.
    pub skip_ground_check_duration: Fixed,
}

/// Force produced by the jump subsystem.
#[derive(Clone, Copy, Debug)]
pub struct JumpForce {
    /// Linear force pushing the body up.
    pub linear: Vec3,
}

/// One tick as the jump state machine sees it.
#[derive(Clone, Copy, Debug)]
pub struct Tick {
    /// Whether the jump control is held.
    pub pressed: bool,
    /// Whether the body stands on walkable ground.
    pub grounded: bool,
    /// Length of the tick in seconds.
    pub dt: Fixed,
}

impl Jump {
    /// The count of remaining jumps never exceeds the configured number.
    pub open spec fn wf(&self) -> bool {
        self.remaining_jumps <= self.jumps
    }

    pub open spec fn default_spec() -> Jump {
        Jump {
            initial_force: Fixed { raw: 30_000_000 },
            force: Fixed { raw: 20_000_000 },
            cooldown_duration: Fixed { raw: 250_000 },
            cooldown_timer: Fixed { raw: 0 },
            jump_duration: Fixed { raw: 100_000 },
            jump_timer: Fixed { raw: 0 },
            decay_function: Some(DecayCurve::Sqrt),
            jumps: 1,
            remaining_jumps: 1,
            pressed_last_frame: false,
            stop_force: Fixed { raw: 300_000 },
            buffer_timer: Fixed { raw: 0 },
            buffer_duration: Fixed { raw: 300_000 },
            coyote_duration: Fixed { raw: 200_000 },
            coyote_timer: Fixed { raw: 0 },
            skip_ground_check_duration: Fixed { raw: 300_000 },
        }
    }

    /// All four timers run down by `dt`.
    pub open spec fn tick_timers_spec(self, dt: Fixed) -> Jump {
        Jump {
            cooldown_timer: tick_down_spec(self.cooldown_timer, dt),
            jump_timer: tick_down_spec(self.jump_timer, dt),
            buffer_timer: tick_down_spec(self.buffer_timer, dt),
            coyote_timer: tick_down_spec(self.coyote_timer, dt),
            ..self
        }
    }

    pub open spec fn jumping_spec(&self) -> bool {
        self.jump_timer.raw > 0
    }

    /// A first jump needs ground underfoot or an open coyote window; any
    /// jump needs the cooldown to be over and a jump left.
    pub open spec fn can_jump_spec(&self, grounded: bool) -> bool {
        let first_jump = self.remaining_jumps == self.jumps;
        let supported = grounded || self.coyote_timer.raw > 0;
        if first_jump && !supported {
            false
        } else {
            self.cooldown_timer.raw <= 0 && self.remaining_jumps > 0
        }
    }

    pub open spec fn reset_jump_spec(self) -> Jump {
        Jump { remaining_jumps: self.jumps, jump_timer: Fixed { raw: 0 }, ..self }
    }

    /// Share of the jump that is over, from zero to one; one for a jump
    /// without duration.
    pub open spec fn jump_progress_spec(&self) -> Fixed {
        if self.jump_duration.raw == 0 {
            Fixed::one_spec()
        } else {
            self.jump_duration.sub_spec(self.jump_timer).div_spec(self.jump_duration)
        }
    }

    pub open spec fn decay_multiplier_spec(&self) -> Fixed {
        match self.decay_function {
            Some(DecayCurve::Constant) => Fixed::one_spec(),
            Some(DecayCurve::Linear) => Fixed::one_spec().sub_spec(self.jump_progress_spec()),
            Some(DecayCurve::Sqrt) => Fixed::one_spec().sub_spec(
                self.jump_progress_spec(),
            ).sqrt_spec(),
            None => Fixed::one_spec(),
        }
    }

    /// The jump control went from released to held.
    pub open spec fn edge_spec(&self, pressed: bool) -> bool {
        pressed && !self.pressed_last_frame
    }

    /// The state once the timers have run and the ground has been taken
    /// into account: ground refreshes the coyote window, and with the
    /// cooldown over it restores all jumps.
    pub open spec fn settle_spec(self, grounded: bool, dt: Fixed) -> Jump {
        let ticked = self.tick_timers_spec(dt);
        let refreshed = if grounded {
            Jump { coyote_timer: ticked.coyote_duration, ..ticked }
        } else {
            ticked
        };
        if refreshed.cooldown_timer.raw <= 0 && grounded {
            refreshed.reset_jump_spec()
        } else {
            refreshed
        }
    }

    /// Whether the jumps are restored on this tick.
    pub open spec fn resets_spec(self, grounded: bool, dt: Fixed) -> bool {
        grounded && tick_down_spec(self.cooldown_timer, dt).raw <= 0
    }

    /// Whether a jump starts on this tick: it must be allowed, and either
    /// requested now or still buffered.
    pub open spec fn fires_spec(self, pressed: bool, grounded: bool, dt: Fixed) -> bool {
        let settled = self.settle_spec(grounded, dt);
        settled.can_jump_spec(grounded) && (settled.edge_spec(pressed)
            || settled.buffer_timer.raw > 0)
    }

    /// The state after a jump has started.
    pub open spec fn launched_spec(self) -> Jump {
        Jump {
            remaining_jumps: if self.remaining_jumps > 0 {
                (self.remaining_jumps - 1) as u32
            } else {
                0
            },
            cooldown_timer: self.cooldown_duration,
            jump_timer: self.jump_duration,
            ..self
        }
    }

    /// One tick of the state machine: the next state and what to do.
    pub open spec fn step_spec(self, pressed: bool, grounded: bool, dt: Fixed) -> (
        Jump,
        JumpAction,
    ) {
        let settled = self.settle_spec(grounded, dt);
        let armed = if settled.edge_spec(pressed) && !grounded {
            Jump { buffer_timer: settled.buffer_duration, ..settled }
        } else {
            settled
        };
        if self.fires_spec(pressed, grounded, dt) {
            (Jump { pressed_last_frame: pressed, ..armed.launched_spec() }, JumpAction::Fire)
        } else if armed.jumping_spec() {
            (
                Jump { pressed_last_frame: pressed, ..armed },
                if pressed {
                    JumpAction::Sustain
                } else {
                    JumpAction::Brake
                },
            )
        } else {
            (Jump { pressed_last_frame: pressed, ..armed }, JumpAction::Idle)
        }
    }

    /// The state after a sequence of ticks.
    pub open spec fn run_spec(self, ticks: Seq<Tick>) -> Jump
        decreases ticks.len(),
    {
        if ticks.len() == 0 {
            self
        } else {
            let last = ticks.last();
            self.run_spec(ticks.drop_last()).step_spec(last.pressed, last.grounded, last.dt).0
        }
    }

    /// Tick down timers by `dt`.
    pub fn tick_timers(&mut self, dt: Fixed)
        ensures
            *final(self) == old(self).tick_timers_spec(dt),
    {
        self.cooldown_timer = tick_down(self.cooldown_timer, dt);
        self.jump_timer = tick_down(self.jump_timer, dt);
        self.buffer_timer = tick_down(self.buffer_timer, dt);
        self.coyote_timer = tick_down(self.coyote_timer, dt);
    }

    /// Are we currently jumping?
    pub fn jumping(&self) -> (r: bool)
        ensures
            r == self.jumping_spec(),
    {
        self.jump_timer.raw > 0
    }

    /// Can we jump right now?
    pub fn can_jump(&self, grounded: bool) -> (r: bool)
        ensures
            r == self.can_jump_spec(grounded),
    {
        let first_jump = self.remaining_jumps == self.jumps;
        let supported = grounded || self.coyote_timer.raw > 0;
        if first_jump && !supported {
            return false;
        }
        self.cooldown_timer.raw <= 0 && self.remaining_jumps > 0
    }

    /// Reset the jumping state.
    pub fn reset_jump(&mut self)
        ensures
            *final(self) == old(self).reset_jump_spec(),
    {
        self.remaining_jumps = self.jumps;
        self.jump_timer = Fixed::zero();
    }

    /// Progress of the current jump, from zero to one.
    pub fn jump_progress(&self) -> (r: Fixed)
        ensures
            r == self.jump_progress_spec(),
    {
        if self.jump_duration.raw == 0 {
            Fixed::one()
        } else {
            self.jump_duration.saturating_sub(self.jump_timer).saturating_div(self.jump_duration)
        }
    }

    /// Jump force decay multiplier.
    pub fn decay_multiplier(&self) -> (r: Fixed)
        ensures
            r == self.decay_multiplier_spec(),
    {
        match self.decay_function {
            Some(DecayCurve::Constant) => Fixed::one(),
            Some(DecayCurve::Linear) => Fixed::one().saturating_sub(self.jump_progress()),
            Some(DecayCurve::Sqrt) => Fixed::one().saturating_sub(self.jump_progress()).sqrt(),
            None => Fixed::one(),
        }
    }

    /// Advances the state machine by one tick and says what to do.
    #[verifier::rlimit(40)]
    pub fn step(&mut self, pressed: bool, grounded: bool, dt: Fixed) -> (action: JumpAction)
        ensures
            (*final(self), action) == old(self).step_spec(pressed, grounded, dt),
            old(self).wf() ==> final(self).wf(),
    {
        self.tick_timers(dt);
        if grounded {
            self.coyote_timer = self.coyote_duration;
        }
        if self.cooldown_timer.raw <= 0 && grounded {
            self.reset_jump();
        }
        let edge = pressed && !self.pressed_last_frame;
        let requested = edge || self.buffer_timer.raw > 0;
        let allowed = self.can_jump(grounded);
        if edge && !grounded {
            self.buffer_timer = self.buffer_duration;
        }
        let action = if allowed && requested {
            self.remaining_jumps = if self.remaining_jumps > 0 {
                self.remaining_jumps - 1
            } else {
                0
            };
            self.cooldown_timer = self.cooldown_duration;
            self.jump_timer = self.jump_duration;
            JumpAction::Fire
        } else if self.jumping() {
            if pressed {
                JumpAction::Sustain
            } else {
                JumpAction::Brake
            }
        } else {
            JumpAction::Idle
        };
        self.pressed_last_frame = pressed;
        action
    }
}

impl Default for Jump {
    fn default() -> (r: Jump)
        ensures
            r == Jump::default_spec(),
    {
        Jump {
            initial_force: Fixed::from_raw(30_000_000),
            force: Fixed::from_raw(20_000_000),
            cooldown_duration: Fixed::from_raw(250_000),
            cooldown_timer: Fixed::from_raw(0),
            jump_duration: Fixed::from_raw(100_000),
            jump_timer: Fixed::from_raw(0),
            decay_function: Some(DecayCurve::Sqrt),
            jumps: 1,
            remaining_jumps: 1,
            pressed_last_frame: false,
            stop_force: Fixed::from_raw(300_000),
            buffer_timer: Fixed::from_raw(0),
            buffer_duration: Fixed::from_raw(300_000),
            coyote_duration: Fixed::from_raw(200_000),
            coyote_timer: Fixed::from_raw(0),
            skip_ground_check_duration: Fixed::from_raw(300_000),
        }
    }
}

/// The force that goes with an action, for a state that has already taken
/// the step. Velocity is measured against the ground.
pub open spec fn jump_impulse_spec(
    jump: Jump,
    action: JumpAction,
    up_vector: Vec3,
    relative_velocity: Vec3,
    mass: Fixed,
    dt: Fixed,
) -> Vec3 {
    let climb = up_vector.scale_spec(relative_velocity.dot_spec(up_vector));
    match action {
        JumpAction::Fire => climb.neg_spec().scale_spec(mass).unscale_spec(dt).add_spec(
            up_vector.scale_spec(jump.initial_force),
        ),
        JumpAction::Brake => climb.scale_spec(jump.stop_force.neg_spec()),
        JumpAction::Sustain => up_vector.scale_spec(jump.force).scale_spec(
            jump.decay_multiplier_spec(),
        ),
        JumpAction::Idle => Vec3::zero_spec(),
    }
}

/// The force that goes with an action.
pub fn jump_impulse(
    jump: &Jump,
    action: JumpAction,
    up_vector: Vec3,
    relative_velocity: Vec3,
    mass: Fixed,
    dt: Fixed,
) -> (r: Vec3)
    requires
        dt.raw != 0,
    ensures
        r == jump_impulse_spec(*jump, action, up_vector, relative_velocity, mass, dt),
{
    let climb = up_vector.scale(relative_velocity.dot(up_vector));
    match action {
        JumpAction::Fire => climb.saturating_neg().scale(mass).unscale(dt).saturating_add(
            up_vector.scale(jump.initial_force),
        ),
        JumpAction::Brake => climb.scale(jump.stop_force.saturating_neg()),
        JumpAction::Sustain => up_vector.scale(jump.force).scale(jump.decay_multiplier()),
        JumpAction::Idle => Vec3::zero(),
    }
}

/// Calculate the jump force for the controller.
///
/// Runs the state machine for one tick and overwrites the jump force with
/// what the tick calls for. A jump that starts cancels the velocity along
/// the up vector, so that jumps do not stack, and clears the float and
/// gravity forces for the tick. A sustained jump keeps ground sensing
/// suppressed.
#[verifier::rlimit(40)]
pub fn jump_force(
    force: &mut JumpForce,
    float_force: &mut FloatForce,
    gravity_force: &mut GravityForce,
    jump: &mut Jump,
    input: &ControllerInput,
    ground_caster: &mut GroundCaster,
    ground_cast: &GroundCast,
    gravity: &Gravity,
    velocity: &ControllerVelocity,
    mass: &ControllerMass,
    dt: Fixed,
)
    requires
        dt.raw > 0,
    ensures
        ({
            let (next, action) = old(jump).step_spec(
                input.jumping,
                ground_cast.grounded_spec(),
                dt,
            );
            &&& *final(jump) == next
            &&& final(force).linear == jump_impulse_spec(
                next,
                action,
                gravity.up_vector,
                velocity.linear.sub_spec(ground_cast.ground_velocity_spec()),
                mass.mass,
                dt,
            )
            &&& final(float_force).linear == if action is Fire {
                Vec3::zero_spec()
            } else {
                old(float_force).linear
            }
            &&& final(gravity_force).linear == if action is Fire {
                Vec3::zero_spec()
            } else {
                old(gravity_force).linear
            }
            &&& *final(ground_caster) == if action is Sustain {
                GroundCaster {
                    skip_ground_check_timer: next.skip_ground_check_duration,
                    ..*old(ground_caster)
                }
            } else {
                *old(ground_caster)
            }
        }),
        old(jump).wf() ==> final(jump).wf(),
{
    let grounded = ground_cast.grounded();
    let action = jump.step(input.jumping, grounded, dt);
    let relative_velocity = velocity.linear.saturating_sub(ground_cast.ground_velocity());
    force.linear = jump_impulse(jump, action, gravity.up_vector, relative_velocity, mass.mass, dt);
    match action {
        JumpAction::Fire => {
            gravity_force.linear = Vec3::zero();
            float_force.linear = Vec3::zero();
        },
        JumpAction::Sustain => {
            ground_caster.skip_ground_check_timer = jump.skip_ground_check_duration;
        },
        _ => {},
    }
}

/// Total length of a sequence of ticks, in raw units of time.
pub open spec fn elapsed_spec(ticks: Seq<Tick>) -> int
    decreases ticks.len(),
{
    if ticks.len() == 0 {
        0
    } else {
        elapsed_spec(ticks.drop_last()) + ticks.last().dt.raw
    }
}

/// Every tick is spent in the air, and no tick runs backwards in time.
pub open spec fn airborne_spec(ticks: Seq<Tick>) -> bool {
    forall|i: int| 0 <= i < ticks.len() ==> !(#[trigger] ticks[i]).grounded && ticks[i].dt.raw >= 0
}

/// The jump control is released on every tick.
pub open spec fn released_spec(ticks: Seq<Tick>) -> bool {
    forall|i: int| 0 <= i < ticks.len() ==> !(#[trigger] ticks[i]).pressed
}

impl Jump {
    /// Whether a jump starts on any tick of the sequence.
    pub open spec fn fires_within_spec(self, ticks: Seq<Tick>) -> bool
        decreases ticks.len(),
    {
        if ticks.len() == 0 {
            false
        } else {
            let last = ticks.last();
            self.fires_within_spec(ticks.drop_last()) || self.run_spec(
                ticks.drop_last(),
            ).step_spec(last.pressed, last.grounded, last.dt).1 is Fire
        }
    }

    /// The settings that no tick changes.
    pub open spec fn same_settings_spec(self, other: Jump) -> bool {
        &&& self.initial_force == other.initial_force
        &&& self.force == other.force
        &&& self.cooldown_duration == other.cooldown_duration
        &&& self.jump_duration == other.jump_duration
        &&& self.decay_function == other.decay_function
        &&& self.jumps == other.jumps
        &&& self.stop_force == other.stop_force
        &&& self.buffer_duration == other.buffer_duration
        &&& self.coyote_duration == other.coyote_duration
        &&& self.skip_ground_check_duration == other.skip_ground_check_duration
    }

    /// One tick keeps the count of remaining jumps within its bounds. The
    /// count goes down only when a jump starts, and then by one; it goes up
    /// only when the body is on the ground with the cooldown over, and then
    /// to the full number.
    pub proof fn lemma_jump_count_step(self, pressed: bool, grounded: bool, dt: Fixed)
        requires
            self.wf(),
        ensures
            ({
                let (next, action) = self.step_spec(pressed, grounded, dt);
                let resets = self.resets_spec(grounded, dt);
                &&& next.wf()
                &&& next.same_settings_spec(self)
                &&& action is Fire <==> self.fires_spec(pressed, grounded, dt)
                &&& next.remaining_jumps < self.remaining_jumps ==> action is Fire
                &&& next.remaining_jumps > self.remaining_jumps ==> resets
                &&& next.remaining_jumps == (if resets {
                    self.jumps
                } else {
                    self.remaining_jumps
                }) - (if action is Fire {
                    1int
                } else {
                    0int
                })
            }),
    {
    }

    /// Whatever the ticks, the count of remaining jumps stays between zero
    /// and the configured number of jumps, and the settings stay as they are.
    pub proof fn lemma_jump_count_invariant(self, ticks: Seq<Tick>)
        requires
            self.wf(),
        ensures
            self.run_spec(ticks).wf(),
            0 <= self.run_spec(ticks).remaining_jumps <= self.jumps,
            self.run_spec(ticks).same_settings_spec(self),
        decreases ticks.len(),
    {
        if ticks.len() > 0 {
            let last = ticks.last();
            self.lemma_jump_count_invariant(ticks.drop_last());
            self.run_spec(ticks.drop_last()).lemma_jump_count_step(
                last.pressed,
                last.grounded,
                last.dt,
            );
        }
    }

    /// Coyote time, for one tick: a jump requested in the air starts all
    /// the same while the coyote window is open, given that the body has all
    /// its jumps and the cooldown is over once the timers have run.
    pub proof fn lemma_coyote_jump(self, dt: Fixed)
        requires
            !self.pressed_last_frame,
            self.remaining_jumps == self.jumps,
            self.jumps > 0,
            tick_down_spec(self.cooldown_timer, dt).raw <= 0,
            tick_down_spec(self.coyote_timer, dt).raw > 0,
        ensures
            self.step_spec(true, false, dt).1 is Fire,
            self.step_spec(true, false, dt).0.remaining_jumps == self.jumps - 1,
    {
    }

    /// Jump buffering, for one tick: a request that is still buffered when
    /// the body lands starts a jump on that tick, given that the cooldown is
    /// over once the timers have run and the body has a jump to its name.
    pub proof fn lemma_buffered_jump_on_landing(self, pressed: bool, dt: Fixed)
        requires
            self.jumps > 0,
            tick_down_spec(self.cooldown_timer, dt).raw <= 0,
            tick_down_spec(self.buffer_timer, dt).raw > 0,
        ensures
            self.step_spec(pressed, true, dt).1 is Fire,
    {
    }

    /// No first jump starts in the air once the coyote window has closed.
    pub proof fn lemma_no_first_jump_in_the_air(self, pressed: bool, dt: Fixed)
        requires
            self.remaining_jumps == self.jumps,
            tick_down_spec(self.coyote_timer, dt).raw <= 0,
        ensures
            !(self.step_spec(pressed, false, dt).1 is Fire),
            self.step_spec(pressed, false, dt).0.remaining_jumps == self.jumps,
    {
    }

    /// A tick on the ground opens the coyote window to its full length.
    pub proof fn lemma_ground_opens_coyote_window(self, pressed: bool, dt: Fixed)
        ensures
            self.step_spec(pressed, true, dt).0.coyote_timer == self.coyote_duration,
    {
    }

    /// While the body falls with the jump control released and nothing
    /// buffered, no jump starts, no jump is used up, and the coyote window
    /// shrinks by no more than the time that passes.
    #[verifier::rlimit(40)]
    proof fn lemma_falling(self, ticks: Seq<Tick>)
        requires
            self.remaining_jumps == self.jumps,
            self.cooldown_timer.raw <= 0,
            self.buffer_timer.raw <= 0,
            !self.pressed_last_frame,
            airborne_spec(ticks),
            released_spec(ticks),
        ensures
            ({
                let end = self.run_spec(ticks);
                &&& end.remaining_jumps == end.jumps
                &&& end.jumps == self.jumps
                &&& end.cooldown_timer.raw <= 0
                &&& end.buffer_timer.raw <= 0
                &&& !end.pressed_last_frame
                &&& elapsed_spec(ticks) >= 0
                &&& end.coyote_timer.raw >= self.coyote_timer.raw - elapsed_spec(ticks)
            }),
        decreases ticks.len(),
    {
        if ticks.len() > 0 {
            let last = ticks.last();
            let before = ticks.drop_last();
            assert(airborne_spec(before) && released_spec(before)) by {
                assert forall|i: int| 0 <= i < before.len() implies !(#[trigger] before[i]).grounded
                    && before[i].dt.raw >= 0 && !before[i].pressed by {
                    assert(before[i] == ticks[i]);
                }
            }
            self.lemma_falling(before);
            let mid = self.run_spec(before);
            assert(last == ticks[ticks.len() - 1]);
            lemma_tick_down_elapsed(mid.coyote_timer, last.dt);
        }
    }

    /// Coyote time: a jump requested in the air starts all the same, as long
    /// as the coyote window that the ground opened has not run out. The body
    /// has all its jumps, the cooldown is over, and since it left the ground
    /// the control has been released for ticks whose length, with that of
    /// the tick of the request, is less than what was left of the window.
    pub proof fn lemma_coyote_window(self, ticks: Seq<Tick>, dt: Fixed)
        requires
            self.remaining_jumps == self.jumps,
            self.jumps > 0,
            self.cooldown_timer.raw <= 0,
            self.buffer_timer.raw <= 0,
            !self.pressed_last_frame,
            airborne_spec(ticks),
            released_spec(ticks),
            dt.raw >= 0,
            elapsed_spec(ticks) + dt.raw < self.coyote_timer.raw,
        ensures
            self.run_spec(ticks).step_spec(true, false, dt).1 is Fire,
            !self.fires_within_spec(ticks),
    {
        self.lemma_falling(ticks);
        let end = self.run_spec(ticks);
        lemma_tick_down_elapsed(end.coyote_timer, dt);
        self.lemma_falling_never_fires(ticks);
    }

    /// While the body falls with the control released and nothing buffered,
    /// no jump starts.
    proof fn lemma_falling_never_fires(self, ticks: Seq<Tick>)
        requires
            self.remaining_jumps == self.jumps,
            self.cooldown_timer.raw <= 0,
            self.buffer_timer.raw <= 0,
            !self.pressed_last_frame,
            airborne_spec(ticks),
            released_spec(ticks),
        ensures
            !self.fires_within_spec(ticks),
        decreases ticks.len(),
    {
        if ticks.len() > 0 {
            let last = ticks.last();
            let before = ticks.drop_last();
            assert(airborne_spec(before) && released_spec(before)) by {
                assert forall|i: int| 0 <= i < before.len() implies !(#[trigger] before[i]).grounded
                    && before[i].dt.raw >= 0 && !before[i].pressed by {
                    assert(before[i] == ticks[i]);
                }
            }
            self.lemma_falling_never_fires(before);
            self.lemma_falling(before);
            assert(last == ticks[ticks.len() - 1]);
        }
    }

    /// While the body stays in the air with all its jumps and no coyote
    /// window, no jump starts, and a buffered request loses no more than the
    /// time that passes.
    #[verifier::rlimit(40)]
    proof fn lemma_buffered(self, ticks: Seq<Tick>)
        requires
            self.remaining_jumps == self.jumps,
            self.coyote_timer.raw <= 0,
            self.cooldown_timer.raw <= 0,
            airborne_spec(ticks),
        ensures
            ({
                let end = self.run_spec(ticks);
                &&& end.remaining_jumps == end.jumps
                &&& end.jumps == self.jumps
                &&& end.buffer_duration == self.buffer_duration
                &&& end.coyote_timer.raw <= 0
                &&& end.cooldown_timer.raw <= 0
                &&& elapsed_spec(ticks) >= 0
                &&& end.buffer_timer.raw >= self.buffer_timer.raw - elapsed_spec(ticks)
                    || end.buffer_timer.raw >= self.buffer_duration.raw - elapsed_spec(ticks)
                &&& !self.fires_within_spec(ticks)
            }),
        decreases ticks.len(),
    {
        if ticks.len() > 0 {
            let last = ticks.last();
            let before = ticks.drop_last();
            assert(airborne_spec(before)) by {
                assert forall|i: int| 0 <= i < before.len() implies !(#[trigger] before[i]).grounded
                    && before[i].dt.raw >= 0 by {
                    assert(before[i] == ticks[i]);
                }
            }
            self.lemma_buffered(before);
            let mid = self.run_spec(before);
            assert(last == ticks[ticks.len() - 1]);
            lemma_tick_down_elapsed(mid.buffer_timer, last.dt);
        }
    }

    /// Jump buffering: a jump requested in the air, when none can start,
    /// starts on the tick the body lands, and not before. The body has all
    /// its jumps, the coyote window has run out and the cooldown is over;
    /// the time between the request and the end of the landing tick is less
    /// than the buffer's length.
    #[verifier::rlimit(40)]
    pub proof fn lemma_jump_buffer(
        self,
        press_dt: Fixed,
        ticks: Seq<Tick>,
        landing_pressed: bool,
        landing_dt: Fixed,
    )
        requires
            self.remaining_jumps == self.jumps,
            self.jumps > 0,
            self.coyote_timer.raw <= 0,
            self.cooldown_timer.raw <= 0,
            !self.pressed_last_frame,
            airborne_spec(ticks),
            landing_dt.raw >= 0,
            elapsed_spec(ticks) + landing_dt.raw < self.buffer_duration.raw,
        ensures
            ({
                let (requested, first) = self.step_spec(true, false, press_dt);
                &&& !(first is Fire)
                &&& !requested.fires_within_spec(ticks)
                &&& requested.run_spec(ticks).step_spec(landing_pressed, true, landing_dt).1 is Fire
            }),
    {
        let (requested, first) = self.step_spec(true, false, press_dt);
        assert(requested.buffer_timer == self.buffer_duration);
        requested.lemma_buffered(ticks);
        let end = requested.run_spec(ticks);
        lemma_tick_down_elapsed(end.buffer_timer, landing_dt);
    }
}

} // verus!
