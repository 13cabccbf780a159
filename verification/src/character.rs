//! The character state machine: per-tick physics integration and
//! event-driven transitions between the six animation states.
//!
//! The machine is a closed sum type over the states Idle, Running, Jumping,
//! Sliding, Falling and KnockedOut, each carrying the shared
//! [`RedHatBoyContext`]. `transition` is total: every (state, event) pair not
//! in the transition table is an implicit self-loop. Transitions are pure:
//! they consume the current state and produce a new one.

use vstd::prelude::*;

use crate::geometry::Point;

verus! {

/// Screen height; also the y-coordinate handed to the synthetic landing when
/// a jump returns to ground level.
pub const HEIGHT: i16 = 600;

/// The y-coordinate the character's position is clamped to each update.
pub const FLOOR: i16 = 479;

/// Height of the character's sprite: landing on a surface at `y` puts the
/// character's position at `y - PLAYER_HEIGHT`.
pub const PLAYER_HEIGHT: i16 = HEIGHT - FLOOR;

/// Downward acceleration added to the vertical velocity every update.
pub const GRAVITY: i16 = 1;

/// The vertical velocity is never pushed past this cap by gravity.
pub const TERMINAL_VELOCITY: i16 = 20;

/// Vertical velocity set when a jump starts (negative: y grows downward).
pub const JUMP_SPEED: i16 = -25;

/// Horizontal speed added when the character starts running.
pub const RUNNING_SPEED: i16 = 4;

/// The character's fixed horizontal screen position.
pub const STARTING_POINT: i16 = -20;

/// Animation frame counts, per state. A state's frame counter runs from 0 up
/// to its count and then loops (or triggers an exit transition for the
/// non-looping states).
pub const IDLE_FRAMES: u8 = 29;

pub const RUNNING_FRAMES: u8 = 23;

pub const SLIDING_FRAMES: u8 = 14;

pub const JUMPING_FRAMES: u8 = 35;

pub const FALLING_FRAMES: u8 = 29;

/// No reachable character position is ever above (less than) this
/// y-coordinate; it bounds every coordinate computation away from overflow.
pub const CEILING: i16 = -2000;

/// Events fed into the character state machine.
#[derive(Clone, Copy, PartialEq, Eq, Structural, Debug)]
pub enum Event {
    Jump,
    KnockOut,
    Land(i16),
    Run,
    Slide,
    Update,
}

/// The data shared by every character state: animation frame counter,
/// position, and velocity.
#[derive(Clone, Copy, PartialEq, Eq, Structural, Debug)]
pub struct RedHatBoyContext {
    pub frame: u8,
    pub position: Point,
    pub velocity: Point,
}

/// How far a context may still climb (decrease its y) before gravity turns
/// its vertical velocity around: the sum of the downward-velocity magnitudes
/// of the updates still to come.
pub open spec fn climb(vy: int) -> int
    decreases if vy < 0 { -vy } else { 0 }
{
    if vy >= 0 {
        0
    } else {
        (-vy - 1) + climb(vy + 1)
    }
}

pub proof fn lemma_climb_nonneg(vy: int)
    ensures
        climb(vy) >= 0,
    decreases if vy < 0 { -vy } else { 0 }
{
    if vy < 0 {
        lemma_climb_nonneg(vy + 1);
    }
}

pub proof fn lemma_climb_mono(a: int, b: int)
    requires
        a <= b,
    ensures
        climb(a) >= climb(b),
    decreases if a < 0 { -a } else { 0 }
{
    lemma_climb_nonneg(b);
    if a < 0 && a < b {
        lemma_climb_mono(a + 1, b);
    }
}

/// The climb available right after a jump starts.
pub proof fn lemma_climb_from_jump()
    ensures
        climb(JUMP_SPEED as int) == 300,
{
    reveal_with_fuel(climb, 32);
}

/// Well-formedness of a context, with `room` extra climb in reserve (states
/// that may still start a jump keep `climb(JUMP_SPEED)` in reserve).
pub open spec fn ctx_wf(c: RedHatBoyContext, room: int) -> bool {
    &&& JUMP_SPEED <= c.velocity.y <= TERMINAL_VELOCITY
    &&& c.position.y <= FLOOR
    &&& c.position.y >= CEILING + room + climb(c.velocity.y as int)
}

/// One physics-and-animation step: gravity up to the terminal cap, frame
/// advance that loops past `frame_count`, position integration, floor clamp.
pub open spec fn spec_ctx_update(c: RedHatBoyContext, frame_count: u8) -> RedHatBoyContext {
    let vy: i16 = if c.velocity.y < TERMINAL_VELOCITY {
        (c.velocity.y + GRAVITY) as i16
    } else {
        c.velocity.y
    };
    let frame: u8 = if c.frame < frame_count {
        (c.frame + 1) as u8
    } else {
        0
    };
    let y_raw: i16 = (c.position.y + vy) as i16;
    let y: i16 = if y_raw > FLOOR {
        FLOOR
    } else {
        y_raw
    };
    RedHatBoyContext {
        frame,
        position: Point { x: c.position.x, y },
        velocity: Point { x: c.velocity.x, y: vy },
    }
}

pub open spec fn spec_reset_frame(c: RedHatBoyContext) -> RedHatBoyContext {
    RedHatBoyContext { frame: 0, ..c }
}

pub open spec fn spec_run_right(c: RedHatBoyContext) -> RedHatBoyContext {
    RedHatBoyContext {
        velocity: Point { x: (c.velocity.x + RUNNING_SPEED) as i16, y: c.velocity.y },
        ..c
    }
}

/// Reposition the character so that it rests on a surface whose top is at
/// `position`.
pub open spec fn spec_set_on(c: RedHatBoyContext, position: i16) -> RedHatBoyContext {
    RedHatBoyContext {
        position: Point { x: c.position.x, y: (position - PLAYER_HEIGHT) as i16 },
        ..c
    }
}

pub open spec fn spec_set_vertical_velocity(c: RedHatBoyContext, y: i16) -> RedHatBoyContext {
    RedHatBoyContext { velocity: Point { x: c.velocity.x, y }, ..c }
}

pub open spec fn spec_stop(c: RedHatBoyContext) -> RedHatBoyContext {
    RedHatBoyContext { velocity: Point { x: 0, y: c.velocity.y }, ..c }
}

impl RedHatBoyContext {
    /// Arithmetic safety bounds for one physics step.
    pub open spec fn update_safe(self) -> bool {
        &&& JUMP_SPEED <= self.velocity.y <= TERMINAL_VELOCITY
        &&& CEILING <= self.position.y <= FLOOR
    }

    pub fn update(self, frame_count: u8) -> (r: RedHatBoyContext)
        requires
            self.update_safe(),
        ensures
            r == spec_ctx_update(self, frame_count),
    {
        let mut c = self;
        if c.velocity.y < TERMINAL_VELOCITY {
            c.velocity.y = c.velocity.y + GRAVITY;
        }
        if c.frame < frame_count {
            c.frame = c.frame + 1;
        } else {
            c.frame = 0;
        }
        c.position.y = c.position.y + c.velocity.y;
        if c.position.y > FLOOR {
            c.position.y = FLOOR;
        }
        c
    }

    fn reset_frame(self) -> (r: RedHatBoyContext)
        ensures
            r == spec_reset_frame(self),
    {
        let mut c = self;
        c.frame = 0;
        c
    }

    fn run_right(self) -> (r: RedHatBoyContext)
        requires
            self.velocity.x + RUNNING_SPEED <= i16::MAX,
        ensures
            r == spec_run_right(self),
    {
        let mut c = self;
        c.velocity.x = c.velocity.x + RUNNING_SPEED;
        c
    }

    fn set_on(self, position: i16) -> (r: RedHatBoyContext)
        requires
            0 <= position <= HEIGHT,
        ensures
            r == spec_set_on(self, position),
    {
        let mut c = self;
        c.position.y = position - PLAYER_HEIGHT;
        c
    }

    fn set_vertical_velocity(self, y: i16) -> (r: RedHatBoyContext)
        ensures
            r == spec_set_vertical_velocity(self, y),
    {
        let mut c = self;
        c.velocity.y = y;
        c
    }

    fn stop(self) -> (r: RedHatBoyContext)
        ensures
            r == spec_stop(self),
    {
        let mut c = self;
        c.velocity.x = 0;
        c
    }
}

/// The character state machine: exactly one state is active, and it owns the
/// context.
#[derive(Clone, Copy, PartialEq, Eq, Structural, Debug)]
pub enum RedHatBoyStateMachine {
    Falling(RedHatBoyContext),
    Idle(RedHatBoyContext),
    Jumping(RedHatBoyContext),
    KnockedOut(RedHatBoyContext),
    Running(RedHatBoyContext),
    Sliding(RedHatBoyContext),
}

/// Horizontal velocity is either standing or running speed.
pub open spec fn run_vx(c: RedHatBoyContext) -> bool {
    c.velocity.x == 0 || c.velocity.x == RUNNING_SPEED
}

/// Which (state, event) pairs the transition table handles; everything else
/// is a self-loop.
pub open spec fn handles(m: RedHatBoyStateMachine, e: Event) -> bool {
    match (m, e) {
        (RedHatBoyStateMachine::Idle(_), Event::Run) => true,
        (RedHatBoyStateMachine::Idle(_), Event::Update) => true,
        (RedHatBoyStateMachine::Falling(_), Event::Update) => true,
        (RedHatBoyStateMachine::Jumping(_), Event::KnockOut) => true,
        (RedHatBoyStateMachine::Jumping(_), Event::Land(_)) => true,
        (RedHatBoyStateMachine::Jumping(_), Event::Update) => true,
        (RedHatBoyStateMachine::KnockedOut(_), Event::Update) => true,
        (RedHatBoyStateMachine::Running(_), Event::Jump) => true,
        (RedHatBoyStateMachine::Running(_), Event::KnockOut) => true,
        (RedHatBoyStateMachine::Running(_), Event::Land(_)) => true,
        (RedHatBoyStateMachine::Running(_), Event::Slide) => true,
        (RedHatBoyStateMachine::Running(_), Event::Update) => true,
        (RedHatBoyStateMachine::Sliding(_), Event::KnockOut) => true,
        (RedHatBoyStateMachine::Sliding(_), Event::Land(_)) => true,
        (RedHatBoyStateMachine::Sliding(_), Event::Update) => true,
        _ => false,
    }
}

/// The full transition table, including the auto-transitions synthesized by
/// the non-looping states' updates.
pub open spec fn spec_transition(m: RedHatBoyStateMachine, e: Event) -> RedHatBoyStateMachine {
    match (m, e) {
        (RedHatBoyStateMachine::Idle(c), Event::Run) => RedHatBoyStateMachine::Running(
            spec_run_right(spec_reset_frame(c)),
        ),
        (RedHatBoyStateMachine::Idle(c), Event::Update) => RedHatBoyStateMachine::Idle(
            spec_ctx_update(c, IDLE_FRAMES),
        ),
        (RedHatBoyStateMachine::Falling(c), Event::Update) => {
            let c2 = spec_ctx_update(c, FALLING_FRAMES);
            if c2.frame >= FALLING_FRAMES {
                RedHatBoyStateMachine::KnockedOut(c2)
            } else {
                RedHatBoyStateMachine::Falling(c2)
            }
        },
        (RedHatBoyStateMachine::Jumping(c), Event::KnockOut) => RedHatBoyStateMachine::Falling(
            spec_stop(spec_reset_frame(c)),
        ),
        (RedHatBoyStateMachine::Jumping(c), Event::Land(p)) => RedHatBoyStateMachine::Running(
            spec_set_on(spec_reset_frame(c), p),
        ),
        (RedHatBoyStateMachine::Jumping(c), Event::Update) => {
            let c2 = spec_ctx_update(c, JUMPING_FRAMES);
            if c2.position.y >= FLOOR {
                RedHatBoyStateMachine::Running(spec_set_on(spec_reset_frame(c2), HEIGHT))
            } else {
                RedHatBoyStateMachine::Jumping(c2)
            }
        },
        (RedHatBoyStateMachine::KnockedOut(c), Event::Update) => {
            let held = RedHatBoyContext { frame: (FALLING_FRAMES - 1) as u8, ..c };
            RedHatBoyStateMachine::KnockedOut(spec_ctx_update(held, FALLING_FRAMES))
        },
        (RedHatBoyStateMachine::Running(c), Event::Jump) => RedHatBoyStateMachine::Jumping(
            spec_set_vertical_velocity(spec_reset_frame(c), JUMP_SPEED),
        ),
        (RedHatBoyStateMachine::Running(c), Event::KnockOut) => RedHatBoyStateMachine::Falling(
            spec_stop(spec_reset_frame(c)),
        ),
        (RedHatBoyStateMachine::Running(c), Event::Land(p)) => RedHatBoyStateMachine::Running(
            spec_set_on(c, p),
        ),
        (RedHatBoyStateMachine::Running(c), Event::Slide) => RedHatBoyStateMachine::Sliding(
            spec_reset_frame(c),
        ),
        (RedHatBoyStateMachine::Running(c), Event::Update) => RedHatBoyStateMachine::Running(
            spec_ctx_update(c, RUNNING_FRAMES),
        ),
        (RedHatBoyStateMachine::Sliding(c), Event::KnockOut) => RedHatBoyStateMachine::Falling(
            spec_stop(spec_reset_frame(c)),
        ),
        (RedHatBoyStateMachine::Sliding(c), Event::Land(p)) => RedHatBoyStateMachine::Sliding(
            spec_set_on(c, p),
        ),
        (RedHatBoyStateMachine::Sliding(c), Event::Update) => {
            let c2 = spec_ctx_update(c, SLIDING_FRAMES);
            if c2.frame >= SLIDING_FRAMES {
                RedHatBoyStateMachine::Running(spec_reset_frame(c2))
            } else {
                RedHatBoyStateMachine::Sliding(c2)
            }
        },
        _ => m,
    }
}

/// `Land` events carry a surface height on screen.
pub open spec fn event_in_bounds(e: Event) -> bool {
    e matches Event::Land(p) ==> 0 <= p <= HEIGHT
}

impl RedHatBoyStateMachine {
    /// The context owned by the active state.
    pub open spec fn spec_context(self) -> RedHatBoyContext {
        match self {
            RedHatBoyStateMachine::Falling(c) => c,
            RedHatBoyStateMachine::Idle(c) => c,
            RedHatBoyStateMachine::Jumping(c) => c,
            RedHatBoyStateMachine::KnockedOut(c) => c,
            RedHatBoyStateMachine::Running(c) => c,
            RedHatBoyStateMachine::Sliding(c) => c,
        }
    }

    /// Per-state animation frame cap.
    pub open spec fn frame_cap(self) -> u8 {
        match self {
            RedHatBoyStateMachine::Falling(_) => FALLING_FRAMES,
            RedHatBoyStateMachine::Idle(_) => IDLE_FRAMES,
            RedHatBoyStateMachine::Jumping(_) => JUMPING_FRAMES,
            RedHatBoyStateMachine::KnockedOut(_) => FALLING_FRAMES,
            RedHatBoyStateMachine::Running(_) => RUNNING_FRAMES,
            RedHatBoyStateMachine::Sliding(_) => SLIDING_FRAMES,
        }
    }

    /// Well-formedness: velocity and position stay within the physical
    /// bounds, the frame counter within the state's animation, and the
    /// states that may still start a jump keep enough climb in reserve.
    pub open spec fn wf(self) -> bool {
        &&& self.spec_context().frame <= self.frame_cap()
        &&& run_vx(self.spec_context())
        &&& match self {
            RedHatBoyStateMachine::Idle(c) => ctx_wf(c, climb(JUMP_SPEED as int))
                && c.velocity.x == 0,
            RedHatBoyStateMachine::Running(c) => ctx_wf(c, climb(JUMP_SPEED as int)),
            RedHatBoyStateMachine::Sliding(c) => ctx_wf(c, climb(JUMP_SPEED as int)),
            RedHatBoyStateMachine::Jumping(c) => ctx_wf(c, 0),
            RedHatBoyStateMachine::Falling(c) => ctx_wf(c, 0) && c.velocity.x == 0,
            RedHatBoyStateMachine::KnockedOut(c) => ctx_wf(c, 0) && c.velocity.x == 0,
        }
    }

    /// The animation sheet label of the active state.
    pub open spec fn spec_frame_label(self) -> Seq<char> {
        match self {
            RedHatBoyStateMachine::Falling(_) => "Dead"@,
            RedHatBoyStateMachine::Idle(_) => "Idle"@,
            RedHatBoyStateMachine::Jumping(_) => "Jump"@,
            RedHatBoyStateMachine::KnockedOut(_) => "Dead"@,
            RedHatBoyStateMachine::Running(_) => "Run"@,
            RedHatBoyStateMachine::Sliding(_) => "Slide"@,
        }
    }

    /// The state a fresh character starts in: idle at the starting
    /// position, at rest.
    pub open spec fn initial_state() -> RedHatBoyStateMachine {
        RedHatBoyStateMachine::Idle(
            RedHatBoyContext {
                frame: 0,
                position: Point { x: STARTING_POINT, y: FLOOR },
                velocity: Point { x: 0, y: 0 },
            },
        )
    }

    /// A fresh character.
    pub fn new() -> (r: RedHatBoyStateMachine)
        ensures
            r == RedHatBoyStateMachine::initial_state(),
            r.wf(),
    {
        proof {
            lemma_climb_from_jump();
        }
        RedHatBoyStateMachine::Idle(
            RedHatBoyContext {
                frame: 0,
                position: Point { x: STARTING_POINT, y: FLOOR },
                velocity: Point { x: 0, y: 0 },
            },
        )
    }

    pub fn context(&self) -> (r: &RedHatBoyContext)
        ensures
            *r == self.spec_context(),
    {
        match self {
            RedHatBoyStateMachine::Falling(c) => c,
            RedHatBoyStateMachine::Idle(c) => c,
            RedHatBoyStateMachine::Jumping(c) => c,
            RedHatBoyStateMachine::KnockedOut(c) => c,
            RedHatBoyStateMachine::Running(c) => c,
            RedHatBoyStateMachine::Sliding(c) => c,
        }
    }

    pub fn frame_name(&self) -> (r: &'static str)
        ensures
            r@ == self.spec_frame_label(),
    {
        match self {
            RedHatBoyStateMachine::Falling(_) => "Dead",
            RedHatBoyStateMachine::Idle(_) => "Idle",
            RedHatBoyStateMachine::Jumping(_) => "Jump",
            RedHatBoyStateMachine::KnockedOut(_) => "Dead",
            RedHatBoyStateMachine::Running(_) => "Run",
            RedHatBoyStateMachine::Sliding(_) => "Slide",
        }
    }

    pub fn knocked_out(&self) -> (r: bool)
        ensures
            r == (self is KnockedOut),
    {
        matches!(self, RedHatBoyStateMachine::KnockedOut(_))
    }

    /// Feed one event through the transition table.
    pub fn transition(self, event: Event) -> (r: RedHatBoyStateMachine)
        requires
            self.wf(),
            event_in_bounds(event),
        ensures
            r == spec_transition(self, event),
            r.wf(),
    {
        proof {
            lemma_transition_wf(self, event);
            lemma_climb_nonneg(self.spec_context().velocity.y as int);
            lemma_climb_from_jump();
        }
        match (self, event) {
            (RedHatBoyStateMachine::Idle(c), Event::Run) => RedHatBoyStateMachine::Running(
                c.reset_frame().run_right(),
            ),
            (RedHatBoyStateMachine::Idle(c), Event::Update) => RedHatBoyStateMachine::Idle(
                c.update(IDLE_FRAMES),
            ),
            (RedHatBoyStateMachine::Falling(c), Event::Update) => {
                let c2 = c.update(FALLING_FRAMES);
                if c2.frame >= FALLING_FRAMES {
                    RedHatBoyStateMachine::KnockedOut(c2)
                } else {
                    RedHatBoyStateMachine::Falling(c2)
                }
            },
            (RedHatBoyStateMachine::Jumping(c), Event::KnockOut) => RedHatBoyStateMachine::Falling(
                c.reset_frame().stop(),
            ),
            (RedHatBoyStateMachine::Jumping(c), Event::Land(p)) => RedHatBoyStateMachine::Running(
                c.reset_frame().set_on(p),
            ),
            (RedHatBoyStateMachine::Jumping(c), Event::Update) => {
                let c2 = c.update(JUMPING_FRAMES);
                if c2.position.y >= FLOOR {
                    RedHatBoyStateMachine::Running(c2.reset_frame().set_on(HEIGHT))
                } else {
                    RedHatBoyStateMachine::Jumping(c2)
                }
            },
            (RedHatBoyStateMachine::KnockedOut(c), Event::Update) => {
                let mut held = c;
                held.frame = FALLING_FRAMES - 1;
                RedHatBoyStateMachine::KnockedOut(held.update(FALLING_FRAMES))
            },
            (RedHatBoyStateMachine::Running(c), Event::Jump) => RedHatBoyStateMachine::Jumping(
                c.reset_frame().set_vertical_velocity(JUMP_SPEED),
            ),
            (RedHatBoyStateMachine::Running(c), Event::KnockOut) => RedHatBoyStateMachine::Falling(
                c.reset_frame().stop(),
            ),
            (RedHatBoyStateMachine::Running(c), Event::Land(p)) => RedHatBoyStateMachine::Running(
                c.set_on(p),
            ),
            (RedHatBoyStateMachine::Running(c), Event::Slide) => RedHatBoyStateMachine::Sliding(
                c.reset_frame(),
            ),
            (RedHatBoyStateMachine::Running(c), Event::Update) => RedHatBoyStateMachine::Running(
                c.update(RUNNING_FRAMES),
            ),
            (RedHatBoyStateMachine::Sliding(c), Event::KnockOut) => RedHatBoyStateMachine::Falling(
                c.reset_frame().stop(),
            ),
            (RedHatBoyStateMachine::Sliding(c), Event::Land(p)) => RedHatBoyStateMachine::Sliding(
                c.set_on(p),
            ),
            (RedHatBoyStateMachine::Sliding(c), Event::Update) => {
                let c2 = c.update(SLIDING_FRAMES);
                if c2.frame >= SLIDING_FRAMES {
                    RedHatBoyStateMachine::Running(c2.reset_frame())
                } else {
                    RedHatBoyStateMachine::Sliding(c2)
                }
            },
            _ => self,
        }
    }

    /// One logical tick of the active state.
    pub fn update(self) -> (r: RedHatBoyStateMachine)
        requires
            self.wf(),
        ensures
            r == spec_transition(self, Event::Update),
            r.wf(),
    {
        self.transition(Event::Update)
    }
}

/// One physics step keeps a well-formed context well-formed, for any reserve.
proof fn lemma_ctx_update_wf(c: RedHatBoyContext, frame_count: u8, room: int)
    requires
        ctx_wf(c, room),
        room >= 0,
    ensures
        ctx_wf(spec_ctx_update(c, frame_count), room),
        spec_ctx_update(c, frame_count).velocity.x == c.velocity.x,
        spec_ctx_update(c, frame_count).position.x == c.position.x,
        spec_ctx_update(c, frame_count).frame <= frame_count,
{
    lemma_climb_nonneg(c.velocity.y as int);
    let vy = spec_ctx_update(c, frame_count).velocity.y;
    lemma_climb_nonneg(vy as int);
    if c.velocity.y < 0 {
        assert(climb(c.velocity.y as int) == (-c.velocity.y - 1) + climb(c.velocity.y + 1));
    }
}

/// Every table transition preserves well-formedness.
pub proof fn lemma_transition_wf(m: RedHatBoyStateMachine, e: Event)
    requires
        m.wf(),
        event_in_bounds(e),
    ensures
        spec_transition(m, e).wf(),
{
    lemma_climb_from_jump();
    lemma_climb_nonneg(m.spec_context().velocity.y as int);
    lemma_climb_mono(JUMP_SPEED as int, m.spec_context().velocity.y as int);
    let room = climb(JUMP_SPEED as int);
    match (m, e) {
        (RedHatBoyStateMachine::Idle(c), Event::Update) => {
            lemma_ctx_update_wf(c, IDLE_FRAMES, room);
        },
        (RedHatBoyStateMachine::Falling(c), Event::Update) => {
            lemma_ctx_update_wf(c, FALLING_FRAMES, 0);
        },
        (RedHatBoyStateMachine::Jumping(c), Event::Update) => {
            lemma_ctx_update_wf(c, JUMPING_FRAMES, 0);
            let c2 = spec_ctx_update(c, JUMPING_FRAMES);
            lemma_climb_mono(JUMP_SPEED as int, c2.velocity.y as int);
        },
        (RedHatBoyStateMachine::KnockedOut(c), Event::Update) => {
            let held = RedHatBoyContext { frame: (FALLING_FRAMES - 1) as u8, ..c };
            lemma_ctx_update_wf(held, FALLING_FRAMES, 0);
        },
        (RedHatBoyStateMachine::Running(c), Event::Update) => {
            lemma_ctx_update_wf(c, RUNNING_FRAMES, room);
        },
        (RedHatBoyStateMachine::Sliding(c), Event::Update) => {
            lemma_ctx_update_wf(c, SLIDING_FRAMES, room);
        },
        _ => {},
    }
}

/// A fresh character's state is well-formed.
pub proof fn lemma_initial_state_wf()
    ensures
        RedHatBoyStateMachine::initial_state().wf(),
{
    lemma_climb_from_jump();
}

/// No transition moves the character horizontally: the screen x-position is
/// fixed and the world scrolls instead.
pub proof fn lemma_transition_keeps_x(m: RedHatBoyStateMachine, e: Event)
    ensures
        spec_transition(m, e).spec_context().position.x == m.spec_context().position.x,
{
}

/// `n` Update events in a row.
pub open spec fn spec_update_n(m: RedHatBoyStateMachine, n: nat) -> RedHatBoyStateMachine
    decreases n
{
    if n == 0 {
        m
    } else {
        spec_transition(spec_update_n(m, (n - 1) as nat), Event::Update)
    }
}

/// Any state or event pair outside the transition table is a self-loop.
pub proof fn lemma_unhandled_self_loop(m: RedHatBoyStateMachine, e: Event)
    requires
        !handles(m, e),
    ensures
        spec_transition(m, e) == m,
{
}

/// The vertical velocity never exceeds the terminal cap, however many
/// updates run.
pub proof fn lemma_terminal_velocity(m: RedHatBoyStateMachine, n: nat)
    requires
        m.wf(),
    ensures
        spec_update_n(m, n).wf(),
        spec_update_n(m, n).spec_context().velocity.y <= TERMINAL_VELOCITY,
    decreases n
{
    if n > 0 {
        lemma_terminal_velocity(m, (n - 1) as nat);
        lemma_transition_wf(spec_update_n(m, (n - 1) as nat), Event::Update);
    }
}

/// From Idle, a Run event followed by any number of updates leaves the
/// character Running at exactly the running speed.
pub proof fn lemma_run_then_updates(c: RedHatBoyContext, n: nat)
    requires
        RedHatBoyStateMachine::Idle(c).wf(),
    ensures
        spec_update_n(spec_transition(RedHatBoyStateMachine::Idle(c), Event::Run), n)
            is Running,
        spec_update_n(spec_transition(RedHatBoyStateMachine::Idle(c), Event::Run), n)
            .spec_context().velocity.x == RUNNING_SPEED,
    decreases n
{
    if n > 0 {
        lemma_run_then_updates(c, (n - 1) as nat);
    }
}

/// A jumping character's update either stays Jumping or lands exactly:
/// Running, resting on the floor, never past it. It lands precisely when the
/// integrated position reaches the floor.
pub proof fn lemma_jump_landing_exact(c: RedHatBoyContext)
    requires
        RedHatBoyStateMachine::Jumping(c).wf(),
    ensures
        spec_transition(RedHatBoyStateMachine::Jumping(c), Event::Update) is Jumping
            || spec_transition(RedHatBoyStateMachine::Jumping(c), Event::Update) is Running,
        spec_transition(RedHatBoyStateMachine::Jumping(c), Event::Update) is Running
            <==> spec_ctx_update(c, JUMPING_FRAMES).position.y >= FLOOR,
        spec_transition(RedHatBoyStateMachine::Jumping(c), Event::Update) is Running
            ==> spec_transition(RedHatBoyStateMachine::Jumping(c), Event::Update)
                .spec_context().position.y == HEIGHT - PLAYER_HEIGHT,
{
}

/// Over any number of updates, a jump either is still in flight or has
/// landed as Running resting exactly on the floor — never past it — and
/// stays there.
pub proof fn lemma_jump_flight(c: RedHatBoyContext, n: nat)
    requires
        RedHatBoyStateMachine::Jumping(c).wf(),
    ensures
        spec_update_n(RedHatBoyStateMachine::Jumping(c), n) is Jumping || (spec_update_n(
            RedHatBoyStateMachine::Jumping(c),
            n,
        ) is Running && spec_update_n(RedHatBoyStateMachine::Jumping(c), n)
            .spec_context().position.y == HEIGHT - PLAYER_HEIGHT && spec_update_n(
            RedHatBoyStateMachine::Jumping(c),
            n,
        ).spec_context().velocity.y >= 0),
    decreases n
{
    lemma_terminal_velocity(RedHatBoyStateMachine::Jumping(c), n);
    if n > 0 {
        lemma_jump_flight(c, (n - 1) as nat);
        lemma_terminal_velocity(RedHatBoyStateMachine::Jumping(c), (n - 1) as nat);
        let prev = spec_update_n(RedHatBoyStateMachine::Jumping(c), (n - 1) as nat);
        let pc = prev.spec_context();
        lemma_climb_nonneg(pc.velocity.y as int);
        lemma_climb_from_jump();
        if prev is Jumping {
            lemma_jump_landing_exact(pc);
            assert(prev == RedHatBoyStateMachine::Jumping(pc));
            let c2 = spec_ctx_update(pc, JUMPING_FRAMES);
            assert(CEILING <= pc.position.y <= FLOOR);
            assert(c2.position.y >= FLOOR ==> c2.velocity.y >= 0);
        } else {
            assert(prev == RedHatBoyStateMachine::Running(pc));
            assert(pc.position.y == FLOOR && pc.velocity.y >= 0);
            let c2 = spec_ctx_update(pc, RUNNING_FRAMES);
            assert(c2.position.y == FLOOR && c2.velocity.y >= 0);
        }
    }
}

/// A fresh slide stays Sliding for one update fewer than the sliding frame
/// count, and stands back up to Running at exactly that count.
pub proof fn lemma_slide_duration(c: RedHatBoyContext, n: nat)
    requires
        c.frame == 0,
        n <= SLIDING_FRAMES,
    ensures
        n < SLIDING_FRAMES ==> spec_update_n(RedHatBoyStateMachine::Sliding(c), n) is Sliding
            && spec_update_n(RedHatBoyStateMachine::Sliding(c), n).spec_context().frame == n,
        n == SLIDING_FRAMES ==> spec_update_n(RedHatBoyStateMachine::Sliding(c), n) is Running,
    decreases n
{
    if n > 0 {
        lemma_slide_duration(c, (n - 1) as nat);
    }
}

} // verus!
