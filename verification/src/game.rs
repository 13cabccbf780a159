//! The game session state machine: Ready (idle character, awaiting the
//! first move input), Walking (simulation active), and GameOver (frozen
//! world, awaiting a restart signal).
//!
//! Each state owns the world by move: a transition hands it over, so the
//! previous session's world cannot be mutated afterwards. Input is
//! level-sampled booleans, except the restart signal, which is a one-shot.

use vstd::prelude::*;

use crate::boy::RedHatBoy;
use crate::character::Event;
use crate::character::RedHatBoyStateMachine;
use crate::character::spec_transition;
use crate::obstacle::moved_obstacle;
use crate::segments::FIRST_PLATFORM;
use crate::segments::HIGH_PLATFORM;
use crate::segments::LOW_PLATFORM;
use crate::segments::PLATFORM_SPAN;
use crate::segments::is_segment;
use crate::world::OBSTACLE_BUFFER;
use crate::world::TIMELINE_MINIMUM;
use crate::world::Walk;
use crate::world::spec_keep_onscreen;
use crate::world::spec_scroll_backgrounds;
use crate::world::spec_sweep_boy;

verus! {

/// The level-sampled input state: whether each relevant key is currently
/// down.
#[derive(Clone, Copy, PartialEq, Eq, Structural, Debug)]
pub struct KeyState {
    pub arrow_right: bool,
    pub arrow_down: bool,
    pub space: bool,
}

/// The game session states; each owns the world.
pub enum WalkTheDogStateMachine {
    Ready(Walk),
    Walking(Walk),
    GameOver(Walk),
}

/// The character events fired by one Walking tick's input sampling,
/// followed by the unconditional update.
pub open spec fn spec_boy_after_input(m: RedHatBoyStateMachine, ks: KeyState) -> RedHatBoyStateMachine {
    let m1 = if ks.arrow_down {
        spec_transition(m, Event::Slide)
    } else {
        m
    };
    let m2 = if ks.space {
        spec_transition(m1, Event::Jump)
    } else {
        m1
    };
    spec_transition(m2, Event::Update)
}

/// One Ready tick: the idle character animates; a rightward input starts
/// the run and the session.
pub open spec fn ready_step_ok(w: Walk, after: WalkTheDogStateMachine, ks: KeyState) -> bool {
    let m1 = spec_transition(w.boy.state_machine, Event::Update);
    let m2 = if ks.arrow_right {
        spec_transition(m1, Event::Run)
    } else {
        m1
    };
    &&& (after is Walking <==> ks.arrow_right)
    &&& (after is Walking || after is Ready)
    &&& after.spec_walk() == (Walk { boy: RedHatBoy { state_machine: m2, ..w.boy }, ..w })
}

/// One Walking tick: input events and physics on the character, background
/// and obstacle scrolling, scroll-off removal, collision checks in list
/// order, then generation or timeline drift, and the knock-out check.
pub open spec fn walking_step_ok(w: Walk, after: WalkTheDogStateMachine, ks: KeyState) -> bool {
    let boy1 = RedHatBoy { state_machine: spec_boy_after_input(w.boy.state_machine, ks), ..w.boy };
    let vel = (-boy1.state_machine.spec_context().velocity.x) as i16;
    let kept = spec_keep_onscreen(w.obstacles@);
    let boy2 = spec_sweep_boy(kept, vel, boy1);
    let generated = w.timeline < TIMELINE_MINIMUM;
    let aw = after.spec_walk();
    &&& (after is GameOver <==> boy2.state_machine is KnockedOut)
    &&& (after is GameOver || after is Walking)
    &&& aw.boy == boy2
    &&& (aw.backgrounds.0, aw.backgrounds.1) == spec_scroll_backgrounds(
        w.backgrounds.0,
        w.backgrounds.1,
        vel,
    )
    &&& aw.obstacle_sheet == w.obstacle_sheet
    &&& aw.stone_width == w.stone_width
    &&& aw.stone_height == w.stone_height
    &&& aw.obstacles@.len() == kept.len() + (if generated {
        2int
    } else {
        0int
    })
    &&& forall|i: int|
        0 <= i < kept.len() ==> moved_obstacle(kept[i], #[trigger] aw.obstacles@[i], vel)
    &&& if generated {
        &&& aw.timeline == w.timeline + OBSTACLE_BUFFER + FIRST_PLATFORM + PLATFORM_SPAN
        &&& exists|y: i16|
            (y == LOW_PLATFORM || y == HIGH_PLATFORM) && #[trigger] is_segment(
                aw.obstacles@.skip(kept.len() as int),
                (w.timeline + OBSTACLE_BUFFER) as i16,
                y,
                w.obstacle_sheet,
                w.stone_width,
                w.stone_height,
            )
    } else {
        aw.timeline == w.timeline + vel
    }
}

/// One GameOver tick: a restart signal reconstructs the world (fresh idle
/// character at the starting position, fresh starting segment, assets
/// reused); otherwise nothing changes.
pub open spec fn game_over_step_ok(
    w: Walk,
    after: WalkTheDogStateMachine,
    new_game_pressed: bool,
) -> bool {
    if new_game_pressed {
        let aw = after.spec_walk();
        &&& after is Ready
        &&& aw.boy.state_machine == RedHatBoyStateMachine::initial_state()
        &&& aw.boy.sprite_sheet == w.boy.sprite_sheet
        &&& aw.backgrounds == w.backgrounds
        &&& aw.obstacle_sheet == w.obstacle_sheet
        &&& aw.stone_width == w.stone_width
        &&& aw.stone_height == w.stone_height
        &&& is_segment(aw.obstacles@, 0, LOW_PLATFORM, w.obstacle_sheet, w.stone_width, w.stone_height)
        &&& aw.timeline == FIRST_PLATFORM + PLATFORM_SPAN
    } else {
        after == WalkTheDogStateMachine::GameOver(w)
    }
}

/// What one session tick may produce from each state.
pub open spec fn spec_step_ok(
    before: WalkTheDogStateMachine,
    after: WalkTheDogStateMachine,
    ks: KeyState,
    new_game_pressed: bool,
) -> bool {
    match before {
        WalkTheDogStateMachine::Ready(w) => ready_step_ok(w, after, ks),
        WalkTheDogStateMachine::Walking(w) => walking_step_ok(w, after, ks),
        WalkTheDogStateMachine::GameOver(w) => game_over_step_ok(w, after, new_game_pressed),
    }
}

impl WalkTheDogStateMachine {
    /// The world owned by the active state.
    pub open spec fn spec_walk(self) -> Walk {
        match self {
            WalkTheDogStateMachine::Ready(w) => w,
            WalkTheDogStateMachine::Walking(w) => w,
            WalkTheDogStateMachine::GameOver(w) => w,
        }
    }

    pub open spec fn wf(self) -> bool {
        self.spec_walk().wf()
    }

    /// A fresh session starts Ready.
    pub fn new(walk: Walk) -> (r: WalkTheDogStateMachine)
        ensures
            r == WalkTheDogStateMachine::Ready(walk),
    {
        WalkTheDogStateMachine::Ready(walk)
    }

    pub fn is_game_over(&self) -> (r: bool)
        ensures
            r == (*self is GameOver),
    {
        matches!(self, WalkTheDogStateMachine::GameOver(_))
    }

    /// One logical tick of the session.
    pub fn update(self, keystate: &KeyState, new_game_pressed: bool) -> (r: WalkTheDogStateMachine)
        requires
            self.wf(),
        ensures
            r.wf(),
            spec_step_ok(self, r, *keystate, new_game_pressed),
    {
        match self {
            WalkTheDogStateMachine::Ready(mut walk) => {
                walk.boy.update();
                if keystate.arrow_right {
                    walk.boy.run_right();
                    WalkTheDogStateMachine::Walking(walk)
                } else {
                    WalkTheDogStateMachine::Ready(walk)
                }
            },
            WalkTheDogStateMachine::Walking(mut walk) => {
                if keystate.arrow_down {
                    walk.boy.slide();
                }
                if keystate.space {
                    walk.boy.jump();
                }
                walk.boy.update();
                let walking_speed = walk.velocity();
                walk.scroll_backgrounds(walking_speed);
                walk.drop_offscreen();
                walk.scroll_and_collide(walking_speed);
                if walk.timeline < TIMELINE_MINIMUM {
                    walk.generate_next_segment();
                } else {
                    walk.timeline = walk.timeline + walking_speed;
                }
                if walk.knocked_out() {
                    WalkTheDogStateMachine::GameOver(walk)
                } else {
                    WalkTheDogStateMachine::Walking(walk)
                }
            },
            WalkTheDogStateMachine::GameOver(walk) => {
                if new_game_pressed {
                    WalkTheDogStateMachine::Ready(Walk::reset(walk))
                } else {
                    WalkTheDogStateMachine::GameOver(walk)
                }
            },
        }
    }
}

/// The game as the loop drives it: no session until the host installs a
/// world.
pub struct WalkTheDog {
    pub machine: Option<WalkTheDogStateMachine>,
}

impl WalkTheDog {
    pub open spec fn wf(self) -> bool {
        self.machine matches Some(m) ==> m.wf()
    }

    pub fn new() -> (r: WalkTheDog)
        ensures
            r.machine is None,
    {
        WalkTheDog { machine: None }
    }

    /// One logical tick: a no-op until a session is installed.
    pub fn update(&mut self, keystate: &KeyState, new_game_pressed: bool)
        requires
            old(self).wf(),
        ensures
            final(self).wf(),
            old(self).machine is None ==> final(self).machine == old(self).machine,
            old(self).machine matches Some(m) ==> final(self).machine matches Some(m2)
                && spec_step_ok(m, m2, *keystate, new_game_pressed),
    {
        let taken = self.machine.take();
        match taken {
            Option::None => {},
            Option::Some(machine) => {
                self.machine = Some(machine.update(keystate, new_game_pressed));
            },
        }
    }
}

} // verus!
