//! The fixed-timestep loop: an accumulator of unconsumed elapsed time
//! decouples the logical update rate from the host's frame delivery.
//!
//! Time is counted in sixtieths of a millisecond, so one logical frame —
//! 1000/60 milliseconds — is exactly [`FRAME_DURATION`] units and the
//! arithmetic is exact. On each host frame the elapsed time joins the
//! accumulator; while the accumulator exceeds one frame duration, one
//! logical update runs and the duration is subtracted. A long pause thus
//! produces a burst of catch-up updates, never skipped time. The restart
//! signal is a one-shot: the first update that polls it (a GameOver tick)
//! consumes it.

use vstd::prelude::*;

use crate::game::KeyState;
use crate::game::WalkTheDog;
use crate::game::WalkTheDogStateMachine;
use crate::game::spec_step_ok;

verus! {

/// One logical frame, in sixtieths of a millisecond: 1000/60 ms.
pub const FRAME_DURATION: u64 = 1000;

/// Host frame gaps beyond this bound (years of wall-clock time, far past
/// any real callback gap) are rejected rather than accumulated.
pub const MAX_FRAME_GAP: u64 = 0x4000_0000_0000;

/// Whether the restart signal survives one update: the GameOver state polls
/// it and thereby consumes it.
pub open spec fn spec_consume_restart(m: WalkTheDogStateMachine, pressed: bool) -> bool {
    if m is GameOver {
        false
    } else {
        pressed
    }
}

/// `after` (with its remaining restart signal `pressed_after`) is reachable
/// from `before` by exactly `n` session ticks under the level-sampled keys
/// `ks`, the one-shot restart signal threaded through.
pub open spec fn updates_reach(
    before: WalkTheDogStateMachine,
    ks: KeyState,
    pressed: bool,
    n: nat,
    after: WalkTheDogStateMachine,
    pressed_after: bool,
) -> bool
    decreases n
{
    if n == 0 {
        after == before && pressed_after == pressed
    } else {
        exists|mid: WalkTheDogStateMachine, pmid: bool|
            updates_reach(before, ks, pressed, (n - 1) as nat, mid, pmid) && #[trigger] spec_step_ok(
                mid,
                after,
                ks,
                pmid,
            ) && pressed_after == spec_consume_restart(mid, pmid)
    }
}

/// The accumulator state of the loop.
pub struct GameLoop {
    pub accumulated_delta: u64,
    pub last_frame: u64,
}

impl GameLoop {
    /// Between host frames the accumulator holds less than one frame's
    /// worth of leftover time.
    pub open spec fn wf(self) -> bool {
        self.accumulated_delta <= FRAME_DURATION
    }

    /// A loop started now: empty accumulator.
    pub fn new(start_time: u64) -> (r: GameLoop)
        ensures
            r.accumulated_delta == 0,
            r.last_frame == start_time,
            r.wf(),
    {
        GameLoop { accumulated_delta: 0, last_frame: start_time }
    }

    /// One host frame at timestamp `perf`: accumulate the elapsed time,
    /// run one logical update per full frame duration accumulated, and
    /// report how many ran. The accounting is exact: what was not consumed
    /// stays in the accumulator, at most one frame's worth, and only a
    /// frame that ran updates leaves a nonzero remainder behind.
    pub fn frame(
        &mut self,
        perf: u64,
        game: &mut WalkTheDog,
        keystate: &KeyState,
        new_game_pressed: bool,
    ) -> (updates: u64)
        requires
            old(self).wf(),
            old(game).wf(),
            old(self).last_frame <= perf,
            perf - old(self).last_frame <= MAX_FRAME_GAP,
        ensures
            final(self).wf(),
            final(game).wf(),
            final(self).last_frame == perf,
            final(self).accumulated_delta + updates * FRAME_DURATION == old(self).accumulated_delta
                + (perf - old(self).last_frame),
            final(self).accumulated_delta <= FRAME_DURATION,
            updates > 0 ==> final(self).accumulated_delta > 0,
            old(game).machine is None ==> final(game).machine == old(game).machine,
            old(game).machine matches Some(m) ==> final(game).machine matches Some(m2)
                && exists|q: bool| updates_reach(m, *keystate, new_game_pressed, updates as nat, m2, q),
    {
        self.accumulated_delta = self.accumulated_delta + (perf - self.last_frame);
        self.last_frame = perf;
        let mut updates: u64 = 0;
        let mut pressed = new_game_pressed;
        let ghost m0 = game.machine;
        while self.accumulated_delta > FRAME_DURATION
            invariant
                game.wf(),
                self.accumulated_delta + updates * FRAME_DURATION == old(self).accumulated_delta + (
                perf - old(self).last_frame),
                updates > 0 ==> self.accumulated_delta > 0,
                self.last_frame == perf,
                m0 is None ==> game.machine == m0 && pressed == new_game_pressed,
                m0 matches Some(m) ==> game.machine matches Some(m2) && updates_reach(
                    m,
                    *keystate,
                    new_game_pressed,
                    updates as nat,
                    m2,
                    pressed,
                ),
            decreases self.accumulated_delta,
        {
            let ghost pre = game.machine;
            let ghost pre_pressed = pressed;
            let was_game_over = match &game.machine {
                Option::Some(m) => m.is_game_over(),
                Option::None => false,
            };
            game.update(keystate, pressed);
            if was_game_over {
                pressed = false;
            }
            self.accumulated_delta = self.accumulated_delta - FRAME_DURATION;
            updates = updates + 1;
            proof {
                if m0 is Some {
                    let m = m0->0;
                    let mid = pre->0;
                    assert(spec_step_ok(mid, game.machine->0, *keystate, pre_pressed));
                    assert(updates_reach(
                        m,
                        *keystate,
                        new_game_pressed,
                        (updates - 1) as nat,
                        mid,
                        pre_pressed,
                    ));
                    assert(pressed == spec_consume_restart(mid, pre_pressed));
                }
            }
        }
        updates
    }
}

} // verus!
