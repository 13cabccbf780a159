//! The scrolling world: two wrapping background tiles, the character, the
//! obstacle list, and the segment generator's timeline cursor.
//!
//! The timeline tracks the rightmost x-coordinate already populated with
//! obstacles. When it falls under the minimum lookahead, a randomly chosen
//! segment template is appended past the buffer; otherwise it drifts left
//! with the world. Obstacles fully scrolled past the left edge are dropped.

use vstd::prelude::*;

use rand::Rng;

use crate::boy::RedHatBoy;
use crate::character::RedHatBoyStateMachine;
use crate::character::run_vx;
use crate::geometry::Point;
use crate::geometry::Rect;
use crate::obstacle::Image;
use crate::obstacle::Obstacle;
use crate::obstacle::moved_obstacle;
use crate::obstacle::rect_wf;
use crate::obstacle::spec_collide_shifted;
use crate::obstacle::spec_shift_rect;
use crate::obstacle::lemma_collide_after_move;
use crate::segments::FIRST_PLATFORM;
use crate::segments::HIGH_PLATFORM;
use crate::segments::LOW_PLATFORM;
use crate::segments::PLATFORM_SPAN;
use crate::segments::is_segment;
use crate::segments::lemma_segment_rightmost;
use crate::segments::platform_and_stone;
use crate::segments::rightmost;
use crate::segments::spec_rightmost;
use crate::segments::stone_and_platform;
use crate::sheet::Sheet;

verus! {

/// Distance past the timeline at which a new segment is placed.
pub const OBSTACLE_BUFFER: i16 = 20;

/// The minimum lookahead: generation triggers when the timeline falls
/// under it.
pub const TIMELINE_MINIMUM: i16 = 1000;

/// An obstacle as the world keeps it: well-formed, not yet fully scrolled
/// far off screen, and with all its boxes within a platform-sized span of
/// its rightmost edge.
pub open spec fn world_obstacle_ok(o: Obstacle) -> bool {
    &&& o.wf()
    &&& o.spec_right() >= -4
    &&& match o {
        Obstacle::Barrier(_) => true,
        Obstacle::Platform(p) => {
            &&& p.bounding_boxes@.len() >= 1
            &&& forall|j: int|
                0 <= j < p.bounding_boxes@.len() ==> ((#[trigger] p.bounding_boxes@[j]).position.x
                    >= o.spec_right() - 2400 && p.bounding_boxes@[j].spec_right() <= o.spec_right())
            &&& o.spec_right() - 2400 <= p.position.x <= o.spec_right()
        },
    }
}

/// Scrolling left (by at most 4) keeps a kept obstacle well-formed and
/// shifts its rightmost edge along.
pub proof fn lemma_moved_obstacle_ok(before: Obstacle, after: Obstacle, x: i16)
    requires
        world_obstacle_ok(before),
        before.spec_right() > 0,
        -4 <= x <= 0,
        moved_obstacle(before, after, x),
    ensures
        world_obstacle_ok(after),
        after.spec_right() == before.spec_right() + x,
{
    match (before, after) {
        (Obstacle::Barrier(b1), Obstacle::Barrier(b2)) => {},
        (Obstacle::Platform(p1), Obstacle::Platform(p2)) => {
            assert(forall|j: int|
                0 <= j < p1.bounding_boxes@.len() ==> #[trigger] p2.bounding_boxes@[j]
                    == spec_shift_rect(p1.bounding_boxes@[j], x));
            assert(p2.bounding_boxes@.last() == spec_shift_rect(p1.bounding_boxes@.last(), x));
        },
        _ => {},
    }
}

/// The obstacles that remain after dropping those fully scrolled past the
/// left edge, in order.
pub open spec fn spec_keep_onscreen(obs: Seq<Obstacle>) -> Seq<Obstacle>
    decreases obs.len()
{
    if obs.len() == 0 {
        Seq::empty()
    } else {
        let rest = spec_keep_onscreen(obs.drop_last());
        if obs.last().spec_right() > 0 {
            rest.push(obs.last())
        } else {
            rest
        }
    }
}

/// The character after colliding, in order, with each obstacle of `obs`
/// scrolled by `x`.
pub open spec fn spec_sweep_boy(obs: Seq<Obstacle>, x: i16, boy: RedHatBoy) -> RedHatBoy
    decreases obs.len()
{
    if obs.len() == 0 {
        boy
    } else {
        spec_sweep_boy(obs.skip(1), x, spec_collide_shifted(obs[0], x, boy))
    }
}

/// The smaller of the two background tiles' x-positions.
pub open spec fn bg_low_x(a: Image, b: Image) -> int {
    if a.bounding_box.position.x <= b.bounding_box.position.x {
        a.bounding_box.position.x as int
    } else {
        b.bounding_box.position.x as int
    }
}

/// Two equally sized tiles standing side by side, never far past the left
/// edge, with room to scroll.
pub open spec fn backgrounds_wf(a: Image, b: Image) -> bool {
    let w = a.bounding_box.width as int;
    &&& b.bounding_box.width == a.bounding_box.width
    &&& 8 <= w <= 2400
    &&& b.bounding_box.height == a.bounding_box.height
    &&& 0 <= a.bounding_box.height <= 600
    &&& b.bounding_box.position.y == a.bounding_box.position.y
    &&& 0 <= a.bounding_box.position.y <= 600
    &&& a.bounding_box.spec_bottom() <= 2000
    &&& (a.bounding_box.position.x + w == b.bounding_box.position.x || b.bounding_box.position.x
        + w == a.bounding_box.position.x)
    &&& -(w + 4) <= bg_low_x(a, b)
    &&& bg_low_x(a, b) + 2 * w <= 30000
}

/// One scroll step of the background pair: both tiles shift by `v`; a tile
/// whose right edge passes 0 is repositioned to the right of its sibling
/// (the first tile is checked, then the second against the updated first).
pub open spec fn spec_scroll_backgrounds(a: Image, b: Image, v: i16) -> (Image, Image) {
    let a1 = Image { bounding_box: spec_shift_rect(a.bounding_box, v) };
    let b1 = Image { bounding_box: spec_shift_rect(b.bounding_box, v) };
    let a2 = if a1.bounding_box.spec_right() < 0 {
        Image {
            bounding_box: Rect {
                position: Point {
                    x: b1.bounding_box.spec_right() as i16,
                    y: a1.bounding_box.position.y,
                },
                ..a1.bounding_box
            },
        }
    } else {
        a1
    };
    let b2 = if b1.bounding_box.spec_right() < 0 {
        Image {
            bounding_box: Rect {
                position: Point {
                    x: a2.bounding_box.spec_right() as i16,
                    y: b1.bounding_box.position.y,
                },
                ..b1.bounding_box
            },
        }
    } else {
        b1
    };
    (a2, b2)
}

/// The world the Walking session scrolls through.
pub struct Walk {
    pub backgrounds: (Image, Image),
    pub boy: RedHatBoy,
    pub obstacle_sheet: Sheet,
    pub obstacles: Vec<Obstacle>,
    pub stone_width: i16,
    pub stone_height: i16,
    pub timeline: i16,
}

/// Relies on rand::thread_rng and rand::Rng::gen_range: the range `0..2` is
/// nonempty, so the call returns a uniformly sampled value below 2.
#[verifier::external_body]
fn random_segment_choice() -> (r: u8)
    ensures
        r < 2,
{
    rand::thread_rng().gen_range(0..2)
}

impl Walk {
    pub open spec fn wf(self) -> bool {
        &&& self.boy.wf()
        &&& forall|i: int|
            0 <= i < self.obstacles@.len() ==> world_obstacle_ok(#[trigger] self.obstacles@[i])
        &&& 0 <= self.timeline <= 28000
        &&& 0 <= self.stone_width <= 600
        &&& 0 <= self.stone_height <= 600
        &&& backgrounds_wf(self.backgrounds.0, self.backgrounds.1)
    }

    /// A fresh world: the given character and assets, the starting segment
    /// at the origin, and the timeline at its rightmost edge.
    pub fn new(
        boy: RedHatBoy,
        backgrounds: (Image, Image),
        obstacle_sheet: Sheet,
        stone_width: i16,
        stone_height: i16,
    ) -> (r: Walk)
        requires
            0 <= stone_width <= 600,
            0 <= stone_height <= 600,
        ensures
            r.boy == boy,
            r.backgrounds == backgrounds,
            r.obstacle_sheet == obstacle_sheet,
            r.stone_width == stone_width,
            r.stone_height == stone_height,
            is_segment(r.obstacles@, 0, LOW_PLATFORM, obstacle_sheet, stone_width, stone_height),
            r.timeline == FIRST_PLATFORM + PLATFORM_SPAN,
            boy.wf() && backgrounds_wf(backgrounds.0, backgrounds.1) ==> r.wf(),
    {
        let starting_obstacles = stone_and_platform(0, &obstacle_sheet, stone_width, stone_height);
        proof {
            lemma_segment_rightmost(
                starting_obstacles@,
                0,
                LOW_PLATFORM,
                obstacle_sheet,
                stone_width,
                stone_height,
            );
            lemma_segment_obstacles_ok(
                starting_obstacles@,
                0,
                LOW_PLATFORM,
                obstacle_sheet,
                stone_width,
                stone_height,
            );
        }
        let timeline = rightmost(&starting_obstacles);
        Walk {
            backgrounds,
            boy,
            obstacle_sheet,
            obstacles: starting_obstacles,
            stone_width,
            stone_height,
            timeline,
        }
    }

    /// A restarted world: a fresh idle character reusing the old one's
    /// sheet, a fresh starting segment, everything else carried over.
    pub fn reset(walk: Walk) -> (r: Walk)
        requires
            walk.wf(),
        ensures
            r.boy.state_machine == RedHatBoyStateMachine::initial_state(),
            r.boy.sprite_sheet == walk.boy.sprite_sheet,
            r.backgrounds == walk.backgrounds,
            r.obstacle_sheet == walk.obstacle_sheet,
            r.stone_width == walk.stone_width,
            r.stone_height == walk.stone_height,
            is_segment(
                r.obstacles@,
                0,
                LOW_PLATFORM,
                walk.obstacle_sheet,
                walk.stone_width,
                walk.stone_height,
            ),
            r.timeline == FIRST_PLATFORM + PLATFORM_SPAN,
            r.wf(),
    {
        let Walk {
            backgrounds,
            boy,
            obstacle_sheet,
            obstacles: _,
            stone_width,
            stone_height,
            timeline: _,
        } = walk;
        proof {
            crate::character::lemma_initial_state_wf();
        }
        Walk::new(RedHatBoy::reset(boy), backgrounds, obstacle_sheet, stone_width, stone_height)
    }

    /// The scroll velocity: the world moves opposite to the character's
    /// nominal motion.
    pub fn velocity(&self) -> (r: i16)
        requires
            run_vx(self.boy.state_machine.spec_context()),
        ensures
            r == -self.boy.state_machine.spec_context().velocity.x,
            -4 <= r <= 0,
    {
        -self.boy.walking_speed()
    }

    pub fn knocked_out(&self) -> (r: bool)
        ensures
            r == (self.boy.state_machine is KnockedOut),
    {
        self.boy.knocked_out()
    }

    /// Append a randomly chosen segment template past the buffer and move
    /// the timeline to its rightmost edge. Whichever template comes up, the
    /// timeline advances past the old cursor and the existing obstacles
    /// stay untouched.
    pub fn generate_next_segment(&mut self)
        requires
            old(self).wf(),
            old(self).timeline <= 27000,
        ensures
            final(self).wf(),
            final(self).obstacles@.len() == old(self).obstacles@.len() + 2,
            final(self).obstacles@.take(old(self).obstacles@.len() as int) == old(self).obstacles@,
            exists|y: i16|
                (y == LOW_PLATFORM || y == HIGH_PLATFORM) && #[trigger] is_segment(
                    final(self).obstacles@.skip(old(self).obstacles@.len() as int),
                    (old(self).timeline + OBSTACLE_BUFFER) as i16,
                    y,
                    old(self).obstacle_sheet,
                    old(self).stone_width,
                    old(self).stone_height,
                ),
            final(self).timeline == old(self).timeline + OBSTACLE_BUFFER + FIRST_PLATFORM
                + PLATFORM_SPAN,
            final(self).timeline > old(self).timeline + OBSTACLE_BUFFER,
            spec_rightmost(final(self).obstacles@.skip(old(self).obstacles@.len() as int)) > old(self).timeline + OBSTACLE_BUFFER,
            final(self).boy == old(self).boy,
            final(self).backgrounds == old(self).backgrounds,
            final(self).obstacle_sheet == old(self).obstacle_sheet,
            final(self).stone_width == old(self).stone_width,
            final(self).stone_height == old(self).stone_height,
    {
        let next_segment = random_segment_choice();
        self.apply_segment_choice(next_segment);
    }

    /// Append the chosen segment template (0: stone then low platform,
    /// 1: high platform then stone placement) past the buffer.
    pub fn apply_segment_choice(&mut self, choice: u8)
        requires
            old(self).wf(),
            old(self).timeline <= 27000,
            choice < 2,
        ensures
            final(self).wf(),
            final(self).obstacles@.len() == old(self).obstacles@.len() + 2,
            final(self).obstacles@.take(old(self).obstacles@.len() as int) == old(self).obstacles@,
            is_segment(
                final(self).obstacles@.skip(old(self).obstacles@.len() as int),
                (old(self).timeline + OBSTACLE_BUFFER) as i16,
                if choice == 0 {
                    LOW_PLATFORM
                } else {
                    HIGH_PLATFORM
                },
                old(self).obstacle_sheet,
                old(self).stone_width,
                old(self).stone_height,
            ),
            final(self).timeline == old(self).timeline + OBSTACLE_BUFFER + FIRST_PLATFORM
                + PLATFORM_SPAN,
            spec_rightmost(final(self).obstacles@.skip(old(self).obstacles@.len() as int)) > old(self).timeline + OBSTACLE_BUFFER,
            final(self).boy == old(self).boy,
            final(self).backgrounds == old(self).backgrounds,
            final(self).obstacle_sheet == old(self).obstacle_sheet,
            final(self).stone_width == old(self).stone_width,
            final(self).stone_height == old(self).stone_height,
    {
        let offset = self.timeline + OBSTACLE_BUFFER;
        let mut next_obstacles = if choice == 0 {
            stone_and_platform(offset, &self.obstacle_sheet, self.stone_width, self.stone_height)
        } else {
            platform_and_stone(offset, &self.obstacle_sheet, self.stone_width, self.stone_height)
        };
        let ghost y: i16 = if choice == 0 { LOW_PLATFORM } else { HIGH_PLATFORM };
        proof {
            lemma_segment_rightmost(
                next_obstacles@,
                offset,
                y,
                self.obstacle_sheet,
                self.stone_width,
                self.stone_height,
            );
            lemma_segment_obstacles_ok(
                next_obstacles@,
                offset,
                y,
                self.obstacle_sheet,
                self.stone_width,
                self.stone_height,
            );
        }
        self.timeline = rightmost(&next_obstacles);
        let ghost before = self.obstacles@;
        let ghost seg = next_obstacles@;
        self.obstacles.append(&mut next_obstacles);
        proof {
            assert(self.obstacles@.take(before.len() as int) =~= before);
            assert(self.obstacles@.skip(before.len() as int) =~= seg);
            assert forall|i: int|
                0 <= i < self.obstacles@.len() implies world_obstacle_ok(
                #[trigger] self.obstacles@[i],
            ) by {
                if i < before.len() {
                    assert(self.obstacles@[i] == before[i]);
                } else {
                    assert(self.obstacles@[i] == seg[i - before.len()]);
                }
            }
        }
    }

    /// Drop every obstacle fully scrolled past the left edge, keeping the
    /// others in order.
    pub fn drop_offscreen(&mut self)
        requires
            old(self).wf(),
        ensures
            final(self).wf(),
            final(self).obstacles@ == spec_keep_onscreen(old(self).obstacles@),
            forall|i: int|
                0 <= i < final(self).obstacles@.len() ==> (#[trigger] final(self).obstacles@[i]).spec_right() > 0,
            final(self).boy == old(self).boy,
            final(self).backgrounds == old(self).backgrounds,
            final(self).obstacle_sheet == old(self).obstacle_sheet,
            final(self).stone_width == old(self).stone_width,
            final(self).stone_height == old(self).stone_height,
            final(self).timeline == old(self).timeline,
    {
        let ghost orig = self.obstacles@;
        let mut kept: Vec<Obstacle> = Vec::new();
        let ghost processed: int = 0;
        proof {
            assert(orig.take(0) =~= Seq::<Obstacle>::empty());
        }
        while self.obstacles.len() > 0
            invariant
                0 <= processed <= orig.len(),
                self.obstacles@ =~= orig.skip(processed),
                forall|i: int| 0 <= i < orig.len() ==> world_obstacle_ok(#[trigger] orig[i]),
                self.boy == old(self).boy,
                self.backgrounds == old(self).backgrounds,
                self.obstacle_sheet == old(self).obstacle_sheet,
                self.stone_width == old(self).stone_width,
                self.stone_height == old(self).stone_height,
                self.timeline == old(self).timeline,
                old(self).wf(),
                kept@ == spec_keep_onscreen(orig.take(processed)),
                forall|i: int|
                    0 <= i < kept@.len() ==> world_obstacle_ok(#[trigger] kept@[i])
                        && kept@[i].spec_right() > 0,
            decreases self.obstacles@.len(),
        {
            proof {
                assert(orig.skip(processed)[0] == orig[processed]);
            }
            let o = self.obstacles.remove(0);
            assert(o == orig[processed]);
            proof {
                assert(orig.take(processed + 1).drop_last() =~= orig.take(processed));
                assert(orig.take(processed + 1).last() == orig[processed]);
                assert(self.obstacles@ =~= orig.skip(processed + 1));
            }
            if o.right() > 0 {
                kept.push(o);
            }
            proof {
                processed = processed + 1;
            }
        }
        proof {
            assert(orig.take(orig.len() as int) =~= orig);
        }
        self.obstacles = kept;
    }

    /// Scroll every obstacle by `velocity` and run its collision check
    /// against the character, in list order, each obstacle checked after it
    /// has moved.
    pub fn scroll_and_collide(&mut self, velocity: i16)
        requires
            old(self).wf(),
            -4 <= velocity <= 0,
            forall|i: int|
                0 <= i < old(self).obstacles@.len() ==> (#[trigger] old(self).obstacles@[i]).spec_right() > 0,
        ensures
            final(self).wf(),
            final(self).obstacles@.len() == old(self).obstacles@.len(),
            forall|i: int|
                0 <= i < old(self).obstacles@.len() ==> moved_obstacle(
                    #[trigger] old(self).obstacles@[i],
                    final(self).obstacles@[i],
                    velocity,
                ),
            final(self).boy == spec_sweep_boy(old(self).obstacles@, velocity, old(self).boy),
            final(self).boy.sprite_sheet == old(self).boy.sprite_sheet,
            final(self).backgrounds == old(self).backgrounds,
            final(self).obstacle_sheet == old(self).obstacle_sheet,
            final(self).stone_width == old(self).stone_width,
            final(self).stone_height == old(self).stone_height,
            final(self).timeline == old(self).timeline,
    {
        let ghost orig = self.obstacles@;
        let ghost boy0 = self.boy;
        let mut done: Vec<Obstacle> = Vec::new();
        let ghost processed: int = 0;
        while self.obstacles.len() > 0
            invariant
                0 <= processed <= orig.len(),
                self.obstacles@ =~= orig.skip(processed),
                forall|i: int|
                    0 <= i < orig.len() ==> world_obstacle_ok(#[trigger] orig[i])
                        && orig[i].spec_right() > 0,
                -4 <= velocity <= 0,
                self.backgrounds == old(self).backgrounds,
                self.obstacle_sheet == old(self).obstacle_sheet,
                self.stone_width == old(self).stone_width,
                self.stone_height == old(self).stone_height,
                self.timeline == old(self).timeline,
                old(self).wf(),
                boy0 == old(self).boy,
                done@.len() == processed,
                forall|i: int|
                    0 <= i < processed ==> moved_obstacle(
                        #[trigger] orig[i],
                        done@[i],
                        velocity,
                    ),
                forall|i: int| 0 <= i < processed ==> world_obstacle_ok(#[trigger] done@[i]),
                spec_sweep_boy(orig, velocity, boy0) == spec_sweep_boy(
                    orig.skip(processed),
                    velocity,
                    self.boy,
                ),
                self.boy.wf(),
                self.boy.sprite_sheet == boy0.sprite_sheet,
            decreases self.obstacles@.len(),
        {
            proof {
                assert(orig.skip(processed)[0] == orig[processed]);
            }
            let mut o = self.obstacles.remove(0);
            assert(o == orig[processed]);
            proof {
                assert(self.obstacles@ =~= orig.skip(processed + 1));
            }
            o.move_horizontally(velocity);
            proof {
                lemma_moved_obstacle_ok(orig[processed], o, velocity);
            }
            o.check_intersection(&mut self.boy);
            proof {
                lemma_collide_after_move(
                    orig[processed],
                    o,
                    velocity,
                    spec_sweep_boy(orig, velocity, boy0),
                );
            }
            done.push(o);
            proof {
                processed = processed + 1;
            }
        }
        self.obstacles = done;
    }

    /// One scroll step of the background tiles.
    pub fn scroll_backgrounds(&mut self, velocity: i16)
        requires
            old(self).wf(),
            -4 <= velocity <= 0,
        ensures
            (final(self).backgrounds.0, final(self).backgrounds.1) == spec_scroll_backgrounds(
                old(self).backgrounds.0,
                old(self).backgrounds.1,
                velocity,
            ),
            final(self).wf(),
            final(self).boy == old(self).boy,
            final(self).obstacles == old(self).obstacles,
            final(self).obstacle_sheet == old(self).obstacle_sheet,
            final(self).stone_width == old(self).stone_width,
            final(self).stone_height == old(self).stone_height,
            final(self).timeline == old(self).timeline,
    {
        self.backgrounds.0.move_horizontally(velocity);
        self.backgrounds.1.move_horizontally(velocity);
        if self.backgrounds.0.right() < 0 {
            let x = self.backgrounds.1.right();
            self.backgrounds.0.set_x(x);
        }
        if self.backgrounds.1.right() < 0 {
            let x = self.backgrounds.0.right();
            self.backgrounds.1.set_x(x);
        }
    }
}

/// Both obstacles of a freshly built segment are fit for the world's list.
pub proof fn lemma_segment_obstacles_ok(
    obs: Seq<Obstacle>,
    offset_x: i16,
    platform_y: i16,
    sheet: Sheet,
    stone_w: i16,
    stone_h: i16,
)
    requires
        is_segment(obs, offset_x, platform_y, sheet, stone_w, stone_h),
        crate::segments::segment_inputs_ok(offset_x, stone_w, stone_h),
        0 <= platform_y <= 500,
    ensures
        forall|i: int| 0 <= i < obs.len() ==> world_obstacle_ok(#[trigger] obs[i]),
{
    let p = obs[1]->Platform_0;
    assert(p.bounding_boxes@.len() == 3);
    assert forall|i: int| 0 <= i < obs.len() implies world_obstacle_ok(#[trigger] obs[i]) by {
        if i == 1 {
            assert(p.bounding_boxes@.last() == p.bounding_boxes@[2]);
            assert(forall|j: int|
                0 <= j < 3 ==> rect_wf(#[trigger] p.bounding_boxes@[j]));
        }
    }
}

} // verus!
