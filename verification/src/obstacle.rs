//! World obstacles and their collision response.
//!
//! Two kinds exist: a solid barrier, fatal on any overlap, and a floating
//! platform backed by one or more disjoint bounding boxes, safe to land on
//! when approached from above while descending and fatal otherwise. Only the
//! first bounding box (in list order) that overlaps the character is
//! considered per update.

use vstd::prelude::*;

use crate::boy::RedHatBoy;
use crate::character::Event;
use crate::character::spec_transition;
use crate::geometry::Point;
use crate::geometry::Rect;
use crate::sheet::Cell;

verus! {

/// Coordinate bounds that keep a world rectangle's arithmetic inside `i16`
/// while it scrolls.
pub open spec fn rect_wf(r: Rect) -> bool {
    &&& 0 <= r.width <= 2400
    &&& 0 <= r.height <= 600
    &&& -30000 <= r.position.x
    &&& r.spec_right() <= 30000
    &&& 0 <= r.position.y <= 600
    &&& r.spec_bottom() <= 2000
}

/// A rectangle shifted sideways.
pub open spec fn spec_shift_rect(r: Rect, x: i16) -> Rect {
    Rect { position: Point { x: (r.position.x + x) as i16, y: r.position.y }, ..r }
}

/// A world image, modeled by the box it occupies on screen.
pub struct Image {
    pub bounding_box: Rect,
}

impl Image {
    pub open spec fn wf(self) -> bool {
        rect_wf(self.bounding_box)
    }

    pub fn new(position: Point, width: i16, height: i16) -> (r: Image)
        ensures
            r.bounding_box == (Rect { position, width, height }),
    {
        Image { bounding_box: Rect::new(position, width, height) }
    }

    pub fn bounding_box(&self) -> (r: &Rect)
        ensures
            *r == self.bounding_box,
    {
        &self.bounding_box
    }

    pub fn right(&self) -> (r: i16)
        requires
            self.bounding_box.edges_in_bounds(),
        ensures
            r == self.bounding_box.spec_right(),
    {
        self.bounding_box.right()
    }

    pub fn move_horizontally(&mut self, distance: i16)
        requires
            i16::MIN <= old(self).bounding_box.position.x + distance <= i16::MAX,
        ensures
            final(self).bounding_box == spec_shift_rect(old(self).bounding_box, distance),
    {
        let x = self.bounding_box.x() + distance;
        self.set_x(x);
    }

    pub fn set_x(&mut self, x: i16)
        ensures
            final(self).bounding_box == (Rect {
                position: Point { x, y: old(self).bounding_box.position.y },
                ..old(self).bounding_box
            }),
    {
        self.bounding_box.set_x(x);
    }
}

/// A solid obstacle: any overlap with the character is fatal.
pub struct Barrier {
    pub image: Image,
}

impl Barrier {
    pub fn new(image: Image) -> (r: Barrier)
        ensures
            r.image.bounding_box == image.bounding_box,
    {
        Barrier { image }
    }
}

/// A floating platform: one visual strip backed by disjoint bounding boxes
/// (stored in absolute world coordinates).
pub struct Platform {
    pub bounding_boxes: Vec<Rect>,
    pub position: Point,
    pub sprites: Vec<Cell>,
}

impl Platform {
    pub open spec fn wf(self) -> bool {
        &&& forall|i: int|
            0 <= i < self.bounding_boxes@.len() ==> rect_wf(#[trigger] self.bounding_boxes@[i])
        &&& -30000 <= self.position.x <= 30000
        &&& 0 <= self.position.y <= 600
    }

    /// Build a platform at `position`: the given boxes are relative to the
    /// platform and are stored translated into world coordinates.
    pub fn new(bounding_boxes: &Vec<Rect>, position: Point, sprites: Vec<Cell>) -> (r: Platform)
        requires
            forall|i: int|
                0 <= i < bounding_boxes@.len() ==> (i16::MIN <= (
                #[trigger] bounding_boxes@[i]).position.x + position.x <= i16::MAX
                    && i16::MIN <= bounding_boxes@[i].position.y + position.y <= i16::MAX),
        ensures
            r.position == position,
            r.sprites == sprites,
            r.bounding_boxes@ == bounding_boxes@.map_values(
                |b: Rect|
                    Rect {
                        position: Point {
                            x: (b.position.x + position.x) as i16,
                            y: (b.position.y + position.y) as i16,
                        },
                        width: b.width,
                        height: b.height,
                    },
            ),
    {
        let mut translated: Vec<Rect> = Vec::new();
        let n = bounding_boxes.len();
        let mut i: usize = 0;
        while i < n
            invariant
                0 <= i <= n,
                n == bounding_boxes@.len(),
                translated@.len() == i,
                forall|j: int|
                    0 <= j < bounding_boxes@.len() ==> (i16::MIN <= (
                    #[trigger] bounding_boxes@[j]).position.x + position.x <= i16::MAX
                        && i16::MIN <= bounding_boxes@[j].position.y + position.y <= i16::MAX),
                forall|j: int|
                    0 <= j < i ==> #[trigger] translated@[j] == (Rect {
                        position: Point {
                            x: (bounding_boxes@[j].position.x + position.x) as i16,
                            y: (bounding_boxes@[j].position.y + position.y) as i16,
                        },
                        width: bounding_boxes@[j].width,
                        height: bounding_boxes@[j].height,
                    }),
            decreases n - i,
        {
            let b = &bounding_boxes[i];
            translated.push(
                Rect::new_from_x_y(b.x() + position.x, b.y() + position.y, b.width, b.height),
            );
            i = i + 1;
        }
        proof {
            assert(translated@ =~= bounding_boxes@.map_values(
                |b: Rect|
                    Rect {
                        position: Point {
                            x: (b.position.x + position.x) as i16,
                            y: (b.position.y + position.y) as i16,
                        },
                        width: b.width,
                        height: b.height,
                    },
            ));
        }
        Platform { bounding_boxes: translated, position, sprites }
    }

    pub fn bounding_boxes(&self) -> (r: &Vec<Rect>)
        ensures
            *r == self.bounding_boxes,
    {
        &self.bounding_boxes
    }
}

/// The first of the platform's boxes that the character's box overlaps.
pub open spec fn spec_first_hit(boxes: Seq<Rect>, bb: Rect) -> Option<Rect>
    decreases boxes.len()
{
    if boxes.len() == 0 {
        None
    } else if bb.spec_intersects(boxes[0]) {
        Some(boxes[0])
    } else {
        spec_first_hit(boxes.skip(1), bb)
    }
}

/// A polymorphic world obstacle.
pub enum Obstacle {
    Barrier(Barrier),
    Platform(Platform),
}

/// What one collision check does to the character.
pub open spec fn spec_collide(o: Obstacle, boy: RedHatBoy) -> RedHatBoy {
    match o {
        Obstacle::Barrier(b) => if boy.spec_bounding_box().spec_intersects(b.image.bounding_box) {
            RedHatBoy { state_machine: spec_transition(boy.state_machine, Event::KnockOut), ..boy }
        } else {
            boy
        },
        Obstacle::Platform(p) => match spec_first_hit(p.bounding_boxes@, boy.spec_bounding_box()) {
            Option::None => boy,
            Option::Some(hit) => if boy.state_machine.spec_context().velocity.y > 0
                && boy.state_machine.spec_context().position.y < p.position.y {
                RedHatBoy {
                    state_machine: spec_transition(boy.state_machine, Event::Land(hit.position.y)),
                    ..boy
                }
            } else {
                RedHatBoy {
                    state_machine: spec_transition(boy.state_machine, Event::KnockOut),
                    ..boy
                }
            },
        },
    }
}

/// `after` is `before` scrolled sideways by `x`: every box shifted, nothing
/// else changed.
pub open spec fn moved_obstacle(before: Obstacle, after: Obstacle, x: i16) -> bool {
    match (before, after) {
        (Obstacle::Barrier(b1), Obstacle::Barrier(b2)) => b2.image.bounding_box == spec_shift_rect(
            b1.image.bounding_box,
            x,
        ),
        (Obstacle::Platform(p1), Obstacle::Platform(p2)) => {
            &&& p2.position == (Point { x: (p1.position.x + x) as i16, y: p1.position.y })
            &&& p2.sprites == p1.sprites
            &&& p2.bounding_boxes@ == p1.bounding_boxes@.map_values(
                |r: Rect| spec_shift_rect(r, x),
            )
        },
        _ => false,
    }
}

/// Collision with `o` after it has scrolled by `x`, written over `o`'s
/// coordinates from before the move.
pub open spec fn spec_collide_shifted(o: Obstacle, x: i16, boy: RedHatBoy) -> RedHatBoy {
    match o {
        Obstacle::Barrier(b) => if boy.spec_bounding_box().spec_intersects(
            spec_shift_rect(b.image.bounding_box, x),
        ) {
            RedHatBoy { state_machine: spec_transition(boy.state_machine, Event::KnockOut), ..boy }
        } else {
            boy
        },
        Obstacle::Platform(p) => match spec_first_hit(
            p.bounding_boxes@.map_values(|r: Rect| spec_shift_rect(r, x)),
            boy.spec_bounding_box(),
        ) {
            Option::None => boy,
            Option::Some(hit) => if boy.state_machine.spec_context().velocity.y > 0
                && boy.state_machine.spec_context().position.y < p.position.y {
                RedHatBoy {
                    state_machine: spec_transition(boy.state_machine, Event::Land(hit.position.y)),
                    ..boy
                }
            } else {
                RedHatBoy {
                    state_machine: spec_transition(boy.state_machine, Event::KnockOut),
                    ..boy
                }
            },
        },
    }
}

/// A moved obstacle collides exactly as `spec_collide_shifted` says of its
/// unmoved self.
pub proof fn lemma_collide_after_move(before: Obstacle, after: Obstacle, x: i16, boy: RedHatBoy)
    requires
        moved_obstacle(before, after, x),
    ensures
        spec_collide(after, boy) == spec_collide_shifted(before, x, boy),
{
}

/// A barrier overlapping the character's box always fires the knock-out,
/// whatever the sign of the velocity.
pub proof fn lemma_barrier_always_fatal(b: Barrier, boy: RedHatBoy)
    requires
        boy.spec_bounding_box().spec_intersects(b.image.bounding_box),
    ensures
        spec_collide(Obstacle::Barrier(b), boy).state_machine == spec_transition(
            boy.state_machine,
            Event::KnockOut,
        ),
{
}

/// A platform overlapped on one of its boxes lands the character exactly
/// when it is descending and still above the platform's top, and knocks it
/// out otherwise; the landing surface is the first overlapped box.
pub proof fn lemma_platform_response(p: Platform, boy: RedHatBoy)
    requires
        spec_first_hit(p.bounding_boxes@, boy.spec_bounding_box()) is Some,
    ensures
        boy.state_machine.spec_context().velocity.y > 0
            && boy.state_machine.spec_context().position.y < p.position.y ==> spec_collide(
            Obstacle::Platform(p),
            boy,
        ).state_machine == spec_transition(
            boy.state_machine,
            Event::Land(
                spec_first_hit(p.bounding_boxes@, boy.spec_bounding_box())->Some_0.position.y,
            ),
        ),
        !(boy.state_machine.spec_context().velocity.y > 0
            && boy.state_machine.spec_context().position.y < p.position.y) ==> spec_collide(
            Obstacle::Platform(p),
            boy,
        ).state_machine == spec_transition(boy.state_machine, Event::KnockOut),
{
}

impl Obstacle {
    pub open spec fn wf(self) -> bool {
        match self {
            Obstacle::Barrier(b) => b.image.wf(),
            Obstacle::Platform(p) => p.wf(),
        }
    }

    /// The rightmost edge of the obstacle: a barrier's image, or a
    /// platform's last bounding box (0 when there is none).
    pub open spec fn spec_right(self) -> int {
        match self {
            Obstacle::Barrier(b) => b.image.bounding_box.spec_right(),
            Obstacle::Platform(p) => if p.bounding_boxes@.len() == 0 {
                0
            } else {
                p.bounding_boxes@.last().spec_right()
            },
        }
    }

    pub fn right(&self) -> (r: i16)
        requires
            self.wf(),
        ensures
            r == self.spec_right(),
    {
        match self {
            Obstacle::Barrier(b) => b.image.right(),
            Obstacle::Platform(p) => {
                let n = p.bounding_boxes.len();
                if n == 0 {
                    0
                } else {
                    p.bounding_boxes[n - 1].right()
                }
            },
        }
    }

    /// Scroll the obstacle sideways by `x`.
    pub fn move_horizontally(&mut self, x: i16)
        requires
            old(self).wf(),
            -1000 <= x <= 1000,
        ensures
            moved_obstacle(*old(self), *final(self), x),
    {
        match self {
            Obstacle::Barrier(b) => {
                b.image.move_horizontally(x);
            },
            Obstacle::Platform(p) => {
                p.position.x = p.position.x + x;
                let n = p.bounding_boxes.len();
                let mut shifted: Vec<Rect> = Vec::new();
                let mut i: usize = 0;
                while i < n
                    invariant
                        0 <= i <= n,
                        n == p.bounding_boxes@.len(),
                        -1000 <= x <= 1000,
                        shifted@.len() == i,
                        forall|j: int|
                            0 <= j < n ==> rect_wf(#[trigger] p.bounding_boxes@[j]),
                        forall|j: int|
                            0 <= j < i ==> #[trigger] shifted@[j] == spec_shift_rect(
                                p.bounding_boxes@[j],
                                x,
                            ),
                    decreases n - i,
                {
                    let b = &p.bounding_boxes[i];
                    shifted.push(Rect::new_from_x_y(b.x() + x, b.y(), b.width, b.height));
                    i = i + 1;
                }
                proof {
                    assert(shifted@ =~= p.bounding_boxes@.map_values(
                        |r: Rect| spec_shift_rect(r, x),
                    ));
                }
                p.bounding_boxes = shifted;
            },
        }
    }

    /// Collision response: a barrier knocks the character out on any
    /// overlap; a platform lands a descending character approaching from
    /// above on its first overlapped box and knocks it out otherwise.
    pub fn check_intersection(&self, boy: &mut RedHatBoy)
        requires
            old(boy).wf(),
            self.wf(),
        ensures
            *final(boy) == spec_collide(*self, *old(boy)),
            final(boy).wf(),
            final(boy).sprite_sheet == old(boy).sprite_sheet,
    {
        match self {
            Obstacle::Barrier(b) => {
                if boy.bounding_box().intersects(b.image.bounding_box()) {
                    boy.knock_out()
                }
            },
            Obstacle::Platform(p) => {
                let bb = boy.bounding_box();
                let n = p.bounding_boxes.len();
                let mut i: usize = 0;
                assert(p.bounding_boxes@.skip(0) =~= p.bounding_boxes@);
                while i < n
                    invariant
                        *self == Obstacle::Platform(*p),
                        0 <= i <= n,
                        n == p.bounding_boxes@.len(),
                        forall|j: int| 0 <= j < n ==> rect_wf(#[trigger] p.bounding_boxes@[j]),
                        -30000 <= p.position.x <= 30000,
                        0 <= p.position.y <= 600,
                        *boy == *old(boy),
                        old(boy).wf(),
                        bb == old(boy).spec_bounding_box(),
                        bb.edges_in_bounds(),
                        spec_first_hit(p.bounding_boxes@.skip(i as int), bb) == spec_first_hit(
                            p.bounding_boxes@,
                            bb,
                        ),
                    decreases n - i,
                {
                    assert(p.bounding_boxes@.skip(i as int)[0] == p.bounding_boxes@[i as int]);
                    if bb.intersects(&p.bounding_boxes[i]) {
                        if boy.velocity_y() > 0 && boy.pos_y() < p.position.y {
                            boy.land_on(p.bounding_boxes[i].y());
                        } else {
                            boy.knock_out();
                        }
                        return ;
                    }
                    assert(p.bounding_boxes@.skip(i as int).skip(1) =~= p.bounding_boxes@.skip(
                        i as int + 1,
                    ));
                    i = i + 1;
                }
            },
        }
    }
}

} // verus!
