//! Segment templates for the generator: each places one fatal stone and one
//! floating multi-cell platform at fixed offsets from the segment origin,
//! the platform either low or high.

use vstd::prelude::*;
use vstd::string::StringExecFns;

use crate::geometry::Point;
use crate::geometry::Rect;
use crate::obstacle::Barrier;
use crate::obstacle::Image;
use crate::obstacle::Obstacle;
use crate::obstacle::Platform;
use crate::sheet::Cell;
use crate::sheet::Sheet;
use crate::sheet::spec_lookup;

verus! {

/// Horizontal offset of the platform from the segment origin.
pub const FIRST_PLATFORM: i16 = 400;

/// Height of the low (easily jumpable) platform placement.
pub const LOW_PLATFORM: i16 = 420;

/// Height of the high platform placement.
pub const HIGH_PLATFORM: i16 = 375;

/// Horizontal offset of the stone from the segment origin.
pub const INITIAL_STONE_OFFSET: i16 = 150;

/// The stone's y-coordinate, resting on the ground.
pub const STONE_ON_GROUND: i16 = 546;

/// The platform strip's total width: its three bounding boxes end here.
pub const PLATFORM_SPAN: i16 = 384;

/// The floating platform's three disjoint bounding boxes, placed at
/// `position`: two low ends around a taller middle, leaving gaps to fall
/// through at neither end.
pub open spec fn spec_floating_boxes(position: Point) -> Seq<Rect> {
    seq![
        Rect { position: Point { x: position.x, y: position.y }, width: 60, height: 54 },
        Rect {
            position: Point { x: (position.x + 60) as i16, y: position.y },
            width: 264,
            height: 93,
        },
        Rect {
            position: Point { x: (position.x + 324) as i16, y: position.y },
            width: 60,
            height: 54,
        },
    ]
}

/// An option's contents as a zero- or one-element sequence.
pub open spec fn opt_seq(c: Option<Cell>) -> Seq<Cell> {
    match c {
        Option::None => Seq::empty(),
        Option::Some(cell) => seq![cell],
    }
}

/// The platform strip's sprite cells, as found in the sheet (missing names
/// are skipped).
pub open spec fn spec_platform_sprites(s: Sheet) -> Seq<Cell> {
    opt_seq(spec_lookup(s.frames@, "13.png"@)) + opt_seq(spec_lookup(s.frames@, "14.png"@))
        + opt_seq(spec_lookup(s.frames@, "15.png"@))
}

/// Where a segment's stone sits.
pub open spec fn spec_barrier_rect(offset_x: i16, stone_w: i16, stone_h: i16) -> Rect {
    Rect {
        position: Point { x: (offset_x + INITIAL_STONE_OFFSET) as i16, y: STONE_ON_GROUND },
        width: stone_w,
        height: stone_h,
    }
}

/// Where a segment's platform sits.
pub open spec fn spec_platform_position(offset_x: i16, platform_y: i16) -> Point {
    Point { x: (offset_x + FIRST_PLATFORM) as i16, y: platform_y }
}

/// An exact description of one generated segment: a stone barrier followed
/// by a floating platform at height `platform_y`.
pub open spec fn is_segment(
    obs: Seq<Obstacle>,
    offset_x: i16,
    platform_y: i16,
    sheet: Sheet,
    stone_w: i16,
    stone_h: i16,
) -> bool {
    &&& obs.len() == 2
    &&& obs[0] matches Obstacle::Barrier(b) && b.image.bounding_box == spec_barrier_rect(
        offset_x,
        stone_w,
        stone_h,
    )
    &&& obs[1] matches Obstacle::Platform(p) && p.position == spec_platform_position(
        offset_x,
        platform_y,
    ) && p.bounding_boxes@ == spec_floating_boxes(spec_platform_position(offset_x, platform_y))
        && p.sprites@ == spec_platform_sprites(sheet)
}

/// Bounds under which segment construction stays within `i16`.
pub open spec fn segment_inputs_ok(offset_x: i16, stone_w: i16, stone_h: i16) -> bool {
    &&& 0 <= offset_x <= 29000
    &&& 0 <= stone_w <= 600
    &&& 0 <= stone_h <= 600
}

/// Build the floating platform strip at `position`, with the sprite cells
/// found in the sheet.
fn create_floating_platform(position: Point, sprite_sheet: &Sheet) -> (r: Platform)
    requires
        0 <= position.x <= 29500,
        0 <= position.y <= 600,
    ensures
        r.position == position,
        r.bounding_boxes@ == spec_floating_boxes(position),
        r.sprites@ == spec_platform_sprites(*sprite_sheet),
{
    let mut relative: Vec<Rect> = Vec::new();
    relative.push(Rect::new_from_x_y(0, 0, 60, 54));
    relative.push(Rect::new_from_x_y(60, 0, 264, 93));
    relative.push(Rect::new_from_x_y(324, 0, 60, 54));
    let mut sprites: Vec<Cell> = Vec::new();
    let name13 = String::from_str("13.png");
    let name14 = String::from_str("14.png");
    let name15 = String::from_str("15.png");
    if let Some(cell) = sprite_sheet.cell(&name13) {
        sprites.push(cell);
    }
    if let Some(cell) = sprite_sheet.cell(&name14) {
        sprites.push(cell);
    }
    if let Some(cell) = sprite_sheet.cell(&name15) {
        sprites.push(cell);
    }
    proof {
        assert(sprites@ =~= spec_platform_sprites(*sprite_sheet));
    }
    let platform = Platform::new(&relative, position, sprites);
    proof {
        assert(platform.bounding_boxes@ =~= spec_floating_boxes(position));
    }
    platform
}

/// The "stone, then low platform" segment template.
pub fn stone_and_platform(
    offset_x: i16,
    sprite_sheet: &Sheet,
    stone_width: i16,
    stone_height: i16,
) -> (r: Vec<Obstacle>)
    requires
        segment_inputs_ok(offset_x, stone_width, stone_height),
    ensures
        is_segment(r@, offset_x, LOW_PLATFORM, *sprite_sheet, stone_width, stone_height),
{
    let mut obstacles: Vec<Obstacle> = Vec::new();
    obstacles.push(
        Obstacle::Barrier(
            Barrier::new(
                Image::new(
                    Point { x: offset_x + INITIAL_STONE_OFFSET, y: STONE_ON_GROUND },
                    stone_width,
                    stone_height,
                ),
            ),
        ),
    );
    obstacles.push(
        Obstacle::Platform(
            create_floating_platform(
                Point { x: offset_x + FIRST_PLATFORM, y: LOW_PLATFORM },
                sprite_sheet,
            ),
        ),
    );
    obstacles
}

/// The "high platform, then stone" segment template.
pub fn platform_and_stone(
    offset_x: i16,
    sprite_sheet: &Sheet,
    stone_width: i16,
    stone_height: i16,
) -> (r: Vec<Obstacle>)
    requires
        segment_inputs_ok(offset_x, stone_width, stone_height),
    ensures
        is_segment(r@, offset_x, HIGH_PLATFORM, *sprite_sheet, stone_width, stone_height),
{
    let mut obstacles: Vec<Obstacle> = Vec::new();
    obstacles.push(
        Obstacle::Barrier(
            Barrier::new(
                Image::new(
                    Point { x: offset_x + INITIAL_STONE_OFFSET, y: STONE_ON_GROUND },
                    stone_width,
                    stone_height,
                ),
            ),
        ),
    );
    obstacles.push(
        Obstacle::Platform(
            create_floating_platform(
                Point { x: offset_x + FIRST_PLATFORM, y: HIGH_PLATFORM },
                sprite_sheet,
            ),
        ),
    );
    obstacles
}

/// The rightmost edge over a list of obstacles (0 when the list is empty).
pub open spec fn spec_rightmost(obs: Seq<Obstacle>) -> int
    decreases obs.len()
{
    if obs.len() == 0 {
        0
    } else if obs.len() == 1 {
        obs[0].spec_right()
    } else {
        let prev = spec_rightmost(obs.drop_last());
        if obs.last().spec_right() > prev {
            obs.last().spec_right()
        } else {
            prev
        }
    }
}

pub fn rightmost(obstacle_list: &Vec<Obstacle>) -> (r: i16)
    requires
        forall|i: int| 0 <= i < obstacle_list@.len() ==> (#[trigger] obstacle_list@[i]).wf(),
    ensures
        r == spec_rightmost(obstacle_list@),
{
    let n = obstacle_list.len();
    if n == 0 {
        return 0;
    }
    let mut acc = obstacle_list[0].right();
    let mut i: usize = 1;
    assert(obstacle_list@.take(1).drop_last() =~= Seq::<Obstacle>::empty());
    assert(obstacle_list@.take(1).last() == obstacle_list@[0]);
    while i < n
        invariant
            1 <= i <= n,
            n == obstacle_list@.len(),
            forall|j: int| 0 <= j < n ==> (#[trigger] obstacle_list@[j]).wf(),
            acc == spec_rightmost(obstacle_list@.take(i as int)),
            i16::MIN <= acc <= i16::MAX,
        decreases n - i,
    {
        let r = obstacle_list[i].right();
        assert(obstacle_list@.take(i as int + 1).drop_last() =~= obstacle_list@.take(i as int));
        assert(obstacle_list@.take(i as int + 1).last() == obstacle_list@[i as int]);
        if r > acc {
            acc = r;
        }
        i = i + 1;
    }
    proof {
        assert(obstacle_list@.take(n as int) =~= obstacle_list@);
    }
    acc
}

/// Every segment reaches strictly past its origin: its rightmost edge is
/// the platform's far end.
pub proof fn lemma_segment_rightmost(
    obs: Seq<Obstacle>,
    offset_x: i16,
    platform_y: i16,
    sheet: Sheet,
    stone_w: i16,
    stone_h: i16,
)
    requires
        is_segment(obs, offset_x, platform_y, sheet, stone_w, stone_h),
        segment_inputs_ok(offset_x, stone_w, stone_h),
    ensures
        spec_rightmost(obs) == offset_x + FIRST_PLATFORM + PLATFORM_SPAN,
        spec_rightmost(obs) > offset_x,
{
    let p = obs[1]->Platform_0;
    assert(p.bounding_boxes@.len() == 3);
    assert(p.bounding_boxes@.last() == spec_floating_boxes(
        spec_platform_position(offset_x, platform_y),
    )[2]);
    assert(obs[1].spec_right() == offset_x + FIRST_PLATFORM + PLATFORM_SPAN);
    assert(obs[0].spec_right() == offset_x + INITIAL_STONE_OFFSET + stone_w);
    assert(obs.last() == obs[1]);
    assert(obs.drop_last() =~= seq![obs[0]]);
    assert(spec_rightmost(seq![obs[0]]) == obs[0].spec_right());
}

} // verus!
