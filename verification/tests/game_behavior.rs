//! Behavioral tests for the platformer core: geometry, the character state
//! machine, collision, segment generation, the session machine, and the
//! fixed-timestep accumulator.

use walk_the_dog::boy::RedHatBoy;
use walk_the_dog::character::Event;
use walk_the_dog::character::RedHatBoyContext;
use walk_the_dog::character::RedHatBoyStateMachine;
use walk_the_dog::game::KeyState;
use walk_the_dog::game::WalkTheDog;
use walk_the_dog::game::WalkTheDogStateMachine;
use walk_the_dog::geometry::Point;
use walk_the_dog::geometry::Rect;
use walk_the_dog::obstacle::Barrier;
use walk_the_dog::obstacle::Image;
use walk_the_dog::obstacle::Obstacle;
use walk_the_dog::obstacle::Platform;
use walk_the_dog::segments::rightmost;
use walk_the_dog::segments::stone_and_platform;
use walk_the_dog::sheet::Cell;
use walk_the_dog::sheet::Sheet;
use walk_the_dog::sheet::SheetRect;
use walk_the_dog::timer::GameLoop;
use walk_the_dog::world::Walk;

const FLOOR: i16 = 479;
const HEIGHT: i16 = 600;
const PLAYER_HEIGHT: i16 = HEIGHT - FLOOR;
const RUNNING_SPEED: i16 = 4;
const TERMINAL_VELOCITY: i16 = 20;
const SLIDING_FRAMES: u8 = 14;

fn plain_cell() -> Cell {
    Cell {
        frame: SheetRect { x: 0, y: 0, w: 100, h: 100 },
        sprite_source_size: SheetRect { x: 0, y: 0, w: 100, h: 100 },
    }
}

fn full_sheet() -> Sheet {
    let mut frames: Vec<(String, Cell)> = Vec::new();
    let plans: [(&str, u8); 5] =
        [("Idle", 10), ("Run", 8), ("Slide", 5), ("Jump", 12), ("Dead", 10)];
    for (label, count) in plans {
        for i in 1..=count {
            frames.push((format!("{} ({}).png", label, i), plain_cell()));
        }
    }
    Sheet { frames }
}

fn fresh_boy() -> RedHatBoy {
    RedHatBoy::new(full_sheet())
}

fn boy_in(machine: RedHatBoyStateMachine) -> RedHatBoy {
    RedHatBoy { state_machine: machine, sprite_sheet: full_sheet() }
}

fn backgrounds() -> (Image, Image) {
    (
        Image::new(Point { x: 0, y: 0 }, 600, 600),
        Image::new(Point { x: 600, y: 0 }, 600, 600),
    )
}

fn fresh_walk() -> Walk {
    Walk::new(fresh_boy(), backgrounds(), full_sheet(), 90, 54)
}

fn running_boy_machine() -> RedHatBoyStateMachine {
    RedHatBoyStateMachine::new().transition(Event::Run)
}

// ---------------------------------------------------------------- geometry

#[test]
fn rect_edges_and_accessors() {
    let mut r = Rect::new_from_x_y(10, 20, 30, 40);
    assert_eq!(r.x(), 10);
    assert_eq!(r.y(), 20);
    assert_eq!(r.right(), 40);
    assert_eq!(r.bottom(), 60);
    r.set_x(-5);
    assert_eq!(r.x(), -5);
    assert_eq!(r.right(), 25);
    let s = Rect::new(Point { x: 1, y: 2 }, 3, 4);
    assert_eq!(s.position.x, 1);
    assert_eq!(s.height, 4);
}

#[test]
fn rect_intersection_overlap_and_touching() {
    let a = Rect::new_from_x_y(0, 0, 10, 10);
    let b = Rect::new_from_x_y(5, 5, 10, 10);
    let touching = Rect::new_from_x_y(10, 0, 10, 10);
    let apart = Rect::new_from_x_y(100, 100, 5, 5);
    assert!(a.intersects(&b));
    assert!(b.intersects(&a));
    assert!(!a.intersects(&touching));
    assert!(!a.intersects(&apart));
}

// ------------------------------------------------------------ sprite sheet

#[test]
fn sheet_lookup_finds_first_and_misses_absent() {
    let sheet = full_sheet();
    assert!(sheet.cell(&String::from("Idle (1).png")).is_some());
    assert!(sheet.cell(&String::from("Jump (12).png")).is_some());
    assert!(sheet.cell(&String::from("Idle (11).png")).is_none());
    assert!(sheet.cell(&String::from("Missing")).is_none());
}

#[test]
fn frame_name_tracks_state_and_frame() {
    let mut boy = fresh_boy();
    assert_eq!(boy.frame_name(), "Idle (1).png");
    boy.update();
    boy.update();
    boy.update();
    // three updates per animation cell
    assert_eq!(boy.frame_name(), "Idle (2).png");
    boy.run_right();
    assert_eq!(boy.frame_name(), "Run (1).png");
}

// --------------------------------------------- character state machine laws

#[test]
fn unhandled_events_are_self_loops() {
    let idle = RedHatBoyStateMachine::new();
    assert_eq!(idle.transition(Event::Slide), idle);
    assert_eq!(idle.transition(Event::Jump), idle);
    assert_eq!(idle.transition(Event::KnockOut), idle);
    assert_eq!(idle.transition(Event::Land(400)), idle);
    let running = running_boy_machine();
    assert_eq!(running.transition(Event::Run), running);
    let knocked = RedHatBoyStateMachine::KnockedOut(*running.context());
    assert_eq!(knocked.transition(Event::Run), knocked);
    assert_eq!(knocked.transition(Event::Jump), knocked);
    assert_eq!(knocked.transition(Event::Land(400)), knocked);
}

#[test]
fn velocity_never_exceeds_terminal() {
    let mut m = running_boy_machine().transition(Event::Jump);
    for _ in 0..200 {
        m = m.update();
        assert!(m.context().velocity.y <= TERMINAL_VELOCITY);
    }
}

#[test]
fn run_then_updates_keeps_running_speed() {
    let mut m = RedHatBoyStateMachine::new().transition(Event::Run);
    for _ in 0..50 {
        assert!(matches!(m, RedHatBoyStateMachine::Running(_)));
        assert_eq!(m.context().velocity.x, RUNNING_SPEED);
        m = m.update();
    }
    // a second Run while Running is absorbed: speed does not stack
    m = m.transition(Event::Run);
    assert_eq!(m.context().velocity.x, RUNNING_SPEED);
}

#[test]
fn jump_lands_exactly_on_the_floor() {
    let mut m = running_boy_machine().transition(Event::Jump);
    assert!(matches!(m, RedHatBoyStateMachine::Jumping(_)));
    let mut steps = 0;
    while matches!(m, RedHatBoyStateMachine::Jumping(_)) {
        m = m.update();
        steps += 1;
        assert!(steps < 1000, "jump never landed");
    }
    assert!(matches!(m, RedHatBoyStateMachine::Running(_)));
    assert_eq!(m.context().position.y, HEIGHT - PLAYER_HEIGHT);
    assert_eq!(m.context().position.y, FLOOR);
}

#[test]
fn slide_stands_up_after_exactly_the_frame_count() {
    let mut m = running_boy_machine().transition(Event::Slide);
    for _ in 0..(SLIDING_FRAMES - 1) {
        m = m.update();
        assert!(matches!(m, RedHatBoyStateMachine::Sliding(_)));
    }
    m = m.update();
    assert!(matches!(m, RedHatBoyStateMachine::Running(_)));
}

#[test]
fn falling_completes_into_knocked_out_and_freezes() {
    let mut m = running_boy_machine().transition(Event::KnockOut);
    assert!(matches!(m, RedHatBoyStateMachine::Falling(_)));
    assert_eq!(m.context().velocity.x, 0);
    let mut steps = 0;
    while matches!(m, RedHatBoyStateMachine::Falling(_)) {
        m = m.update();
        steps += 1;
        assert!(steps < 1000, "fall never completed");
    }
    assert!(matches!(m, RedHatBoyStateMachine::KnockedOut(_)));
    let frozen = m.update();
    assert!(matches!(frozen, RedHatBoyStateMachine::KnockedOut(_)));
}

#[test]
fn idle_animation_loops() {
    let mut m = RedHatBoyStateMachine::new();
    for _ in 0..30 {
        m = m.update();
    }
    // 29 increments then a reset: back at frame 0
    assert_eq!(m.context().frame, 0);
}

// ----------------------------------------------------------------- collision

#[test]
fn barrier_overlap_knocks_out_regardless_of_velocity_sign() {
    // descending
    let mut boy = boy_in(running_boy_machine());
    let barrier = Obstacle::Barrier(Barrier::new(Image::new(
        Point { x: -10, y: 450 },
        200,
        150,
    )));
    barrier.check_intersection(&mut boy);
    assert!(matches!(boy.state_machine, RedHatBoyStateMachine::Falling(_)));
    // rising (negative vertical velocity)
    let rising = RedHatBoyStateMachine::Jumping(RedHatBoyContext {
        frame: 0,
        position: Point { x: -20, y: 400 },
        velocity: Point { x: 4, y: -10 },
    });
    let mut boy2 = boy_in(rising);
    let barrier2 = Obstacle::Barrier(Barrier::new(Image::new(
        Point { x: -10, y: 380 },
        200,
        150,
    )));
    barrier2.check_intersection(&mut boy2);
    assert!(matches!(boy2.state_machine, RedHatBoyStateMachine::Falling(_)));
    // no overlap: nothing happens
    let mut boy3 = boy_in(running_boy_machine());
    let far = Obstacle::Barrier(Barrier::new(Image::new(Point { x: 5000, y: 450 }, 50, 50)));
    far.check_intersection(&mut boy3);
    assert!(matches!(boy3.state_machine, RedHatBoyStateMachine::Running(_)));
}

#[test]
fn platform_lands_descending_boy_and_knocks_out_rising_boy() {
    let platform_box = Rect::new_from_x_y(0, 0, 200, 50);
    let make_platform = |y: i16| {
        Obstacle::Platform(Platform::new(
            &vec![platform_box],
            Point { x: -40, y },
            Vec::new(),
        ))
    };
    // descending from above the platform top
    let descending = RedHatBoyStateMachine::Jumping(RedHatBoyContext {
        frame: 0,
        position: Point { x: -20, y: 330 },
        velocity: Point { x: 4, y: 10 },
    });
    let mut boy = boy_in(descending);
    let platform = make_platform(400);
    platform.check_intersection(&mut boy);
    assert!(matches!(boy.state_machine, RedHatBoyStateMachine::Running(_)));
    assert_eq!(boy.pos_y(), 400 - PLAYER_HEIGHT);
    // rising into the same platform
    let rising = RedHatBoyStateMachine::Jumping(RedHatBoyContext {
        frame: 0,
        position: Point { x: -20, y: 330 },
        velocity: Point { x: 4, y: -10 },
    });
    let mut boy2 = boy_in(rising);
    let platform2 = make_platform(400);
    platform2.check_intersection(&mut boy2);
    assert!(matches!(boy2.state_machine, RedHatBoyStateMachine::Falling(_)));
    // already below the platform top while descending
    let below = RedHatBoyStateMachine::Jumping(RedHatBoyContext {
        frame: 0,
        position: Point { x: -20, y: 430 },
        velocity: Point { x: 4, y: 10 },
    });
    let mut boy3 = boy_in(below);
    let platform3 = make_platform(400);
    platform3.check_intersection(&mut boy3);
    assert!(matches!(boy3.state_machine, RedHatBoyStateMachine::Falling(_)));
}

#[test]
fn platform_translates_relative_boxes() {
    let p = Platform::new(
        &vec![Rect::new_from_x_y(0, 0, 60, 54), Rect::new_from_x_y(60, 0, 264, 93)],
        Point { x: 100, y: 400 },
        Vec::new(),
    );
    assert_eq!(p.bounding_boxes()[0].x(), 100);
    assert_eq!(p.bounding_boxes()[0].y(), 400);
    assert_eq!(p.bounding_boxes()[1].x(), 160);
    assert_eq!(p.bounding_boxes()[1].right(), 424);
}

// ------------------------------------------------------ segments and world

#[test]
fn starting_segment_layout_and_rightmost() {
    let sheet = full_sheet();
    let obstacles = stone_and_platform(0, &sheet, 90, 54);
    assert_eq!(obstacles.len(), 2);
    match &obstacles[0] {
        Obstacle::Barrier(b) => {
            assert_eq!(b.image.bounding_box.x(), 150);
            assert_eq!(b.image.bounding_box.y(), 546);
            assert_eq!(b.image.bounding_box.width, 90);
        },
        Obstacle::Platform(_) => panic!("first obstacle should be the stone"),
    }
    match &obstacles[1] {
        Obstacle::Platform(p) => {
            assert_eq!(p.position.x, 400);
            assert_eq!(p.position.y, 420);
            assert_eq!(p.bounding_boxes().len(), 3);
            assert_eq!(p.bounding_boxes()[2].right(), 784);
            // this sheet has no platform strip cells, so none were found
            assert_eq!(p.sprites.len(), 0);
        },
        Obstacle::Barrier(_) => panic!("second obstacle should be the platform"),
    }
    assert_eq!(rightmost(&obstacles), 784);
}

#[test]
fn platform_sprites_come_from_the_sheet() {
    let mut sheet = full_sheet();
    sheet.frames.push((String::from("13.png"), plain_cell()));
    sheet.frames.push((String::from("14.png"), plain_cell()));
    sheet.frames.push((String::from("15.png"), plain_cell()));
    let obstacles = stone_and_platform(0, &sheet, 90, 54);
    match &obstacles[1] {
        Obstacle::Platform(p) => assert_eq!(p.sprites.len(), 3),
        Obstacle::Barrier(_) => panic!("second obstacle should be the platform"),
    }
}

#[test]
fn generation_extends_past_buffer_and_keeps_existing_obstacles() {
    let mut walk = fresh_walk();
    assert_eq!(walk.timeline, 784);
    assert_eq!(walk.obstacles.len(), 2);
    let before_timeline = walk.timeline;
    walk.generate_next_segment();
    assert_eq!(walk.obstacles.len(), 4);
    assert_eq!(walk.timeline, before_timeline + 20 + 784);
    assert!(walk.timeline > before_timeline + 20);
    // append-only: the starting obstacles are untouched
    match &walk.obstacles[0] {
        Obstacle::Barrier(b) => assert_eq!(b.image.bounding_box.x(), 150),
        Obstacle::Platform(_) => panic!("starting stone moved"),
    }
    // the fresh segment sits past the old timeline plus the buffer, at one
    // of the two template heights
    match &walk.obstacles[3] {
        Obstacle::Platform(p) => {
            assert_eq!(p.position.x, before_timeline + 20 + 400);
            assert!(p.position.y == 420 || p.position.y == 375);
        },
        Obstacle::Barrier(_) => panic!("segment should end with its platform"),
    }
    match &walk.obstacles[2] {
        Obstacle::Barrier(b) => {
            assert_eq!(b.image.bounding_box.x(), before_timeline + 20 + 150);
        },
        Obstacle::Platform(_) => panic!("segment should start with its stone"),
    }
}

#[test]
fn rightmost_of_empty_list_is_zero() {
    let empty: Vec<Obstacle> = Vec::new();
    assert_eq!(rightmost(&empty), 0);
    let boxless = Obstacle::Platform(Platform::new(
        &Vec::new(),
        Point { x: 100, y: 400 },
        Vec::new(),
    ));
    assert_eq!(boxless.right(), 0);
}

#[test]
fn sheet_lookup_takes_the_first_of_equal_keys() {
    let first = Cell {
        frame: SheetRect { x: 1, y: 0, w: 100, h: 100 },
        sprite_source_size: SheetRect { x: 0, y: 0, w: 100, h: 100 },
    };
    let second = Cell {
        frame: SheetRect { x: 2, y: 0, w: 100, h: 100 },
        sprite_source_size: SheetRect { x: 0, y: 0, w: 100, h: 100 },
    };
    let sheet = Sheet {
        frames: vec![(String::from("twin"), first), (String::from("twin"), second)],
    };
    let found = sheet.cell(&String::from("twin")).expect("key should be found");
    assert_eq!(found.frame.x, 1);
}

#[test]
fn drop_offscreen_removes_scrolled_out_obstacles() {
    let mut walk = fresh_walk();
    walk.obstacles.insert(
        0,
        Obstacle::Barrier(Barrier::new(Image::new(Point { x: -100, y: 500 }, 50, 50))),
    );
    assert_eq!(walk.obstacles.len(), 3);
    walk.drop_offscreen();
    assert_eq!(walk.obstacles.len(), 2);
    match &walk.obstacles[0] {
        Obstacle::Barrier(b) => assert_eq!(b.image.bounding_box.x(), 150),
        Obstacle::Platform(_) => panic!("wrong obstacle dropped"),
    }
}

#[test]
fn scroll_and_collide_moves_obstacles() {
    let mut walk = fresh_walk();
    walk.boy.run_right();
    walk.scroll_and_collide(-4);
    match &walk.obstacles[0] {
        Obstacle::Barrier(b) => assert_eq!(b.image.bounding_box.x(), 146),
        Obstacle::Platform(_) => panic!("obstacle order changed"),
    }
    match &walk.obstacles[1] {
        Obstacle::Platform(p) => {
            assert_eq!(p.position.x, 396);
            assert_eq!(p.bounding_boxes()[0].x(), 396);
        },
        Obstacle::Barrier(_) => panic!("obstacle order changed"),
    }
}

#[test]
fn background_tiles_scroll_and_wrap() {
    let mut walk = fresh_walk();
    walk.scroll_backgrounds(-4);
    assert_eq!(walk.backgrounds.0.bounding_box.x(), -4);
    assert_eq!(walk.backgrounds.1.bounding_box.x(), 596);
    // push the first tile fully past the left edge: it wraps to the right
    // of its sibling
    walk.backgrounds.0.set_x(-599);
    walk.backgrounds.1.set_x(1);
    walk.scroll_backgrounds(-4);
    assert_eq!(walk.backgrounds.1.bounding_box.x(), -3);
    assert_eq!(walk.backgrounds.0.bounding_box.x(), 597);
}

// -------------------------------------------------------- session machine

#[test]
fn ready_starts_walking_on_right_arrow() {
    let machine = WalkTheDogStateMachine::new(fresh_walk());
    let idle_keys = KeyState { arrow_right: false, arrow_down: false, space: false };
    let machine = machine.update(&idle_keys, false);
    assert!(matches!(machine, WalkTheDogStateMachine::Ready(_)));
    let run_keys = KeyState { arrow_right: true, arrow_down: false, space: false };
    let machine = machine.update(&run_keys, false);
    match &machine {
        WalkTheDogStateMachine::Walking(w) => {
            assert_eq!(w.boy.walking_speed(), RUNNING_SPEED);
        },
        _ => panic!("right arrow should start the session"),
    }
}

#[test]
fn walking_scrolls_world_and_drifts_timeline() {
    let machine = WalkTheDogStateMachine::new(fresh_walk());
    let run_keys = KeyState { arrow_right: true, arrow_down: false, space: false };
    let mut machine = machine.update(&run_keys, false);
    let keys = KeyState { arrow_right: false, arrow_down: false, space: false };
    machine = machine.update(&keys, false);
    match &machine {
        WalkTheDogStateMachine::Walking(w) => {
            // timeline was under the minimum lookahead: a segment was generated
            assert_eq!(w.obstacles.len(), 4);
            assert_eq!(w.timeline, 784 + 20 + 784);
            assert_eq!(w.backgrounds.0.bounding_box.x(), -4);
        },
        _ => panic!("session should continue walking"),
    }
    machine = machine.update(&keys, false);
    match &machine {
        WalkTheDogStateMachine::Walking(w) => {
            // enough lookahead now: the timeline drifts with the world
            assert_eq!(w.obstacles.len(), 4);
            assert_eq!(w.timeline, 784 + 20 + 784 - 4);
        },
        _ => panic!("session should continue walking"),
    }
}

#[test]
fn game_over_waits_for_restart_and_rebuilds_the_world() {
    let mut walk = fresh_walk();
    walk.timeline = 2000;
    walk.boy.run_right();
    let machine = WalkTheDogStateMachine::GameOver(walk);
    let keys = KeyState { arrow_right: false, arrow_down: false, space: false };
    // without the one-shot signal nothing changes
    let machine = machine.update(&keys, false);
    assert!(matches!(machine, WalkTheDogStateMachine::GameOver(_)));
    // the restart rebuilds the world: fresh idle character at the starting
    // position, fresh starting segment
    let machine = machine.update(&keys, true);
    match &machine {
        WalkTheDogStateMachine::Ready(w) => {
            assert!(matches!(w.boy.state_machine, RedHatBoyStateMachine::Idle(_)));
            assert_eq!(w.boy.state_machine.context().position.x, -20);
            assert_eq!(w.boy.state_machine.context().position.y, FLOOR);
            assert_eq!(w.boy.state_machine.context().velocity.x, 0);
            assert_eq!(w.timeline, 784);
            assert_eq!(w.obstacles.len(), 2);
            match &w.obstacles[0] {
                Obstacle::Barrier(b) => {
                    assert_eq!(b.image.bounding_box.x(), 150);
                    assert_eq!(b.image.bounding_box.y(), 546);
                },
                Obstacle::Platform(_) => panic!("restart segment misordered"),
            }
            match &w.obstacles[1] {
                Obstacle::Platform(p) => {
                    assert_eq!(p.position.x, 400);
                    assert_eq!(p.position.y, 420);
                },
                Obstacle::Barrier(_) => panic!("restart segment misordered"),
            }
        },
        _ => panic!("restart should re-enter Ready"),
    }
}

#[test]
fn knockout_ends_the_session() {
    let mut walk = fresh_walk();
    walk.timeline = 2000;
    // a wall right on top of the character
    walk.obstacles.insert(
        0,
        Obstacle::Barrier(Barrier::new(Image::new(Point { x: -40, y: 0 }, 100, 600))),
    );
    let run_keys = KeyState { arrow_right: true, arrow_down: false, space: false };
    let mut machine = WalkTheDogStateMachine::new(walk).update(&run_keys, false);
    let keys = KeyState { arrow_right: false, arrow_down: false, space: false };
    // the collision starts the fall; the fall must complete before game over
    let mut steps = 0;
    while matches!(machine, WalkTheDogStateMachine::Walking(_)) {
        machine = machine.update(&keys, false);
        steps += 1;
        assert!(steps < 1000, "knock-out never ended the session");
    }
    assert!(matches!(machine, WalkTheDogStateMachine::GameOver(_)));
}

// ---------------------------------------------------------- fixed timestep

#[test]
fn three_point_four_frames_give_three_updates_and_the_residue() {
    let mut game = WalkTheDog::new();
    let keys = KeyState { arrow_right: false, arrow_down: false, space: false };
    let mut game_loop = GameLoop::new(0);
    // 3.4 logical frames of elapsed time, exactly representable
    let updates = game_loop.frame(3400, &mut game, &keys, false);
    assert_eq!(updates, 3);
    assert_eq!(game_loop.accumulated_delta, 400);
    assert_eq!(game_loop.last_frame, 3400);
}

#[test]
fn short_frames_accumulate_without_updates() {
    let mut game = WalkTheDog::new();
    let keys = KeyState { arrow_right: false, arrow_down: false, space: false };
    let mut game_loop = GameLoop::new(100);
    let updates = game_loop.frame(700, &mut game, &keys, false);
    assert_eq!(updates, 0);
    assert_eq!(game_loop.accumulated_delta, 600);
    let updates = game_loop.frame(1200, &mut game, &keys, false);
    // 600 + 500 = 1100: one update, 100 left over
    assert_eq!(updates, 1);
    assert_eq!(game_loop.accumulated_delta, 100);
}

#[test]
fn exactly_one_frame_of_time_runs_no_update() {
    let mut game = WalkTheDog::new();
    let keys = KeyState { arrow_right: false, arrow_down: false, space: false };
    let mut game_loop = GameLoop::new(0);
    // the drain condition is strict: exactly one frame's worth stays queued
    let updates = game_loop.frame(1000, &mut game, &keys, false);
    assert_eq!(updates, 0);
    assert_eq!(game_loop.accumulated_delta, 1000);
    let updates = game_loop.frame(1001, &mut game, &keys, false);
    assert_eq!(updates, 1);
    assert_eq!(game_loop.accumulated_delta, 1);
}

#[test]
fn loop_drives_the_session_machine() {
    let mut game = WalkTheDog::new();
    game.machine = Some(WalkTheDogStateMachine::new(fresh_walk()));
    let run_keys = KeyState { arrow_right: true, arrow_down: false, space: false };
    let mut game_loop = GameLoop::new(0);
    let updates = game_loop.frame(2500, &mut game, &run_keys, false);
    assert_eq!(updates, 2);
    assert!(matches!(game.machine, Some(WalkTheDogStateMachine::Walking(_))));
}
