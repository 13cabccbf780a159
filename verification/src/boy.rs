//! The playable character: the state machine paired with its sprite sheet.
//!
//! The sheet determines the character's on-screen boxes: the displayed
//! sprite is named `"{state} ({frame/3 + 1}).png"` — each animation cell is
//! held for three logical updates — and the sprite's trim offsets and size
//! give the destination box, which shrinks by fixed margins into the
//! collision bounding box.

use vstd::prelude::*;
use vstd::string::StringExecFns;

use crate::character::Event;
use crate::character::RedHatBoyStateMachine;
use crate::character::spec_transition;
use crate::character::HEIGHT;
use crate::character::event_in_bounds;
use crate::geometry::Point;
use crate::geometry::Rect;
use crate::sheet::Cell;
use crate::sheet::Sheet;
use crate::sheet::lemma_lookup_found;
use crate::sheet::spec_lookup;

verus! {

/// Horizontal inset from the destination box to the collision box.
pub const X_OFFSET: i16 = 18;

/// Vertical inset from the destination box to the collision box.
pub const Y_OFFSET: i16 = 14;

/// Width shrink from the destination box to the collision box.
pub const WIDTH_OFFSET: i16 = 28;

pub open spec fn spec_digit_char(d: int) -> char {
    if d == 0 {
        '0'
    } else if d == 1 {
        '1'
    } else if d == 2 {
        '2'
    } else if d == 3 {
        '3'
    } else if d == 4 {
        '4'
    } else if d == 5 {
        '5'
    } else if d == 6 {
        '6'
    } else if d == 7 {
        '7'
    } else if d == 8 {
        '8'
    } else {
        '9'
    }
}

/// The decimal digits of a frame index (two digits at most).
pub open spec fn spec_index_chars(n: int) -> Seq<char> {
    if n < 10 {
        seq![spec_digit_char(n)]
    } else {
        seq![spec_digit_char(n / 10), spec_digit_char(n % 10)]
    }
}

/// The sheet key of one animation cell: `"{label} ({index}).png"`.
pub open spec fn spec_animation_name(label: Seq<char>, index: int) -> Seq<char> {
    label + " ("@ + spec_index_chars(index) + ").png"@
}

/// Bounds on a cell that keep every box computation inside `i16` and the
/// collision box's extents non-negative.
pub open spec fn cell_wf(c: Cell) -> bool {
    &&& 0 <= c.sprite_source_size.x <= 600
    &&& 0 <= c.sprite_source_size.y <= 600
    &&& WIDTH_OFFSET <= c.frame.w <= 600
    &&& Y_OFFSET <= c.frame.h <= 600
}

pub open spec fn sheet_cells_wf(s: Sheet) -> bool {
    forall|i: int| 0 <= i < s.frames@.len() ==> cell_wf(#[trigger] s.frames@[i].1)
}

pub open spec fn sheet_has(s: Sheet, label: Seq<char>, index: int) -> bool {
    spec_lookup(s.frames@, spec_animation_name(label, index)) is Some
}

/// The sheet holds every animation cell the character can display: one cell
/// per three updates of each state's frame count.
pub open spec fn sheet_complete(s: Sheet) -> bool {
    &&& forall|i: int| 1 <= i <= 10 ==> #[trigger] sheet_has(s, "Idle"@, i)
    &&& forall|i: int| 1 <= i <= 8 ==> #[trigger] sheet_has(s, "Run"@, i)
    &&& forall|i: int| 1 <= i <= 5 ==> #[trigger] sheet_has(s, "Slide"@, i)
    &&& forall|i: int| 1 <= i <= 12 ==> #[trigger] sheet_has(s, "Jump"@, i)
    &&& forall|i: int| 1 <= i <= 10 ==> #[trigger] sheet_has(s, "Dead"@, i)
}

/// One decimal rendering of a frame index.
fn index_str(n: u8) -> (r: &'static str)
    requires
        1 <= n <= 12,
    ensures
        r@ == spec_index_chars(n as int),
{
    if n == 1 {
        proof {
            reveal_strlit("1");
            assert("1"@ =~= spec_index_chars(1));
        }
        "1"
    } else if n == 2 {
        proof {
            reveal_strlit("2");
            assert("2"@ =~= spec_index_chars(2));
        }
        "2"
    } else if n == 3 {
        proof {
            reveal_strlit("3");
            assert("3"@ =~= spec_index_chars(3));
        }
        "3"
    } else if n == 4 {
        proof {
            reveal_strlit("4");
            assert("4"@ =~= spec_index_chars(4));
        }
        "4"
    } else if n == 5 {
        proof {
            reveal_strlit("5");
            assert("5"@ =~= spec_index_chars(5));
        }
        "5"
    } else if n == 6 {
        proof {
            reveal_strlit("6");
            assert("6"@ =~= spec_index_chars(6));
        }
        "6"
    } else if n == 7 {
        proof {
            reveal_strlit("7");
            assert("7"@ =~= spec_index_chars(7));
        }
        "7"
    } else if n == 8 {
        proof {
            reveal_strlit("8");
            assert("8"@ =~= spec_index_chars(8));
        }
        "8"
    } else if n == 9 {
        proof {
            reveal_strlit("9");
            assert("9"@ =~= spec_index_chars(9));
        }
        "9"
    } else if n == 10 {
        proof {
            reveal_strlit("10");
            assert("10"@ =~= spec_index_chars(10));
        }
        "10"
    } else if n == 11 {
        proof {
            reveal_strlit("11");
            assert("11"@ =~= spec_index_chars(11));
        }
        "11"
    } else {
        proof {
            reveal_strlit("12");
            assert("12"@ =~= spec_index_chars(12));
        }
        "12"
    }
}

/// The playable character.
pub struct RedHatBoy {
    pub state_machine: RedHatBoyStateMachine,
    pub sprite_sheet: Sheet,
}

impl RedHatBoy {
    /// The index part of the current sprite name.
    pub open spec fn spec_frame_index(self) -> int {
        self.state_machine.spec_context().frame / 3 + 1
    }

    /// The current sprite's name in the sheet.
    pub open spec fn spec_frame_name(self) -> Seq<char> {
        spec_animation_name(self.state_machine.spec_frame_label(), self.spec_frame_index())
    }

    /// The sheet cell for the current sprite, if present.
    pub open spec fn spec_current_cell(self) -> Option<Cell> {
        spec_lookup(self.sprite_sheet.frames@, self.spec_frame_name())
    }

    /// Where the current sprite is drawn: the character's position displaced
    /// by the sprite's trim offset, with the sprite's size.
    pub open spec fn spec_destination_box(self) -> Rect {
        let c = self.spec_current_cell()->Some_0;
        let ctx = self.state_machine.spec_context();
        Rect {
            position: Point {
                x: (ctx.position.x + c.sprite_source_size.x) as i16,
                y: (ctx.position.y + c.sprite_source_size.y) as i16,
            },
            width: c.frame.w,
            height: c.frame.h,
        }
    }

    /// The collision box: the destination box shrunk by the fixed margins.
    pub open spec fn spec_bounding_box(self) -> Rect {
        let d = self.spec_destination_box();
        Rect {
            position: Point {
                x: (d.position.x + X_OFFSET) as i16,
                y: (d.position.y + Y_OFFSET) as i16,
            },
            width: (d.width - WIDTH_OFFSET) as i16,
            height: (d.height - Y_OFFSET) as i16,
        }
    }

    pub open spec fn wf(self) -> bool {
        &&& self.state_machine.wf()
        &&& -2000 <= self.state_machine.spec_context().position.x <= 2000
        &&& sheet_cells_wf(self.sprite_sheet)
        &&& sheet_complete(self.sprite_sheet)
    }

    /// A fresh character: idle at the starting position, with the sheet.
    pub fn new(sheet: Sheet) -> (r: RedHatBoy)
        ensures
            r.state_machine == RedHatBoyStateMachine::initial_state(),
            r.sprite_sheet == sheet,
    {
        RedHatBoy { state_machine: RedHatBoyStateMachine::new(), sprite_sheet: sheet }
    }

    /// A fresh character reusing an existing character's sheet.
    pub fn reset(boy: RedHatBoy) -> (r: RedHatBoy)
        ensures
            r.state_machine == RedHatBoyStateMachine::initial_state(),
            r.sprite_sheet == boy.sprite_sheet,
    {
        RedHatBoy::new(boy.sprite_sheet)
    }

    pub fn frame_name(&self) -> (r: String)
        requires
            self.state_machine.wf(),
        ensures
            r@ == self.spec_frame_name(),
    {
        let label = self.state_machine.frame_name();
        let index: u8 = self.state_machine.context().frame / 3 + 1;
        let mut name = String::from_str(label);
        name.append(" (");
        name.append(index_str(index));
        name.append(").png");
        proof {
            assert(name@ =~= self.spec_frame_name());
        }
        name
    }

    pub fn current_sprite(&self) -> (r: Option<Cell>)
        requires
            self.state_machine.wf(),
        ensures
            r == self.spec_current_cell(),
    {
        let name = self.frame_name();
        self.sprite_sheet.cell(&name)
    }

    pub fn destination_box(&self) -> (r: Rect)
        requires
            self.wf(),
        ensures
            r == self.spec_destination_box(),
    {
        proof {
            lemma_current_sprite_present(*self);
        }
        let sprite = self.current_sprite().unwrap();
        let ctx = self.state_machine.context();
        Rect {
            position: Point {
                x: ctx.position.x + sprite.sprite_source_size.x,
                y: ctx.position.y + sprite.sprite_source_size.y,
            },
            width: sprite.frame.w,
            height: sprite.frame.h,
        }
    }

    pub fn bounding_box(&self) -> (r: Rect)
        requires
            self.wf(),
        ensures
            r == self.spec_bounding_box(),
            r.edges_in_bounds(),
            r.width >= 0,
            r.height >= 0,
    {
        proof {
            lemma_current_sprite_present(*self);
        }
        let mut bounding_box = self.destination_box();
        bounding_box.position.x = bounding_box.position.x + X_OFFSET;
        bounding_box.width = bounding_box.width - WIDTH_OFFSET;
        bounding_box.position.y = bounding_box.position.y + Y_OFFSET;
        bounding_box.height = bounding_box.height - Y_OFFSET;
        bounding_box
    }

    pub fn pos_y(&self) -> (r: i16)
        ensures
            r == self.state_machine.spec_context().position.y,
    {
        self.state_machine.context().position.y
    }

    pub fn velocity_y(&self) -> (r: i16)
        ensures
            r == self.state_machine.spec_context().velocity.y,
    {
        self.state_machine.context().velocity.y
    }

    pub fn walking_speed(&self) -> (r: i16)
        ensures
            r == self.state_machine.spec_context().velocity.x,
    {
        self.state_machine.context().velocity.x
    }

    pub fn knocked_out(&self) -> (r: bool)
        ensures
            r == (self.state_machine is KnockedOut),
    {
        self.state_machine.knocked_out()
    }

    fn fire(&mut self, event: Event)
        requires
            old(self).wf(),
            event_in_bounds(event),
        ensures
            final(self).state_machine == spec_transition(old(self).state_machine, event),
            final(self).sprite_sheet == old(self).sprite_sheet,
            final(self).wf(),
    {
        proof {
            crate::character::lemma_transition_keeps_x(self.state_machine, event);
        }
        self.state_machine = self.state_machine.transition(event);
    }

    pub fn run_right(&mut self)
        requires
            old(self).wf(),
        ensures
            final(self).state_machine == spec_transition(old(self).state_machine, Event::Run),
            final(self).sprite_sheet == old(self).sprite_sheet,
            final(self).wf(),
    {
        self.fire(Event::Run)
    }

    pub fn jump(&mut self)
        requires
            old(self).wf(),
        ensures
            final(self).state_machine == spec_transition(old(self).state_machine, Event::Jump),
            final(self).sprite_sheet == old(self).sprite_sheet,
            final(self).wf(),
    {
        self.fire(Event::Jump)
    }

    pub fn slide(&mut self)
        requires
            old(self).wf(),
        ensures
            final(self).state_machine == spec_transition(old(self).state_machine, Event::Slide),
            final(self).sprite_sheet == old(self).sprite_sheet,
            final(self).wf(),
    {
        self.fire(Event::Slide)
    }

    pub fn knock_out(&mut self)
        requires
            old(self).wf(),
        ensures
            final(self).state_machine == spec_transition(old(self).state_machine, Event::KnockOut),
            final(self).sprite_sheet == old(self).sprite_sheet,
            final(self).wf(),
    {
        self.fire(Event::KnockOut)
    }

    pub fn land_on(&mut self, position: i16)
        requires
            old(self).wf(),
            0 <= position <= HEIGHT,
        ensures
            final(self).state_machine == spec_transition(
                old(self).state_machine,
                Event::Land(position),
            ),
            final(self).sprite_sheet == old(self).sprite_sheet,
            final(self).wf(),
    {
        self.fire(Event::Land(position))
    }

    pub fn update(&mut self)
        requires
            old(self).wf(),
        ensures
            final(self).state_machine == spec_transition(old(self).state_machine, Event::Update),
            final(self).sprite_sheet == old(self).sprite_sheet,
            final(self).wf(),
    {
        self.fire(Event::Update)
    }
}

/// A well-formed character always finds its current sprite in the sheet,
/// and the cell found is within bounds.
pub proof fn lemma_current_sprite_present(boy: RedHatBoy)
    requires
        boy.wf(),
    ensures
        boy.spec_current_cell() is Some,
        cell_wf(boy.spec_current_cell()->Some_0),
{
    let idx = boy.spec_frame_index();
    let s = boy.sprite_sheet;
    match boy.state_machine {
        RedHatBoyStateMachine::Idle(c) => {
            assert(1 <= idx <= 10);
            assert(sheet_has(s, "Idle"@, idx));
        },
        RedHatBoyStateMachine::Running(c) => {
            assert(1 <= idx <= 8);
            assert(sheet_has(s, "Run"@, idx));
        },
        RedHatBoyStateMachine::Sliding(c) => {
            assert(1 <= idx <= 5);
            assert(sheet_has(s, "Slide"@, idx));
        },
        RedHatBoyStateMachine::Jumping(c) => {
            assert(1 <= idx <= 12);
            assert(sheet_has(s, "Jump"@, idx));
        },
        RedHatBoyStateMachine::Falling(c) => {
            assert(1 <= idx <= 10);
            assert(sheet_has(s, "Dead"@, idx));
        },
        RedHatBoyStateMachine::KnockedOut(c) => {
            assert(1 <= idx <= 10);
            assert(sheet_has(s, "Dead"@, idx));
        },
    }
    lemma_lookup_found(s.frames@, boy.spec_frame_name());
}

} // verus!
