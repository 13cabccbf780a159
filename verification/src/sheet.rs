//! Sprite-sheet data: named cells mapping an animation frame name to a
//! source rectangle and a placement offset.
//!
//! The descriptor arrives from the host as plain values; the library only
//! looks names up in it. Lookup returns the first entry carrying the name.

use vstd::prelude::*;

verus! {

/// A rectangle inside a sprite-sheet image.
#[derive(Clone, Copy, PartialEq, Eq, Structural, Debug)]
pub struct SheetRect {
    pub x: i16,
    pub y: i16,
    pub w: i16,
    pub h: i16,
}

/// One named sprite cell: where its pixels sit in the sheet image (`frame`)
/// and how the trimmed sprite is offset inside its nominal box
/// (`sprite_source_size`).
#[derive(Clone, Copy, PartialEq, Eq, Structural, Debug)]
pub struct Cell {
    pub frame: SheetRect,
    pub sprite_source_size: SheetRect,
}

/// The sprite-sheet descriptor: named cells, keyed by frame name.
pub struct Sheet {
    pub frames: Vec<(String, Cell)>,
}

/// The first cell stored under `name`, if any.
pub open spec fn spec_lookup(frames: Seq<(String, Cell)>, name: Seq<char>) -> Option<Cell>
    decreases frames.len()
{
    if frames.len() == 0 {
        None
    } else if frames[0].0@ == name {
        Some(frames[0].1)
    } else {
        spec_lookup(frames.skip(1), name)
    }
}

/// A found cell comes from somewhere in the list.
pub proof fn lemma_lookup_found(frames: Seq<(String, Cell)>, name: Seq<char>)
    requires
        spec_lookup(frames, name) is Some,
    ensures
        exists|i: int|
            0 <= i < frames.len() && frames[i].1 == spec_lookup(frames, name)->Some_0,
    decreases frames.len()
{
    if frames.len() > 0 && frames[0].0@ != name {
        lemma_lookup_found(frames.skip(1), name);
        let i = choose|i: int|
            0 <= i < frames.skip(1).len() && frames.skip(1)[i].1 == spec_lookup(
                frames.skip(1),
                name,
            )->Some_0;
        assert(frames[i + 1].1 == spec_lookup(frames, name)->Some_0);
    }
}

impl Sheet {
    /// Find the first cell stored under `name`.
    pub fn cell(&self, name: &String) -> (r: Option<Cell>)
        ensures
            r == spec_lookup(self.frames@, name@),
    {
        let n = self.frames.len();
        let mut i: usize = 0;
        assert(self.frames@.skip(0) =~= self.frames@);
        while i < n
            invariant
                0 <= i <= n,
                n == self.frames@.len(),
                spec_lookup(self.frames@.skip(i as int), name@) == spec_lookup(
                    self.frames@,
                    name@,
                ),
            decreases n - i,
        {
            assert(self.frames@.skip(i as int)[0] == self.frames@[i as int]);
            if self.frames[i].0 == *name {
                return Some(self.frames[i].1);
            }
            assert(self.frames@.skip(i as int).skip(1) =~= self.frames@.skip(i as int + 1));
            i = i + 1;
        }
        None
    }
}

} // verus!
