//! Shelf packing of glyphs into the square glyph atlas.
//!
//! Glyphs are laid left to right along the current shelf (row); a glyph that
//! would cross the right edge starts a new shelf below the tallest glyph of
//! the current one. Each glyph reserves its padded cell plus a two-pixel gap
//! to its right and below.
use vstd::prelude::*;

verus! {

/// The side of the square glyph atlas, in pixels.
pub const ATLAS_SIZE: u32 = 1024;

/// The pen of the packer: where the next glyph would go on the current
/// shelf, and the height the shelf has reached (gap included).
#[derive(Clone, Copy, Debug, PartialEq, Eq, Structural)]
pub struct ShelfPacker {
    pub cursor_x: u32,
    pub cursor_y: u32,
    pub row_h: u32,
}

/// The packer's pen as mathematical integers.
pub struct PackState {
    pub x: int,
    pub y: int,
    pub row: int,
}

/// A cell reserved in the atlas: its top-left corner and its size.
pub struct Cell {
    pub x: int,
    pub y: int,
    pub w: int,
    pub h: int,
}

impl View for ShelfPacker {
    type V = PackState;

    open spec fn view(&self) -> PackState {
        PackState { x: self.cursor_x as int, y: self.cursor_y as int, row: self.row_h as int }
    }
}

/// The pen after starting a new shelf if a `w`-wide cell does not fit on the
/// current one.
pub open spec fn shelf_for(s: PackState, w: int) -> PackState {
    if s.x + w > ATLAS_SIZE {
        PackState { x: 0, y: s.y + s.row + 2, row: 0 }
    } else {
        s
    }
}

/// One placement of a `w` by `h` cell: the pen afterwards, and the cell
/// reserved, or `None` when the atlas has no room left below.
pub open spec fn place_step(s: PackState, w: int, h: int) -> (PackState, Option<Cell>) {
    let t = shelf_for(s, w);
    if t.y + h > ATLAS_SIZE {
        (t, None)
    } else {
        (
            PackState { x: t.x + w + 2, y: t.y, row: if t.row >= h + 2 { t.row } else { h + 2 } },
            Some(Cell { x: t.x, y: t.y, w, h }),
        )
    }
}

/// The additions that one placement performs all fit in a `u32`.
pub open spec fn place_fits(s: PackState, w: int, h: int) -> bool {
    let t = shelf_for(s, w);
    &&& s.x + w <= u32::MAX
    &&& s.x + w > ATLAS_SIZE ==> s.y + s.row + 2 <= u32::MAX
    &&& t.y + h <= u32::MAX
    &&& t.y + h <= ATLAS_SIZE ==> t.x + w + 2 <= u32::MAX
}

impl ShelfPacker {
    /// An empty atlas: the pen at the top-left corner.
    pub fn new() -> (p: Self)
        ensures
            p@ == (PackState { x: 0, y: 0, row: 0 }),
    {
        Self { cursor_x: 0, cursor_y: 0, row_h: 0 }
    }

    /// Reserves a `w` by `h` cell (glyph size plus one pixel of padding on
    /// each side) and returns where the glyph itself goes: one pixel inside
    /// the cell. `None` when the atlas is full; the pen may still have moved
    /// to a new shelf then.
    pub fn place(&mut self, w: u32, h: u32) -> (r: Option<(u32, u32)>)
        requires
            place_fits(old(self)@, w as int, h as int),
        ensures
            final(self)@ == place_step(old(self)@, w as int, h as int).0,
            match place_step(old(self)@, w as int, h as int).1 {
                Some(c) => r == Some(((c.x + 1) as u32, (c.y + 1) as u32)),
                None => r is None,
            },
            r is None <==> (if old(self).cursor_x + w > ATLAS_SIZE {
                old(self).cursor_y + old(self).row_h + 2 + h > ATLAS_SIZE
            } else {
                old(self).cursor_y + h > ATLAS_SIZE
            }),
            old(self).cursor_x + w <= ATLAS_SIZE && old(self).cursor_y + h <= ATLAS_SIZE
                ==> r == Some(((old(self).cursor_x + 1) as u32, (old(self).cursor_y + 1) as u32)),
            old(self).cursor_x + w > ATLAS_SIZE && old(self).cursor_y + old(self).row_h + 2 + h <= ATLAS_SIZE
                ==> r == Some((1u32, (old(self).cursor_y + old(self).row_h + 3) as u32)),
    {
        proof {
            lemma_place_step_behaviour(old(self)@, w as int, h as int);
        }
        if self.cursor_x + w > ATLAS_SIZE {
            self.cursor_x = 0;
            self.cursor_y = self.cursor_y + self.row_h + 2;
            self.row_h = 0;
        }
        if self.cursor_y + h > ATLAS_SIZE {
            return None;
        }
        let ox = self.cursor_x + 1;
        let oy = self.cursor_y + 1;
        self.cursor_x = self.cursor_x + w + 2;
        if h + 2 > self.row_h {
            self.row_h = h + 2;
        }
        Some((ox, oy))
    }
}

/// Law: a placement is refused only when the cell cannot fit below the pen:
/// on the current shelf when it fits across, otherwise on a new shelf that
/// starts two pixels below the tallest cell of the current one. A cell that
/// fits across goes exactly at the pen; one that does not goes at the left
/// edge of the new shelf. Afterwards the pen stands two pixels right of the
/// cell and the shelf is as tall as its tallest cell plus the gap.
pub proof fn lemma_place_step_behaviour(s: PackState, w: int, h: int)
    requires
        w >= 0,
        h >= 0,
    ensures
        place_step(s, w, h).1 is None <==> (if s.x + w > ATLAS_SIZE {
            s.y + s.row + 2 + h > ATLAS_SIZE
        } else {
            s.y + h > ATLAS_SIZE
        }),
        s.x + w <= ATLAS_SIZE && s.y + h <= ATLAS_SIZE ==> place_step(s, w, h).1 == Some(
            Cell { x: s.x, y: s.y, w, h },
        ),
        s.x + w <= ATLAS_SIZE && s.y + h <= ATLAS_SIZE ==> place_step(s, w, h).0 == (PackState {
            x: s.x + w + 2,
            y: s.y,
            row: if s.row >= h + 2 { s.row } else { h + 2 },
        }),
        s.x + w > ATLAS_SIZE && s.y + s.row + 2 + h <= ATLAS_SIZE ==> place_step(s, w, h).1 == Some(
            Cell { x: 0, y: s.y + s.row + 2, w, h },
        ),
        s.x + w > ATLAS_SIZE && s.y + s.row + 2 + h <= ATLAS_SIZE ==> place_step(s, w, h).0 == (PackState {
            x: w + 2,
            y: s.y + s.row + 2,
            row: h + 2,
        }),
        s.x + w <= ATLAS_SIZE && s.y + h > ATLAS_SIZE ==> place_step(s, w, h).0 == s,
        s.x + w > ATLAS_SIZE && s.y + s.row + 2 + h > ATLAS_SIZE ==> place_step(s, w, h).0 == (PackState {
            x: 0,
            y: s.y + s.row + 2,
            row: 0,
        }),
{
}

/// The pen and the cells of a run of placements, in request order.
pub open spec fn place_all(s: PackState, reqs: Seq<(u32, u32)>) -> (PackState, Seq<Option<Cell>>)
    decreases reqs.len(),
{
    if reqs.len() == 0 {
        (s, Seq::empty())
    } else {
        let (t, c) = place_step(s, reqs[0].0 as int, reqs[0].1 as int);
        let (f, cs) = place_all(t, reqs.drop_first());
        (f, seq![c] + cs)
    }
}

/// Two cells share no pixel.
pub open spec fn disjoint(a: Cell, b: Cell) -> bool {
    a.x + a.w <= b.x || b.x + b.w <= a.x || a.y + a.h <= b.y || b.y + b.h <= a.y
}

/// A cell lies within the atlas.
pub open spec fn inside_atlas(c: Cell) -> bool {
    0 <= c.x && c.x + c.w <= ATLAS_SIZE && 0 <= c.y && c.y + c.h <= ATLAS_SIZE
}

/// A cell already placed lies wholly above the current shelf, or on it and
/// left of the pen and within the shelf's height.
pub open spec fn behind_pen(s: PackState, c: Cell) -> bool {
    c.y + c.h <= s.y || (c.x + c.w <= s.x && c.y + c.h <= s.y + s.row)
}

proof fn lemma_step_keeps_behind(s: PackState, w: int, h: int, c: Cell)
    requires
        s.row >= 0,
        w >= 0,
        h >= 0,
        behind_pen(s, c),
    ensures
        behind_pen(place_step(s, w, h).0, c),
        place_step(s, w, h).0.row >= 0,
        place_step(s, w, h).1 matches Some(n) ==> disjoint(c, n),
{
}

proof fn lemma_step_new_behind(s: PackState, w: int, h: int)
    requires
        s.row >= 0,
        w >= 0,
        h >= 0,
    ensures
        place_step(s, w, h).1 matches Some(n) ==> behind_pen(place_step(s, w, h).0, n),
{
}

proof fn lemma_all_clear_of(s: PackState, reqs: Seq<(u32, u32)>, c: Cell)
    requires
        s.row >= 0,
        behind_pen(s, c),
    ensures
        forall|k: int| 0 <= k < place_all(s, reqs).1.len() && #[trigger] place_all(s, reqs).1[k] is Some
            ==> disjoint(c, place_all(s, reqs).1[k].unwrap()),
        place_all(s, reqs).1.len() == reqs.len(),
    decreases reqs.len(),
{
    if reqs.len() > 0 {
        let (t, n) = place_step(s, reqs[0].0 as int, reqs[0].1 as int);
        lemma_step_keeps_behind(s, reqs[0].0 as int, reqs[0].1 as int, c);
        lemma_all_clear_of(t, reqs.drop_first(), c);
        let cs = place_all(s, reqs).1;
        let rest = place_all(t, reqs.drop_first()).1;
        assert(cs == seq![n] + rest);
        assert forall|k: int| 0 <= k < cs.len() && #[trigger] cs[k] is Some implies disjoint(c, cs[k].unwrap()) by {
            if k > 0 {
                assert(cs[k] == rest[k - 1]);
            }
        }
    }
}

proof fn lemma_all_disjoint(s: PackState, reqs: Seq<(u32, u32)>)
    requires
        s.row >= 0,
    ensures
        place_all(s, reqs).1.len() == reqs.len(),
        forall|i: int, j: int|
            0 <= i < j < reqs.len() && #[trigger] place_all(s, reqs).1[i] is Some
                && #[trigger] place_all(s, reqs).1[j] is Some
                ==> disjoint(place_all(s, reqs).1[i].unwrap(), place_all(s, reqs).1[j].unwrap()),
    decreases reqs.len(),
{
    if reqs.len() > 0 {
        let (t, n) = place_step(s, reqs[0].0 as int, reqs[0].1 as int);
        lemma_all_disjoint(t, reqs.drop_first());
        let cs = place_all(s, reqs).1;
        let rest = place_all(t, reqs.drop_first()).1;
        assert(cs == seq![n] + rest);
        if n is Some {
            lemma_step_new_behind(s, reqs[0].0 as int, reqs[0].1 as int);
            lemma_all_clear_of(t, reqs.drop_first(), n.unwrap());
        }
        assert forall|i: int, j: int|
            0 <= i < j < reqs.len() && #[trigger] cs[i] is Some && #[trigger] cs[j] is Some
                implies disjoint(cs[i].unwrap(), cs[j].unwrap()) by {
            assert(cs[j] == rest[j - 1]);
            if i > 0 {
                assert(cs[i] == rest[i - 1]);
            }
        }
    }
}

proof fn lemma_all_inside(s: PackState, reqs: Seq<(u32, u32)>)
    requires
        s.row >= 0,
        s.y >= 0,
        s.x >= 0,
    ensures
        place_all(s, reqs).1.len() == reqs.len(),
        forall|i: int|
            0 <= i < reqs.len() && #[trigger] place_all(s, reqs).1[i] is Some && reqs[i].0 <= ATLAS_SIZE
                ==> inside_atlas(place_all(s, reqs).1[i].unwrap()),
    decreases reqs.len(),
{
    if reqs.len() > 0 {
        let (t, n) = place_step(s, reqs[0].0 as int, reqs[0].1 as int);
        lemma_all_inside(t, reqs.drop_first());
        let cs = place_all(s, reqs).1;
        let rest = place_all(t, reqs.drop_first()).1;
        assert(cs == seq![n] + rest);
        assert forall|i: int|
            0 <= i < reqs.len() && #[trigger] cs[i] is Some && reqs[i].0 <= ATLAS_SIZE
                implies inside_atlas(cs[i].unwrap()) by {
            if i > 0 {
                assert(cs[i] == rest[i - 1]);
                assert(reqs[i] == reqs.drop_first()[i - 1]);
            }
        }
    }
}

/// Law: starting from an empty atlas, the cells handed out by any run of
/// placements never overlap, and every cell no wider than the atlas lies
/// inside it.
pub proof fn lemma_packing_sound(reqs: Seq<(u32, u32)>)
    ensures
        place_all(PackState { x: 0, y: 0, row: 0 }, reqs).1.len() == reqs.len(),
        forall|i: int, j: int|
            0 <= i < j < reqs.len()
                && #[trigger] place_all(PackState { x: 0, y: 0, row: 0 }, reqs).1[i] is Some
                && #[trigger] place_all(PackState { x: 0, y: 0, row: 0 }, reqs).1[j] is Some
                ==> disjoint(
                place_all(PackState { x: 0, y: 0, row: 0 }, reqs).1[i].unwrap(),
                place_all(PackState { x: 0, y: 0, row: 0 }, reqs).1[j].unwrap(),
            ),
        forall|i: int|
            0 <= i < reqs.len()
                && #[trigger] place_all(PackState { x: 0, y: 0, row: 0 }, reqs).1[i] is Some
                && reqs[i].0 <= ATLAS_SIZE
                ==> inside_atlas(place_all(PackState { x: 0, y: 0, row: 0 }, reqs).1[i].unwrap()),
{
    lemma_all_disjoint(PackState { x: 0, y: 0, row: 0 }, reqs);
    lemma_all_inside(PackState { x: 0, y: 0, row: 0 }, reqs);
}

} // verus!
