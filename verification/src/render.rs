//! The renderer's geometry: which squares of the window are painted for a
//! display.
//!
//! A display is a row-major sequence of cells, lit or dark. Cell `i` lies in
//! column `i mod SCREEN_WIDTH` and row `i div SCREEN_WIDTH`, and is painted as
//! a square of `SCALE` window pixels a side. The squares are painted over a
//! window cleared to the background colour. Nothing is kept between frames:
//! the whole list of squares is made anew from each display.

use crate::config::{SCALE, SCREEN_CELLS, SCREEN_WIDTH, WINDOW_HEIGHT, WINDOW_WIDTH};
use crate::interpreter::frame_bytes;
use crate::machine::{cells, display};
use chip8_core::Chip8;
use vstd::prelude::*;

verus! {

/// A filled square of the window, in window pixels.
#[derive(Clone, Copy, Debug, PartialEq, Eq, Structural)]
pub struct Rect {
    /// Distance of the left edge from the left edge of the window.
    pub x: usize,
    /// Distance of the top edge from the top edge of the window.
    pub y: usize,
    /// Length of each side.
    pub side: usize,
}

/// The square that cell `i` of a display is painted as.
pub open spec fn cell_rect(i: int) -> Rect {
    Rect {
        x: ((i % SCREEN_WIDTH as int) * SCALE) as usize,
        y: ((i / SCREEN_WIDTH as int) * SCALE) as usize,
        side: SCALE,
    }
}

/// The squares painted for a display: one for each lit cell, in the order of
/// the cells.
pub open spec fn lit_rects(display: Seq<bool>) -> Seq<Rect>
    decreases display.len(),
{
    if display.len() == 0 {
        Seq::empty()
    } else if display.last() {
        lit_rects(display.drop_last()).push(cell_rect(display.len() - 1))
    } else {
        lit_rects(display.drop_last())
    }
}

/// The number of lit cells of a display.
pub open spec fn lit_count(display: Seq<bool>) -> nat
    decreases display.len(),
{
    if display.len() == 0 {
        0
    } else {
        lit_count(display.drop_last()) + if display.last() {
            1nat
        } else {
            0nat
        }
    }
}

/// Whether the window pixel in column `px` and row `py` lies in `rect`.
pub open spec fn covers(rect: Rect, px: int, py: int) -> bool {
    &&& rect.x <= px < rect.x + rect.side
    &&& rect.y <= py < rect.y + rect.side
}

/// Whether some square of `rects` holds the window pixel in column `px` and
/// row `py`.
pub open spec fn painted(rects: Seq<Rect>, px: int, py: int) -> bool {
    exists|k: int| 0 <= k < rects.len() && covers(#[trigger] rects[k], px, py)
}

/// The cell in whose square the window pixel in column `px` and row `py`
/// lies.
pub open spec fn cell_at(px: int, py: int) -> int {
    (py / SCALE as int) * SCREEN_WIDTH + px / SCALE as int
}

/// As many squares are painted as there are lit cells.
pub proof fn lemma_one_rect_per_lit_cell(display: Seq<bool>)
    ensures
        lit_rects(display).len() == lit_count(display),
    decreases display.len(),
{
    if display.len() > 0 {
        lemma_one_rect_per_lit_cell(display.drop_last());
    }
}

/// Every painted square is the square of a lit cell; the cell is handed
/// back.
pub proof fn lemma_rect_is_of_a_lit_cell(display: Seq<bool>, k: int) -> (cell: int)
    requires
        0 <= k < lit_rects(display).len(),
    ensures
        0 <= cell < display.len(),
        display[cell],
        lit_rects(display)[k] == cell_rect(cell),
    decreases display.len(),
{
    let before = lit_rects(display.drop_last());
    if display.last() && k == before.len() {
        display.len() - 1
    } else {
        lemma_rect_is_of_a_lit_cell(display.drop_last(), k)
    }
}

/// The square of every lit cell is painted.
pub proof fn lemma_lit_cell_has_its_rect(display: Seq<bool>, cell: int)
    requires
        0 <= cell < display.len(),
        display[cell],
    ensures
        lit_rects(display).contains(cell_rect(cell)),
    decreases display.len(),
{
    let before = lit_rects(display.drop_last());
    if cell == display.len() - 1 {
        assert(lit_rects(display)[before.len() as int] == cell_rect(cell));
    } else {
        lemma_lit_cell_has_its_rect(display.drop_last(), cell);
        let k = choose|k: int| 0 <= k < before.len() && before[k] == cell_rect(cell);
        assert(lit_rects(display)[k] == cell_rect(cell));
    }
}

/// The squares of the cells of the screen tile the window: each lies inside
/// it, and every pixel of the window lies in the square of its own cell and
/// of no other.
pub proof fn lemma_cells_tile_the_window(i: int, px: int, py: int)
    requires
        0 <= i < SCREEN_CELLS,
        0 <= px < WINDOW_WIDTH,
        0 <= py < WINDOW_HEIGHT,
    ensures
        cell_rect(i).x + cell_rect(i).side <= WINDOW_WIDTH,
        cell_rect(i).y + cell_rect(i).side <= WINDOW_HEIGHT,
        0 <= cell_at(px, py) < SCREEN_CELLS,
        covers(cell_rect(i), px, py) <==> i == cell_at(px, py),
{
}

/// On the screen, a pixel of the window is painted exactly when the cell
/// that it lies in is lit.
pub proof fn lemma_pixel_painted_iff_cell_lit(display: Seq<bool>, px: int, py: int)
    requires
        display.len() == SCREEN_CELLS,
        0 <= px < WINDOW_WIDTH,
        0 <= py < WINDOW_HEIGHT,
    ensures
        painted(lit_rects(display), px, py) <==> display[cell_at(px, py)],
{
    let rects = lit_rects(display);
    let cell = cell_at(px, py);
    lemma_cells_tile_the_window(cell, px, py);
    if display[cell] {
        lemma_lit_cell_has_its_rect(display, cell);
    }
    if painted(rects, px, py) {
        let k = choose|k: int| 0 <= k < rects.len() && covers(#[trigger] rects[k], px, py);
        let other = lemma_rect_is_of_a_lit_cell(display, k);
        lemma_cells_tile_the_window(other, px, py);
    }
}

/// A dark display paints nothing.
pub proof fn lemma_dark_display(display: Seq<bool>)
    requires
        forall|j: int| 0 <= j < display.len() ==> !display[j],
    ensures
        lit_rects(display) == Seq::<Rect>::empty(),
    decreases display.len(),
{
    if display.len() > 0 {
        lemma_dark_display(display.drop_last());
    }
}

/// A display whose only lit cell is cell `i` paints exactly one square: that
/// of cell `i`, with its corner at `(i mod SCREEN_WIDTH) * SCALE`,
/// `(i div SCREEN_WIDTH) * SCALE` and sides of `SCALE`.
pub proof fn lemma_single_lit_cell(display: Seq<bool>, i: int)
    requires
        display.len() <= usize::MAX,
        0 <= i < display.len(),
        display[i],
        forall|j: int| 0 <= j < display.len() && j != i ==> !display[j],
    ensures
        lit_rects(display) == seq![cell_rect(i)],
        cell_rect(i).x == (i % SCREEN_WIDTH as int) * SCALE,
        cell_rect(i).y == (i / SCREEN_WIDTH as int) * SCALE,
        cell_rect(i).side == SCALE,
    decreases display.len(),
{
    if i == display.len() - 1 {
        lemma_dark_display(display.drop_last());
    } else {
        lemma_single_lit_cell(display.drop_last(), i);
    }
}

/// A display whose only dark cell is cell 0 paints the squares of all the
/// other cells, and so one square less than it has cells. On the screen that
/// is the whole window but the top-left square.
pub proof fn lemma_all_but_first_lit(display: Seq<bool>)
    requires
        display.len() > 0,
        !display[0],
        forall|j: int| 1 <= j < display.len() ==> display[j],
    ensures
        lit_rects(display) == Seq::new((display.len() - 1) as nat, |k: int| cell_rect(k + 1)),
        lit_rects(display).len() == display.len() - 1,
        display.len() == SCREEN_CELLS ==> forall|px: int, py: int|
            0 <= px < WINDOW_WIDTH && 0 <= py < WINDOW_HEIGHT ==> (#[trigger] painted(
                lit_rects(display),
                px,
                py,
            ) <==> !(px < SCALE && py < SCALE)),
    decreases display.len(),
{
    if display.len() == 1 {
        assert(lit_rects(display.drop_last()) =~= Seq::<Rect>::empty());
    } else {
        lemma_all_but_first_lit(display.drop_last());
    }
    if display.len() == SCREEN_CELLS {
        assert forall|px: int, py: int|
            0 <= px < WINDOW_WIDTH && 0 <= py < WINDOW_HEIGHT implies (#[trigger] painted(
            lit_rects(display),
            px,
            py,
        ) <==> !(px < SCALE && py < SCALE)) by {
            lemma_pixel_painted_iff_cell_lit(display, px, py);
            lemma_cells_tile_the_window(0, px, py);
        }
    }
}

/// The squares to paint for a display, in the order of its cells.
pub fn draw_list(display: &[bool]) -> (rects: Vec<Rect>)
    ensures
        rects@ == lit_rects(display@),
{
    let mut rects: Vec<Rect> = Vec::new();
    let mut i: usize = 0;
    while i < display.len()
        invariant
            0 <= i <= display.len(),
            rects@ == lit_rects(display@.take(i as int)),
        decreases display.len() - i,
    {
        assert(display@.take(i + 1).drop_last() =~= display@.take(i as int));
        if display[i] {
            let x: usize = (i % SCREEN_WIDTH) * SCALE;
            let y: usize = (i / SCREEN_WIDTH) * SCALE;
            rects.push(Rect { x, y, side: SCALE });
        }
        i += 1;
    }
    assert(display@.take(i as int) =~= display@);
    rects
}

/// The squares to paint for the machine's display as it stands, in the order
/// of its cells.
pub fn draw_screen(core: &Chip8) -> (rects: Vec<Rect>)
    ensures
        rects@ == lit_rects(cells(frame_bytes(*core))),
{
    let display = display(core);
    draw_list(display.as_slice())
}

} // verus!
