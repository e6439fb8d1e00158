//! The head sprite: a silhouette, a mirrored marking and a pair of outlined
//! eyes, painted into a grid of semantic tokens and then turned into pixels.
//!
//! The grid is a square canvas, the head region with a margin of one cell on
//! each side. Cell `(x, y)` lives at index `y * GREACHER_CANVAS_SIZE + x`.
//! Each painting step has two forms: one that takes the numbers to paint
//! with, and one that draws those numbers from a stream first.

use crate::color::{Color, GreacherColorPalette};
use crate::image::Image;
use crate::stream::{after_draw, drawn, SeedStream};
use vstd::prelude::*;

verus! {

/// Side of the head region, in cells.
pub const GREACHER_HEAD_SIZE: usize = 8;

/// Side of the canvas: the head region and a margin of one cell on each side.
pub const GREACHER_CANVAS_SIZE: usize = GREACHER_HEAD_SIZE + 2;

/// What a cell of the template stands for.
#[derive(Clone, Copy, Debug, PartialEq, Eq, Structural)]
pub enum ColorMapping {
    Transparent,
    Dark,
    Darkish,
    Basic,
    Highlight,
    White,
}

/// Column of the cell at index `i`.
pub open spec fn column(i: int) -> int {
    i % 10
}

/// Row of the cell at index `i`.
pub open spec fn row(i: int) -> int {
    i / 10
}

/// A template covers the whole canvas.
pub open spec fn is_template(t: Seq<ColorMapping>) -> bool {
    t.len() == 100
}

/// The cell at index `i` lies on the outer ring of the canvas.
pub open spec fn on_margin(i: int) -> bool {
    column(i) == 0 || column(i) == 9 || row(i) == 0 || row(i) == 9
}

/// Every cell on the outer ring is transparent.
pub open spec fn margin_is_clear(t: Seq<ColorMapping>) -> bool {
    forall|i: int| 0 <= i < t.len() && on_margin(i) ==> t[i] == ColorMapping::Transparent
}

/// Index of cell `(x, y)` in a template.
pub fn cell_index(x: usize, y: usize) -> (i: usize)
    requires
        x < GREACHER_CANVAS_SIZE,
        y < GREACHER_CANVAS_SIZE,
    ensures
        i == y * 10 + x,
        i < 100,
{
    y * GREACHER_CANVAS_SIZE + x
}

/// A canvas of transparent cells.
pub fn blank_template() -> (t: Vec<ColorMapping>)
    ensures
        is_template(t@),
        forall|i: int| 0 <= i < 100 ==> t@[i] == ColorMapping::Transparent,
{
    let cells: usize = GREACHER_CANVAS_SIZE * GREACHER_CANVAS_SIZE;
    let mut t: Vec<ColorMapping> = Vec::new();
    let mut i: usize = 0;
    while i < cells
        invariant
            cells == 100,
            i <= 100,
            t@.len() == i,
            forall|k: int| 0 <= k < i ==> t@[k] == ColorMapping::Transparent,
        decreases 100 - i,
    {
        t.push(ColorMapping::Transparent);
        i += 1;
    }
    t
}

/// Cell `(x, y)` belongs to the silhouette of a head `width` wide and
/// `height` tall: a rectangle that stands on the bottom row of the head
/// region and is centered in it. An odd width counts as the even number
/// below it.
pub open spec fn in_head_shape(x: int, y: int, width: int, height: int) -> bool {
    5 - width / 2 <= x <= 4 + width / 2 && 9 - height <= y <= 8
}

/// Cell `(x, y)` is one of the four corners of that rectangle.
pub open spec fn is_shape_corner(x: int, y: int, width: int, height: int) -> bool {
    (x == 5 - width / 2 || x == 4 + width / 2) && (y == 9 - height || y == 8)
}

/// What the silhouette makes of one cell.
pub open spec fn shaped_cell(before: ColorMapping, x: int, y: int, width: int, height: int)
    -> ColorMapping {
    if !in_head_shape(x, y, width, height) {
        before
    } else if is_shape_corner(x, y, width, height) {
        ColorMapping::Darkish
    } else {
        ColorMapping::Basic
    }
}

/// The template after the silhouette was painted into it.
pub open spec fn shaped(t: Seq<ColorMapping>, width: int, height: int) -> Seq<ColorMapping> {
    Seq::new(t.len(), |i: int| shaped_cell(t[i], column(i), row(i), width, height))
}

/// Paints the silhouette of a head of the given size: the rectangle becomes
/// `Basic`, its four corners `Darkish`.
pub fn paint_head_shape(data: &mut Vec<ColorMapping>, width: usize, height: usize)
    requires
        is_template(old(data)@),
        width <= GREACHER_HEAD_SIZE,
        height <= GREACHER_HEAD_SIZE,
    ensures
        final(data)@ == shaped(old(data)@, width as int, height as int),
        margin_is_clear(old(data)@) ==> margin_is_clear(final(data)@),
{
    let ghost before = data@;
    let ghost w = width as int;
    let ghost h = height as int;
    let min_y: usize = 1 + GREACHER_HEAD_SIZE - height;
    let max_y: usize = GREACHER_HEAD_SIZE;
    let min_x: usize = 5 - width / 2;
    let max_x: usize = 4 + width / 2;

    let mut j: usize = min_y;
    while j <= max_y
        invariant
            data@.len() == 100,
            before.len() == 100,
            min_y == 9 - h,
            max_y == 8,
            min_x == 5 - w / 2,
            max_x == 4 + w / 2,
            0 <= w <= 8,
            0 <= h <= 8,
            min_y <= j <= max_y + 1,
            forall|k: int|
                0 <= k < 100 ==> data@[k] == if row(k) < j {
                    shaped_cell(before[k], column(k), row(k), w, h)
                } else {
                    before[k]
                },
        decreases max_y + 1 - j,
    {
        let mut i: usize = min_x;
        while i <= max_x
            invariant
                data@.len() == 100,
                before.len() == 100,
                min_y == 9 - h,
                max_y == 8,
                min_x == 5 - w / 2,
                max_x == 4 + w / 2,
                0 <= w <= 8,
                0 <= h <= 8,
                min_y <= j <= max_y,
                min_x <= i <= max_x + 1,
                forall|k: int|
                    0 <= k < 100 ==> data@[k] == if row(k) < j || (row(k) == j && column(k) < i) {
                        shaped_cell(before[k], column(k), row(k), w, h)
                    } else {
                        before[k]
                    },
            decreases max_x + 1 - i,
        {
            data[cell_index(i, j)] = ColorMapping::Basic;

            if (j == min_y || j == max_y) && (i == min_x || i == max_x) {
                data[cell_index(i, j)] = ColorMapping::Darkish;
            }
            i += 1;
        }
        j += 1;
    }
    assert(data@ =~= shaped(before, w, h));
}

/// Width of the silhouette that a stream in `state` draws: six or eight.
pub open spec fn shape_width(state: Seq<u64>) -> usize {
    (drawn(state, 3, 5) * 2) as usize
}

/// Height of the silhouette that a stream in `state` draws, after the width.
pub open spec fn shape_height(state: Seq<u64>) -> usize {
    drawn(after_draw(state, 3, 5), 4, 9)
}

/// The state of a stream after it drew a silhouette in `state`.
pub open spec fn after_shape(state: Seq<u64>) -> Seq<u64> {
    after_draw(after_draw(state, 3, 5), 4, 9)
}

/// The silhouette that a stream in `state` draws is six or eight cells wide
/// and four to eight cells tall.
pub open spec fn shape_draws_fit(state: Seq<u64>) -> bool {
    &&& shape_width(state) == 6 || shape_width(state) == 8
    &&& 4 <= shape_height(state) <= 8
}

/// Draws a width of six or eight and a height of four to eight, and paints
/// the silhouette of that size. Returns the size.
pub fn generate_head_shape(data: &mut Vec<ColorMapping>, rng: &mut SeedStream) -> (size: (
    usize,
    usize,
))
    requires
        is_template(old(data)@),
    ensures
        size.0 == shape_width(old(rng)@),
        size.1 == shape_height(old(rng)@),
        size.0 == 6 || size.0 == 8,
        4 <= size.1 <= 8,
        shape_draws_fit(old(rng)@),
        final(rng)@ == after_shape(old(rng)@),
        final(data)@ == shaped(old(data)@, size.0 as int, size.1 as int),
        margin_is_clear(old(data)@) ==> margin_is_clear(final(data)@),
{
    let half: usize = rng.range(3, 5);
    let height: usize = rng.range(4, 9);
    let size: (usize, usize) = (half * 2, height);
    paint_head_shape(data, size.0, size.1);
    size
}

/// Where a coordinate of the head region ends up after a move by `d` cells,
/// on a torus: past either edge it comes back in at the other.
pub open spec fn wrapped(c: int, d: int) -> int {
    1 + (c - 1 + d + 8) % 8
}

/// Horizontal move of a direction: the first is right, the second left.
pub open spec fn step_x(dir: int) -> int {
    if dir == 0 {
        1
    } else if dir == 1 {
        -1
    } else {
        0
    }
}

/// Vertical move of a direction: the third is down, the fourth up.
pub open spec fn step_y(dir: int) -> int {
    if dir == 2 {
        1
    } else if dir == 3 {
        -1
    } else {
        0
    }
}

/// The cell one step from `pos` in direction `dir`.
pub open spec fn stepped(pos: (int, int), dir: int) -> (int, int) {
    (wrapped(pos.0, step_x(dir)), wrapped(pos.1, step_y(dir)))
}

/// Takes one step on the torus of the head region. A direction other than
/// the four known ones stays in place.
pub fn step_on_torus(pos: (usize, usize), dir: usize) -> (next: (usize, usize))
    requires
        1 <= pos.0 <= GREACHER_HEAD_SIZE,
        1 <= pos.1 <= GREACHER_HEAD_SIZE,
    ensures
        (next.0 as int, next.1 as int) == stepped((pos.0 as int, pos.1 as int), dir as int),
        1 <= next.0 <= GREACHER_HEAD_SIZE,
        1 <= next.1 <= GREACHER_HEAD_SIZE,
{
    let ahead: usize = GREACHER_HEAD_SIZE + 1;
    let back: usize = GREACHER_HEAD_SIZE - 1;
    let stay: usize = GREACHER_HEAD_SIZE;
    let by: (usize, usize) = match dir {
        0 => (ahead, stay),
        1 => (back, stay),
        2 => (stay, ahead),
        3 => (stay, back),
        _ => (stay, stay),
    };
    (
        1 + (pos.0 - 1 + by.0) % GREACHER_HEAD_SIZE,
        1 + (pos.1 - 1 + by.1) % GREACHER_HEAD_SIZE,
    )
}

/// Where a walk from `start` along `dirs` stands after `k` steps.
pub open spec fn walk_position(start: (int, int), dirs: Seq<usize>, k: int) -> (int, int)
    decreases k,
{
    if k <= 0 {
        start
    } else {
        stepped(walk_position(start, dirs, k - 1), dirs[k - 1] as int)
    }
}

/// A mark made at `at` covers cell `(x, y)`: the cell itself or its mirror
/// image across the vertical axis of the canvas.
pub open spec fn covers(at: (int, int), x: int, y: int) -> bool {
    at.1 == y && (at.0 == x || at.0 == 9 - x)
}

/// One of the first `marks` positions of the walk covers cell `(x, y)`.
pub open spec fn marked_by_walk(
    x: int,
    y: int,
    start: (int, int),
    dirs: Seq<usize>,
    marks: int,
) -> bool {
    exists|k: int| 0 <= k < marks && covers(#[trigger] walk_position(start, dirs, k), x, y)
}

/// The template after a walk left its marking: one mark, mirrored, at the
/// start and after each step but the last.
pub open spec fn patterned(t: Seq<ColorMapping>, start: (int, int), dirs: Seq<usize>) -> Seq<
    ColorMapping,
> {
    Seq::new(
        t.len(),
        |i: int|
            if marked_by_walk(column(i), row(i), start, dirs, dirs.len() as int) {
                ColorMapping::Highlight
            } else {
                t[i]
            },
    )
}

/// From `before` to `after`, a cell changes only in the head region, and
/// only to `Highlight`.
pub open spec fn changes_only_to_highlight_in_head(
    before: Seq<ColorMapping>,
    after: Seq<ColorMapping>,
) -> bool {
    forall|i: int|
        0 <= i < 100 && after[i] != before[i] ==> after[i] == ColorMapping::Highlight && 1
            <= column(i) <= 8 && 1 <= row(i) <= 8
}

/// Walks over the head region from `start`, one step for each direction in
/// `dirs`, and marks the cell it stands on and that cell's mirror image as
/// `Highlight` before each step.
pub fn paint_head_pattern(data: &mut Vec<ColorMapping>, start: (usize, usize), dirs: &Vec<usize>)
    requires
        is_template(old(data)@),
        1 <= start.0 <= GREACHER_HEAD_SIZE,
        1 <= start.1 <= GREACHER_HEAD_SIZE,
    ensures
        final(data)@ == patterned(old(data)@, (start.0 as int, start.1 as int), dirs@),
        margin_is_clear(old(data)@) ==> margin_is_clear(final(data)@),
        changes_only_to_highlight_in_head(old(data)@, final(data)@),
        dirs@.len() > 0 ==> final(data)@[start.1 * 10 + start.0] == ColorMapping::Highlight
            && final(data)@[start.1 * 10 + (9 - start.0)] == ColorMapping::Highlight,
{
    let ghost before = data@;
    let ghost origin = (start.0 as int, start.1 as int);
    let mut generator: (usize, usize) = start;
    let mut n: usize = 0;
    while n < dirs.len()
        invariant
            data@.len() == 100,
            before.len() == 100,
            n <= dirs@.len(),
            1 <= generator.0 <= 8,
            1 <= generator.1 <= 8,
            (generator.0 as int, generator.1 as int) == walk_position(origin, dirs@, n as int),
            forall|k: int|
                0 <= k < n ==> 1 <= (#[trigger] walk_position(origin, dirs@, k)).0 <= 8 && 1
                    <= walk_position(origin, dirs@, k).1 <= 8,
            forall|i: int|
                0 <= i < 100 ==> data@[i] == if marked_by_walk(
                    column(i),
                    row(i),
                    origin,
                    dirs@,
                    n as int,
                ) {
                    ColorMapping::Highlight
                } else {
                    before[i]
                },
        decreases dirs@.len() - n,
    {
        let ghost marked = data@;
        let ghost here = (generator.0 as int, generator.1 as int);
        data[cell_index(generator.0, generator.1)] = ColorMapping::Highlight;
        data[cell_index(GREACHER_CANVAS_SIZE - 1 - generator.0, generator.1)] = ColorMapping::Highlight;
        assert forall|i: int| 0 <= i < 100 implies data@[i] == if marked_by_walk(
            column(i),
            row(i),
            origin,
            dirs@,
            n + 1,
        ) {
            ColorMapping::Highlight
        } else {
            before[i]
        } by {
            let x = column(i);
            let y = row(i);
            if marked_by_walk(x, y, origin, dirs@, n as int) {
                let k = choose|k: int|
                    0 <= k < n && covers(#[trigger] walk_position(origin, dirs@, k), x, y);
                assert(0 <= k < n + 1 && covers(walk_position(origin, dirs@, k), x, y));
            } else if covers(here, x, y) {
                assert(covers(walk_position(origin, dirs@, n as int), x, y));
            } else {
                if marked_by_walk(x, y, origin, dirs@, n + 1) {
                    let k = choose|k: int|
                        0 <= k < n + 1 && covers(#[trigger] walk_position(origin, dirs@, k), x, y);
                    assert(k == n);
                }
            }
        }
        generator = step_on_torus(generator, dirs[n]);
        n += 1;
    }
    assert(data@ =~= patterned(before, origin, dirs@));
    assert forall|i: int| 0 <= i < 100 && data@[i] != before[i] implies data@[i]
        == ColorMapping::Highlight && 1 <= column(i) <= 8 && 1 <= row(i) <= 8 by {
        let k = choose|k: int|
            0 <= k < dirs@.len() && covers(
                #[trigger] walk_position(origin, dirs@, k),
                column(i),
                row(i),
            );
        assert(1 <= walk_position(origin, dirs@, k).0 <= 8);
    }
    proof {
        if dirs@.len() > 0 {
            assert(covers(walk_position(origin, dirs@, 0), origin.0, origin.1));
            assert(covers(walk_position(origin, dirs@, 0), 9 - origin.0, origin.1));
        }
    }
}

/// Where the walk that a stream in `state` draws begins: a column, then a
/// row, of the head region.
pub open spec fn pattern_start(state: Seq<u64>) -> (int, int) {
    (1 + drawn(state, 0, 8), 1 + drawn(after_draw(state, 0, 8), 0, 8))
}

/// The state of a stream after it drew the start of a walk in `state`.
pub open spec fn after_pattern_start(state: Seq<u64>) -> Seq<u64> {
    after_draw(after_draw(state, 0, 8), 0, 8)
}

/// Number of steps of the walk, drawn by a stream in `state`: eight to
/// fifteen.
pub open spec fn pattern_length(state: Seq<u64>) -> usize {
    drawn(state, 8, 16)
}

/// The state of a stream after it drew `n` directions in `state`.
pub open spec fn after_directions(state: Seq<u64>, n: nat) -> Seq<u64>
    decreases n,
{
    if n == 0 {
        state
    } else {
        after_draw(after_directions(state, (n - 1) as nat), 0, 4)
    }
}

/// The first `n` directions that a stream in `state` draws.
pub open spec fn directions(state: Seq<u64>, n: nat) -> Seq<usize>
    decreases n,
{
    if n == 0 {
        Seq::empty()
    } else {
        directions(state, (n - 1) as nat).push(
            drawn(after_directions(state, (n - 1) as nat), 0, 4),
        )
    }
}

/// The directions of the walk that a stream in `state` draws, after its
/// start and its length.
pub open spec fn pattern_directions(state: Seq<u64>) -> Seq<usize> {
    let at_length = after_pattern_start(state);
    directions(after_draw(at_length, 8, 16), pattern_length(at_length) as nat)
}

/// The state of a stream after it drew a whole walk in `state`.
pub open spec fn after_pattern(state: Seq<u64>) -> Seq<u64> {
    let at_length = after_pattern_start(state);
    after_directions(after_draw(at_length, 8, 16), pattern_length(at_length) as nat)
}

/// The walk that a stream in `state` draws starts in the head region, has
/// eight to fifteen steps, and each of its directions is one of the four.
pub open spec fn pattern_draws_fit(state: Seq<u64>) -> bool {
    &&& 1 <= pattern_start(state).0 <= 8
    &&& 1 <= pattern_start(state).1 <= 8
    &&& 8 <= pattern_directions(state).len() <= 15
    &&& forall|k: int|
        0 <= k < pattern_directions(state).len() ==> (#[trigger] pattern_directions(state)[k]) < 4
}

/// Draws a starting cell in the head region, a number of steps from eight to
/// fifteen and a direction for each step, and paints the marking of that
/// walk. The starting cell and its mirror image are marked; nothing changes
/// outside the head region.
pub fn generate_head_pattern(data: &mut Vec<ColorMapping>, rng: &mut SeedStream)
    requires
        is_template(old(data)@),
    ensures
        final(data)@ == patterned(
            old(data)@,
            pattern_start(old(rng)@),
            pattern_directions(old(rng)@),
        ),
        final(rng)@ == after_pattern(old(rng)@),
        pattern_draws_fit(old(rng)@),
        margin_is_clear(old(data)@) ==> margin_is_clear(final(data)@),
        changes_only_to_highlight_in_head(old(data)@, final(data)@),
        final(data)@[pattern_start(old(rng)@).1 * 10 + pattern_start(old(rng)@).0]
            == ColorMapping::Highlight,
        final(data)@[pattern_start(old(rng)@).1 * 10 + (9 - pattern_start(old(rng)@).0)]
            == ColorMapping::Highlight,
{
    let x0: usize = rng.range(0, 8);
    let y0: usize = rng.range(0, 8);
    let start: (usize, usize) = (1 + x0, 1 + y0);
    let pattern_length: usize = rng.range(8, 16);
    let ghost first = rng@;

    let mut dirs: Vec<usize> = Vec::new();
    let mut n: usize = 0;
    while n < pattern_length
        invariant
            n <= pattern_length,
            dirs@.len() == n,
            dirs@ == directions(first, n as nat),
            rng@ == after_directions(first, n as nat),
            forall|k: int| 0 <= k < n ==> (#[trigger] dirs@[k]) < 4,
        decreases pattern_length - n,
    {
        let dir: usize = rng.range(0, 4);
        dirs.push(dir);
        n += 1;
    }
    paint_head_pattern(data, start, &dirs);
}

/// Cell `(x, y)` belongs to one of the two eyes: the left eye is a rectangle
/// of `size` cells whose top left corner is `pos`, the right eye its mirror
/// image across the vertical axis of the canvas.
pub open spec fn in_eyes(x: int, y: int, size: (int, int), pos: (int, int)) -> bool {
    pos.1 <= y < pos.1 + size.1 && (pos.0 <= x < pos.0 + size.0 || pos.0 <= 9 - x < pos.0
        + size.0)
}

/// The template after the eyes were placed.
pub open spec fn with_eyes(t: Seq<ColorMapping>, size: (int, int), pos: (int, int)) -> Seq<
    ColorMapping,
> {
    Seq::new(
        t.len(),
        |i: int|
            if in_eyes(column(i), row(i), size, pos) {
                ColorMapping::White
            } else {
                t[i]
            },
    )
}

/// Places a pair of eyes: the rectangle of `eye_size` cells at `eye_pos` and
/// its mirror image become `White`. The rectangle has to lie in the head
/// region.
pub fn paint_eyes(data: &mut Vec<ColorMapping>, eye_size: (usize, usize), eye_pos: (usize, usize))
    requires
        is_template(old(data)@),
        1 <= eye_pos.0,
        1 <= eye_pos.1,
        eye_pos.0 + eye_size.0 <= GREACHER_HEAD_SIZE + 1,
        eye_pos.1 + eye_size.1 <= GREACHER_HEAD_SIZE + 1,
    ensures
        final(data)@ == with_eyes(
            old(data)@,
            (eye_size.0 as int, eye_size.1 as int),
            (eye_pos.0 as int, eye_pos.1 as int),
        ),
        margin_is_clear(old(data)@) ==> margin_is_clear(final(data)@),
{
    let ghost before = data@;
    let ghost size = (eye_size.0 as int, eye_size.1 as int);
    let ghost pos = (eye_pos.0 as int, eye_pos.1 as int);
    let end_x: usize = eye_pos.0 + eye_size.0;
    let end_y: usize = eye_pos.1 + eye_size.1;

    let mut j: usize = eye_pos.1;
    while j < end_y
        invariant
            data@.len() == 100,
            before.len() == 100,
            1 <= pos.0,
            1 <= pos.1,
            0 <= size.0,
            end_x == pos.0 + size.0,
            end_y == pos.1 + size.1,
            end_x <= 9,
            end_y <= 9,
            pos == (eye_pos.0 as int, eye_pos.1 as int),
            pos.1 <= j <= end_y,
            forall|k: int|
                0 <= k < 100 ==> data@[k] == if in_eyes(column(k), row(k), (size.0, j - pos.1), pos) {
                    ColorMapping::White
                } else {
                    before[k]
                },
        decreases end_y - j,
    {
        let mut i: usize = eye_pos.0;
        while i < end_x
            invariant
                data@.len() == 100,
                before.len() == 100,
                1 <= pos.0,
                1 <= pos.1,
                0 <= size.0,
                end_x == pos.0 + size.0,
                end_y == pos.1 + size.1,
                end_x <= 9,
                end_y <= 9,
                pos == (eye_pos.0 as int, eye_pos.1 as int),
                pos.1 <= j < end_y,
                pos.0 <= i <= end_x,
                forall|k: int|
                    0 <= k < 100 ==> data@[k] == if in_eyes(
                        column(k),
                        row(k),
                        (size.0, j - pos.1),
                        pos,
                    ) || in_eyes(column(k), row(k), (i - pos.0, 1), (pos.0, j as int)) {
                        ColorMapping::White
                    } else {
                        before[k]
                    },
            decreases end_x - i,
        {
            data[cell_index(i, j)] = ColorMapping::White;
            data[cell_index(GREACHER_CANVAS_SIZE - 1 - i, j)] = ColorMapping::White;
            i += 1;
        }
        j += 1;
    }
    assert(data@ =~= with_eyes(before, size, pos));
}

/// One of the up to four cells next to `(x, y)` is `White`. Cells beyond
/// the edge of the canvas do not count.
pub open spec fn neighbor_is_white(t: Seq<ColorMapping>, x: int, y: int) -> bool {
    ||| (y > 0 && t[(y - 1) * 10 + x] == ColorMapping::White)
    ||| (y < 9 && t[(y + 1) * 10 + x] == ColorMapping::White)
    ||| (x > 0 && t[y * 10 + (x - 1)] == ColorMapping::White)
    ||| (x < 9 && t[y * 10 + (x + 1)] == ColorMapping::White)
}

/// What the outline makes of the cell at index `i`: a painted cell that is
/// not itself white and touches a white one becomes `Dark`.
pub open spec fn outlined_cell(t: Seq<ColorMapping>, i: int) -> ColorMapping {
    if t[i] != ColorMapping::White && t[i] != ColorMapping::Transparent && neighbor_is_white(
        t,
        column(i),
        row(i),
    ) {
        ColorMapping::Dark
    } else {
        t[i]
    }
}

/// The template after the eyes in it were outlined. Every cell is judged by
/// the template as it was before: an outline cell does not spread.
pub open spec fn outlined(t: Seq<ColorMapping>) -> Seq<ColorMapping> {
    Seq::new(t.len(), |i: int| outlined_cell(t, i))
}

/// Outlines the eyes: every painted cell next to a white one becomes `Dark`,
/// judged by the template as it is when the pass begins.
pub fn outline_eyes(data: &mut Vec<ColorMapping>)
    requires
        is_template(old(data)@),
    ensures
        final(data)@ == outlined(old(data)@),
        margin_is_clear(old(data)@) ==> margin_is_clear(final(data)@),
        forall|i: int|
            0 <= i < 100 && (#[trigger] final(data)@[i]) == ColorMapping::Dark && old(data)@[i]
                != ColorMapping::Dark ==> neighbor_is_white(old(data)@, column(i), row(i)),
{
    let ghost before = data@;
    let mut j: usize = 0;
    while j < GREACHER_CANVAS_SIZE
        invariant
            data@.len() == 100,
            before.len() == 100,
            j <= 10,
            forall|k: int|
                0 <= k < 100 ==> data@[k] == if k < j * 10 {
                    outlined_cell(before, k)
                } else {
                    before[k]
                },
        decreases 10 - j,
    {
        let mut i: usize = 0;
        while i < GREACHER_CANVAS_SIZE
            invariant
                data@.len() == 100,
                before.len() == 100,
                j < 10,
                i <= 10,
                forall|k: int|
                    0 <= k < 100 ==> data@[k] == if k < j * 10 + i {
                        outlined_cell(before, k)
                    } else {
                        before[k]
                    },
            decreases 10 - i,
        {
            let current = data[cell_index(i, j)];

            if current != ColorMapping::White && current != ColorMapping::Transparent {
                let above = j > 0 && data[cell_index(i, j - 1)] == ColorMapping::White;
                let below = j < GREACHER_CANVAS_SIZE - 1 && data[cell_index(i, j + 1)]
                    == ColorMapping::White;
                let left = i > 0 && data[cell_index(i - 1, j)] == ColorMapping::White;
                let right = i < GREACHER_CANVAS_SIZE - 1 && data[cell_index(i + 1, j)]
                    == ColorMapping::White;

                if above || below || left || right {
                    data[cell_index(i, j)] = ColorMapping::Dark;
                }
            }
            i += 1;
        }
        j += 1;
    }
    assert(data@ =~= outlined(before));
}

/// Two cells of the canvas share an edge.
pub open spec fn adjacent(i: int, n: int) -> bool {
    &&& 0 <= i < 100
    &&& 0 <= n < 100
    &&& (column(i) == column(n) && (row(i) == row(n) + 1 || row(n) == row(i) + 1)) || (row(i)
        == row(n) && (column(i) == column(n) + 1 || column(n) == column(i) + 1))
}

/// An outline appears only next to an eye: every cell that the outline pass
/// turns `Dark` shares an edge with a cell that was `White` before the pass.
/// The pass neither adds nor removes a `White` cell.
pub proof fn lemma_outline_is_local(t: Seq<ColorMapping>)
    requires
        is_template(t),
    ensures
        forall|i: int|
            0 <= i < 100 && (#[trigger] outlined(t)[i]) == ColorMapping::Dark && t[i]
                != ColorMapping::Dark ==> exists|n: int|
                adjacent(i, n) && (#[trigger] t[n]) == ColorMapping::White,
        forall|i: int|
            0 <= i < 100 ==> ((#[trigger] outlined(t)[i]) == ColorMapping::White <==> t[i]
                == ColorMapping::White),
{
    assert forall|i: int|
        0 <= i < 100 && (#[trigger] outlined(t)[i]) == ColorMapping::Dark && t[i]
            != ColorMapping::Dark implies exists|n: int|
        adjacent(i, n) && (#[trigger] t[n]) == ColorMapping::White by {
        let x = column(i);
        let y = row(i);
        assert(neighbor_is_white(t, x, y));
        if y > 0 && t[(y - 1) * 10 + x] == ColorMapping::White {
            assert(adjacent(i, (y - 1) * 10 + x));
        } else if y < 9 && t[(y + 1) * 10 + x] == ColorMapping::White {
            assert(adjacent(i, (y + 1) * 10 + x));
        } else if x > 0 && t[y * 10 + (x - 1)] == ColorMapping::White {
            assert(adjacent(i, y * 10 + (x - 1)));
        } else {
            assert(adjacent(i, y * 10 + (x + 1)));
        }
    }
}

/// A walk that starts in the head region stays in it.
pub proof fn lemma_walk_stays_in_head(start: (int, int), dirs: Seq<usize>, k: int)
    requires
        1 <= start.0 <= 8,
        1 <= start.1 <= 8,
    ensures
        1 <= walk_position(start, dirs, k).0 <= 8,
        1 <= walk_position(start, dirs, k).1 <= 8,
    decreases k,
{
    if k > 0 {
        lemma_walk_stays_in_head(start, dirs, k - 1);
    }
}

/// Painting stays inside the head region: a template whose outer ring is
/// transparent keeps it so through the silhouette, the marking, the eyes and
/// the outline, for every size, walk and pair of eyes that fit the head
/// region.
pub proof fn lemma_painting_keeps_margin(
    t: Seq<ColorMapping>,
    width: int,
    height: int,
    start: (int, int),
    dirs: Seq<usize>,
    eye_size: (int, int),
    eye_pos: (int, int),
)
    requires
        is_template(t),
        margin_is_clear(t),
        0 <= width <= 8,
        0 <= height <= 8,
        1 <= start.0 <= 8,
        1 <= start.1 <= 8,
        1 <= eye_pos.0,
        1 <= eye_pos.1,
        0 <= eye_size.0,
        0 <= eye_size.1,
        eye_pos.0 + eye_size.0 <= 9,
        eye_pos.1 + eye_size.1 <= 9,
    ensures
        margin_is_clear(shaped(t, width, height)),
        margin_is_clear(patterned(t, start, dirs)),
        margin_is_clear(with_eyes(t, eye_size, eye_pos)),
        margin_is_clear(outlined(t)),
{
    assert forall|i: int| 0 <= i < 100 && on_margin(i) implies patterned(t, start, dirs)[i]
        == ColorMapping::Transparent by {
        if marked_by_walk(column(i), row(i), start, dirs, dirs.len() as int) {
            let k = choose|k: int|
                0 <= k < dirs.len() && covers(
                    #[trigger] walk_position(start, dirs, k),
                    column(i),
                    row(i),
                );
            lemma_walk_stays_in_head(start, dirs, k);
        }
    }
}

/// Size of the eyes that a stream in `state` draws: one or two cells each
/// way.
pub open spec fn eye_size(state: Seq<u64>) -> (int, int) {
    (drawn(state, 1, 3) as int, drawn(after_draw(state, 1, 3), 1, 3) as int)
}

/// Top left corner of the left eye that a stream in `state` draws, after
/// the size: in the left half of the head region.
pub open spec fn eye_pos(state: Seq<u64>) -> (int, int) {
    let at_pos = after_draw(after_draw(state, 1, 3), 1, 3);
    (1 + drawn(at_pos, 0, 2), 1 + drawn(after_draw(at_pos, 0, 2), 0, 7))
}

/// The state of a stream after it drew a pair of eyes in `state`.
pub open spec fn after_eyes(state: Seq<u64>) -> Seq<u64> {
    let at_pos = after_draw(after_draw(state, 1, 3), 1, 3);
    after_draw(after_draw(at_pos, 0, 2), 0, 7)
}

/// The eyes that a stream in `state` draws are one or two cells wide and
/// tall, and the left eye begins in the first or second column and in one of
/// the first seven rows of the head region.
pub open spec fn eye_draws_fit(state: Seq<u64>) -> bool {
    &&& 1 <= eye_size(state).0 <= 2
    &&& 1 <= eye_size(state).1 <= 2
    &&& 1 <= eye_pos(state).0 <= 2
    &&& 1 <= eye_pos(state).1 <= 7
}

/// Draws the size and the place of the eyes, places them and outlines them.
pub fn generate_eyes(data: &mut Vec<ColorMapping>, rng: &mut SeedStream)
    requires
        is_template(old(data)@),
    ensures
        final(data)@ == outlined(with_eyes(old(data)@, eye_size(old(rng)@), eye_pos(old(rng)@))),
        final(rng)@ == after_eyes(old(rng)@),
        eye_draws_fit(old(rng)@),
        margin_is_clear(old(data)@) ==> margin_is_clear(final(data)@),
{
    let width: usize = rng.range(1, 3);
    let height: usize = rng.range(1, 3);
    let x: usize = rng.range(0, 2);
    let y: usize = rng.range(0, 7);
    let eye_size: (usize, usize) = (width, height);
    let eye_pos: (usize, usize) = (1 + x, 1 + y);

    paint_eyes(data, eye_size, eye_pos);
    outline_eyes(data);
}

/// The color that a token stands for under a palette. Transparent and white
/// are fixed; the other four come from the palette.
pub open spec fn token_color(token: ColorMapping, palette: GreacherColorPalette) -> Color {
    match token {
        ColorMapping::Transparent => Color { r: 0, g: 0, b: 0, a: 0 },
        ColorMapping::Dark => palette.dark,
        ColorMapping::Darkish => palette.darkish,
        ColorMapping::Basic => palette.basic,
        ColorMapping::Highlight => palette.highlight,
        ColorMapping::White => Color { r: 255, g: 255, b: 255, a: 255 },
    }
}

/// The pixels of a template under a palette: row-major RGBA8, four bytes for
/// each cell.
pub open spec fn color_data(t: Seq<ColorMapping>, palette: GreacherColorPalette) -> Seq<u8> {
    Seq::new(t.len() * 4, |b: int| token_color(t[b / 4], palette).bytes()[b % 4])
}

/// Turns a template into pixels.
pub fn create_color_data(template: &[ColorMapping], palette: &GreacherColorPalette) -> (data: Vec<
    u8,
>)
    requires
        is_template(template@),
    ensures
        data@ == color_data(template@, *palette),
        data@.len() == 400,
{
    let mut data: Vec<u8> = Vec::new();

    let mut j: usize = 0;
    while j < GREACHER_CANVAS_SIZE
        invariant
            template@.len() == 100,
            j <= 10,
            data@.len() == j * 40,
            forall|b: int|
                0 <= b < j * 40 ==> data@[b] == token_color(template@[b / 4], *palette).bytes()[b
                    % 4],
        decreases 10 - j,
    {
        let mut i: usize = 0;
        while i < GREACHER_CANVAS_SIZE
            invariant
                template@.len() == 100,
                j < 10,
                i <= 10,
                data@.len() == (j * 10 + i) * 4,
                forall|b: int|
                    0 <= b < (j * 10 + i) * 4 ==> data@[b] == token_color(
                        template@[b / 4],
                        *palette,
                    ).bytes()[b % 4],
            decreases 10 - i,
        {
            let col = match template[cell_index(i, j)] {
                ColorMapping::Transparent => Color::new(0, 0, 0, 0),
                ColorMapping::Dark => palette.dark,
                ColorMapping::Darkish => palette.darkish,
                ColorMapping::Basic => palette.basic,
                ColorMapping::Highlight => palette.highlight,
                ColorMapping::White => Color::new(255, 255, 255, 255),
            };
            data.push(col.r);
            data.push(col.g);
            data.push(col.b);
            data.push(col.a);
            i += 1;
        }
        j += 1;
    }
    assert(data@ =~= color_data(template@, *palette));
    data
}

/// The template of the head that a stream in `state` draws: silhouette,
/// marking and eyes, in that order, on a blank canvas.
pub open spec fn head_template(state: Seq<u64>) -> Seq<ColorMapping> {
    let blank = Seq::new(100, |i: int| ColorMapping::Transparent);
    let with_shape = shaped(blank, shape_width(state) as int, shape_height(state) as int);
    let at_pattern = after_shape(state);
    let with_pattern = patterned(
        with_shape,
        pattern_start(at_pattern),
        pattern_directions(at_pattern),
    );
    let at_eyes = after_pattern(at_pattern);
    outlined(with_eyes(with_pattern, eye_size(at_eyes), eye_pos(at_eyes)))
}

/// The state of a stream after it drew a head in `state`.
pub open spec fn after_head(state: Seq<u64>) -> Seq<u64> {
    after_eyes(after_pattern(after_shape(state)))
}

/// The pixels of the head that a stream in `state` draws, under a palette.
pub open spec fn head_data(state: Seq<u64>, palette: GreacherColorPalette) -> Seq<u8> {
    color_data(head_template(state), palette)
}

/// Every number that a stream in `state` draws for a head lies in its range:
/// those of the silhouette, then those of the walk, then those of the eyes.
pub open spec fn head_draws_fit(state: Seq<u64>) -> bool {
    &&& shape_draws_fit(state)
    &&& pattern_draws_fit(after_shape(state))
    &&& eye_draws_fit(after_pattern(after_shape(state)))
}

/// Every byte of every pixel on the outer ring of the canvas is zero: the
/// ring is fully transparent.
pub open spec fn margin_is_transparent(data: Seq<u8>) -> bool {
    forall|b: int| 0 <= b < data.len() && on_margin(b / 4) ==> data[b] == 0
}

/// A head drawn with numbers from their ranges leaves the outer ring of the
/// canvas transparent and fills the six columns in the middle of the four
/// bottom rows of the head region. Its white cells are the cells of its
/// eyes and no others.
pub proof fn lemma_head_of_fitting_draws(state: Seq<u64>)
    requires
        head_draws_fit(state),
    ensures
        is_template(head_template(state)),
        margin_is_clear(head_template(state)),
        forall|i: int|
            0 <= i < 100 && 2 <= column(i) <= 7 && 5 <= row(i) <= 8 ==> (
            #[trigger] head_template(state)[i]) != ColorMapping::Transparent,
        forall|i: int|
            0 <= i < 100 ==> ((#[trigger] head_template(state)[i]) == ColorMapping::White
                <==> in_eyes(
                column(i),
                row(i),
                eye_size(after_pattern(after_shape(state))),
                eye_pos(after_pattern(after_shape(state))),
            )),
{
    let blank = Seq::new(100, |i: int| ColorMapping::Transparent);
    let width = shape_width(state) as int;
    let height = shape_height(state) as int;
    let with_shape = shaped(blank, width, height);
    let at_pattern = after_shape(state);
    let start = pattern_start(at_pattern);
    let dirs = pattern_directions(at_pattern);
    let with_pattern = patterned(with_shape, start, dirs);
    let at_eyes = after_pattern(at_pattern);
    let size = eye_size(at_eyes);
    let pos = eye_pos(at_eyes);
    let eyed = with_eyes(with_pattern, size, pos);

    lemma_painting_keeps_margin(blank, width, height, start, dirs, size, pos);
    lemma_painting_keeps_margin(with_shape, width, height, start, dirs, size, pos);
    lemma_painting_keeps_margin(with_pattern, width, height, start, dirs, size, pos);
    lemma_painting_keeps_margin(eyed, width, height, start, dirs, size, pos);
    assert forall|i: int| 0 <= i < 100 && 2 <= column(i) <= 7 && 5 <= row(i) <= 8 implies (
    #[trigger] head_template(state)[i]) != ColorMapping::Transparent by {
        assert(in_head_shape(column(i), row(i), width, height));
        assert(with_shape[i] != ColorMapping::Transparent);
        assert(with_pattern[i] != ColorMapping::Transparent);
        assert(eyed[i] != ColorMapping::Transparent);
        assert(head_template(state)[i] == outlined_cell(eyed, i));
    }
    assert forall|i: int| 0 <= i < 100 implies ((#[trigger] head_template(state)[i])
        == ColorMapping::White <==> in_eyes(column(i), row(i), size, pos)) by {
        assert(with_shape[i] != ColorMapping::White);
        assert(with_pattern[i] != ColorMapping::White);
        assert(head_template(state)[i] == outlined_cell(eyed, i));
    }
}

/// Draws a head from the stream and stores its pixels in `image`. Only the
/// pixels of the image change: its width and height stay as they came, so
/// the image is well formed afterwards if it came in with the size of the
/// canvas. The outer ring of the head is transparent whatever was drawn.
pub fn generate_greacher_head_texture(
    rng: &mut SeedStream,
    image: &mut Image,
    palette: &GreacherColorPalette,
)
    ensures
        final(image).width == old(image).width,
        final(image).height == old(image).height,
        final(image).data@ == head_data(old(rng)@, *palette),
        final(image).data@.len() == 400,
        old(image).width == 10 && old(image).height == 10 ==> final(image)@.is_well_formed(),
        final(rng)@ == after_head(old(rng)@),
        head_draws_fit(old(rng)@),
        margin_is_transparent(final(image).data@),
{
    let mut template = blank_template();
    assert(template@ =~= Seq::new(100, |i: int| ColorMapping::Transparent));

    generate_head_shape(&mut template, rng);
    generate_head_pattern(&mut template, rng);
    generate_eyes(&mut template, rng);

    image.data = create_color_data(template.as_slice(), palette);
    assert(10 * 10 * 4 == 400);
    assert forall|b: int| 0 <= b < 400 && on_margin(b / 4) implies image.data@[b] == 0 by {
        assert(template@[b / 4] == ColorMapping::Transparent);
    }
}

} // verus!
