//! The grid buffer: a flat, row-major array of cells, a frame one cell wide
//! around the playable interior. The interior is wiped and stamped anew for
//! every frame, and food placement looks in it for a blank cell.

use vstd::prelude::*;
use std::collections::VecDeque;
use rand::rngs::ThreadRng;
use rand::Rng;
use crate::constants::{
    CELL_BLANK, CELL_BODY, CELL_BORDER_COLUMN, CELL_BORDER_ROW, CELL_FOOD, CELL_HEAD,
    CELL_LINE_BREAK, MAX_DRAWS, SCREEN_CELLS, SCREEN_HEIGHT, SCREEN_WIDTH, TEXT_BYTES,
    TEXT_WIDTH,
};
use crate::snake::in_interior;
use crate::types::Position;

verus! {

/// The offset of column `x`, row `y` in the buffer.
pub open spec fn index_of(x: int, y: int) -> int {
    y * SCREEN_WIDTH + x
}

/// The offset of a cell in the buffer.
pub open spec fn cell_index(p: Position) -> int {
    index_of(p.x as int, p.y as int)
}

/// Whether a cell lies on the grid, the frame included.
pub open spec fn on_grid(p: Position) -> bool {
    p.x < SCREEN_WIDTH && p.y < SCREEN_HEIGHT
}

/// Whether a buffer has one cell for each cell of the grid.
pub open spec fn is_screen(buffer: Seq<u8>) -> bool {
    buffer.len() == SCREEN_CELLS
}

/// The buffer after a wipe: blank in the playable interior, as before on
/// the frame.
pub open spec fn cleared(buffer: Seq<u8>) -> Seq<u8> {
    Seq::new(
        buffer.len(),
        |i: int|
            if in_interior(i % (SCREEN_WIDTH as int), i / (SCREEN_WIDTH as int)) {
                CELL_BLANK
            } else {
                buffer[i]
            },
    )
}

/// Whether one of the first `n` segments of `snake` lies at offset `i`.
pub open spec fn occupies_before(snake: Seq<Position>, n: int, i: int) -> bool {
    exists|k: int| 0 <= k < n && k < snake.len() && #[trigger] cell_index(snake[k]) == i
}

/// Whether a segment of `snake` lies at offset `i`.
pub open spec fn occupies(snake: Seq<Position>, i: int) -> bool {
    occupies_before(snake, snake.len() as int, i)
}

/// The buffer with the snake and the food stamped on it. Where marks meet,
/// the food covers the head and the head covers the body.
pub open spec fn stamped(buffer: Seq<u8>, snake: Seq<Position>, food: Position) -> Seq<u8> {
    Seq::new(
        buffer.len(),
        |i: int|
            if i == cell_index(food) {
                CELL_FOOD
            } else if i == cell_index(snake[0]) {
                CELL_HEAD
            } else if occupies(snake, i) {
                CELL_BODY
            } else {
                buffer[i]
            },
    )
}

/// Whether column `x`, row `y` is a blank cell of the playable interior.
pub open spec fn free_at(buffer: Seq<u8>, x: int, y: int) -> bool {
    in_interior(x, y) && buffer[index_of(x, y)] == CELL_BLANK
}

/// Whether the playable interior has a blank cell.
pub open spec fn has_free_cell(buffer: Seq<u8>) -> bool {
    exists|x: int, y: int| free_at(buffer, x, y)
}

/// Whether `(x1, y1)` comes before `(x2, y2)` when the grid is read row by row.
pub open spec fn comes_before(x1: int, y1: int, x2: int, y2: int) -> bool {
    y1 < y2 || (y1 == y2 && x1 < x2)
}

/// The cell that an empty grid holds at column `x`, row `y`: the frame on
/// the first and last row and on the first and last column, blanks in the
/// playable interior.
pub open spec fn template_cell(x: int, y: int) -> u8 {
    if y == 0 || y == SCREEN_HEIGHT - 1 {
        CELL_BORDER_ROW
    } else if x == 0 || x == SCREEN_WIDTH - 1 {
        CELL_BORDER_COLUMN
    } else {
        CELL_BLANK
    }
}

/// The empty grid.
pub open spec fn template() -> Seq<u8> {
    Seq::new(
        SCREEN_CELLS as nat,
        |i: int| template_cell(i % (SCREEN_WIDTH as int), i / (SCREEN_WIDTH as int)),
    )
}

/// Makes the buffer of an empty grid.
pub fn new_screen() -> (screen_buffer: Vec<u8>)
    ensures
        screen_buffer@ == template(),
        is_screen(screen_buffer@),
{
    let mut screen_buffer: Vec<u8> = Vec::with_capacity(SCREEN_CELLS);
    let mut i: usize = 0;
    while i < SCREEN_CELLS
        invariant
            i <= SCREEN_CELLS,
            screen_buffer@.len() == i,
            forall|j: int|
                0 <= j < i ==> #[trigger] screen_buffer@[j] == template_cell(
                    j % (SCREEN_WIDTH as int),
                    j / (SCREEN_WIDTH as int),
                ),
        decreases SCREEN_CELLS - i,
    {
        let x: usize = i % SCREEN_WIDTH;
        let y: usize = i / SCREEN_WIDTH;
        let cell: u8 = if y == 0 || y == SCREEN_HEIGHT - 1 {
            CELL_BORDER_ROW
        } else if x == 0 || x == SCREEN_WIDTH - 1 {
            CELL_BORDER_COLUMN
        } else {
            CELL_BLANK
        };
        screen_buffer.push(cell);
        i += 1;
    }
    assert(screen_buffer@ =~= template());
    screen_buffer
}

/// The grid as text: its rows one after the other, each followed by a line
/// break.
pub open spec fn as_text(buffer: Seq<u8>) -> Seq<u8> {
    Seq::new(
        TEXT_BYTES as nat,
        |i: int|
            if i % (TEXT_WIDTH as int) == SCREEN_WIDTH {
                CELL_LINE_BREAK
            } else {
                buffer[index_of(i % (TEXT_WIDTH as int), i / (TEXT_WIDTH as int))]
            },
    )
}

/// Lays the grid out as text for painting: row by row, with a line break
/// after each row.
pub fn screen_text(screen_buffer: &Vec<u8>) -> (text: Vec<u8>)
    requires
        is_screen(screen_buffer@),
    ensures
        text@ == as_text(screen_buffer@),
{
    let mut text: Vec<u8> = Vec::with_capacity(TEXT_BYTES);
    let mut y: usize = 0;
    while y < SCREEN_HEIGHT
        invariant
            y <= SCREEN_HEIGHT,
            is_screen(screen_buffer@),
            text@.len() == y * TEXT_WIDTH,
            forall|i: int| 0 <= i < text@.len() ==> #[trigger] text@[i] == as_text(screen_buffer@)[i],
        decreases SCREEN_HEIGHT - y,
    {
        let mut x: usize = 0;
        while x < SCREEN_WIDTH
            invariant
                y < SCREEN_HEIGHT,
                x <= SCREEN_WIDTH,
                is_screen(screen_buffer@),
                text@.len() == y * TEXT_WIDTH + x,
                forall|i: int|
                    0 <= i < text@.len() ==> #[trigger] text@[i] == as_text(screen_buffer@)[i],
            decreases SCREEN_WIDTH - x,
        {
            let index = calculate_index(x, y);
            text.push(screen_buffer[index]);
            x += 1;
        }
        text.push(CELL_LINE_BREAK);
        y += 1;
    }
    assert(text@ =~= as_text(screen_buffer@));
    text
}

/// The offset of column `x`, row `y` in the buffer.
#[inline(always)]
pub fn calculate_index(x: usize, y: usize) -> (r: usize)
    requires
        y * SCREEN_WIDTH + x <= usize::MAX,
    ensures
        r == index_of(x as int, y as int),
{
    y * SCREEN_WIDTH + x
}

/// Wipes the buffer: every cell of the playable interior becomes blank, and
/// the frame stays as it is.
pub fn clear_screen(screen_buffer: &mut Vec<u8>)
    requires
        is_screen(old(screen_buffer)@),
    ensures
        final(screen_buffer)@ == cleared(old(screen_buffer)@),
{
    let mut x: usize = 1;
    while x < SCREEN_WIDTH - 1
        invariant
            1 <= x <= SCREEN_WIDTH - 1,
            is_screen(screen_buffer@),
            forall|i: int|
                0 <= i < screen_buffer@.len() ==> #[trigger] screen_buffer@[i] == (if 1 <= i % (
                SCREEN_WIDTH as int) < x && 1 <= i / (SCREEN_WIDTH as int) < SCREEN_HEIGHT - 1 {
                    CELL_BLANK
                } else {
                    old(screen_buffer)@[i]
                }),
        decreases SCREEN_WIDTH - x,
    {
        let mut y: usize = 1;
        while y < SCREEN_HEIGHT - 1
            invariant
                1 <= x < SCREEN_WIDTH - 1,
                1 <= y <= SCREEN_HEIGHT - 1,
                is_screen(screen_buffer@),
                forall|i: int|
                    0 <= i < screen_buffer@.len() ==> #[trigger] screen_buffer@[i] == (if (1 <= i
                        % (SCREEN_WIDTH as int) < x && 1 <= i / (SCREEN_WIDTH as int)
                        < SCREEN_HEIGHT - 1) || (i % (SCREEN_WIDTH as int) == x && 1 <= i / (
                    SCREEN_WIDTH as int) < y) {
                        CELL_BLANK
                    } else {
                        old(screen_buffer)@[i]
                    }),
            decreases SCREEN_HEIGHT - y,
        {
            let index = calculate_index(x, y);
            screen_buffer.set(index, CELL_BLANK);
            y += 1;
        }
        x += 1;
    }
    assert(screen_buffer@ =~= cleared(old(screen_buffer)@));
}

/// Stamps the snake and the food on the buffer: a body mark on every
/// segment, then the head mark on the first, then the food mark. No other
/// cell changes. Painting the buffer is left to the caller.
pub fn render_screen(screen_buffer: &mut Vec<u8>, snake: &VecDeque<Position>, food: &Position)
    requires
        is_screen(old(screen_buffer)@),
        snake@.len() >= 1,
        forall|k: int| 0 <= k < snake@.len() ==> on_grid(#[trigger] snake@[k]),
        on_grid(*food),
    ensures
        final(screen_buffer)@ == stamped(old(screen_buffer)@, snake@, *food),
{
    let mut k: usize = 0;
    while k < snake.len()
        invariant
            0 <= k <= snake@.len(),
            is_screen(screen_buffer@),
            forall|j: int| 0 <= j < snake@.len() ==> on_grid(#[trigger] snake@[j]),
            forall|i: int|
                0 <= i < screen_buffer@.len() ==> #[trigger] screen_buffer@[i] == (if occupies_before(
                    snake@,
                    k as int,
                    i,
                ) {
                    CELL_BODY
                } else {
                    old(screen_buffer)@[i]
                }),
        decreases snake@.len() - k,
    {
        let segment = snake[k];
        assert(on_grid(snake@[k as int]));
        let index = calculate_index(segment.x, segment.y);
        screen_buffer.set(index, CELL_BODY);
        proof {
            assert forall|i: int| 0 <= i < screen_buffer@.len() implies #[trigger] screen_buffer@[i]
                == (if occupies_before(snake@, k + 1, i) {
                CELL_BODY
            } else {
                old(screen_buffer)@[i]
            }) by {
                if i == index {
                    assert(cell_index(snake@[k as int]) == i);
                } else if occupies_before(snake@, k + 1, i) {
                    let w = choose|w: int|
                        0 <= w < k + 1 && w < snake@.len() && #[trigger] cell_index(snake@[w])
                            == i;
                    assert(w < k);
                    assert(occupies_before(snake@, k as int, i));
                }
            }
        }
        k += 1;
    }
    let head = snake[0];
    assert(on_grid(snake@[0]));
    let head_index = calculate_index(head.x, head.y);
    screen_buffer.set(head_index, CELL_HEAD);
    let food_index = calculate_index(food.x, food.y);
    screen_buffer.set(food_index, CELL_FOOD);
    assert(screen_buffer@ =~= stamped(old(screen_buffer)@, snake@, *food));
}

/// After a wipe every cell of the playable interior is blank, whatever it
/// held before.
pub proof fn lemma_wipe_blanks_the_interior(buffer: Seq<u8>, x: int, y: int)
    requires
        is_screen(buffer),
        in_interior(x, y),
    ensures
        cleared(buffer)[index_of(x, y)] == CELL_BLANK,
        free_at(cleared(buffer), x, y),
{
}

/// No mark outlives its frame: a wipe takes away what was stamped for a
/// snake and a food that lie in the playable interior. The buffer is then
/// what a wipe alone would have made of it.
pub proof fn lemma_wipe_undoes_the_stamp(buffer: Seq<u8>, snake: Seq<Position>, food: Position)
    requires
        is_screen(buffer),
        snake.len() >= 1,
        forall|k: int|
            0 <= k < snake.len() ==> in_interior(
                (#[trigger] snake[k]).x as int,
                snake[k].y as int,
            ),
        in_interior(food.x as int, food.y as int),
    ensures
        cleared(stamped(buffer, snake, food)) == cleared(buffer),
        cleared(buffer) == buffer ==> cleared(stamped(buffer, snake, food)) == buffer,
{
    let after = cleared(stamped(buffer, snake, food));
    assert forall|i: int| 0 <= i < buffer.len() implies after[i] == cleared(buffer)[i] by {
        let x = i % (SCREEN_WIDTH as int);
        let y = i / (SCREEN_WIDTH as int);
        if !in_interior(x, y) {
            assert(i != cell_index(food));
            assert(i != cell_index(snake[0]));
            if occupies(snake, i) {
                let k = choose|k: int|
                    0 <= k < snake.len() && k < snake.len() && #[trigger] cell_index(snake[k])
                        == i;
                assert(in_interior(snake[k].x as int, snake[k].y as int));
            }
        }
    }
    assert(after =~= cleared(buffer));
}

/// A cell of the buffer that looks free holds no segment of the snake that
/// was stamped on it, and not the food either.
pub proof fn lemma_free_cell_is_unoccupied(
    buffer: Seq<u8>,
    snake: Seq<Position>,
    food: Position,
    p: Position,
)
    requires
        is_screen(buffer),
        snake.len() >= 1,
        forall|k: int| 0 <= k < snake.len() ==> on_grid(#[trigger] snake[k]),
        on_grid(food),
        free_at(stamped(buffer, snake, food), p.x as int, p.y as int),
    ensures
        !snake.contains(p),
        p != food,
{
    let i = cell_index(p);
    if snake.contains(p) {
        let k = choose|k: int| 0 <= k < snake.len() && snake[k] == p;
        assert(cell_index(snake[k]) == i);
        assert(occupies(snake, i));
    }
}

/// Takes a drawn coordinate and tells whether food may go there: it gives the
/// cell back if it is a blank cell of the playable interior, and nothing
/// otherwise.
pub fn check_position(screen_buffer: &Vec<u8>, x: usize, y: usize) -> (r: Option<Position>)
    requires
        is_screen(screen_buffer@),
    ensures
        r == (if free_at(screen_buffer@, x as int, y as int) {
            Some(Position { x, y })
        } else {
            None
        }),
{
    if x < 1 || x > SCREEN_WIDTH - 2 || y < 1 || y > SCREEN_HEIGHT - 2 {
        return None;
    }
    let index = calculate_index(x, y);
    if screen_buffer[index] == CELL_BLANK {
        Some(Position { x, y })
    } else {
        None
    }
}

/// The first blank cell of the playable interior, reading row by row, or
/// nothing if the interior has no blank cell.
pub fn first_empty_position(screen_buffer: &Vec<u8>) -> (r: Option<Position>)
    requires
        is_screen(screen_buffer@),
    ensures
        r.is_some() <==> has_free_cell(screen_buffer@),
        r.is_some() ==> free_at(screen_buffer@, r.unwrap().x as int, r.unwrap().y as int),
        r.is_some() ==> forall|x: int, y: int|
            comes_before(x, y, r.unwrap().x as int, r.unwrap().y as int) ==> !free_at(
                screen_buffer@,
                x,
                y,
            ),
{
    let mut y: usize = 1;
    while y < SCREEN_HEIGHT - 1
        invariant
            1 <= y <= SCREEN_HEIGHT - 1,
            is_screen(screen_buffer@),
            forall|cx: int, cy: int| cy < y ==> !free_at(screen_buffer@, cx, cy),
        decreases SCREEN_HEIGHT - y,
    {
        let mut x: usize = 1;
        while x < SCREEN_WIDTH - 1
            invariant
                1 <= y < SCREEN_HEIGHT - 1,
                1 <= x <= SCREEN_WIDTH - 1,
                is_screen(screen_buffer@),
                forall|cx: int, cy: int|
                    comes_before(cx, cy, x as int, y as int) ==> !free_at(screen_buffer@, cx, cy),
            decreases SCREEN_WIDTH - x,
        {
            let found = check_position(screen_buffer, x, y);
            if found.is_some() {
                return found;
            }
            x += 1;
        }
        y += 1;
    }
    None
}

/// The random number generator of the `rand` crate that is local to a thread.
#[verifier::external_type_specification]
#[verifier::external_body]
pub struct ExThreadRng(ThreadRng);

/// Calls `Rng::gen_range` of the `rand` crate on the half-open range from
/// `low` to `high`. The crate panics on an empty range, which `requires`
/// leaves out. Of the number drawn only this is claimed: it lies in the range.
#[verifier::external_body]
fn draw_below(rng: &mut ThreadRng, low: usize, high: usize) -> (r: usize)
    requires
        low < high,
    ensures
        low <= r < high,
{
    rng.gen_range(low..high)
}

/// Finds a blank cell of the playable interior for the food. It draws random
/// interior coordinates until one is blank; after a fixed number of draws it
/// reads the grid row by row instead. It gives nothing only if the interior
/// has no blank cell.
pub fn find_empty_position(screen_buffer: &Vec<u8>, rng: &mut ThreadRng) -> (r: Option<Position>)
    requires
        is_screen(screen_buffer@),
    ensures
        r.is_some() <==> has_free_cell(screen_buffer@),
        r.is_some() ==> free_at(screen_buffer@, r.unwrap().x as int, r.unwrap().y as int),
{
    let mut draws: usize = 0;
    while draws < MAX_DRAWS
        invariant
            draws <= MAX_DRAWS,
            is_screen(screen_buffer@),
        decreases MAX_DRAWS - draws,
    {
        let x = draw_below(rng, 1, SCREEN_WIDTH - 1);
        let y = draw_below(rng, 1, SCREEN_HEIGHT - 1);
        let found = check_position(screen_buffer, x, y);
        if found.is_some() {
            return found;
        }
        draws += 1;
    }
    first_empty_position(screen_buffer)
}

} // verus!
