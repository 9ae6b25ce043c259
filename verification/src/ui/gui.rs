//! What the graphical presentation decides: which event an input stands
//! for, which cell a pixel belongs to, and where the grid and the marks are
//! drawn. The window itself is not here: its size comes in as numbers.

use vstd::prelude::*;
use crate::game_field::{GameField, GameFieldView, State, StateView};
use crate::ui::ui_base::Event;

verus! {

/// The padding in pixels that is kept free around a text where the window
/// is large enough.
pub const TEXT_PADDING: u32 = 64;

/// A key of the keyboard, as far as the game tells keys apart.
#[derive(Clone, Copy, PartialEq, Eq, Debug, Structural)]
pub enum Key {
    R,
    Other,
}

/// What the window reports, as far as the game reads it.
#[derive(Clone, Copy, PartialEq, Eq, Debug, Structural)]
pub enum Input {
    /// The window is to be closed.
    Quit,
    /// A key went down.
    KeyDown(Key),
    /// A mouse button went down at this pixel.
    MouseButtonDown { x: i32, y: i32 },
    /// Anything else.
    Other,
}

/// The quotient of `a` by a positive `b`, rounded toward zero.
pub open spec fn toward_zero(a: int, b: int) -> int {
    if a >= 0 {
        a / b
    } else {
        -((-a) / b)
    }
}

/// A signed number as an index: itself where it is not negative. A negative
/// number becomes an index that is larger than any board, the one that the
/// conversion of machine integers gives.
pub open spec fn as_index(n: int) -> int {
    if n >= 0 {
        n
    } else {
        n + usize::MAX + 1
    }
}

/// The number of pixels that one cell takes of `length` pixels shared by
/// `size` cells. What is left over belongs to no cell.
pub open spec fn cell_extent(length: u32, size: nat) -> int {
    length as int / size as int
}

/// A window of this width and height gives every one of `size` rows and
/// columns at least one pixel, and the numbers fit the machine integers
/// that hold them.
pub open spec fn can_locate(width: u32, height: u32, size: nat) -> bool {
    &&& 0 < size <= u32::MAX
    &&& 0 < cell_extent(width, size) <= i32::MAX
    &&& 0 < cell_extent(height, size) <= i32::MAX
}

/// The row and column that the pixel at `x` and `y` belongs to. A pixel to
/// the right of or below the last cell gives an index that is not on the
/// board, and so does a pixel a whole cell or more to the left of or above
/// the window.
pub open spec fn point_at(x: i32, y: i32, width: u32, height: u32, size: nat) -> (usize, usize) {
    (
        as_index(toward_zero(y as int, cell_extent(height, size))) as usize,
        as_index(toward_zero(x as int, cell_extent(width, size))) as usize,
    )
}

/// The event that `input` stands for on `board`, if it stands for one.
/// Closing the window quits. The key `R` restarts. A click asks for the
/// cell under it while the game is going on; once the game is won or drawn
/// a click restarts. Other input stands for no event.
pub open spec fn event_for(input: Input, board: GameFieldView, width: u32, height: u32) -> Option<
    Event,
> {
    match input {
        Input::Quit => Some(Event::Quit),
        Input::KeyDown(key) => if key == Key::R {
            Some(Event::Restart)
        } else {
            None
        },
        Input::MouseButtonDown { x, y } => if board.state() == StateView::Playing {
            Some(Event::Point(point_at(x, y, width, height, board.size())))
        } else {
            Some(Event::Restart)
        },
        Input::Other => None,
    }
}

/// Converts a signed number to an index.
fn to_index(n: i32) -> (index: usize)
    ensures
        index == as_index(n as int),
{
    if n >= 0 {
        n as usize
    } else {
        usize::MAX - ((-(n + 1)) as usize)
    }
}

/// Returns whether a click can be given a cell on a board of `size` rows
/// and columns in a window of this width and height.
pub fn is_locatable(width: u32, height: u32, size: usize) -> (ok: bool)
    ensures
        ok == can_locate(width, height, size as nat),
{
    if size == 0 || size > u32::MAX as usize {
        return false;
    }
    let rect_width = width / size as u32;
    let rect_height = height / size as u32;
    0 < rect_width && rect_width <= i32::MAX as u32 && 0 < rect_height && rect_height
        <= i32::MAX as u32
}

/// Returns the row and column that the pixel at `x` and `y` belongs to.
pub fn coordinates_as_point(x: i32, y: i32, width: u32, height: u32, size: usize) -> (point: (
    usize,
    usize,
))
    requires
        can_locate(width, height, size as nat),
    ensures
        point == point_at(x, y, width, height, size as nat),
{
    let rect_width = width / size as u32;
    let rect_height = height / size as u32;
    let column = x / rect_width as i32;
    let row = y / rect_height as i32;
    (to_index(row), to_index(column))
}

/// Returns the event that `input` stands for, or `None` where the next
/// input is to be looked at.
pub fn process_input(input: Input, game_field: &GameField, width: u32, height: u32) -> (event:
    Option<Event>)
    requires
        input is MouseButtonDown && game_field@.state() == StateView::Playing ==> can_locate(
            width,
            height,
            game_field@.size(),
        ),
    ensures
        event == event_for(input, game_field@, width, height),
{
    match input {
        Input::Quit => Some(Event::Quit),
        Input::KeyDown(key) => {
            if key == Key::R {
                return Some(Event::Restart);
            }
            None
        },
        Input::MouseButtonDown { x, y } => match game_field.get_state() {
            State::Playing => Some(
                Event::Point(coordinates_as_point(x, y, width, height, game_field.size())),
            ),
            State::Draw | State::Winner(_) => Some(Event::Restart),
        },
        Input::Other => None,
    }
}

/// Returns the number of pixels that one cell takes of `length` pixels
/// shared by `size` cells.
pub fn cell_size(length: u32, size: usize) -> (extent: u32)
    requires
        0 < size <= u32::MAX,
    ensures
        extent == cell_extent(length, size as nat),
{
    length / size as u32
}

/// Returns how far from the left or upper edge the cell with this index
/// begins: `index` times the extent of a cell. The grid line between this
/// cell and the one before it runs there.
pub fn cell_offset(length: u32, size: usize, index: usize) -> (offset: u32)
    requires
        0 < size <= u32::MAX,
        index <= size,
    ensures
        offset == cell_extent(length, size as nat) * index,
        offset <= length,
{
    let extent = length / size as u32;
    assert(extent * index <= length) by (nonlinear_arith)
        requires
            extent == length as int / size as int,
            0 <= index <= size,
            0 < size,
    ;
    extent * index as u32
}

/// Returns how far from the edge of a cell its middle lies: half the extent
/// of a cell, rounded down.
pub fn cell_middle(length: u32, size: usize) -> (middle: u32)
    requires
        0 < size <= u32::MAX,
    ensures
        middle == cell_extent(length, size as nat) / 2,
{
    length / size as u32 / 2
}

/// Returns the radius of a mark in a cell of this width and height: two
/// tenths of the smaller of the two, rounded down.
pub fn mark_radius(cell_width: u32, cell_height: u32) -> (radius: u32)
    requires
        2 * cell_width <= u32::MAX || 2 * cell_height <= u32::MAX,
    ensures
        radius == (if cell_height <= cell_width {
            cell_height
        } else {
            cell_width
        }) * 2 / 10,
{
    let smaller = if cell_height <= cell_width {
        cell_height
    } else {
        cell_width
    };
    smaller * 2 / 10
}

/// Returns the padding that is kept free around a text in a window of this
/// width and height: 64 pixels, or the smaller of width and height where
/// one of them is under 64.
pub fn text_padding(width: u32, height: u32) -> (padding: u32)
    ensures
        padding == (if width < TEXT_PADDING || height < TEXT_PADDING {
            if width <= height {
                width
            } else {
                height
            }
        } else {
            TEXT_PADDING
        }),
        padding <= width,
        padding <= height,
{
    let mut padding = TEXT_PADDING;
    if width < padding || height < padding {
        padding = if width <= height {
            width
        } else {
            height
        };
    }
    padding
}

} // verus!
