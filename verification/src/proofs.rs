//! What holds of every board and of every game.

use vstd::prelude::*;
use crate::game::{fresh_field, GameView, BOARD_SIZE};
use crate::game_field::{empty_cells, empty_line, uniform, wins, GameFieldView, StateView};
use crate::player::{PlayerView, Sign};
use crate::ui::ui_base::Event;

verus! {

/// A line of empty cells never wins, however many cells it has.
pub proof fn lemma_empty_line_never_wins(line: Seq<Sign>)
    requires
        uniform(line, Sign::Empty),
    ensures
        !wins(line),
{
    if line.len() > 0 {
        assert(line[0] == Sign::Empty);
    }
}

/// A line without cells never wins.
pub proof fn lemma_line_without_cells_never_wins(line: Seq<Sign>)
    requires
        line.len() == 0,
    ensures
        !wins(line),
{
}

/// A board without cells has no winner and no empty cell: its state is
/// `Draw`, and no move changes it.
pub proof fn lemma_board_without_cells_is_drawn(board: GameFieldView, row: int, col: int)
    requires
        board.size() == 0,
    ensures
        !board.has_winner(),
        board.is_draw(),
        board.state() == StateView::Draw,
        board.set_sign(row, col) == board,
{
}

/// A row that holds one player's sign in every cell wins the game.
pub proof fn lemma_full_row_wins(board: GameFieldView, r: int, sign: Sign)
    requires
        board.wf(),
        0 <= r < board.size(),
        sign != Sign::Empty,
        uniform(board.row(r), sign),
    ensures
        board.has_winner(),
{
    assert(board.cells[r].len() == board.size());
    assert(wins(board.row(r)));
}

/// A column that holds one player's sign in every cell wins the game.
pub proof fn lemma_full_column_wins(board: GameFieldView, c: int, sign: Sign)
    requires
        0 <= c < board.size(),
        sign != Sign::Empty,
        uniform(board.column(c), sign),
    ensures
        board.has_winner(),
{
    assert(wins(board.column(c)));
}

/// On a board that has cells, a diagonal that holds one player's sign in
/// every cell wins the game.
pub proof fn lemma_full_diagonal_wins(board: GameFieldView, sign: Sign)
    requires
        board.size() > 0,
        sign != Sign::Empty,
        uniform(board.diagonal(), sign) || uniform(board.anti_diagonal(), sign),
    ensures
        board.has_winner(),
{
}

/// A board that starts a game is empty, has the first of its two players
/// active and has no winner, whatever its size. If it has a cell at all it
/// is in the state `Playing`; without cells it is drawn.
pub proof fn lemma_start_is_playing(size: nat, players: (PlayerView, PlayerView))
    ensures
        GameFieldView::start(size, players).size() == size,
        forall|r: int, c: int|
            0 <= r < size && 0 <= c < size ==> GameFieldView::start(size, players).cells[r][c]
                == Sign::Empty,
        GameFieldView::start(size, players).active_player() == players.0.with_active(true),
        !GameFieldView::start(size, players).has_winner(),
        size > 0 ==> !GameFieldView::start(size, players).is_draw(),
        size > 0 ==> GameFieldView::start(size, players).state() == StateView::Playing,
        size == 0 ==> GameFieldView::start(size, players).state() == StateView::Draw,
{
    let board = GameFieldView::start(size, players);
    assert(board.cells == empty_cells(size));
    assert forall|r: int| 0 <= r < size implies !wins(#[trigger] board.row(r)) by {
        assert(board.row(r) == empty_line(size));
        assert(board.row(r)[0] == Sign::Empty);
    }
    assert forall|c: int| 0 <= c < size implies !wins(#[trigger] board.column(c)) by {
        assert(board.cells[0] == empty_line(size));
        assert(board.column(c)[0] == Sign::Empty);
    }
    if size > 0 {
        assert(board.cells[0] == empty_line(size));
        assert(board.cells[size - 1] == empty_line(size));
        assert(board.diagonal()[0] == Sign::Empty);
        assert(board.anti_diagonal()[0] == Sign::Empty);
        assert(board.cells[0][0] == Sign::Empty);
        assert(!board.is_draw());
    }
}

/// A board that starts a game is well formed if its two players are.
pub proof fn lemma_start_is_well_formed(size: nat, players: (PlayerView, PlayerView))
    requires
        players.0.wf(),
        players.1.wf(),
    ensures
        GameFieldView::start(size, players).wf(),
{
}

/// Asking for a cell that is taken changes nothing: not the grid, and not
/// whose turn it is.
pub proof fn lemma_taken_cell_is_refused(board: GameFieldView, row: int, col: int)
    requires
        board.in_bounds(row, col),
        board.cells[row][col] != Sign::Empty,
    ensures
        board.set_sign(row, col) == board,
{
}

/// Asking for a cell outside the grid changes nothing.
pub proof fn lemma_outside_is_refused(board: GameFieldView, row: int, col: int)
    requires
        row >= board.size() || col >= board.size(),
    ensures
        board.set_sign(row, col) == board,
{
}

/// Once a game is won no cell is given out any more.
pub proof fn lemma_won_board_is_final(board: GameFieldView, row: int, col: int)
    requires
        board.has_winner(),
    ensures
        board.set_sign(row, col) == board,
{
}

/// Whether a board has a winner, and whether it is full, depends on its
/// cells alone.
pub proof fn lemma_cells_decide(a: GameFieldView, b: GameFieldView)
    requires
        a.cells == b.cells,
    ensures
        a.has_winner() == b.has_winner(),
        a.is_draw() == b.is_draw(),
{
    assert forall|r: int| a.row(r) == b.row(r) by {}
    assert forall|c: int| a.column(c) == b.column(c) by {}
    assert(a.diagonal() == b.diagonal());
    assert(a.anti_diagonal() == b.anti_diagonal());
    if a.row_wins() {
        let r = choose|r: int| 0 <= r < a.size() && wins(#[trigger] a.row(r));
        assert(wins(b.row(r)));
    }
    if b.row_wins() {
        let r = choose|r: int| 0 <= r < b.size() && wins(#[trigger] b.row(r));
        assert(wins(a.row(r)));
    }
    if a.column_wins() {
        let c = choose|c: int| 0 <= c < a.size() && wins(#[trigger] a.column(c));
        assert(wins(b.column(c)));
    }
    if b.column_wins() {
        let c = choose|c: int| 0 <= c < b.size() && wins(#[trigger] b.column(c));
        assert(wins(a.column(c)));
    }
}

/// An accepted mark writes the active player's sign into the cell asked
/// for, and into no other cell. The sign is not `Empty`.
pub proof fn lemma_accepted_mark(board: GameFieldView, row: int, col: int)
    requires
        board.wf(),
        board.accepts(row, col),
    ensures
        board.set_sign(row, col).cells == board.with_cell(
            row,
            col,
            board.active_player().sign,
        ).cells,
        board.set_sign(row, col).cells[row][col] == board.active_player().sign,
        board.active_player().sign != Sign::Empty,
{
}

/// A move keeps the board well formed and keeps its size.
pub proof fn lemma_set_sign_keeps_well_formed(board: GameFieldView, row: int, col: int)
    requires
        board.wf(),
    ensures
        board.set_sign(row, col).wf(),
        board.set_sign(row, col).size() == board.size(),
{
    if board.accepts(row, col) {
        let marked = board.with_cell(row, col, board.active_player().sign);
        assert forall|r: int| 0 <= r < marked.cells.len() implies (#[trigger] marked.cells[r]).len()
            == marked.cells.len() by {
            assert(board.cells[r].len() == board.cells.len());
        }
    }
}

/// Passing the turn keeps the board well formed, and passing it twice
/// gives it back.
pub proof fn lemma_swap_player(board: GameFieldView)
    requires
        board.wf(),
    ensures
        board.swap_player().wf(),
        board.swap_player().cells == board.cells,
        board.swap_player().active_player().active,
        board.swap_player().swap_player() == board,
{
    assert(board.swap_player().swap_player() =~~= board);
}

/// A cell that holds a player's sign holds it after every move: no move
/// empties a cell or gives it to the other player.
pub proof fn lemma_marks_stay(board: GameFieldView, row: int, col: int, r: int, c: int)
    requires
        board.wf(),
        board.in_bounds(r, c),
        board.cells[r][c] != Sign::Empty,
    ensures
        board.set_sign(row, col).cells[r][c] == board.cells[r][c],
{
    assert(board.cells[r].len() == board.size());
}

/// After a move that wins, the state is `Winner` with the player who made
/// that move: the turn does not pass.
pub proof fn lemma_winner_made_the_last_move(board: GameFieldView, row: int, col: int)
    requires
        board.wf(),
        board.accepts(row, col),
        board.set_sign(row, col).has_winner(),
    ensures
        board.set_sign(row, col).players == board.players,
        board.set_sign(row, col).state() == StateView::Winner(board.active_player()),
{
    let marked = board.with_cell(row, col, board.active_player().sign);
    if !marked.has_winner() {
        lemma_cells_decide(marked, marked.swap_player());
    }
}

/// After an accepted move that does not win, the turn has passed to the
/// other player.
pub proof fn lemma_turn_passes(board: GameFieldView, row: int, col: int)
    requires
        board.wf(),
        board.accepts(row, col),
        !board.set_sign(row, col).has_winner(),
    ensures
        board.set_sign(row, col).players.0 == board.players.0.with_active(!board.players.0.active),
        board.set_sign(row, col).players.1 == board.players.1.with_active(!board.players.1.active),
        board.set_sign(row, col).active_player().active,
{
    let marked = board.with_cell(row, col, board.active_player().sign);
    if marked.has_winner() {
        assert(board.set_sign(row, col) == marked);
    }
}

/// A board without an empty cell and without a winning line is a draw.
pub proof fn lemma_full_board_without_winner_is_draw(board: GameFieldView)
    requires
        board.is_draw(),
        !board.has_winner(),
    ensures
        board.state() == StateView::Draw,
{
}

/// The board of a new game and of a new round is three by three and empty,
/// player 1, whose sign is `X`, has the turn, and the state is `Playing`.
pub proof fn lemma_fresh_field()
    ensures
        fresh_field().wf(),
        fresh_field().size() == BOARD_SIZE,
        forall|r: int, c: int|
            0 <= r < BOARD_SIZE && 0 <= c < BOARD_SIZE ==> fresh_field().cells[r][c] == Sign::Empty,
        fresh_field().active_player() == PlayerView::fresh(1).with_active(true),
        fresh_field().active_player().sign == Sign::X,
        fresh_field().state() == StateView::Playing,
{
    let players = (PlayerView::fresh(1), PlayerView::fresh(2));
    lemma_start_is_playing(BOARD_SIZE as nat, players);
    lemma_start_is_well_formed(BOARD_SIZE as nat, players);
}

/// `Restart` puts the fresh board in place of whatever board the game had:
/// no mark of the old round is left, and player 1 has the turn. It does not
/// start or stop the game.
pub proof fn lemma_restart_resets(game: GameView)
    ensures
        game.update(Event::Restart).field == fresh_field(),
        game.update(Event::Restart).active == game.active,
        game.update(Event::Restart).mode == game.mode,
{
}

/// Only `Quit` stops a game: after any other event it runs if it ran
/// before.
pub proof fn lemma_only_quit_stops(game: GameView, event: Event)
    ensures
        game.update(event).active == (game.active && event != Event::Quit),
{
}

/// The board of a game that started on the fresh board is well formed and
/// three by three after every event.
pub proof fn lemma_update_keeps_board(game: GameView, event: Event)
    requires
        game.field.wf(),
        game.field.size() == BOARD_SIZE,
    ensures
        game.update(event).field.wf(),
        game.update(event).field.size() == BOARD_SIZE,
{
    match event {
        Event::Point(point) => {
            lemma_set_sign_keeps_well_formed(game.field, point.0 as int, point.1 as int);
        },
        Event::Restart => {
            lemma_fresh_field();
        },
        _ => {},
    }
}

} // verus!
