//! The board: the grid, whose turn it is, and who has won.

use vstd::prelude::*;
use crate::player::{Player, PlayerView, Sign};

verus! {

/// The grid as it is stored: one vector of cells per row.
pub type Field = Vec<Vec<Sign>>;

/// Every cell of `line` holds `sign`.
pub open spec fn uniform(line: Seq<Sign>, sign: Sign) -> bool {
    forall|i: int| 0 <= i < line.len() ==> line[i] == sign
}

/// A line wins when it has cells and all of them hold `X` or all of them
/// hold `O`. A line of empty cells wins nothing, and neither does a line
/// without cells.
pub open spec fn wins(line: Seq<Sign>) -> bool {
    line.len() > 0 && (uniform(line, Sign::O) || uniform(line, Sign::X))
}

/// The cells of a stored grid, row by row.
pub open spec fn grid(field: Seq<Vec<Sign>>) -> Seq<Seq<Sign>> {
    Seq::new(field.len(), |r: int| field[r]@)
}

/// A line of `size` empty cells.
pub open spec fn empty_line(size: nat) -> Seq<Sign> {
    Seq::new(size, |c: int| Sign::Empty)
}

/// A grid of `size` rows of `size` empty cells.
pub open spec fn empty_cells(size: nat) -> Seq<Seq<Sign>> {
    Seq::new(size, |r: int| empty_line(size))
}

/// What a board is: its cells, row by row, and its two players.
#[verifier::ext_equal]
pub struct GameFieldView {
    pub cells: Seq<Seq<Sign>>,
    pub players: (PlayerView, PlayerView),
}

/// What the state of a board is.
pub enum StateView {
    Playing,
    Draw,
    Winner(PlayerView),
}

impl GameFieldView {
    /// The number of rows, which is also the number of columns.
    pub open spec fn size(self) -> nat {
        self.cells.len()
    }

    /// The grid is square, both players are well formed and exactly one of
    /// them has the turn.
    pub open spec fn wf(self) -> bool {
        &&& forall|r: int|
            0 <= r < self.cells.len() ==> (#[trigger] self.cells[r]).len() == self.cells.len()
        &&& self.players.0.wf()
        &&& self.players.1.wf()
        &&& self.players.0.active != self.players.1.active
    }

    /// The board a game starts on: `size` by `size` empty cells, the first of
    /// the two players active and the second not.
    pub open spec fn start(size: nat, players: (PlayerView, PlayerView)) -> GameFieldView {
        GameFieldView {
            cells: empty_cells(size),
            players: (players.0.with_active(true), players.1.with_active(false)),
        }
    }

    /// `row` and `col` name a cell of the grid.
    pub open spec fn in_bounds(self, row: int, col: int) -> bool {
        0 <= row < self.size() && 0 <= col < self.size()
    }

    /// The player whose turn it is.
    pub open spec fn active_player(self) -> PlayerView {
        if self.players.1.active {
            self.players.1
        } else {
            self.players.0
        }
    }

    /// Row `r`, from left to right.
    pub open spec fn row(self, r: int) -> Seq<Sign> {
        self.cells[r]
    }

    /// Column `c`, from top to bottom.
    pub open spec fn column(self, c: int) -> Seq<Sign> {
        Seq::new(self.size(), |r: int| self.cells[r][c])
    }

    /// The diagonal from the top left to the bottom right.
    pub open spec fn diagonal(self) -> Seq<Sign> {
        Seq::new(self.size(), |i: int| self.cells[i][i])
    }

    /// The diagonal from the bottom left to the top right.
    pub open spec fn anti_diagonal(self) -> Seq<Sign> {
        Seq::new(self.size(), |i: int| self.cells[self.size() - i - 1][i])
    }

    /// Some row wins.
    pub open spec fn row_wins(self) -> bool {
        exists|r: int| 0 <= r < self.size() && wins(#[trigger] self.row(r))
    }

    /// Some column wins.
    pub open spec fn column_wins(self) -> bool {
        exists|c: int| 0 <= c < self.size() && wins(#[trigger] self.column(c))
    }

    /// One of the two diagonals wins.
    pub open spec fn diagonal_wins(self) -> bool {
        wins(self.diagonal()) || wins(self.anti_diagonal())
    }

    /// A row, a column or a diagonal wins.
    pub open spec fn has_winner(self) -> bool {
        self.row_wins() || self.column_wins() || self.diagonal_wins()
    }

    /// No cell is empty.
    pub open spec fn is_draw(self) -> bool {
        forall|r: int, c: int|
            0 <= r < self.cells.len() && 0 <= c < self.cells[r].len() ==> #[trigger] self.cells[r][c]
                != Sign::Empty
    }

    /// The state of the game: won by the active player, drawn, or going on.
    /// A board without cells has no winner and no empty cell: it is drawn.
    pub open spec fn state(self) -> StateView {
        if self.has_winner() {
            StateView::Winner(self.active_player())
        } else if self.is_draw() {
            StateView::Draw
        } else {
            StateView::Playing
        }
    }

    /// The board with `sign` written into the cell at `row` and `col`.
    pub open spec fn with_cell(self, row: int, col: int, sign: Sign) -> GameFieldView {
        GameFieldView {
            cells: self.cells.update(row, self.cells[row].update(col, sign)),
            players: self.players,
        }
    }

    /// The board with the turn passed to the other player.
    pub open spec fn swap_player(self) -> GameFieldView {
        GameFieldView {
            cells: self.cells,
            players: (
                self.players.0.with_active(!self.players.0.active),
                self.players.1.with_active(!self.players.1.active),
            ),
        }
    }

    /// A mark is accepted at `row` and `col`: nobody has won, the cell
    /// exists and it is empty.
    pub open spec fn accepts(self, row: int, col: int) -> bool {
        &&& !self.has_winner()
        &&& self.in_bounds(row, col)
        &&& self.cells[row][col] == Sign::Empty
    }

    /// The board after the active player asks for the cell at `row` and
    /// `col`. Where the mark is not accepted the board stays as it is.
    /// Otherwise the cell takes the active player's sign, and the turn
    /// passes to the other player unless that mark has won the game.
    pub open spec fn set_sign(self, row: int, col: int) -> GameFieldView {
        if !self.accepts(row, col) {
            self
        } else {
            let marked = self.with_cell(row, col, self.active_player().sign);
            if marked.has_winner() {
                marked
            } else {
                marked.swap_player()
            }
        }
    }
}

/// The state of a game.
pub enum State {
    Playing,
    Draw,
    Winner(Player),
}

impl View for State {
    type V = StateView;

    open spec fn view(&self) -> StateView {
        match *self {
            State::Playing => StateView::Playing,
            State::Draw => StateView::Draw,
            State::Winner(p) => StateView::Winner(p@),
        }
    }
}

/// The board of one game.
pub struct GameField {
    field: Field,
    players: [Player; 2],
}

impl View for GameField {
    type V = GameFieldView;

    closed spec fn view(&self) -> GameFieldView {
        GameFieldView { cells: grid(self.field@), players: (self.players[0]@, self.players[1]@) }
    }
}

/// Returns a row of `size` empty cells.
fn empty_row(size: usize) -> (row: Vec<Sign>)
    ensures
        row@ == empty_line(size as nat),
{
    let mut row: Vec<Sign> = Vec::new();
    let mut c: usize = 0;
    while c < size
        invariant
            c <= size,
            row@ == empty_line(c as nat),
        decreases size - c,
    {
        row.push(Sign::Empty);
        c = c + 1;
        assert(row@ =~= empty_line(c as nat));
    }
    row
}

/// Returns whether `line` has cells and every one of them holds `sign`.
fn check_line(line: &Vec<Sign>, sign: Sign) -> (all: bool)
    ensures
        all == (line@.len() > 0 && uniform(line@, sign)),
{
    if line.len() == 0 {
        return false;
    }
    let mut i: usize = 0;
    while i < line.len()
        invariant
            i <= line.len(),
            forall|j: int| 0 <= j < i ==> line@[j] == sign,
        decreases line.len() - i,
    {
        if line[i] != sign {
            return false;
        }
        i = i + 1;
    }
    true
}

/// Returns whether `line` wins.
fn check_lines(line: &Vec<Sign>) -> (won: bool)
    ensures
        won == wins(line@),
{
    check_line(line, Sign::O) || check_line(line, Sign::X)
}

/// Writes `sign` into the cell at `row` and `col` of a stored grid.
fn write_cell(field: &mut Field, row: usize, col: usize, sign: Sign)
    requires
        row < old(field)@.len(),
        col < old(field)@[row as int]@.len(),
    ensures
        final(field)@.len() == old(field)@.len(),
        forall|r: int|
            0 <= r < old(field)@.len() && r != row ==> (#[trigger] final(field)@[r])@ == old(
                field,
            )@[r]@,
        final(field)@[row as int]@ == old(field)@[row as int]@.update(col as int, sign),
{
    field[row][col] = sign;
}

impl GameField {
    /// Every board that exists is well formed.
    #[verifier::type_invariant]
    pub open spec fn well_formed(self) -> bool {
        self@.wf()
    }

    /// Makes an empty board of `size` rows and columns for the two players,
    /// and gives the turn to the first of them.
    pub fn new(size: usize, new_players: [Player; 2]) -> (board: GameField)
        ensures
            board@ == GameFieldView::start(size as nat, (new_players[0]@, new_players[1]@)),
            board@.wf(),
    {
        let mut first = new_players[0];
        let mut second = new_players[1];
        proof {
            use_type_invariant(&first);
            use_type_invariant(&second);
        }
        first.activate();
        second.deactivate();
        let mut field: Field = Vec::new();
        let mut r: usize = 0;
        while r < size
            invariant
                r <= size,
                field@.len() == r,
                forall|j: int| 0 <= j < r ==> (#[trigger] field@[j])@ == empty_line(size as nat),
            decreases size - r,
        {
            let row = empty_row(size);
            field.push(row);
            r = r + 1;
        }
        assert(grid(field@) =~= empty_cells(size as nat));
        GameField { field, players: [first, second] }
    }

    /// The number of rows, which is also the number of columns.
    pub fn size(&self) -> (n: usize)
        ensures
            n == self@.size(),
    {
        self.field.len()
    }

    /// The grid, one vector of cells per row.
    pub fn get_field(&self) -> (field: &Field)
        ensures
            grid(field@) == self@.cells,
            self@.wf(),
    {
        proof {
            use_type_invariant(self);
        }
        &self.field
    }

    /// The player whose turn it is.
    pub fn active_player(&self) -> (p: &Player)
        ensures
            p@ == self@.active_player(),
    {
        if self.players[1].is_active() {
            return &self.players[1];
        }
        &self.players[0]
    }

    /// Returns whether `row` and `col` name a cell of the grid.
    fn sign_is_valid(&self, row: usize, col: usize) -> (valid: bool)
        ensures
            valid == self@.in_bounds(row as int, col as int),
    {
        row < self.field.len() && col < self.field.len()
    }

    /// Returns the cells of column `c`, from top to bottom.
    fn column(&self, c: usize) -> (line: Vec<Sign>)
        requires
            c < self@.size(),
        ensures
            line@ == self@.column(c as int),
    {
        proof {
            use_type_invariant(self);
        }
        let mut line: Vec<Sign> = Vec::new();
        let mut r: usize = 0;
        while r < self.field.len()
            invariant
                self@.wf(),
                c < self@.size(),
                r <= self.field.len(),
                line@.len() == r,
                forall|j: int| 0 <= j < r ==> line@[j] == self@.cells[j][c as int],
            decreases self.field.len() - r,
        {
            assert(self@.cells[r as int].len() == self@.size());
            line.push(self.field[r][c]);
            r = r + 1;
        }
        assert(line@ =~= self@.column(c as int));
        line
    }

    /// Returns whether some row wins.
    fn check_rows(&self) -> (won: bool)
        ensures
            won == self@.row_wins(),
    {
        let mut r: usize = 0;
        while r < self.field.len()
            invariant
                r <= self.field.len(),
                forall|j: int| 0 <= j < r ==> !wins(#[trigger] self@.row(j)),
            decreases self.field.len() - r,
        {
            if check_lines(&self.field[r]) {
                assert(wins(self@.row(r as int)));
                return true;
            }
            r = r + 1;
        }
        false
    }

    /// Returns whether some column wins.
    fn check_columns(&self) -> (won: bool)
        ensures
            won == self@.column_wins(),
    {
        let mut c: usize = 0;
        while c < self.field.len()
            invariant
                c <= self.field.len(),
                forall|j: int| 0 <= j < c ==> !wins(#[trigger] self@.column(j)),
            decreases self.field.len() - c,
        {
            let line = self.column(c);
            if check_lines(&line) {
                assert(wins(self@.column(c as int)));
                return true;
            }
            c = c + 1;
        }
        false
    }

    /// Returns whether one of the two diagonals wins.
    fn check_diagonals(&self) -> (won: bool)
        ensures
            won == self@.diagonal_wins(),
    {
        proof {
            use_type_invariant(self);
        }
        let size = self.field.len();
        let mut top_left_bottom_right: Vec<Sign> = Vec::new();
        let mut bottom_left_top_right: Vec<Sign> = Vec::new();
        let mut i: usize = 0;
        while i < size
            invariant
                self@.wf(),
                size == self@.size(),
                i <= size,
                top_left_bottom_right@.len() == i,
                bottom_left_top_right@.len() == i,
                forall|j: int| 0 <= j < i ==> top_left_bottom_right@[j] == self@.cells[j][j],
                forall|j: int|
                    0 <= j < i ==> bottom_left_top_right@[j] == self@.cells[size - j - 1][j],
            decreases size - i,
        {
            assert(self@.cells[i as int].len() == size);
            assert(self@.cells[size - i - 1].len() == size);
            top_left_bottom_right.push(self.field[i][i]);
            bottom_left_top_right.push(self.field[size - i - 1][i]);
            i = i + 1;
        }
        assert(top_left_bottom_right@ =~= self@.diagonal());
        assert(bottom_left_top_right@ =~= self@.anti_diagonal());
        if check_line(&top_left_bottom_right, Sign::O) {
            return true;
        }
        if check_line(&top_left_bottom_right, Sign::X) {
            return true;
        }
        if check_line(&bottom_left_top_right, Sign::O) {
            return true;
        }
        if check_line(&bottom_left_top_right, Sign::X) {
            return true;
        }
        false
    }

    /// Whether a row, a column or a diagonal holds one player's sign in
    /// every cell. A board without cells has no such line.
    pub fn has_winner(&self) -> (won: bool)
        ensures
            won == self@.has_winner(),
    {
        self.check_rows() || self.check_columns() || self.check_diagonals()
    }

    /// Whether no cell is empty. A board without an empty cell may have a
    /// winner all the same.
    pub fn is_draw(&self) -> (full: bool)
        ensures
            full == self@.is_draw(),
    {
        let mut r: usize = 0;
        while r < self.field.len()
            invariant
                r <= self.field.len(),
                forall|i: int, j: int|
                    0 <= i < r && 0 <= j < self@.cells[i].len() ==> #[trigger] self@.cells[i][j]
                        != Sign::Empty,
            decreases self.field.len() - r,
        {
            let mut c: usize = 0;
            while c < self.field[r].len()
                invariant
                    r < self.field.len(),
                    c <= self.field[r as int].len(),
                    forall|j: int| 0 <= j < c ==> #[trigger] self@.cells[r as int][j] != Sign::Empty,
                decreases self.field[r as int].len() - c,
            {
                if self.field[r][c] == Sign::Empty {
                    assert(self@.cells[r as int][c as int] == Sign::Empty);
                    return false;
                }
                c = c + 1;
            }
            r = r + 1;
        }
        true
    }

    /// The state of the game. A game that is won is won by the active
    /// player: the turn does not pass after a winning mark.
    pub fn get_state(&self) -> (state: State)
        ensures
            state@ == self@.state(),
    {
        if self.has_winner() {
            return State::Winner(*self.active_player());
        }
        if self.is_draw() {
            return State::Draw;
        }
        State::Playing
    }

    /// The player who has won, if the game is won.
    pub fn get_winner(&self) -> (winner: Option<&Player>)
        ensures
            winner is Some <==> self@.has_winner(),
            winner matches Some(p) ==> p@ == self@.active_player(),
    {
        if self.has_winner() {
            return Some(self.active_player());
        }
        None
    }

    /// Passes the turn to the other player.
    pub fn swap_player(&mut self)
        ensures
            final(self)@ == old(self)@.swap_player(),
    {
        proof {
            use_type_invariant(&*self);
        }
        let mut first = self.players[0];
        let mut second = self.players[1];
        if second.is_active() {
            first.activate();
            second.deactivate();
        } else {
            first.deactivate();
            second.activate();
        }
        let players = [first, second];
        proof {
            let next = GameField { field: self.field, players };
            assert(next@.cells == self@.cells);
            assert(next@.players == (first@, second@));
            assert(next@.wf());
        }
        self.players = players;
    }

    /// Marks the cell at `row` and `col` for the active player. Nothing
    /// happens where the game is won, where there is no such cell, or where
    /// the cell is taken. After a mark that does not win, the turn passes
    /// to the other player.
    pub fn set_sign(&mut self, row: usize, col: usize)
        ensures
            final(self)@ == old(self)@.set_sign(row as int, col as int),
    {
        proof {
            use_type_invariant(&*self);
        }
        if self.has_winner() {
            return;
        }
        if !self.sign_is_valid(row, col) {
            return;
        }
        assert(self@.cells[row as int].len() == self@.size());
        if self.field[row][col] == Sign::Empty {
            let sign = *self.active_player().sign();
            let mut field: Field = Vec::new();
            std::mem::swap(&mut field, &mut self.field);
            write_cell(&mut field, row, col, sign);
            proof {
                let marked = old(self)@.with_cell(row as int, col as int, sign);
                let next = GameField { field, players: self.players };
                assert(next@ =~~= marked);
                assert(next@.wf());
            }
            self.field = field;
            if self.has_winner() {
                return;
            }
            self.swap_player();
        }
    }
}

} // verus!
