//! The controller: one board, and what each event does to it.

use vstd::prelude::*;
use crate::game_field::{GameField, GameFieldView};
use crate::player::{Player, PlayerView};
use crate::ui::ui_base::{Event, Mode};

verus! {

/// The number of rows and columns of the board that a game is played on.
pub const BOARD_SIZE: usize = 3;

/// What a game is: its board, the presentation it was made for, and whether
/// it is running.
#[verifier::ext_equal]
pub struct GameView {
    pub field: GameFieldView,
    pub mode: Mode,
    pub active: bool,
}

/// The board that every game and every round starts on: three by three
/// empty cells, player 1 active and player 2 not.
pub open spec fn fresh_field() -> GameFieldView {
    GameFieldView::start(BOARD_SIZE as nat, (PlayerView::fresh(1), PlayerView::fresh(2)))
}

impl GameView {
    /// The game after `event`. `Quit` stops it, `Point` asks the board for a
    /// cell, `Restart` puts a fresh board in place of the old one, and
    /// `Idle` changes nothing.
    pub open spec fn update(self, event: Event) -> GameView {
        match event {
            Event::Quit => GameView { field: self.field, mode: self.mode, active: false },
            Event::Point(point) => GameView {
                field: self.field.set_sign(point.0 as int, point.1 as int),
                mode: self.mode,
                active: self.active,
            },
            Event::Restart => GameView { field: fresh_field(), mode: self.mode, active: self.active },
            Event::Idle => self,
        }
    }
}

/// The controller of one game.
pub struct Game {
    gamefield: GameField,
    mode: Mode,
    active: bool,
}

impl View for Game {
    type V = GameView;

    closed spec fn view(&self) -> GameView {
        GameView { field: self.gamefield@, mode: self.mode, active: self.active }
    }
}

impl Game {
    /// Makes a game for the given presentation. It has a fresh board and is
    /// not running yet.
    pub fn new(mode: Mode) -> (game: Game)
        ensures
            game@ == (GameView { field: fresh_field(), mode, active: false }),
    {
        let gamefield = GameField::new(BOARD_SIZE, Game::create_players());
        Game { gamefield, mode, active: false }
    }

    /// Makes the two players of a round.
    fn create_players() -> (players: [Player; 2])
        ensures
            players[0]@ == PlayerView::fresh(1),
            players[1]@ == PlayerView::fresh(2),
    {
        [Player::new(1).expect("No error"), Player::new(2).expect("No error")]
    }

    /// The presentation this game was made for.
    pub fn mode(&self) -> (mode: Mode)
        ensures
            mode == self@.mode,
    {
        self.mode
    }

    /// The board.
    pub fn gamefield(&self) -> (board: &GameField)
        ensures
            board@ == self@.field,
    {
        &self.gamefield
    }

    /// Whether the game is running.
    pub fn is_active(&self) -> (active: bool)
        ensures
            active == self@.active,
    {
        self.active
    }

    /// Sets the game running. The board stays as it is.
    pub fn start(&mut self)
        ensures
            final(self)@ == (GameView { field: old(self)@.field, mode: old(self)@.mode, active: true }),
    {
        self.active = true;
    }

    /// Applies one event to the game.
    pub fn update(&mut self, event: Event)
        ensures
            final(self)@ == old(self)@.update(event),
    {
        match event {
            Event::Quit => self.active = false,
            Event::Point((row, column)) => self.gamefield.set_sign(row, column),
            Event::Restart => self.restart(),
            Event::Idle => {},
        }
    }

    /// Puts a fresh board and fresh players in place of the old ones.
    pub fn restart(&mut self)
        ensures
            final(self)@ == old(self)@.update(Event::Restart),
    {
        self.gamefield = GameField::new(BOARD_SIZE, Game::create_players());
    }
}

} // verus!
