//! Cell markers and the two competitors.

use vstd::prelude::*;

verus! {

/// What a cell of the board holds.
#[derive(Clone, Copy, PartialEq, Eq, Debug, Structural)]
pub enum Sign {
    X,
    O,
    Empty,
}

impl Sign {
    /// The character a sign is shown as.
    pub open spec fn glyph(self) -> char {
        match self {
            Sign::X => 'X',
            Sign::O => 'O',
            Sign::Empty => '-',
        }
    }

    /// Returns the character this sign is shown as.
    pub fn to_char(&self) -> (c: char)
        ensures
            c == self.glyph(),
    {
        match self {
            Sign::X => 'X',
            Sign::O => 'O',
            Sign::Empty => '-',
        }
    }

    /// Returns the one-character text this sign is shown as.
    pub fn to_string(&self) -> (s: String)
        ensures
            s@ == seq![self.glyph()],
    {
        proof {
            reveal_strlit("X");
            reveal_strlit("O");
            reveal_strlit("-");
        }
        let s = match self {
            Sign::X => "X".to_owned(),
            Sign::O => "O".to_owned(),
            Sign::Empty => "-".to_owned(),
        };
        assert(s@ =~= seq![self.glyph()]);
        s
    }
}

/// The marker that belongs to a player number: `X` to the first player, `O`
/// to the second. Other numbers name no player.
pub open spec fn sign_for(number: u8) -> Sign {
    if number == 1 {
        Sign::X
    } else {
        Sign::O
    }
}

/// The reason why no player was made: the number was neither 1 nor 2.
#[derive(Clone, Copy, PartialEq, Eq, Debug, Structural)]
pub struct InvalidNumberError;

/// What a player is: a number, the marker that goes with it, and the turn flag.
pub struct PlayerView {
    pub number: u8,
    pub sign: Sign,
    pub active: bool,
}

impl PlayerView {
    /// The player with the given number as it is made: with the marker of
    /// that number, and not active.
    pub open spec fn fresh(number: u8) -> PlayerView {
        PlayerView { number, sign: sign_for(number), active: false }
    }

    /// The number is 1 or 2 and the marker is the one that goes with it.
    pub open spec fn wf(self) -> bool {
        &&& self.number == 1 || self.number == 2
        &&& self.sign == sign_for(self.number)
    }

    /// The same player with the turn flag set to `active`.
    pub open spec fn with_active(self, active: bool) -> PlayerView {
        PlayerView { number: self.number, sign: self.sign, active }
    }
}

/// One of the two competitors.
#[derive(PartialEq, Debug, Copy, Clone)]
pub struct Player {
    number: u8,
    sign: Sign,
    active: bool,
}

impl View for Player {
    type V = PlayerView;

    closed spec fn view(&self) -> PlayerView {
        PlayerView { number: self.number, sign: self.sign, active: self.active }
    }
}

impl Player {
    /// Every player that exists is well formed.
    #[verifier::type_invariant]
    pub open spec fn well_formed(self) -> bool {
        self@.wf()
    }

    /// Makes the player with the given number. Only 1 and 2 are numbers of
    /// players; the new player is not active.
    pub fn new(number: u8) -> (r: Result<Player, InvalidNumberError>)
        ensures
            r is Ok <==> number == 1 || number == 2,
            r matches Ok(p) ==> p@ == PlayerView::fresh(number),
    {
        match number {
            1 => Ok(Player { number, sign: Sign::X, active: false }),
            2 => Ok(Player { number, sign: Sign::O, active: false }),
            _ => Err(InvalidNumberError),
        }
    }

    /// The player's marker, which is never `Empty`.
    pub fn sign(&self) -> (s: &Sign)
        ensures
            *s == self@.sign,
            self@.wf(),
    {
        proof {
            use_type_invariant(self);
        }
        &self.sign
    }

    /// Whether it is this player's turn.
    pub fn is_active(&self) -> (b: bool)
        ensures
            b == self@.active,
    {
        self.active
    }

    /// Gives this player the turn.
    pub fn activate(&mut self)
        ensures
            final(self)@ == old(self)@.with_active(true),
    {
        proof {
            use_type_invariant(&*self);
        }
        self.active = true;
    }

    /// Takes the turn from this player.
    pub fn deactivate(&mut self)
        ensures
            final(self)@ == old(self)@.with_active(false),
    {
        proof {
            use_type_invariant(&*self);
        }
        self.active = false;
    }
}

/// Two players with the same view are the same player.
pub proof fn lemma_view_determines_player(p: Player, q: Player)
    requires
        p@ == q@,
    ensures
        p == q,
{
}

} // verus!
