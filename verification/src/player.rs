//! Players and rosters.

use vstd::prelude::*;

verus! {

/// Whether a player has been put into play.
#[derive(Clone, Copy, Debug, PartialEq, Eq, Structural)]
pub enum PlayerState {
    Iddle,
    Playing,
}

/// One player of the round. `id` is the player's seat, counted from 0.
///
/// `score` counts the pairs the player found and `moves` the pairs the player
/// turned over, found or not. Both stop at `u32::MAX`. `flash` is raised while
/// a pair the player just found is being celebrated.
#[derive(Clone, Copy, Debug, PartialEq, Eq, Structural)]
pub struct Player {
    pub id: u8,
    pub score: u32,
    pub moves: u32,
    pub state: PlayerState,
    pub flash: bool,
}

/// `n + 1`, or `n` where the counter is full.
pub open spec fn tally(n: u32) -> u32 {
    if n < u32::MAX {
        (n + 1) as u32
    } else {
        n
    }
}

/// The player who takes seat `i` at the start of a round.
pub open spec fn fresh_player(i: int) -> Player {
    Player { id: i as u8, score: 0, moves: 0, state: PlayerState::Iddle, flash: false }
}

/// The `n` players of a round that has not begun.
pub open spec fn fresh_roster(n: int) -> Seq<Player> {
    Seq::new(n as nat, |i: int| fresh_player(i))
}

/// `players` are the `n` players of a round, each in their own seat.
pub open spec fn is_roster(players: Seq<Player>, n: int) -> bool {
    &&& players.len() == n
    &&& forall|i: int| 0 <= i < n ==> (#[trigger] players[i]).id == i
}

impl Player {
    /// The player who takes seat `id` at the start of a round.
    pub fn new(id: u8) -> (player: Player)
        ensures
            player == fresh_player(id as int),
    {
        Player { id, score: 0, moves: 0, state: PlayerState::Iddle, flash: false }
    }

    /// This player after turning over a pair that matched.
    pub open spec fn after_match(self) -> Player {
        Player { score: tally(self.score), moves: tally(self.moves), flash: true, ..self }
    }

    /// This player after turning over a pair that did not match.
    pub open spec fn after_miss(self) -> Player {
        Player { moves: tally(self.moves), ..self }
    }

    /// Counts a pair that matched: one more point, one more move, and the
    /// celebration begins.
    pub fn record_match(&mut self)
        ensures
            *final(self) == old(self).after_match(),
    {
        self.score = self.score.saturating_add(1);
        self.moves = self.moves.saturating_add(1);
        self.flash = true;
    }

    /// Counts a pair that did not match: one more move.
    pub fn record_miss(&mut self)
        ensures
            *final(self) == old(self).after_miss(),
    {
        self.moves = self.moves.saturating_add(1);
    }
}

impl Default for Player {
    /// The player in seat 0 at the start of a round.
    fn default() -> (player: Player)
        ensures
            player == fresh_player(0),
    {
        Player::new(0)
    }
}

/// Seats the `n` players of a new round.
pub fn seat(n: u8) -> (players: Vec<Player>)
    ensures
        players@ == fresh_roster(n as int),
{
    let mut players: Vec<Player> = Vec::new();
    let mut i: u8 = 0;
    while i < n
        invariant
            i <= n,
            players@.len() == i,
            forall|j: int| 0 <= j < i ==> players@[j] == fresh_player(j),
        decreases n - i,
    {
        players.push(Player::new(i));
        i = i + 1;
    }
    assert(players@ =~= fresh_roster(n as int));
    players
}

/// A fresh roster is a roster, with every counter at zero.
pub proof fn lemma_fresh_roster(n: int)
    requires
        0 <= n <= u8::MAX,
    ensures
        is_roster(fresh_roster(n), n),
        forall|i: int|
            0 <= i < n ==> (#[trigger] fresh_roster(n)[i]).score == 0 && fresh_roster(n)[i].moves
                == 0,
{
}

} // verus!
