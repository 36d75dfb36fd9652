//! State model for a circular board-game track.
//!
//! A [`Board`] records, for a fixed number of spaces, where each registered
//! player currently stands. Players are dense unsigned ids handed out at
//! construction time; every player starts on space 0. Two operations move a
//! player: a relative advance that wraps at the end of the track, and an
//! absolute jump to a given space, checked against the track bounds. A
//! read-only query reports a player's space without any error path.

use std::collections::HashMap;
use vstd::prelude::*;

verus! {

broadcast use vstd::std_specs::hash::group_hash_axioms;

/// Why a move request was rejected. Both conditions leave the board
/// untouched; the caller is expected to branch on the variant.
#[derive(Debug)]
pub enum MoveError {
    /// The targeted player id was never registered on this board.
    NonExistentPlayer,
    /// The requested absolute position lies beyond the end of the track.
    NonExistentPosition,
}

/// The positions table of a freshly built board: every player id below
/// `number_of_players` is registered, each standing on space 0.
pub open spec fn starting_positions(number_of_players: u32) -> Map<u32, u32> {
    Map::new(|player: u32| player < number_of_players, |player: u32| 0u32)
}

/// The space a relative advance lands on. Starting from `position`, a player
/// who advances `moves` steps on a track of `size` spaces stays at
/// `position + moves` while that stays short of the track end; otherwise the
/// move wraps, and the wrap deliberately subtracts one step more than a plain
/// modulo would (`position + moves - size - 1`), so a wrapping move lands one
/// space short of where modulo arithmetic would put it. Because of that extra
/// step, and because `moves` is unbounded, the result can fall outside
/// `0 .. size`; it is kept exactly as computed.
pub open spec fn wrap_destination(position: u32, moves: u32, size: u32) -> int {
    if position + moves < size {
        position + moves
    } else {
        position + moves - size - 1
    }
}

/// Whether the landing space of a relative advance fits the `u32` that holds
/// a stored position. The wrap formula leaves that range in exactly two
/// corner cases: `position + moves == size`, where the extra subtracted step
/// lands before space 0, and a `position` already far off the track combined
/// with a huge `moves`, where the landing space tops `u32::MAX`.
pub open spec fn wrap_destination_fits(position: u32, moves: u32, size: u32) -> bool {
    0 <= wrap_destination(position, moves, size) <= u32::MAX
}

/// A circular track of `size` spaces together with the current space of
/// every registered player.
pub struct Board {
    /// Number of distinct spaces on the track, fixed at construction.
    pub size: u32,
    players: HashMap<u32, u32>,
}

impl Board {
    /// The track length, as contracts speak of it: the number of spaces.
    pub closed spec fn track_length(self) -> u32 {
        self.size
    }

    /// The board's positions table: each registered player id mapped to the
    /// space that player currently occupies.
    pub closed spec fn positions(self) -> Map<u32, u32> {
        self.players@
    }

    /// Whether `player` was registered when the board was built.
    pub open spec fn is_registered(self, player: u32) -> bool {
        self.positions().contains_key(player)
    }

    /// Builds a board with spaces `0 .. size` and players
    /// `0 .. number_of_players`, all standing on space 0. The track length is
    /// taken as given: a zero-length track is accepted here, as every later
    /// bounds check is against `size` alone.
    pub fn new(size: u32, number_of_players: u32) -> (board: Board)
        ensures
            board.track_length() == size,
            board.positions() == starting_positions(number_of_players),
    {
        let mut players: HashMap<u32, u32> = HashMap::new();
        proof {
            assert(players@ =~= starting_positions(0));
        }
        let mut player: u32 = 0;
        while player < number_of_players
            invariant
                player <= number_of_players,
                players@ == starting_positions(player),
            decreases number_of_players - player,
        {
            players.insert(player, 0);
            proof {
                assert(players@ =~= starting_positions((player + 1) as u32));
            }
            player = player + 1;
        }
        Board { size, players }
    }

    /// Advances `player` by `moves` steps along the track, wrapping past the
    /// last space as [`wrap_destination`] lays down, and reports the landing
    /// space. An unregistered player is rejected with
    /// [`MoveError::NonExistentPlayer`] and the board is left unchanged; the
    /// step count itself is never rejected. The precondition only rules out
    /// the corner cases where the landing space cannot be stored in a `u32`.
    pub fn move_player(&mut self, player: u32, moves: u32) -> (moved: Result<u32, MoveError>)
        requires
            old(self).is_registered(player) ==> wrap_destination_fits(
                old(self).positions()[player],
                moves,
                old(self).track_length(),
            ),
        ensures
            final(self).track_length() == old(self).track_length(),
            old(self).is_registered(player) ==> (moved matches Ok(landed)
                && landed == wrap_destination(
                    old(self).positions()[player],
                    moves,
                    old(self).track_length(),
                )
                && final(self).positions() == old(self).positions().insert(player, landed)),
            !old(self).is_registered(player) ==> (moved matches Err(MoveError::NonExistentPlayer)
                && final(self).positions() == old(self).positions()),
    {
        let current: u32 = match self.players.get(&player) {
            Some(position) => *position,
            None => {
                return Err(MoveError::NonExistentPlayer);
            },
        };
        let reach: u64 = current as u64 + moves as u64;
        let landed: u32 = if reach < self.size as u64 {
            current + moves
        } else {
            (reach - self.size as u64 - 1) as u32
        };
        self.players.insert(player, landed);
        Ok(landed)
    }

    /// Puts `player` directly on the absolute space `position`. The bounds
    /// check comes first: a position at or past the track end is rejected
    /// with [`MoveError::NonExistentPosition`] even when the player id is
    /// unregistered too; only then is an unknown player rejected with
    /// [`MoveError::NonExistentPlayer`]. On success the stored position is
    /// exactly `position`, which is also returned; on either error the board
    /// is left unchanged.
    pub fn move_player_to_position(&mut self, player: u32, position: u32) -> (moved: Result<
        u32,
        MoveError,
    >)
        ensures
            final(self).track_length() == old(self).track_length(),
            position >= old(self).track_length() ==> (moved matches Err(
                MoveError::NonExistentPosition,
            ) && final(self).positions() == old(self).positions()),
            position < old(self).track_length() && !old(self).is_registered(player)
                ==> (moved matches Err(MoveError::NonExistentPlayer) && final(self).positions()
                == old(self).positions()),
            position < old(self).track_length() && old(self).is_registered(player)
                ==> (moved matches Ok(landed) && landed == position && final(self).positions()
                == old(self).positions().insert(player, position)),
    {
        if position >= self.size {
            Err(MoveError::NonExistentPosition)
        } else if self.players.contains_key(&player) {
            self.players.insert(player, position);
            Ok(position)
        } else {
            Err(MoveError::NonExistentPlayer)
        }
    }

    /// The space `player` currently stands on, as [`spec_player_position`]
    /// reads it off the positions table: a query, never an error. An
    /// unregistered player yields `None`; a registered one yields the stored
    /// space, however it got there.
    ///
    /// [`spec_player_position`]: Board::spec_player_position
    pub fn player_position(&self, player: u32) -> (position: Option<u32>)
        ensures
            position == self.spec_player_position(player),
    {
        match self.players.get(&player) {
            Some(current) => Some(*current),
            None => None,
        }
    }

    /// What [`Board::player_position`] answers: the stored space of a
    /// registered player, and `None` for anyone else.
    pub open spec fn spec_player_position(self, player: u32) -> Option<u32> {
        if self.is_registered(player) {
            Some(self.positions()[player])
        } else {
            None
        }
    }
}

/// Law: a freshly constructed board reports position 0 for every player
/// registered on it. A board whose positions table is still the one
/// [`Board::new`] built answers every query for an id below the player count
/// with `Some(0)`.
pub proof fn lemma_fresh_board_reports_zero(board: Board, number_of_players: u32, player: u32)
    requires
        board.positions() == starting_positions(number_of_players),
        player < number_of_players,
    ensures
        board.spec_player_position(player) == Some(0u32),
{
    assert(starting_positions(number_of_players).contains_key(player));
}

/// Law: an absolute move that succeeded is exactly what a following query
/// reports. When [`Board::move_player_to_position`] accepts `position` for a
/// registered `player` — its contract then turns `before` into `after` — the
/// query contract of [`Board::player_position`] answers `Some(position)`,
/// whatever the other players stand on.
pub proof fn lemma_absolute_move_then_query(
    before: Board,
    after: Board,
    player: u32,
    position: u32,
)
    requires
        position < before.track_length(),
        before.is_registered(player),
        after.positions() == before.positions().insert(player, position),
    ensures
        after.spec_player_position(player) == Some(position),
{
}

/// Law: the position query is idempotent. [`Board::player_position`] answers
/// `spec_player_position` of the board it is given, so any two answers read
/// off the same board for the same player — no move in between — are the
/// same value.
pub proof fn lemma_query_is_idempotent(
    board: Board,
    player: u32,
    first: Option<u32>,
    second: Option<u32>,
)
    requires
        first == board.spec_player_position(player),
        second == board.spec_player_position(player),
    ensures
        first == second,
{
}

} // verus!
