//! The game state machine: two players, whose turn it is, and whether the
//! game is still running.

use vstd::prelude::*;

use crate::board::Board;
use crate::board::Position;
use crate::board::grid_update;
use crate::board::Cell;
use crate::error::GameError;
use crate::player::AttackOutcome;
use crate::player::Player;

verus! {

/// One game session: two players, the configured board size and ship count,
/// the turn counter, and whether the game is still running.
///
/// `turn % 2` selects the attacking player; the other player is the target.
/// `running` starts true and flips to false exactly once, at the moment a
/// player's remaining ship count reaches zero.
#[derive(Clone, Debug)]
pub struct Game {
    pub player1: Player,
    pub player2: Player,
    pub board_size: usize,
    pub num_ships: u32,
    pub turn: usize,
    pub is_running: bool,
}

impl Game {
    /// Both boards are square and have the configured side length.
    pub open spec fn wf(self) -> bool {
        &&& self.player1.board.wf()
        &&& self.player1.board@.len() == self.board_size
        &&& self.player2.board.wf()
        &&& self.player2.board@.len() == self.board_size
    }

    /// The player at a turn-order index: index zero is the first player.
    pub open spec fn spec_player(self, i: int) -> Player {
        if i == 0 {
            self.player1
        } else {
            self.player2
        }
    }

    /// The index of the attacking player on the current turn.
    pub open spec fn active_index(self) -> int {
        self.turn as int % 2
    }

    /// The index of the player under attack on the current turn.
    pub open spec fn target_index(self) -> int {
        1 - self.active_index()
    }

    /// The attacking player on the current turn.
    pub open spec fn spec_active(self) -> Player {
        self.spec_player(self.active_index())
    }

    /// The player under attack on the current turn.
    pub open spec fn spec_target(self) -> Player {
        self.spec_player(self.target_index())
    }

    /// Whether an attack at the given coordinates would strike a ship on
    /// the target's board.
    pub open spec fn attack_hits(self, row: int, col: int) -> bool {
        self.spec_target().board@[row][col] is Ship
    }

    /// Creates a fresh game from validated setup parameters: both boards
    /// allocated at the given size with every cell `Empty`, both remaining
    /// ship counts at the configured ship count, the first player to move,
    /// and the game running. A zero board size is rejected.
    pub fn new(
        player1_name: String,
        player2_name: String,
        board_size: usize,
        num_ships: u32,
    ) -> (r: Result<Game, GameError>)
        ensures
            r is Ok <==> board_size > 0,
            r is Err ==> r->Err_0 is OutOfBounds,
            r is Ok ==> r->Ok_0.wf(),
            r is Ok ==> r->Ok_0.board_size == board_size && r->Ok_0.num_ships == num_ships,
            r is Ok ==> r->Ok_0.turn == 0 && r->Ok_0.is_running,
            r is Ok ==> r->Ok_0.player1.name == player1_name && r->Ok_0.player2.name
                == player2_name,
            r is Ok ==> r->Ok_0.player1.valid_ship_count == num_ships
                && r->Ok_0.player2.valid_ship_count == num_ships,
            r is Ok ==> forall|i: int, j: int|
                0 <= i < board_size && 0 <= j < board_size ==> (
                #[trigger] r->Ok_0.player1.board@[i][j]) is Empty,
            r is Ok ==> forall|i: int, j: int|
                0 <= i < board_size && 0 <= j < board_size ==> (
                #[trigger] r->Ok_0.player2.board@[i][j]) is Empty,
    {
        let board1 = match Board::new(board_size) {
            Ok(b) => b,
            Err(e) => {
                return Err(e);
            },
        };
        let board2 = match Board::new(board_size) {
            Ok(b) => b,
            Err(e) => {
                return Err(e);
            },
        };
        Ok(
            Game {
                player1: Player { name: player1_name, board: board1, valid_ship_count: num_ships },
                player2: Player { name: player2_name, board: board2, valid_ship_count: num_ships },
                board_size,
                num_ships,
                turn: 0,
                is_running: true,
            },
        )
    }

    /// The attacking player on the current turn.
    pub fn active_player(&self) -> (p: &Player)
        ensures
            *p == self.spec_active(),
    {
        if self.turn % 2 == 0 {
            &self.player1
        } else {
            &self.player2
        }
    }

    /// The player under attack on the current turn.
    pub fn target_player(&self) -> (p: &Player)
        ensures
            *p == self.spec_target(),
    {
        if self.turn % 2 == 0 {
            &self.player2
        } else {
            &self.player1
        }
    }

    /// Places one ship on the given player's own board during setup. Fails
    /// with `ShipAlreadyPlaced`, changing nothing, exactly when the cell
    /// already holds a `Ship`; the other player and the game configuration
    /// are untouched either way.
    pub fn place_ship(&mut self, player_index: usize, position: &Position) -> (r: Result<
        (),
        GameError,
    >)
        requires
            old(self).wf(),
            player_index < 2,
            position.in_bounds(old(self).board_size as int),
        ensures
            final(self).wf(),
            final(self).board_size == old(self).board_size,
            final(self).num_ships == old(self).num_ships,
            final(self).turn == old(self).turn,
            final(self).is_running == old(self).is_running,
            final(self).spec_player(1 - player_index) == old(self).spec_player(1 - player_index),
            r is Ok <==> !(old(self).spec_player(
                player_index as int,
            ).board@[position.row()][position.col()] is Ship),
            r is Ok ==> final(self).spec_player(player_index as int).board@ == grid_update(
                old(self).spec_player(player_index as int).board@,
                position.row(),
                position.col(),
                Cell::Ship,
            ),
            r is Err ==> r->Err_0 is ShipAlreadyPlaced && *final(self) == *old(self),
            final(self).spec_player(player_index as int).name == old(self).spec_player(
                player_index as int,
            ).name,
            final(self).spec_player(player_index as int).valid_ship_count == old(
                self,
            ).spec_player(player_index as int).valid_ship_count,
    {
        if player_index == 0 {
            self.player1.place_ship(position)
        } else {
            self.player2.place_ship(position)
        }
    }

    /// Resolves one complete turn: the attacker fires at the given position
    /// on the target's board.
    ///
    /// A `Ship` cell there means a `Hit`: the cell becomes `Hit` and the
    /// target's remaining ship count goes down by one. Any other cell means
    /// a `Miss`: the cell becomes `Miss` and the count is unchanged. If the
    /// target's count reaches zero the game stops, with the turn counter
    /// unchanged, so the attacker on record is the winner; otherwise the
    /// turn counter advances by exactly one and the game keeps running.
    pub fn attack(&mut self, position: &Position) -> (outcome: AttackOutcome)
        requires
            old(self).wf(),
            old(self).is_running,
            position.in_bounds(old(self).board_size as int),
            old(self).attack_hits(position.row(), position.col()) ==> old(
                self,
            ).spec_target().valid_ship_count > 0,
            old(self).turn < usize::MAX,
        ensures
            final(self).wf(),
            final(self).board_size == old(self).board_size,
            final(self).num_ships == old(self).num_ships,
            final(self).spec_player(old(self).active_index()) == old(self).spec_active(),
            final(self).spec_player(old(self).target_index()).name == old(
                self,
            ).spec_target().name,
            outcome is Hit <==> old(self).attack_hits(position.row(), position.col()),
            outcome is Hit ==> final(self).spec_player(old(self).target_index()).board@
                == grid_update(
                old(self).spec_target().board@,
                position.row(),
                position.col(),
                Cell::Hit,
            ),
            outcome is Hit ==> final(self).spec_player(old(self).target_index()).valid_ship_count
                == old(self).spec_target().valid_ship_count - 1,
            outcome is Miss ==> final(self).spec_player(old(self).target_index()).board@
                == grid_update(
                old(self).spec_target().board@,
                position.row(),
                position.col(),
                Cell::Miss,
            ),
            outcome is Miss ==> final(self).spec_player(old(self).target_index()).valid_ship_count
                == old(self).spec_target().valid_ship_count,
            final(self).spec_player(old(self).target_index()).valid_ship_count == 0
                ==> !final(self).is_running && final(self).turn == old(self).turn,
            final(self).spec_player(old(self).target_index()).valid_ship_count != 0
                ==> final(self).is_running && final(self).turn == old(self).turn + 1,
    {
        let player1_attacks = self.turn % 2 == 0;
        let outcome = if player1_attacks {
            self.player2.resolve_attack(position)
        } else {
            self.player1.resolve_attack(position)
        };
        let remaining = if player1_attacks {
            self.player2.valid_ship_count
        } else {
            self.player1.valid_ship_count
        };
        if remaining == 0 {
            self.is_running = false;
        } else {
            self.turn = self.turn + 1;
        }
        outcome
    }
}

/// The attacking player is always selected by the turn counter modulo two:
/// after any number of completed turns without a win, a game whose counter
/// stands at `n` has `players[n % 2]` to move. (`Game::new` starts the
/// counter at zero and `attack` advances it by exactly one whenever the
/// game continues.)
pub proof fn lemma_turn_parity(game: Game, n: nat)
    requires
        game.turn == n,
    ensures
        game.active_index() == n % 2,
{
}

/// Advancing the turn counter by one always hands the attack to the other
/// player: the active indexes before and after differ.
pub proof fn lemma_active_alternates(before: Game, after: Game)
    requires
        after.turn == before.turn + 1,
    ensures
        after.active_index() == 1 - before.active_index(),
{
}

} // verus!
