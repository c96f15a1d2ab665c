//! A player: a named identity owning one board and the count of its ship
//! cells that have not been hit yet.

use vstd::prelude::*;

use crate::board::Board;
use crate::board::Cell;
use crate::board::Position;
use crate::board::grid_update;
use crate::error::GameError;

verus! {

/// The outcome of resolving one attack.
#[derive(Clone, Copy, Debug, PartialEq, Eq, Structural)]
pub enum AttackOutcome {
    Hit,
    Miss,
}

/// A named identity owning one board. `valid_ship_count` starts at the
/// configured ship count and decrements by exactly one each time one of this
/// player's `Ship` cells is converted to `Hit`; reaching zero means this
/// player has lost.
#[derive(Clone, Debug)]
pub struct Player {
    pub name: String,
    pub board: Board,
    pub valid_ship_count: u32,
}

impl Player {
    /// Writes one cell of this player's board. Placing a `Ship` on a cell
    /// that already holds a `Ship` is rejected and leaves the board
    /// unchanged; every other write goes through unconditionally.
    pub fn edit_board(&mut self, position: &Position, cell: Cell) -> (r: Result<(), GameError>)
        requires
            old(self).board.wf(),
            position.in_bounds(old(self).board@.len() as int),
        ensures
            r is Ok <==> !(cell is Ship && old(self).board@[position.row()][position.col()]
                is Ship),
            r is Ok ==> final(self).board@ == grid_update(
                old(self).board@,
                position.row(),
                position.col(),
                cell,
            ),
            r is Err ==> r->Err_0 is ShipAlreadyPlaced && *final(self) == *old(self),
            final(self).board.wf(),
            final(self).board@.len() == old(self).board@.len(),
            final(self).name == old(self).name,
            final(self).valid_ship_count == old(self).valid_ship_count,
    {
        let current = self.board.get_cell(position);
        match (cell, current) {
            (Cell::Ship, Cell::Ship) => Err(GameError::ShipAlreadyPlaced),
            _ => {
                self.board.set_cell(position, cell);
                Ok(())
            },
        }
    }

    /// Places a ship on the given cell during setup. Fails with
    /// `ShipAlreadyPlaced`, leaving the cell unchanged, exactly when the
    /// cell already holds a `Ship`.
    pub fn place_ship(&mut self, position: &Position) -> (r: Result<(), GameError>)
        requires
            old(self).board.wf(),
            position.in_bounds(old(self).board@.len() as int),
        ensures
            r is Ok <==> !(old(self).board@[position.row()][position.col()] is Ship),
            r is Ok ==> final(self).board@ == grid_update(
                old(self).board@,
                position.row(),
                position.col(),
                Cell::Ship,
            ),
            r is Err ==> r->Err_0 is ShipAlreadyPlaced && *final(self) == *old(self),
            final(self).board.wf(),
            final(self).board@.len() == old(self).board@.len(),
            final(self).name == old(self).name,
            final(self).valid_ship_count == old(self).valid_ship_count,
    {
        self.edit_board(position, Cell::Ship)
    }

    /// Whether the cell at the given position currently holds a ship. Pure
    /// query, no mutation.
    pub fn is_hit(&self, position: &Position) -> (hit: bool)
        requires
            self.board.wf(),
            position.in_bounds(self.board@.len() as int),
        ensures
            hit <==> self.board@[position.row()][position.col()] is Ship,
    {
        match self.board.get_cell(position) {
            Cell::Ship => true,
            _ => false,
        }
    }

    /// Resolves an attack on the given cell: a `Ship` cell becomes `Hit` and
    /// this player's remaining ship count goes down by exactly one; any
    /// other cell becomes `Miss` and the count is unchanged. This is the
    /// sole entry point that mutates ship counts.
    pub fn resolve_attack(&mut self, position: &Position) -> (outcome: AttackOutcome)
        requires
            old(self).board.wf(),
            position.in_bounds(old(self).board@.len() as int),
            old(self).board@[position.row()][position.col()] is Ship ==> old(
                self,
            ).valid_ship_count > 0,
        ensures
            old(self).board@[position.row()][position.col()] is Ship ==> outcome is Hit
                && final(self).board@ == grid_update(
                old(self).board@,
                position.row(),
                position.col(),
                Cell::Hit,
            ) && final(self).valid_ship_count == old(self).valid_ship_count - 1,
            !(old(self).board@[position.row()][position.col()] is Ship) ==> outcome is Miss
                && final(self).board@ == grid_update(
                old(self).board@,
                position.row(),
                position.col(),
                Cell::Miss,
            ) && final(self).valid_ship_count == old(self).valid_ship_count,
            final(self).board.wf(),
            final(self).board@.len() == old(self).board@.len(),
            final(self).name == old(self).name,
    {
        if self.is_hit(position) {
            self.board.set_cell(position, Cell::Hit);
            self.valid_ship_count = self.valid_ship_count - 1;
            AttackOutcome::Hit
        } else {
            self.board.set_cell(position, Cell::Miss);
            AttackOutcome::Miss
        }
    }
}

} // verus!
