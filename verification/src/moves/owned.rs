//! One move of one pokemon, with the uses that it has left.

use vstd::prelude::*;

use crate::dex::Dex;
use crate::id::Id;
use crate::moves::{Move, MoveId, PP};

verus! {

/// A move as a saved pokemon holds it: by identifier. Uses that are not
/// written down stand for the full number.
#[derive(Debug, Clone, Copy, PartialEq, Eq, Structural)]
pub struct SavedMove {
    pub id: MoveId,
    pub pp: Option<PP>,
}

/// A move as a live pokemon holds it: borrowed from the registry of moves,
/// with the uses that are left.
#[derive(Debug, Clone, Copy)]
pub struct OwnedMove<'d> {
    pub m: &'d Move,
    pub pp: PP,
}

impl SavedMove {
    /// A move with its full number of uses.
    pub fn from(id: MoveId) -> (saved: SavedMove)
        ensures
            saved == (SavedMove { id, pp: None }),
    {
        SavedMove { id, pp: None }
    }

    /// The live move that `moves` gives for this one, if it holds the
    /// identifier.
    pub open spec fn resolved(self, moves: Map<Id, Move>) -> Option<OwnedMove<'static>> {
        if moves.contains_key(self.id) {
            Some(
                OwnedMove {
                    m: &moves[self.id],
                    pp: match self.pp {
                        Some(pp) => pp,
                        None => moves[self.id].pp,
                    },
                },
            )
        } else {
            None
        }
    }

    /// The uses after `amount` more were given, and unwritten uses, which
    /// stand for the full number, where no amount is named.
    pub open spec fn restored(self, amount: Option<PP>) -> SavedMove {
        SavedMove {
            id: self.id,
            pp: match (amount, self.pp) {
                (Some(by), Some(pp)) => Some(
                    if pp + by > PP::MAX {
                        PP::MAX
                    } else {
                        (pp + by) as PP
                    },
                ),
                _ => None,
            },
        }
    }

    /// Resolves the move against the registry of moves. An identifier that the
    /// registry does not hold gives nothing.
    pub fn init<'d, D: Dex<Move>>(self, dex: &'d D) -> (live: Option<OwnedMove<'d>>)
        ensures
            live == self.resolved(dex.entries()),
    {
        match dex.try_get(&self.id) {
            Some(m) => Some(
                OwnedMove {
                    m,
                    pp: match self.pp {
                        Some(pp) => pp,
                        None => m.pp,
                    },
                },
            ),
            None => None,
        }
    }

    /// Gives back `amount` uses, or forgets the count, so that the move is
    /// full again when it is next resolved.
    pub fn restore(&mut self, amount: Option<PP>)
        ensures
            *final(self) == old(self).restored(amount),
    {
        self.pp = match (amount, self.pp) {
            (Some(by), Some(pp)) => Some(pp.saturating_add(by)),
            _ => None,
        };
    }
}

impl<'d> OwnedMove<'d> {
    /// The move with its full number of uses.
    pub open spec fn fresh(m: &Move) -> OwnedMove<'static> {
        OwnedMove { m, pp: m.pp }
    }

    /// The form in which the move is saved.
    pub open spec fn saved(self) -> SavedMove {
        SavedMove { id: self.m.id, pp: Some(self.pp) }
    }

    /// The uses after `amount` more were given, never above the full number;
    /// the full number where no amount is named.
    pub open spec fn restored(self, amount: Option<PP>) -> OwnedMove<'d> {
        OwnedMove {
            m: self.m,
            pp: match amount {
                Some(by) => if self.pp + by > self.m.pp { self.m.pp } else { (self.pp + by) as PP },
                None => self.m.pp,
            },
        }
    }

    /// A move with its full number of uses.
    pub fn from(m: &'d Move) -> (owned: OwnedMove<'d>)
        ensures
            owned == OwnedMove::fresh(m),
    {
        OwnedMove { m, pp: m.pp }
    }

    /// The uses that are left.
    pub fn pp(&self) -> (pp: PP)
        ensures
            pp == self.pp,
    {
        self.pp
    }

    /// Whether no use is left.
    pub fn is_empty(&self) -> (empty: bool)
        ensures
            empty == (self.pp == 0),
    {
        self.pp == 0
    }

    /// Takes one use away, where one is left.
    pub fn decrement(&mut self)
        ensures
            final(self).m == old(self).m,
            final(self).pp == if old(self).pp == 0 { 0 } else { old(self).pp - 1 },
    {
        self.pp = self.pp.saturating_sub(1);
    }

    /// Gives back `amount` uses, or all of them where no amount is named.
    pub fn restore(&mut self, amount: Option<PP>)
        ensures
            *final(self) == old(self).restored(amount),
    {
        self.pp = match amount {
            Some(by) => {
                let sum = self.pp.saturating_add(by);
                if sum > self.m.pp {
                    self.m.pp
                } else {
                    sum
                }
            },
            None => self.m.pp,
        };
    }

    /// The saved form of the move: its identifier and the uses left.
    pub fn uninit(self) -> (saved: SavedMove)
        ensures
            saved == self.saved(),
    {
        SavedMove { id: self.m.id, pp: Some(self.pp) }
    }
}

} // verus!
