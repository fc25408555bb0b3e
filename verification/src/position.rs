//! The position model: plain data handed to a probe call.

use vstd::prelude::*;

verus! {

// Castling-rights bits, one per side and direction.
pub const CASTLE_WHITE_KINGSIDE: u32 = 1;
pub const CASTLE_WHITE_QUEENSIDE: u32 = 2;
pub const CASTLE_BLACK_KINGSIDE: u32 = 4;
pub const CASTLE_BLACK_QUEENSIDE: u32 = 8;

/// A chess position described by seven occupancy bitboards plus the scalar
/// state a tablebase probe needs. An immutable, non-owning value: it is
/// passed by reference into a probe call and has no lifecycle of its own.
pub struct Position {
    /// Squares occupied by white pieces.
    pub white: u64,
    /// Squares occupied by black pieces.
    pub black: u64,
    /// Squares occupied by kings of either side.
    pub kings: u64,
    /// Squares occupied by queens of either side.
    pub queens: u64,
    /// Squares occupied by rooks of either side.
    pub rooks: u64,
    /// Squares occupied by bishops of either side.
    pub bishops: u64,
    /// Squares occupied by knights of either side.
    pub knights: u64,
    /// Squares occupied by pawns of either side.
    pub pawns: u64,
    /// Moves since the last irreversible progress (the half-move clock).
    pub rule50: u32,
    /// Castling-rights mask, one bit per side and direction.
    pub castling: u32,
    /// En-passant target file, offset so that zero means none.
    pub ep: u32,
    /// Side to move: one bit.
    pub turn: u8,
}

impl Position {
    /// Consistency of the bitboards and scalars: the two side masks are
    /// disjoint, every piece-type mask claims only occupied squares, no
    /// square is claimed by two piece types, and the scalars fit their
    /// widths. Callers owe this; the probe layer never repairs a position.
    pub open spec fn wf(self) -> bool {
        &&& self.white & self.black == 0
        &&& (self.kings | self.queens | self.rooks | self.bishops | self.knights | self.pawns) & !(
        self.white | self.black) == 0
        &&& self.kings & self.queens == 0
        &&& self.kings & self.rooks == 0
        &&& self.kings & self.bishops == 0
        &&& self.kings & self.knights == 0
        &&& self.kings & self.pawns == 0
        &&& self.queens & self.rooks == 0
        &&& self.queens & self.bishops == 0
        &&& self.queens & self.knights == 0
        &&& self.queens & self.pawns == 0
        &&& self.rooks & self.bishops == 0
        &&& self.rooks & self.knights == 0
        &&& self.rooks & self.pawns == 0
        &&& self.bishops & self.knights == 0
        &&& self.bishops & self.pawns == 0
        &&& self.knights & self.pawns == 0
        &&& self.castling < 16
        &&& self.turn <= 1
    }

    /// Check the consistency of the bitboards and scalars.
    pub fn well_formed(&self) -> (b: bool)
        ensures
            b == self.wf(),
    {
        self.white & self.black == 0 && (self.kings | self.queens | self.rooks | self.bishops
            | self.knights | self.pawns) & !(self.white | self.black) == 0 && self.kings
            & self.queens == 0 && self.kings & self.rooks == 0 && self.kings & self.bishops == 0
            && self.kings & self.knights == 0 && self.kings & self.pawns == 0 && self.queens
            & self.rooks == 0 && self.queens & self.bishops == 0 && self.queens & self.knights == 0
            && self.queens & self.pawns == 0 && self.rooks & self.bishops == 0 && self.rooks
            & self.knights == 0 && self.rooks & self.pawns == 0 && self.bishops & self.knights == 0
            && self.bishops & self.pawns == 0 && self.knights & self.pawns == 0 && self.castling
            < 16 && self.turn <= 1
    }

    /// The precondition of a WDL-only probe: that probing mode assumes
    /// neither castling rights nor a running half-move clock, and the native
    /// engine answers its "failed" sentinel when either is nonzero.
    pub fn wdl_probe_allowed(&self) -> (b: bool)
        ensures
            b == (self.castling == 0 && self.rule50 == 0),
    {
        self.castling == 0 && self.rule50 == 0
    }

    /// The precondition of a root probe: the native engine answers its
    /// "failed" sentinel when any castling right is set.
    pub fn root_probe_allowed(&self) -> (b: bool)
        ensures
            b == (self.castling == 0),
    {
        self.castling == 0
    }
}

} // verus!

