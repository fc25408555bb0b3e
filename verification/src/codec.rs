//! The probe-result decoding protocol.
//!
//! A probe of the native engine answers with a packed 32-bit word: a record
//! of non-overlapping bit fields (outcome class, move squares, en-passant
//! flag, promotion piece, distance-to-zero), plus three reserved sentinel
//! words that short-circuit decoding entirely. Everything here is a pure
//! function of that word.

use vstd::prelude::*;

verus! {

// Bit layout of the packed probe result word. The layout is the native
// engine's wire contract; decoding must use exactly these masks and shifts.
pub const TB_RESULT_WDL_MASK: u32 = 0x0000_000F;
pub const TB_RESULT_TO_MASK: u32 = 0x0000_03F0;
pub const TB_RESULT_FROM_MASK: u32 = 0x0000_FC00;
pub const TB_RESULT_EP_MASK: u32 = 0x0007_0000;
pub const TB_RESULT_PROMOTES_MASK: u32 = 0x0008_0000;
pub const TB_RESULT_DTZ_MASK: u32 = 0xFFF0_0000;

pub const TB_RESULT_WDL_SHIFT: u32 = 0;
pub const TB_RESULT_TO_SHIFT: u32 = 4;
pub const TB_RESULT_FROM_SHIFT: u32 = 10;
pub const TB_RESULT_EP_SHIFT: u32 = 16;
pub const TB_RESULT_PROMOTES_SHIFT: u32 = 19;
pub const TB_RESULT_DTZ_SHIFT: u32 = 20;

// Outcome codes carried in the WDL field, ordered worst-to-best.
pub const TB_LOSS: u32 = 0;
pub const TB_BLESSED_LOSS: u32 = 1;
pub const TB_DRAW: u32 = 2;
pub const TB_CURSED_WIN: u32 = 3;
pub const TB_WIN: u32 = 4;

// Promotion codes carried in the promotion field.
pub const TB_PROMOTES_NONE: u32 = 0;
pub const TB_PROMOTES_QUEEN: u32 = 1;
pub const TB_PROMOTES_ROOK: u32 = 2;
pub const TB_PROMOTES_BISHOP: u32 = 3;
pub const TB_PROMOTES_KNIGHT: u32 = 4;

// Reserved sentinel words: a root probe with no legal moves (checkmate or
// stalemate), and a probe the engine could not answer at all.
pub const TB_RESULT_CHECKMATE: u32 = 0x0000_0004;
pub const TB_RESULT_STALEMATE: u32 = 0x0000_0002;
pub const TB_RESULT_FAILED: u32 = 0xFFFF_FFFF;

/// The WDL field of a result word: bits 0-3.
pub open spec fn wdl_code(w: u32) -> u32 {
    (w & TB_RESULT_WDL_MASK) >> TB_RESULT_WDL_SHIFT
}

/// The destination-square field of a result word: bits 4-9.
pub open spec fn to_code(w: u32) -> u32 {
    (w & TB_RESULT_TO_MASK) >> TB_RESULT_TO_SHIFT
}

/// The origin-square field of a result word: bits 10-15.
pub open spec fn from_code(w: u32) -> u32 {
    (w & TB_RESULT_FROM_MASK) >> TB_RESULT_FROM_SHIFT
}

/// The en-passant field of a result word: bits 16-18.
pub open spec fn ep_code(w: u32) -> u32 {
    (w & TB_RESULT_EP_MASK) >> TB_RESULT_EP_SHIFT
}

/// The promotion field of a result word: bit 19.
pub open spec fn promote_code(w: u32) -> u32 {
    (w & TB_RESULT_PROMOTES_MASK) >> TB_RESULT_PROMOTES_SHIFT
}

/// The distance-to-zero field of a result word: bits 20-31.
pub open spec fn dtz_code(w: u32) -> u32 {
    (w & TB_RESULT_DTZ_MASK) >> TB_RESULT_DTZ_SHIFT
}

/// Outcome classes, ordered worst-to-best for the side to move.
#[derive(Copy, Clone, Debug, Hash, PartialEq, Eq)]
pub enum Wdl {
    Loss,
    BlessedLoss,
    Draw,
    CursedWin,
    Win,
}

/// The exhaustive table from a WDL code to its outcome class; codes outside
/// the table decode to nothing.
pub open spec fn spec_wdl_from_code(code: u32) -> Option<Wdl> {
    if code == TB_LOSS {
        Some(Wdl::Loss)
    } else if code == TB_BLESSED_LOSS {
        Some(Wdl::BlessedLoss)
    } else if code == TB_DRAW {
        Some(Wdl::Draw)
    } else if code == TB_CURSED_WIN {
        Some(Wdl::CursedWin)
    } else if code == TB_WIN {
        Some(Wdl::Win)
    } else {
        None
    }
}

/// What a WDL-only probe answers for a raw result word: the "failed"
/// sentinel maps to nothing, any other word is decoded by its WDL field
/// alone and the rest of the word is discarded.
pub open spec fn spec_probe_wdl(w: u32) -> Option<Wdl> {
    if w == TB_RESULT_FAILED {
        None
    } else {
        spec_wdl_from_code(wdl_code(w))
    }
}

impl Wdl {
    /// Decode the WDL field of a result word.
    pub fn extract(result: u32) -> (r: Option<Wdl>)
        ensures
            r == spec_wdl_from_code(wdl_code(result)),
    {
        let code: u32 = (result & TB_RESULT_WDL_MASK) >> TB_RESULT_WDL_SHIFT;
        if code == TB_LOSS {
            Some(Wdl::Loss)
        } else if code == TB_BLESSED_LOSS {
            Some(Wdl::BlessedLoss)
        } else if code == TB_DRAW {
            Some(Wdl::Draw)
        } else if code == TB_CURSED_WIN {
            Some(Wdl::CursedWin)
        } else if code == TB_WIN {
            Some(Wdl::Win)
        } else {
            None
        }
    }

    /// Interpret the raw answer of a WDL-only probe.
    pub fn decode_probe(result: u32) -> (r: Option<Wdl>)
        ensures
            r == spec_probe_wdl(result),
    {
        if result == TB_RESULT_FAILED {
            return None;
        }
        Wdl::extract(result)
    }
}

/// Every outcome a WDL-only probe can answer is one of the five classes.
pub proof fn lemma_probe_wdl_in_range(w: u32)
    ensures
        spec_probe_wdl(w) matches Some(v) ==> (v == Wdl::Loss || v == Wdl::BlessedLoss
            || v == Wdl::Draw || v == Wdl::CursedWin || v == Wdl::Win),
{
}

/// A board square, an index 0-63. This layer never decomposes it into rank
/// and file.
#[derive(Copy, Clone, Debug, Hash, PartialEq, Eq)]
pub struct Square(u8);

impl Square {
    /// The square's index.
    pub closed spec fn spec_index(self) -> u8 {
        self.0
    }

    /// Decode the destination-square field of a result word. A field value
    /// outside the board makes the decode fail.
    pub fn extract_to(result: u32) -> (r: Option<Square>)
        ensures
            to_code(result) < 64 ==> (r matches Some(s) && s.spec_index() as u32 == to_code(
                result,
            )),
            to_code(result) >= 64 ==> r is None,
    {
        let sq: u32 = (result & TB_RESULT_TO_MASK) >> TB_RESULT_TO_SHIFT;
        if sq < 64 {
            Some(Square(sq as u8))
        } else {
            None
        }
    }

    /// Decode the origin-square field of a result word. A field value
    /// outside the board makes the decode fail.
    pub fn extract_from(result: u32) -> (r: Option<Square>)
        ensures
            from_code(result) < 64 ==> (r matches Some(s) && s.spec_index() as u32 == from_code(
                result,
            )),
            from_code(result) >= 64 ==> r is None,
    {
        let sq: u32 = (result & TB_RESULT_FROM_MASK) >> TB_RESULT_FROM_SHIFT;
        if sq < 64 {
            Some(Square(sq as u8))
        } else {
            None
        }
    }
}

impl From<Square> for u8 {
    /// The square's index, as the plain integer.
    fn from(sq: Square) -> (r: u8)
        ensures
            r == sq.spec_index(),
    {
        sq.0
    }
}

impl vstd::std_specs::convert::FromSpecImpl<Square> for u8 {
    open spec fn obeys_from_spec() -> bool {
        true
    }

    open spec fn from_spec(sq: Square) -> u8 {
        sq.spec_index()
    }
}

/// The piece a pawn promotes to, or no promotion.
#[derive(Copy, Clone, Debug, Hash, PartialEq, Eq)]
pub enum PromotionPiece {
    NoPromotion,
    Knight,
    Bishop,
    Rook,
    Queen,
}

/// The exhaustive table from a promotion code to its piece; codes outside
/// the table decode to nothing.
pub open spec fn spec_promotion_from_code(code: u32) -> Option<PromotionPiece> {
    if code == TB_PROMOTES_NONE {
        Some(PromotionPiece::NoPromotion)
    } else if code == TB_PROMOTES_QUEEN {
        Some(PromotionPiece::Queen)
    } else if code == TB_PROMOTES_ROOK {
        Some(PromotionPiece::Rook)
    } else if code == TB_PROMOTES_BISHOP {
        Some(PromotionPiece::Bishop)
    } else if code == TB_PROMOTES_KNIGHT {
        Some(PromotionPiece::Knight)
    } else {
        None
    }
}

impl PromotionPiece {
    /// Decode the promotion field of a result word.
    pub fn extract(result: u32) -> (r: Option<PromotionPiece>)
        ensures
            r == spec_promotion_from_code(promote_code(result)),
    {
        let code: u32 = (result & TB_RESULT_PROMOTES_MASK) >> TB_RESULT_PROMOTES_SHIFT;
        if code == TB_PROMOTES_NONE {
            Some(PromotionPiece::NoPromotion)
        } else if code == TB_PROMOTES_QUEEN {
            Some(PromotionPiece::Queen)
        } else if code == TB_PROMOTES_ROOK {
            Some(PromotionPiece::Rook)
        } else if code == TB_PROMOTES_BISHOP {
            Some(PromotionPiece::Bishop)
        } else if code == TB_PROMOTES_KNIGHT {
            Some(PromotionPiece::Knight)
        } else {
            None
        }
    }
}

/// A best move reported by a root probe.
#[derive(Copy, Clone, Debug, Hash, PartialEq, Eq)]
pub struct Move {
    pub from: Square,
    pub to: Square,
    pub promote: PromotionPiece,
    pub en_passant: bool,
}

/// The move carried by a result word, if every sub-field decodes; decoding
/// is all-or-nothing, so one bad sub-field discards the move.
pub closed spec fn spec_move_from_word(w: u32) -> Option<Move> {
    if from_code(w) < 64 && to_code(w) < 64 && spec_promotion_from_code(promote_code(w)) is Some {
        Some(
            Move {
                from: Square(from_code(w) as u8),
                to: Square(to_code(w) as u8),
                promote: spec_promotion_from_code(promote_code(w))->Some_0,
                en_passant: ep_code(w) > 0,
            },
        )
    } else {
        None
    }
}

impl Move {
    /// Decode the move fields of a result word, all-or-nothing.
    pub fn extract(result: u32) -> (r: Option<Move>)
        ensures
            r == spec_move_from_word(result),
            r matches Some(m) ==> {
                &&& m.from.spec_index() as u32 == from_code(result)
                &&& m.to.spec_index() as u32 == to_code(result)
                &&& Some(m.promote) == spec_promotion_from_code(promote_code(result))
                &&& m.en_passant == (ep_code(result) > 0)
            },
            r is None <==> (from_code(result) >= 64 || to_code(result) >= 64
                || spec_promotion_from_code(promote_code(result)) is None),
    {
        let from = match Square::extract_from(result) {
            Some(s) => s,
            None => { return None; },
        };
        let to = match Square::extract_to(result) {
            Some(s) => s,
            None => { return None; },
        };
        let promote = match PromotionPiece::extract(result) {
            Some(p) => p,
            None => { return None; },
        };
        let en_passant = ((result & TB_RESULT_EP_MASK) >> TB_RESULT_EP_SHIFT) > 0;
        Some(Move { from, to, promote, en_passant })
    }
}

/// What a root probe answers: outcome class, best move and distance-to-zero.
#[derive(Copy, Clone, Debug, Hash, PartialEq, Eq)]
pub struct RootProbeResult {
    pub wdl: Wdl,
    pub best_move: Move,
    pub dtz: u16,
}

/// What a root probe answers for a raw result word: the three sentinel words
/// map to nothing, and otherwise the word decodes all-or-nothing into
/// outcome, move and distance.
pub closed spec fn spec_decode_root(w: u32) -> Option<RootProbeResult> {
    if w == TB_RESULT_CHECKMATE || w == TB_RESULT_STALEMATE || w == TB_RESULT_FAILED {
        None
    } else if spec_wdl_from_code(wdl_code(w)) is Some && spec_move_from_word(w) is Some
        && dtz_code(w) <= 0xFFFF {
        Some(
            RootProbeResult {
                wdl: spec_wdl_from_code(wdl_code(w))->Some_0,
                best_move: spec_move_from_word(w)->Some_0,
                dtz: dtz_code(w) as u16,
            },
        )
    } else {
        None
    }
}

// Every field of the packed word is bounded by its own width.
proof fn lemma_field_widths(w: u32)
    ensures
        wdl_code(w) < 16,
        to_code(w) < 64,
        from_code(w) < 64,
        ep_code(w) < 8,
        promote_code(w) < 2,
        dtz_code(w) < 4096,
{
    assert((w & TB_RESULT_WDL_MASK) >> TB_RESULT_WDL_SHIFT < 16) by (bit_vector);
    assert((w & TB_RESULT_TO_MASK) >> TB_RESULT_TO_SHIFT < 64) by (bit_vector);
    assert((w & TB_RESULT_FROM_MASK) >> TB_RESULT_FROM_SHIFT < 64) by (bit_vector);
    assert((w & TB_RESULT_EP_MASK) >> TB_RESULT_EP_SHIFT < 8) by (bit_vector);
    assert((w & TB_RESULT_PROMOTES_MASK) >> TB_RESULT_PROMOTES_SHIFT < 2) by (bit_vector);
    assert((w & TB_RESULT_DTZ_MASK) >> TB_RESULT_DTZ_SHIFT < 4096) by (bit_vector);
}

impl RootProbeResult {
    /// Interpret the raw answer of a root probe: sentinels and any bad
    /// sub-field give nothing, every other word decodes completely.
    pub fn decode(result: u32) -> (r: Option<RootProbeResult>)
        ensures
            r == spec_decode_root(result),
            (result == TB_RESULT_CHECKMATE || result == TB_RESULT_STALEMATE || result
                == TB_RESULT_FAILED) ==> r is None,
            r matches Some(res) ==> {
                &&& Some(res.wdl) == spec_wdl_from_code(wdl_code(result))
                &&& res.best_move.from.spec_index() as u32 == from_code(result)
                &&& res.best_move.to.spec_index() as u32 == to_code(result)
                &&& Some(res.best_move.promote) == spec_promotion_from_code(promote_code(result))
                &&& res.best_move.en_passant == (ep_code(result) > 0)
                &&& res.dtz as u32 == dtz_code(result)
            },
            (result != TB_RESULT_CHECKMATE && result != TB_RESULT_STALEMATE && result
                != TB_RESULT_FAILED && spec_wdl_from_code(wdl_code(result)) is Some) ==> r is Some,
    {
        proof {
            lemma_field_widths(result);
        }
        if result == TB_RESULT_CHECKMATE || result == TB_RESULT_STALEMATE || result
            == TB_RESULT_FAILED {
            return None;
        }
        let wdl = match Wdl::extract(result) {
            Some(v) => v,
            None => { return None; },
        };
        let best_move = match Move::extract(result) {
            Some(m) => m,
            None => { return None; },
        };
        let dtz_raw: u32 = (result & TB_RESULT_DTZ_MASK) >> TB_RESULT_DTZ_SHIFT;
        if dtz_raw > 0xFFFF {
            return None;
        }
        let dtz: u16 = dtz_raw as u16;
        Some(RootProbeResult { wdl, best_move, dtz })
    }
}

/// Whenever a root probe answers, the distance-to-zero fits the 12-bit field
/// and both squares of the best move lie on the board.
pub proof fn lemma_root_result_ranges(w: u32)
    ensures
        spec_decode_root(w) matches Some(r) ==> {
            &&& r.dtz <= 4095
            &&& r.best_move.from.spec_index() < 64
            &&& r.best_move.to.spec_index() < 64
        },
{
    lemma_field_widths(w);
}

/// Decoding is deterministic: the decoded outcome is a pure function of the
/// packed word, so equal words decode alike.
pub proof fn lemma_decode_root_deterministic(w1: u32, w2: u32)
    requires
        w1 == w2,
    ensures
        spec_decode_root(w1) == spec_decode_root(w2),
        spec_probe_wdl(w1) == spec_probe_wdl(w2),
{
}

/// A packed word assembled from one value per field, each within its width.
pub open spec fn pack_result(wdl_c: u32, to: u32, from: u32, ep: u32, promote: u32, dtz: u32) -> u32
    recommends
        wdl_c < 16,
        to < 64,
        from < 64,
        ep < 8,
        promote < 2,
        dtz < 4096,
{
    wdl_c | (to << TB_RESULT_TO_SHIFT) | (from << TB_RESULT_FROM_SHIFT) | (ep
        << TB_RESULT_EP_SHIFT) | (promote << TB_RESULT_PROMOTES_SHIFT) | (dtz
        << TB_RESULT_DTZ_SHIFT)
}

/// Field round-trip: packing one value per field and decoding the word gives
/// back exactly those values. The two no-legal-move sentinel words are packed
/// words themselves and decode to nothing, so they are left out.
pub proof fn lemma_pack_round_trip(wdl_c: u32, to: u32, from: u32, ep: u32, promote: u32, dtz: u32)
    requires
        wdl_c <= 4,
        to < 64,
        from < 64,
        ep < 8,
        promote < 2,
        dtz < 4096,
        pack_result(wdl_c, to, from, ep, promote, dtz) != TB_RESULT_CHECKMATE,
        pack_result(wdl_c, to, from, ep, promote, dtz) != TB_RESULT_STALEMATE,
    ensures
        spec_decode_root(pack_result(wdl_c, to, from, ep, promote, dtz)) matches Some(r) && {
            &&& Some(r.wdl) == spec_wdl_from_code(wdl_c)
            &&& r.best_move.from.spec_index() as u32 == from
            &&& r.best_move.to.spec_index() as u32 == to
            &&& Some(r.best_move.promote) == spec_promotion_from_code(promote)
            &&& r.best_move.en_passant == (ep > 0)
            &&& r.dtz as u32 == dtz
        },
{
    let w = pack_result(wdl_c, to, from, ep, promote, dtz);
    assert(wdl_code(w) == wdl_c && to_code(w) == to && from_code(w) == from && ep_code(w) == ep
        && promote_code(w) == promote && dtz_code(w) == dtz && w != 0xFFFF_FFFFu32) by (bit_vector)
        requires
            wdl_c <= 4u32,
            to < 64u32,
            from < 64u32,
            ep < 8u32,
            promote < 2u32,
            dtz < 4096u32,
            w == pack_result(wdl_c, to, from, ep, promote, dtz),
    ;
    lemma_field_widths(w);
}

} // verus!
