//! Typed, safe access to a Syzygy endgame tablebase probing engine.
//!
//! The engine itself (file format, disk access, search) is a native external
//! collaborator; this crate owns the two parts worth proving: the decoding
//! protocol for the packed 32-bit probe result word, and the lifecycle layer
//! that keeps at most one live handle to the engine at a time.

mod codec;
mod lifecycle;
mod position;

pub use codec::Wdl;
pub use codec::Square;
pub use codec::PromotionPiece;
pub use codec::Move;
pub use codec::RootProbeResult;
pub use lifecycle::Error;
pub use lifecycle::Fathom;
pub use lifecycle::InitFlag;
pub use lifecycle::Prober;
pub use lifecycle::RootProber;
pub use position::Position;
pub use position::CASTLE_WHITE_KINGSIDE;
pub use position::CASTLE_WHITE_QUEENSIDE;
pub use position::CASTLE_BLACK_KINGSIDE;
pub use position::CASTLE_BLACK_QUEENSIDE;
pub use codec::TB_RESULT_WDL_MASK;
pub use codec::TB_RESULT_TO_MASK;
pub use codec::TB_RESULT_FROM_MASK;
pub use codec::TB_RESULT_EP_MASK;
pub use codec::TB_RESULT_PROMOTES_MASK;
pub use codec::TB_RESULT_DTZ_MASK;
pub use codec::TB_RESULT_WDL_SHIFT;
pub use codec::TB_RESULT_TO_SHIFT;
pub use codec::TB_RESULT_FROM_SHIFT;
pub use codec::TB_RESULT_EP_SHIFT;
pub use codec::TB_RESULT_PROMOTES_SHIFT;
pub use codec::TB_RESULT_DTZ_SHIFT;
pub use codec::TB_RESULT_CHECKMATE;
pub use codec::TB_RESULT_STALEMATE;
pub use codec::TB_RESULT_FAILED;
pub use codec::TB_LOSS;
pub use codec::TB_BLESSED_LOSS;
pub use codec::TB_DRAW;
pub use codec::TB_CURSED_WIN;
pub use codec::TB_WIN;
