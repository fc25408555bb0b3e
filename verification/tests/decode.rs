use fathom_syzygy::Move;
use fathom_syzygy::PromotionPiece;
use fathom_syzygy::RootProbeResult;
use fathom_syzygy::Square;
use fathom_syzygy::Wdl;
use fathom_syzygy::TB_RESULT_CHECKMATE;
use fathom_syzygy::TB_RESULT_FAILED;
use fathom_syzygy::TB_RESULT_STALEMATE;

/// WDL=Win(4), to=12, from=52, ep=0, promote=Queen(1 at bit 19), dtz=37.
const SAMPLE_WORD: u32 = 4 | (12 << 4) | (52 << 10) | (1 << 19) | (37 << 20);

#[test]
fn field_round_trip() {
    let decoded = RootProbeResult::decode(SAMPLE_WORD).unwrap();
    assert_eq!(decoded.wdl, Wdl::Win);
    assert_eq!(u8::from(decoded.best_move.to), 12);
    assert_eq!(u8::from(decoded.best_move.from), 52);
    assert_eq!(decoded.best_move.promote, PromotionPiece::Queen);
    assert!(!decoded.best_move.en_passant);
    assert_eq!(decoded.dtz, 37);
}

#[test]
fn out_of_range_wdl_code_discards_the_whole_result() {
    // WDL field 7 is outside the table; nothing else rescues the word.
    let word: u32 = 7 | (12 << 4) | (52 << 10) | (37 << 20);
    assert_eq!(Wdl::extract(word), None);
    assert_eq!(RootProbeResult::decode(word), None);
}

#[test]
fn sentinels_are_never_decoded_as_moves() {
    assert_eq!(RootProbeResult::decode(TB_RESULT_CHECKMATE), None);
    assert_eq!(RootProbeResult::decode(TB_RESULT_STALEMATE), None);
    assert_eq!(RootProbeResult::decode(TB_RESULT_FAILED), None);
}

#[test]
fn decoding_is_deterministic() {
    let once = RootProbeResult::decode(SAMPLE_WORD);
    let twice = RootProbeResult::decode(SAMPLE_WORD);
    assert_eq!(once, twice);
    assert!(once.is_some());
}

#[test]
fn decoded_fields_fit_their_ranges() {
    let words = [SAMPLE_WORD, 0, 1, 3, (4095 << 20) | (63 << 10) | (63 << 4) | 4, 0x0008_0001];
    for word in words {
        if let Some(decoded) = RootProbeResult::decode(word) {
            assert!(decoded.dtz <= 4095);
            assert!(u8::from(decoded.best_move.from) < 64);
            assert!(u8::from(decoded.best_move.to) < 64);
        }
    }
}

#[test]
fn wdl_probe_decodes_every_outcome_class() {
    assert_eq!(Wdl::decode_probe(0), Some(Wdl::Loss));
    assert_eq!(Wdl::decode_probe(1), Some(Wdl::BlessedLoss));
    assert_eq!(Wdl::decode_probe(2), Some(Wdl::Draw));
    assert_eq!(Wdl::decode_probe(3), Some(Wdl::CursedWin));
    assert_eq!(Wdl::decode_probe(4), Some(Wdl::Win));
    assert_eq!(Wdl::decode_probe(9 | (5 << 4)), None);
}

#[test]
fn wdl_probe_maps_only_the_failed_sentinel_to_absent() {
    assert_eq!(Wdl::decode_probe(TB_RESULT_FAILED), None);
    // The no-legal-move sentinels are root-probe words; a WDL-only probe
    // reads them by their WDL field alone.
    assert_eq!(Wdl::decode_probe(TB_RESULT_STALEMATE), Some(Wdl::Draw));
    assert_eq!(Wdl::decode_probe(TB_RESULT_CHECKMATE), Some(Wdl::Win));
}

#[test]
fn wdl_probe_ignores_everything_but_the_wdl_field() {
    let word: u32 = 2 | (63 << 4) | (63 << 10) | (7 << 16) | (1 << 19) | (4095 << 20);
    assert_eq!(Wdl::decode_probe(word), Some(Wdl::Draw));
}

#[test]
fn en_passant_flag_follows_its_field() {
    let plain: u32 = 4 | (12 << 4) | (52 << 10) | (37 << 20);
    let decoded = RootProbeResult::decode(plain).unwrap();
    assert!(!decoded.best_move.en_passant);
    assert_eq!(decoded.best_move.promote, PromotionPiece::NoPromotion);

    let with_ep: u32 = plain | (3 << 16);
    let decoded = RootProbeResult::decode(with_ep).unwrap();
    assert!(decoded.best_move.en_passant);
}

#[test]
fn move_extraction_reads_both_squares() {
    let word: u32 = 4 | (7 << 4) | (63 << 10);
    let mv: Move = Move::extract(word).unwrap();
    assert_eq!(u8::from(mv.to), 7);
    assert_eq!(u8::from(mv.from), 63);
    assert_eq!(mv.promote, PromotionPiece::NoPromotion);

    let to: Option<Square> = Square::extract_to(word);
    assert_eq!(u8::from(to.unwrap()), 7);
    let from: Option<Square> = Square::extract_from(word);
    assert_eq!(u8::from(from.unwrap()), 63);
}

#[test]
fn promotion_codes_map_through_the_table() {
    // The promotion field is one bit wide, so a decoded word only ever
    // carries the first two codes; the table itself is exhaustive.
    assert_eq!(PromotionPiece::extract(0), Some(PromotionPiece::NoPromotion));
    assert_eq!(PromotionPiece::extract(1 << 19), Some(PromotionPiece::Queen));
    let decoded = RootProbeResult::decode(4 | (1 << 19) | (5 << 20)).unwrap();
    assert_eq!(decoded.best_move.promote, PromotionPiece::Queen);
}
