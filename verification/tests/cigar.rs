use wfa_aligner::cigar::{
    check_alignment, check_alphabet, cigar_matching, cigar_text, consumed_lengths, read_window,
    GAP, OP_DELETION, OP_INSERTION, OP_MATCH, OP_MISMATCH, PAIRED, UNPAIRED,
};
use wfa_aligner::error::DecodeError;

const PATTERN: &[u8] = b"TCTTTACTCGCGCGTTGGAGAAATACAATAGT";
const TEXT: &[u8] = b"TCTATACTGCGCGTTTGGAGAAATAAAATAGT";
const CIGAR: &[u8] = b"MMMXMMMMDMMMMMMMIMMMMMMMMMXMMMMMM";

fn lines(ops: &[u8], pattern: &[u8], text: &[u8]) -> (String, String, String) {
    match cigar_matching(ops, pattern, text) {
        Ok(lines) => lines,
        Err(fault) => panic!("unexpected fault: {:?}", fault),
    }
}

#[test]
fn the_alphabet_is_mxdi() {
    assert_eq!(OP_MATCH, b'M');
    assert_eq!(OP_MISMATCH, b'X');
    assert_eq!(OP_DELETION, b'D');
    assert_eq!(OP_INSERTION, b'I');
    assert_eq!(GAP, '-');
    assert_eq!(PAIRED, '|');
    assert_eq!(UNPAIRED, ' ');
}

#[test]
fn read_window_copies_the_delimited_range() {
    assert_eq!(read_window(b"..MXDI..", 2, 6), Ok(b"MXDI".to_vec()));
    assert_eq!(read_window(b"MXDI", 0, 4), Ok(b"MXDI".to_vec()));
    assert_eq!(read_window(b"MXDI", 1, 2), Ok(b"X".to_vec()));
}

#[test]
fn read_window_accepts_an_empty_range() {
    assert_eq!(read_window(b"MXDI", 0, 0), Ok(Vec::new()));
    assert_eq!(read_window(b"MXDI", 4, 4), Ok(Vec::new()));
    assert_eq!(read_window(b"", 0, 0), Ok(Vec::new()));
}

#[test]
fn read_window_refuses_offsets_outside_the_buffer() {
    assert_eq!(
        read_window(b"MXDI", -1, 2),
        Err(DecodeError::WindowOutOfBounds { begin_offset: -1, end_offset: 2 })
    );
    assert_eq!(
        read_window(b"MXDI", 3, 2),
        Err(DecodeError::WindowOutOfBounds { begin_offset: 3, end_offset: 2 })
    );
    assert_eq!(
        read_window(b"MXDI", 0, 5),
        Err(DecodeError::WindowOutOfBounds { begin_offset: 0, end_offset: 5 })
    );
    assert_eq!(
        read_window(b"MXDI", 5, 5),
        Err(DecodeError::WindowOutOfBounds { begin_offset: 5, end_offset: 5 })
    );
    assert_eq!(
        read_window(b"", 0, i32::MAX),
        Err(DecodeError::WindowOutOfBounds { begin_offset: 0, end_offset: i32::MAX })
    );
    assert_eq!(
        read_window(b"MXDI", i32::MIN, i32::MIN),
        Err(DecodeError::WindowOutOfBounds { begin_offset: i32::MIN, end_offset: i32::MIN })
    );
}

#[test]
fn check_alphabet_accepts_operations_only() {
    assert_eq!(check_alphabet(b""), Ok(()));
    assert_eq!(check_alphabet(b"MXDI"), Ok(()));
    assert_eq!(check_alphabet(CIGAR), Ok(()));
}

#[test]
fn check_alphabet_reports_the_first_unknown_symbol() {
    assert_eq!(
        check_alphabet(b"MMZMQ"),
        Err(DecodeError::UnknownOperation { index: 2, symbol: b'Z' })
    );
    assert_eq!(check_alphabet(b"m"), Err(DecodeError::UnknownOperation { index: 0, symbol: b'm' }));
    assert_eq!(
        check_alphabet(b"MXDI\0"),
        Err(DecodeError::UnknownOperation { index: 4, symbol: 0 })
    );
    assert_eq!(
        check_alphabet(&[b'M', 0xff]),
        Err(DecodeError::UnknownOperation { index: 1, symbol: 0xff })
    );
}

#[test]
fn consumed_lengths_counts_each_sequence() {
    assert_eq!(consumed_lengths(b""), (0, 0));
    assert_eq!(consumed_lengths(b"M"), (1, 1));
    assert_eq!(consumed_lengths(b"X"), (1, 1));
    assert_eq!(consumed_lengths(b"D"), (1, 0));
    assert_eq!(consumed_lengths(b"I"), (0, 1));
    assert_eq!(consumed_lengths(b"MMDDDXI"), (6, 4));
    assert_eq!(consumed_lengths(CIGAR), (32, 32));
}

#[test]
fn consumed_lengths_passes_over_unknown_symbols() {
    assert_eq!(consumed_lengths(b"M?D"), (2, 1));
}

#[test]
fn check_alignment_accepts_an_exact_cigar() {
    assert_eq!(check_alignment(CIGAR, PATTERN.len(), TEXT.len()), Ok(()));
    assert_eq!(check_alignment(b"", 0, 0), Ok(()));
    assert_eq!(check_alignment(b"DDI", 2, 1), Ok(()));
}

#[test]
fn check_alignment_reports_what_is_consumed_instead() {
    assert_eq!(
        check_alignment(CIGAR, 33, 32),
        Err(DecodeError::LengthMismatch { pattern_consumed: 32, text_consumed: 32 })
    );
    assert_eq!(
        check_alignment(CIGAR, 32, 31),
        Err(DecodeError::LengthMismatch { pattern_consumed: 32, text_consumed: 32 })
    );
    assert_eq!(
        check_alignment(b"", 1, 0),
        Err(DecodeError::LengthMismatch { pattern_consumed: 0, text_consumed: 0 })
    );
    assert_eq!(
        check_alignment(b"MDI", 3, 3),
        Err(DecodeError::LengthMismatch { pattern_consumed: 2, text_consumed: 2 })
    );
}

#[test]
fn check_alignment_reports_an_unknown_symbol_first() {
    assert_eq!(
        check_alignment(b"MM=", 9, 9),
        Err(DecodeError::UnknownOperation { index: 2, symbol: b'=' })
    );
}

#[test]
fn cigar_text_spells_the_operations() {
    assert_eq!(cigar_text(b""), "");
    assert_eq!(cigar_text(b"MXDI"), "MXDI");
    assert_eq!(cigar_text(CIGAR), "MMMXMMMMDMMMMMMMIMMMMMMMMMXMMMMMM");
}

#[test]
fn cigar_text_takes_each_byte_as_one_character() {
    let text = cigar_text(&[0x4d, 0xe9, 0x7f]);
    assert_eq!(text.chars().count(), 3);
    assert_eq!(text, "M\u{e9}\u{7f}");
}

#[test]
fn cigar_matching_lays_out_the_gap_affine_alignment() {
    let (top, middle, bottom) = lines(CIGAR, PATTERN, TEXT);
    assert_eq!(top, "TCTTTACTCGCGCGTT-GGAGAAATACAATAGT");
    assert_eq!(middle, "|||||||| ||||||| ||||||||||||||||");
    assert_eq!(bottom, "TCTATACT-GCGCGTTTGGAGAAATAAAATAGT");
}

#[test]
fn cigar_matching_pairs_on_match_and_mismatch() {
    assert_eq!(lines(b"M", b"A", b"A"), ("A".to_string(), "|".to_string(), "A".to_string()));
    assert_eq!(lines(b"X", b"A", b"C"), ("A".to_string(), "|".to_string(), "C".to_string()));
}

#[test]
fn cigar_matching_sets_a_gap_in_the_text_on_deletion() {
    assert_eq!(lines(b"D", b"A", b""), ("A".to_string(), " ".to_string(), "-".to_string()));
}

#[test]
fn cigar_matching_sets_a_gap_in_the_pattern_on_insertion() {
    assert_eq!(lines(b"I", b"", b"C"), ("-".to_string(), " ".to_string(), "C".to_string()));
}

#[test]
fn cigar_matching_takes_the_characters_in_order() {
    let (top, middle, bottom) = lines(b"DIMXDI", b"abcd", b"wxyz");
    assert_eq!(top, "a-bcd-");
    assert_eq!(middle, "  ||  ");
    assert_eq!(bottom, "-wxy-z");
}

#[test]
fn cigar_matching_of_an_empty_cigar_is_empty() {
    assert_eq!(lines(b"", b"", b""), (String::new(), String::new(), String::new()));
    assert_eq!(lines(b"", b"ACGT", b"AC"), (String::new(), String::new(), String::new()));
}

#[test]
fn cigar_matching_leaves_unused_characters_alone() {
    let (top, middle, bottom) = lines(b"MM", b"ACGT", b"ACG");
    assert_eq!(top, "AC");
    assert_eq!(middle, "||");
    assert_eq!(bottom, "AC");
}

#[test]
fn cigar_matching_lines_are_as_long_as_the_cigar() {
    let cases: [(&[u8], &[u8], &[u8]); 5] = [
        (b"", b"", b""),
        (b"M", b"A", b"A"),
        (b"DDDD", b"ACGT", b""),
        (b"IIII", b"", b"ACGT"),
        (CIGAR, PATTERN, TEXT),
    ];
    for (ops, pattern, text) in cases {
        let (top, middle, bottom) = lines(ops, pattern, text);
        assert_eq!(top.chars().count(), ops.len());
        assert_eq!(middle.chars().count(), ops.len());
        assert_eq!(bottom.chars().count(), ops.len());
    }
}

#[test]
fn cigar_matching_shows_bytes_above_ascii_as_single_characters() {
    let (top, middle, bottom) = lines(b"MD", &[0xe9, 0xff], &[0x80]);
    assert_eq!(top, "\u{e9}\u{ff}");
    assert_eq!(middle, "| ");
    assert_eq!(bottom, "\u{80}-");
}

#[test]
fn cigar_matching_refuses_an_unknown_symbol() {
    assert_eq!(
        cigar_matching(b"MMSM", b"ACGT", b"ACGT"),
        Err(DecodeError::UnknownOperation { index: 2, symbol: b'S' })
    );
    assert_eq!(
        cigar_matching(b"=", b"A", b"A"),
        Err(DecodeError::UnknownOperation { index: 0, symbol: b'=' })
    );
}

#[test]
fn cigar_matching_refuses_a_cigar_longer_than_the_pattern() {
    assert_eq!(
        cigar_matching(b"MMD", b"AC", b"ACG"),
        Err(DecodeError::PatternExhausted { index: 2 })
    );
    assert_eq!(cigar_matching(b"D", b"", b"A"), Err(DecodeError::PatternExhausted { index: 0 }));
}

#[test]
fn cigar_matching_refuses_a_cigar_longer_than_the_text() {
    assert_eq!(cigar_matching(b"MMI", b"ACG", b"AC"), Err(DecodeError::TextExhausted { index: 2 }));
    assert_eq!(cigar_matching(b"X", b"A", b""), Err(DecodeError::TextExhausted { index: 0 }));
}

#[test]
fn cigar_matching_looks_at_the_pattern_before_the_text() {
    assert_eq!(cigar_matching(b"M", b"", b""), Err(DecodeError::PatternExhausted { index: 0 }));
    assert_eq!(cigar_matching(b"MM", b"A", b"A"), Err(DecodeError::PatternExhausted { index: 1 }));
}

#[test]
fn cigar_matching_stops_at_the_first_fault() {
    assert_eq!(cigar_matching(b"MD?", b"A", b"A"), Err(DecodeError::PatternExhausted { index: 1 }));
    assert_eq!(
        cigar_matching(b"?MD", b"", b""),
        Err(DecodeError::UnknownOperation { index: 0, symbol: b'?' })
    );
}
