//! The CIGAR: its alphabet, what it consumes, and how it is displayed.
//!
//! A CIGAR is a sequence of one-byte operations, one per alignment column and
//! in alignment order. `M` and `X` pair a pattern character with a text
//! character, `D` sets a pattern character against a gap, and `I` sets a gap
//! against a text character.

use crate::error::DecodeError;
use vstd::prelude::*;

verus! {

/// `M`: a pattern character matches a text character.
pub const OP_MATCH: u8 = 77;

/// `X`: a pattern character is set against a different text character.
pub const OP_MISMATCH: u8 = 88;

/// `D`: a pattern character has no counterpart in the text.
pub const OP_DELETION: u8 = 68;

/// `I`: a text character has no counterpart in the pattern.
pub const OP_INSERTION: u8 = 73;

/// Stands in a display line where a sequence has no character.
pub const GAP: char = '-';

/// Stands in the middle line between two paired characters.
pub const PAIRED: char = '|';

/// Stands in the middle line next to a gap.
pub const UNPAIRED: char = ' ';

/// Whether `op` belongs to the CIGAR alphabet.
pub open spec fn is_operation(op: u8) -> bool {
    op == OP_MATCH || op == OP_MISMATCH || op == OP_DELETION || op == OP_INSERTION
}

/// Whether `op` uses up one pattern character.
pub open spec fn consumes_pattern(op: u8) -> bool {
    op == OP_MATCH || op == OP_MISMATCH || op == OP_DELETION
}

/// Whether `op` uses up one text character.
pub open spec fn consumes_text(op: u8) -> bool {
    op == OP_MATCH || op == OP_MISMATCH || op == OP_INSERTION
}

/// Whether every symbol of `ops` belongs to the CIGAR alphabet.
pub open spec fn is_cigar(ops: Seq<u8>) -> bool {
    forall|i: int| 0 <= i < ops.len() ==> is_operation(#[trigger] ops[i])
}

/// How many pattern characters `ops` uses up.
pub open spec fn pattern_consumed(ops: Seq<u8>) -> nat
    decreases ops.len(),
{
    if ops.len() == 0 {
        0
    } else if consumes_pattern(ops.last()) {
        pattern_consumed(ops.drop_last()) + 1
    } else {
        pattern_consumed(ops.drop_last())
    }
}

/// How many text characters `ops` uses up.
pub open spec fn text_consumed(ops: Seq<u8>) -> nat
    decreases ops.len(),
{
    if ops.len() == 0 {
        0
    } else if consumes_text(ops.last()) {
        text_consumed(ops.drop_last()) + 1
    } else {
        text_consumed(ops.drop_last())
    }
}

/// Whether `ops` uses up a pattern of `pattern_len` characters and a text of
/// `text_len` characters, no more and no less.
pub open spec fn consumes_exactly(ops: Seq<u8>, pattern_len: nat, text_len: nat) -> bool {
    pattern_consumed(ops) == pattern_len && text_consumed(ops) == text_len
}

/// The symbols of `ops` as characters.
pub open spec fn as_text(ops: Seq<u8>) -> Seq<char> {
    Seq::new(ops.len(), |i: int| ops[i] as char)
}

/// The part of the engine's operation buffer that the offsets delimit, where
/// they delimit one.
pub open spec fn window(operations: Seq<u8>, begin_offset: int, end_offset: int) -> Option<
    Seq<u8>,
> {
    if 0 <= begin_offset <= end_offset <= operations.len() {
        Some(operations.subrange(begin_offset, end_offset))
    } else {
        None
    }
}

/// Whether `index` is the place of the first symbol of `ops` outside the
/// alphabet.
pub open spec fn is_first_unknown(ops: Seq<u8>, index: int) -> bool {
    &&& 0 <= index < ops.len()
    &&& !is_operation(ops[index])
    &&& forall|j: int| 0 <= j < index ==> is_operation(#[trigger] ops[j])
}

/// What goes wrong at column `i` when `ops` is walked against a pattern of
/// `pattern_len` characters and a text of `text_len` characters, given that
/// the columns before it went well.
pub open spec fn fault_at(ops: Seq<u8>, pattern_len: nat, text_len: nat, i: int) -> Option<
    DecodeError,
> {
    if !is_operation(ops[i]) {
        Some(DecodeError::UnknownOperation { index: i as usize, symbol: ops[i] })
    } else if consumes_pattern(ops[i]) && pattern_consumed(ops.take(i)) >= pattern_len {
        Some(DecodeError::PatternExhausted { index: i as usize })
    } else if consumes_text(ops[i]) && text_consumed(ops.take(i)) >= text_len {
        Some(DecodeError::TextExhausted { index: i as usize })
    } else {
        None
    }
}

/// Whether `ops` can be walked to its end against sequences of these lengths.
pub open spec fn walkable(ops: Seq<u8>, pattern_len: nat, text_len: nat) -> bool {
    forall|i: int| 0 <= i < ops.len() ==> (#[trigger] fault_at(ops, pattern_len, text_len, i)) is None
}

/// Whether the walk of `ops` stops at column `i` with `fault`, every column
/// before it having gone well.
pub open spec fn is_first_fault(
    ops: Seq<u8>,
    pattern_len: nat,
    text_len: nat,
    i: int,
    fault: DecodeError,
) -> bool {
    &&& 0 <= i < ops.len()
    &&& fault_at(ops, pattern_len, text_len, i) == Some(fault)
    &&& forall|j: int| 0 <= j < i ==> (#[trigger] fault_at(ops, pattern_len, text_len, j)) is None
}

/// The character of the pattern line in column `i`.
pub open spec fn top_char(ops: Seq<u8>, pattern: Seq<u8>, i: int) -> char {
    if consumes_pattern(ops[i]) {
        pattern[pattern_consumed(ops.take(i)) as int] as char
    } else {
        GAP
    }
}

/// The character of the middle line in column `i`.
pub open spec fn middle_char(ops: Seq<u8>, i: int) -> char {
    if consumes_pattern(ops[i]) && consumes_text(ops[i]) {
        PAIRED
    } else {
        UNPAIRED
    }
}

/// The character of the text line in column `i`.
pub open spec fn bottom_char(ops: Seq<u8>, text: Seq<u8>, i: int) -> char {
    if consumes_text(ops[i]) {
        text[text_consumed(ops.take(i)) as int] as char
    } else {
        GAP
    }
}

/// The pattern line: the pattern's characters in order, with a gap in every
/// column that uses none.
pub open spec fn top_line(ops: Seq<u8>, pattern: Seq<u8>) -> Seq<char> {
    Seq::new(ops.len(), |i: int| top_char(ops, pattern, i))
}

/// The middle line: a bar where two characters are paired, a blank elsewhere.
pub open spec fn middle_line(ops: Seq<u8>) -> Seq<char> {
    Seq::new(ops.len(), |i: int| middle_char(ops, i))
}

/// The text line: the text's characters in order, with a gap in every column
/// that uses none.
pub open spec fn bottom_line(ops: Seq<u8>, text: Seq<u8>) -> Seq<char> {
    Seq::new(ops.len(), |i: int| bottom_char(ops, text, i))
}

/// Whether `fault` reports the first symbol of `ops` outside the alphabet,
/// with its place.
pub open spec fn is_alphabet_fault(ops: Seq<u8>, fault: DecodeError) -> bool {
    &&& fault matches DecodeError::UnknownOperation { index, symbol }
    &&& is_first_unknown(ops, index as int)
    &&& symbol == ops[index as int]
}

/// Whether `fault` is what stops the walk of `ops` against sequences of these
/// lengths, at the first column that goes wrong.
pub open spec fn is_walk_fault(
    ops: Seq<u8>,
    pattern_len: nat,
    text_len: nat,
    fault: DecodeError,
) -> bool {
    exists|i: int| #[trigger] is_first_fault(ops, pattern_len, text_len, i, fault)
}

/// Whether `fault` reports that `ops`, all of whose symbols are operations,
/// fails to use up the two sequences exactly, with the counts it does use up.
pub open spec fn is_length_fault(
    ops: Seq<u8>,
    pattern_len: nat,
    text_len: nat,
    fault: DecodeError,
) -> bool {
    &&& is_cigar(ops)
    &&& !consumes_exactly(ops, pattern_len, text_len)
    &&& fault matches DecodeError::LengthMismatch { pattern_consumed: p, text_consumed: t }
    &&& p == pattern_consumed(ops)
    &&& t == text_consumed(ops)
}

/// The four operations are the letters `M`, `X`, `D` and `I`.
pub proof fn lemma_alphabet_letters()
    ensures
        OP_MATCH as char == 'M',
        OP_MISMATCH as char == 'X',
        OP_DELETION as char == 'D',
        OP_INSERTION as char == 'I',
{
}

/// One more column adds at most one character to each count.
pub proof fn lemma_consumed_step(ops: Seq<u8>, i: int)
    requires
        0 <= i < ops.len(),
    ensures
        pattern_consumed(ops.take(i + 1)) == pattern_consumed(ops.take(i)) + if consumes_pattern(
            ops[i],
        ) {
            1nat
        } else {
            0nat
        },
        text_consumed(ops.take(i + 1)) == text_consumed(ops.take(i)) + if consumes_text(ops[i]) {
            1nat
        } else {
            0nat
        },
{
    assert(ops.take(i + 1).drop_last() =~= ops.take(i));
    assert(ops.take(i + 1).last() == ops[i]);
}

/// A CIGAR uses up no more characters of either sequence than it has columns,
/// and a prefix of it no more than the whole.
pub proof fn lemma_consumed_bounds(ops: Seq<u8>, i: int)
    requires
        0 <= i <= ops.len(),
    ensures
        pattern_consumed(ops.take(i)) <= i,
        text_consumed(ops.take(i)) <= i,
        pattern_consumed(ops.take(i)) <= pattern_consumed(ops),
        text_consumed(ops.take(i)) <= text_consumed(ops),
    decreases ops.len() - i,
{
    if i == ops.len() {
        assert(ops.take(i) =~= ops);
        lemma_consumed_at_most_len(ops);
    } else {
        lemma_consumed_bounds(ops, i + 1);
        lemma_consumed_step(ops, i);
        lemma_consumed_at_most_len(ops.take(i));
    }
}

proof fn lemma_consumed_at_most_len(ops: Seq<u8>)
    ensures
        pattern_consumed(ops) <= ops.len(),
        text_consumed(ops) <= ops.len(),
    decreases ops.len(),
{
    if ops.len() > 0 {
        lemma_consumed_at_most_len(ops.drop_last());
    }
}

/// A CIGAR can be walked to its end exactly when all its symbols are
/// operations and it uses up no more characters than the two sequences hold.
pub proof fn lemma_walkable_iff_within_lengths(ops: Seq<u8>, pattern_len: nat, text_len: nat)
    ensures
        walkable(ops, pattern_len, text_len) <==> is_cigar(ops) && pattern_consumed(ops)
            <= pattern_len && text_consumed(ops) <= text_len,
    decreases ops.len(),
{
    if ops.len() == 0 {
    } else {
        let n = ops.len() - 1;
        let init = ops.drop_last();
        lemma_walkable_iff_within_lengths(init, pattern_len, text_len);
        assert(ops.take(n) =~= init);
        assert forall|i: int| 0 <= i < n implies fault_at(init, pattern_len, text_len, i)
            == fault_at(ops, pattern_len, text_len, i) by {
            assert(init.take(i) =~= ops.take(i));
        }
        if walkable(ops, pattern_len, text_len) {
            assert forall|i: int| 0 <= i < n implies (#[trigger] fault_at(
                init,
                pattern_len,
                text_len,
                i,
            )) is None by {
                assert(fault_at(ops, pattern_len, text_len, i) is None);
            }
            assert(fault_at(ops, pattern_len, text_len, n) is None);
            assert forall|i: int| 0 <= i < ops.len() implies is_operation(#[trigger] ops[i]) by {
                assert(fault_at(ops, pattern_len, text_len, i) is None);
            }
        }
        if is_cigar(ops) && pattern_consumed(ops) <= pattern_len && text_consumed(ops)
            <= text_len {
            assert forall|i: int| 0 <= i < init.len() implies is_operation(
                #[trigger] init[i],
            ) by {
                assert(init[i] == ops[i]);
            }
            assert(is_operation(ops[n]));
            assert forall|i: int| 0 <= i < ops.len() implies (#[trigger] fault_at(
                ops,
                pattern_len,
                text_len,
                i,
            )) is None by {
                if i < n {
                    assert(fault_at(init, pattern_len, text_len, i) is None);
                }
            }
        }
    }
}

/// A CIGAR that uses up two sequences exactly can be walked against them to
/// its end.
pub proof fn lemma_exact_cigar_is_walkable(ops: Seq<u8>, pattern_len: nat, text_len: nat)
    requires
        is_cigar(ops),
        consumes_exactly(ops, pattern_len, text_len),
    ensures
        walkable(ops, pattern_len, text_len),
{
    lemma_walkable_iff_within_lengths(ops, pattern_len, text_len);
}

/// Every column uses up a character of at least one sequence, and none uses
/// more than one of each: the columns of a CIGAR number at least as many as
/// the characters of the longer sequence and at most as many as both together.
pub proof fn lemma_columns_between_lengths(ops: Seq<u8>)
    requires
        is_cigar(ops),
    ensures
        pattern_consumed(ops) <= ops.len(),
        text_consumed(ops) <= ops.len(),
        ops.len() <= pattern_consumed(ops) + text_consumed(ops),
    decreases ops.len(),
{
    if ops.len() > 0 {
        let init = ops.drop_last();
        assert forall|i: int| 0 <= i < init.len() implies is_operation(#[trigger] init[i]) by {
            assert(init[i] == ops[i]);
        }
        lemma_columns_between_lengths(init);
        assert(is_operation(ops[ops.len() - 1]));
    }
}

/// Copies out of the engine's operation buffer the range that the reported
/// offsets delimit. Offsets that delimit no range of the buffer are refused.
pub fn read_window(operations: &[u8], begin_offset: i32, end_offset: i32) -> (r: Result<
    Vec<u8>,
    DecodeError,
>)
    ensures
        match window(operations@, begin_offset as int, end_offset as int) {
            Some(range) => r is Ok && r->Ok_0@ == range,
            None => r == Err::<Vec<u8>, DecodeError>(
                DecodeError::WindowOutOfBounds { begin_offset, end_offset },
            ),
        },
{
    if begin_offset < 0 || end_offset < begin_offset {
        return Err(DecodeError::WindowOutOfBounds { begin_offset, end_offset });
    }
    let begin: usize = begin_offset as usize;
    let end: usize = end_offset as usize;
    if end > operations.len() {
        return Err(DecodeError::WindowOutOfBounds { begin_offset, end_offset });
    }
    let mut range: Vec<u8> = Vec::new();
    let mut i: usize = begin;
    while i < end
        invariant
            begin <= i <= end <= operations.len(),
            range@ == operations@.subrange(begin as int, i as int),
        decreases end - i,
    {
        range.push(operations[i]);
        i += 1;
    }
    Ok(range)
}

/// Checks that every symbol of `ops` is one of the four operations, and
/// reports the first that is not.
pub fn check_alphabet(ops: &[u8]) -> (r: Result<(), DecodeError>)
    ensures
        r is Ok <==> is_cigar(ops@),
        r matches Err(fault) ==> is_alphabet_fault(ops@, fault),
{
    let mut i: usize = 0;
    while i < ops.len()
        invariant
            i <= ops.len(),
            forall|j: int| 0 <= j < i ==> is_operation(#[trigger] ops@[j]),
        decreases ops.len() - i,
    {
        let op: u8 = ops[i];
        if !(op == OP_MATCH || op == OP_MISMATCH || op == OP_DELETION || op == OP_INSERTION) {
            return Err(DecodeError::UnknownOperation { index: i, symbol: op });
        }
        i += 1;
    }
    Ok(())
}

/// Counts the pattern characters and the text characters that `ops` uses up.
pub fn consumed_lengths(ops: &[u8]) -> (counts: (usize, usize))
    ensures
        counts.0 == pattern_consumed(ops@),
        counts.1 == text_consumed(ops@),
{
    let mut in_pattern: usize = 0;
    let mut in_text: usize = 0;
    let mut i: usize = 0;
    while i < ops.len()
        invariant
            i <= ops.len(),
            in_pattern == pattern_consumed(ops@.take(i as int)),
            in_text == text_consumed(ops@.take(i as int)),
        decreases ops.len() - i,
    {
        let op: u8 = ops[i];
        proof {
            lemma_consumed_step(ops@, i as int);
            lemma_consumed_bounds(ops@, i as int);
        }
        if op == OP_MATCH || op == OP_MISMATCH || op == OP_DELETION {
            in_pattern += 1;
        }
        if op == OP_MATCH || op == OP_MISMATCH || op == OP_INSERTION {
            in_text += 1;
        }
        i += 1;
    }
    assert(ops@.take(ops@.len() as int) =~= ops@);
    (in_pattern, in_text)
}

/// Checks the CIGAR of a completed alignment of a pattern of `pattern_len`
/// characters with a text of `text_len` characters: every symbol is an
/// operation, and together they use up both sequences exactly. An unknown
/// symbol is reported before a wrong length.
pub fn check_alignment(ops: &[u8], pattern_len: usize, text_len: usize) -> (r: Result<
    (),
    DecodeError,
>)
    ensures
        r is Ok <==> is_cigar(ops@) && consumes_exactly(ops@, pattern_len as nat, text_len as nat),
        r matches Err(fault) ==> is_alphabet_fault(ops@, fault) || is_length_fault(
            ops@,
            pattern_len as nat,
            text_len as nat,
            fault,
        ),
{
    match check_alphabet(ops) {
        Err(fault) => Err(fault),
        Ok(()) => {
            let (in_pattern, in_text) = consumed_lengths(ops);
            if in_pattern == pattern_len && in_text == text_len {
                Ok(())
            } else {
                Err(
                    DecodeError::LengthMismatch {
                        pattern_consumed: in_pattern,
                        text_consumed: in_text,
                    },
                )
            }
        },
    }
}

/// The CIGAR as text, one character per operation.
pub fn cigar_text(ops: &[u8]) -> (text: String)
    ensures
        text@ == as_text(ops@),
{
    let mut text = String::new();
    let mut i: usize = 0;
    while i < ops.len()
        invariant
            i <= ops.len(),
            text@.len() == i,
            forall|j: int| 0 <= j < i ==> text@[j] == ops@[j] as char,
        decreases ops.len() - i,
    {
        text.push(ops[i] as char);
        i += 1;
    }
    assert(text@ =~= as_text(ops@));
    text
}

/// Lays out the alignment that `ops` describes as three lines of one
/// character per column: the pattern with its gaps, the marks of the paired
/// characters, and the text with its gaps. The CIGAR is walked from left to
/// right, and the first column that names no operation, or that needs a
/// character of a sequence that has none left, stops the walk with its fault.
pub fn cigar_matching(ops: &[u8], pattern: &[u8], text: &[u8]) -> (r: Result<
    (String, String, String),
    DecodeError,
>)
    ensures
        r is Ok <==> walkable(ops@, pattern@.len(), text@.len()),
        r matches Ok(lines) ==> {
            &&& lines.0@ == top_line(ops@, pattern@)
            &&& lines.1@ == middle_line(ops@)
            &&& lines.2@ == bottom_line(ops@, text@)
        },
        r matches Ok(lines) ==> {
            &&& lines.0@.len() == ops@.len()
            &&& lines.1@.len() == ops@.len()
            &&& lines.2@.len() == ops@.len()
        },
        r matches Err(fault) ==> is_walk_fault(ops@, pattern@.len(), text@.len(), fault),
{
    let mut top = String::new();
    let mut middle = String::new();
    let mut bottom = String::new();
    let mut in_pattern: usize = 0;
    let mut in_text: usize = 0;
    let mut i: usize = 0;
    while i < ops.len()
        invariant
            i <= ops.len(),
            in_pattern <= pattern.len(),
            in_text <= text.len(),
            in_pattern == pattern_consumed(ops@.take(i as int)),
            in_text == text_consumed(ops@.take(i as int)),
            forall|j: int|
                0 <= j < i ==> (#[trigger] fault_at(ops@, pattern@.len(), text@.len(), j)) is None,
            top@.len() == i,
            middle@.len() == i,
            bottom@.len() == i,
            forall|j: int| 0 <= j < i ==> top@[j] == top_char(ops@, pattern@, j),
            forall|j: int| 0 <= j < i ==> middle@[j] == middle_char(ops@, j),
            forall|j: int| 0 <= j < i ==> bottom@[j] == bottom_char(ops@, text@, j),
        decreases ops.len() - i,
    {
        let op: u8 = ops[i];
        proof {
            lemma_consumed_step(ops@, i as int);
        }
        if op == OP_MATCH || op == OP_MISMATCH {
            if in_pattern >= pattern.len() {
                let fault = DecodeError::PatternExhausted { index: i };
                assert(is_first_fault(ops@, pattern@.len(), text@.len(), i as int, fault));
                return Err(fault);
            }
            if in_text >= text.len() {
                let fault = DecodeError::TextExhausted { index: i };
                assert(is_first_fault(ops@, pattern@.len(), text@.len(), i as int, fault));
                return Err(fault);
            }
            top.push(pattern[in_pattern] as char);
            middle.push(PAIRED);
            bottom.push(text[in_text] as char);
            in_pattern += 1;
            in_text += 1;
        } else if op == OP_DELETION {
            if in_pattern >= pattern.len() {
                let fault = DecodeError::PatternExhausted { index: i };
                assert(is_first_fault(ops@, pattern@.len(), text@.len(), i as int, fault));
                return Err(fault);
            }
            top.push(pattern[in_pattern] as char);
            middle.push(UNPAIRED);
            bottom.push(GAP);
            in_pattern += 1;
        } else if op == OP_INSERTION {
            if in_text >= text.len() {
                let fault = DecodeError::TextExhausted { index: i };
                assert(is_first_fault(ops@, pattern@.len(), text@.len(), i as int, fault));
                return Err(fault);
            }
            top.push(GAP);
            middle.push(UNPAIRED);
            bottom.push(text[in_text] as char);
            in_text += 1;
        } else {
            let fault = DecodeError::UnknownOperation { index: i, symbol: op };
            assert(is_first_fault(ops@, pattern@.len(), text@.len(), i as int, fault));
            return Err(fault);
        }
        i += 1;
    }
    assert(top@ =~= top_line(ops@, pattern@));
    assert(middle@ =~= middle_line(ops@));
    assert(bottom@ =~= bottom_line(ops@, text@));
    Ok((top, middle, bottom))
}

} // verus!
