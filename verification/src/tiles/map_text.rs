//! The text form of a world grid: one row per line, the tile types of a row
//! written in decimal and separated by blanks.

use vstd::prelude::*;

verus! {

/// Whether the byte separates numbers: a space, a tab or a carriage return.
pub open spec fn is_blank(byte: u8) -> bool {
    byte == 32 || byte == 9 || byte == 13
}

/// Whether the byte is a decimal digit.
pub open spec fn is_digit(byte: u8) -> bool {
    48 <= byte <= 57
}

/// The lines of `text`: the pieces between its line feeds. A text without a
/// line feed is one line, and a text that ends in a line feed has an empty
/// last line.
pub open spec fn spec_lines(text: Seq<u8>) -> Seq<Seq<u8>>
    decreases text.len(),
{
    if text.len() == 0 {
        seq![Seq::empty()]
    } else {
        let before = spec_lines(text.drop_last());
        if text.last() == 10 {
            before.push(Seq::empty())
        } else {
            before.update(before.len() - 1, before.last().push(text.last()))
        }
    }
}

/// What has been read of a row: the numbers that are complete, the number
/// in progress, and whether everything read so far was well formed.
pub struct RowScan {
    pub cells: Seq<u32>,
    pub pending: Option<u32>,
    pub valid: bool,
}

/// The scan after one more byte. A blank completes the number in progress, a
/// digit extends it, and anything else, or a number too large for 32 bits,
/// spoils the row.
pub open spec fn spec_scan_byte(scan: RowScan, byte: u8) -> RowScan {
    if !scan.valid {
        scan
    } else if is_blank(byte) {
        match scan.pending {
            Some(number) => RowScan { cells: scan.cells.push(number), pending: None, valid: true },
            None => scan,
        }
    } else if is_digit(byte) {
        let so_far: int = match scan.pending {
            Some(number) => number as int,
            None => 0,
        };
        let number = so_far * 10 + (byte - 48);
        if number > u32::MAX {
            RowScan { valid: false, ..scan }
        } else {
            RowScan { pending: Some(number as u32), ..scan }
        }
    } else {
        RowScan { valid: false, ..scan }
    }
}

/// The scan of a whole line, byte by byte.
pub open spec fn spec_scan(line: Seq<u8>) -> RowScan
    decreases line.len(),
{
    if line.len() == 0 {
        RowScan { cells: Seq::empty(), pending: None, valid: true }
    } else {
        spec_scan_byte(spec_scan(line.drop_last()), line.last())
    }
}

/// The numbers of a line, in order, or nothing if the line holds anything
/// but blanks and numbers that fit in 32 bits.
pub open spec fn spec_row(line: Seq<u8>) -> Option<Seq<u32>> {
    let scan = spec_scan(line);
    if !scan.valid {
        None
    } else {
        match scan.pending {
            Some(number) => Some(scan.cells.push(number)),
            None => Some(scan.cells),
        }
    }
}

/// Whether `lines` holds the lines of `text`.
pub open spec fn holds_lines(lines: Seq<Vec<u8>>, text: Seq<u8>) -> bool {
    &&& lines.len() == spec_lines(text).len()
    &&& forall|j: int| 0 <= j < lines.len() ==> (#[trigger] lines[j])@ == spec_lines(text)[j]
}

/// The lines of `text`.
pub fn split_lines(text: &[u8]) -> (lines: Vec<Vec<u8>>)
    ensures
        holds_lines(lines@, text@),
{
    let mut lines: Vec<Vec<u8>> = Vec::new();
    let mut current: Vec<u8> = Vec::new();
    let mut i: usize = 0;
    while i < text.len()
        invariant
            i <= text@.len(),
            spec_lines(text@.take(i as int)).len() == lines@.len() + 1,
            forall|j: int|
                0 <= j < lines@.len() ==> (#[trigger] lines@[j])@ == spec_lines(
                    text@.take(i as int),
                )[j],
            current@ == spec_lines(text@.take(i as int)).last(),
        decreases text@.len() - i,
    {
        let ghost before = spec_lines(text@.take(i as int));
        proof {
            assert(text@.take(i + 1).drop_last() =~= text@.take(i as int));
            assert(text@.take(i + 1).last() == text@[i as int]);
        }
        let byte: u8 = text[i];
        if byte == 10 {
            lines.push(current);
            current = Vec::new();
            proof {
                assert(current@ =~= Seq::<u8>::empty());
            }
        } else {
            current.push(byte);
        }
        i = i + 1;
    }
    proof {
        assert(text@.take(i as int) =~= text@);
    }
    lines.push(current);
    lines
}

/// The numbers of a line, in order, or nothing if the line holds anything
/// but blanks and numbers that fit in 32 bits.
pub fn parse_row(line: &Vec<u8>) -> (cells: Option<Vec<u32>>)
    ensures
        match cells {
            Some(numbers) => spec_row(line@) == Some(numbers@),
            None => spec_row(line@) is None,
        },
{
    let mut numbers: Vec<u32> = Vec::new();
    let mut pending: Option<u32> = None;
    let mut valid: bool = true;
    let mut i: usize = 0;
    while i < line.len()
        invariant
            i <= line@.len(),
            valid == spec_scan(line@.take(i as int)).valid,
            valid ==> spec_scan(line@.take(i as int)) == (RowScan {
                cells: numbers@,
                pending,
                valid: true,
            }),
        decreases line@.len() - i,
    {
        proof {
            assert(line@.take(i + 1).drop_last() =~= line@.take(i as int));
            assert(line@.take(i + 1).last() == line@[i as int]);
        }
        let byte: u8 = line[i];
        if valid {
            if byte == 32 || byte == 9 || byte == 13 {
                if let Some(number) = pending {
                    numbers.push(number);
                    pending = None;
                }
            } else if 48 <= byte && byte <= 57 {
                let so_far: u64 = match pending {
                    Some(number) => number as u64,
                    None => 0,
                };
                let number: u64 = so_far * 10 + (byte - 48) as u64;
                if number > 0xffff_ffff {
                    valid = false;
                } else {
                    pending = Some(number as u32);
                }
            } else {
                valid = false;
            }
        }
        i = i + 1;
    }
    proof {
        assert(line@.take(i as int) =~= line@);
    }
    if !valid {
        return None;
    }
    if let Some(number) = pending {
        numbers.push(number);
    }
    Some(numbers)
}

/// The natural number `number` written in decimal, as bytes.
pub open spec fn spec_numeral(number: nat) -> Seq<u8>
    decreases number,
{
    if number < 10 {
        seq![(48 + number) as u8]
    } else {
        spec_numeral(number / 10).push((48 + number % 10) as u8)
    }
}

/// A row written as text: its numbers in decimal, with one space between
/// two numbers.
pub open spec fn spec_written_row(cells: Seq<u32>) -> Seq<u8>
    decreases cells.len(),
{
    if cells.len() == 0 {
        Seq::empty()
    } else if cells.len() == 1 {
        spec_numeral(cells[0] as nat)
    } else {
        spec_written_row(cells.drop_last()) + seq![32u8] + spec_numeral(cells.last() as nat)
    }
}

/// Reading a number: after a text that ends between two numbers, the
/// decimal form of a number of 32 bits is read as that number.
pub proof fn lemma_numeral_is_read(before: Seq<u8>, number: nat)
    requires
        spec_scan(before).valid,
        spec_scan(before).pending is None,
        number <= u32::MAX,
    ensures
        spec_scan(before + spec_numeral(number)) == (RowScan {
            cells: spec_scan(before).cells,
            pending: Some(number as u32),
            valid: true,
        }),
    decreases number,
{
    let text = before + spec_numeral(number);
    if number < 10 {
        assert(text.drop_last() =~= before);
    } else {
        lemma_numeral_is_read(before, number / 10);
        assert(text.drop_last() =~= before + spec_numeral(number / 10));
    }
}

/// Reading a written row: every number but the last is complete and the
/// last is in progress.
pub proof fn lemma_written_row_is_scanned(cells: Seq<u32>)
    requires
        cells.len() > 0,
    ensures
        spec_scan(spec_written_row(cells)) == (RowScan {
            cells: cells.drop_last(),
            pending: Some(cells.last()),
            valid: true,
        }),
    decreases cells.len(),
{
    if cells.len() == 1 {
        lemma_numeral_is_read(Seq::empty(), cells[0] as nat);
        assert(Seq::<u8>::empty() + spec_numeral(cells[0] as nat) =~= spec_numeral(
            cells[0] as nat,
        ));
        assert(cells.drop_last() =~= Seq::<u32>::empty());
    } else {
        let earlier = cells.drop_last();
        lemma_written_row_is_scanned(earlier);
        let spaced = spec_written_row(earlier) + seq![32u8];
        assert(spaced.drop_last() =~= spec_written_row(earlier));
        assert(earlier.drop_last().push(earlier.last()) =~= earlier);
        lemma_numeral_is_read(spaced, cells.last() as nat);
    }
}

/// What is written can be read: a row written as text is read as the same
/// row.
pub proof fn lemma_written_row_is_read(cells: Seq<u32>)
    ensures
        spec_row(spec_written_row(cells)) == Some(cells),
{
    if cells.len() == 0 {
        assert(cells =~= Seq::<u32>::empty());
    } else {
        lemma_written_row_is_scanned(cells);
        assert(cells.drop_last().push(cells.last()) =~= cells);
    }
}

} // verus!
