//! The pattern store: a text bitmap turned into a row-major grid of bits.
use vstd::prelude::*;

verus! {

/// A knitting pattern: `rows[r][c]` tells whether needle column `c` of row `r`
/// is selected. Rows may be ragged; a missing bit reads as unset.
pub struct KnitPattern {
    pub rows: Vec<Vec<bool>>,
    pub width: usize,
    pub height: usize,
}

/// The rows of a pattern as a sequence of bit sequences.
pub open spec fn rows_view(rows: Seq<Vec<bool>>) -> Seq<Seq<bool>> {
    rows.map_values(|r: Vec<bool>| r@)
}

/// The bit at `(row, col)`; `false` anywhere outside the stored rows.
pub open spec fn bit_at(rows: Seq<Seq<bool>>, row: int, col: int) -> bool {
    &&& 0 <= row < rows.len()
    &&& 0 <= col < rows[row].len()
    &&& rows[row][col]
}

impl View for KnitPattern {
    type V = Seq<Seq<bool>>;

    open spec fn view(&self) -> Seq<Seq<bool>> {
        rows_view(self.rows@)
    }
}

impl KnitPattern {
    /// The bit at `(row, col)`, `false` for any position outside the pattern.
    pub fn bit_at(&self, row: usize, col: usize) -> (r: bool)
        ensures
            r == bit_at(self@, row as int, col as int),
    {
        if row >= self.rows.len() {
            return false;
        }
        let line = &self.rows[row];
        if col >= line.len() {
            return false;
        }
        line[col]
    }
}

/// A character that marks a selected needle in pattern text.
pub open spec fn is_mark(c: char) -> bool {
    c == '#' || c == '@' || c == 'X' || c == 'x'
}

/// A finished line: one `'\r'` right before its `'\n'` is not part of it.
pub open spec fn strip_cr(line: Seq<char>) -> Seq<char> {
    if line.len() > 0 && line.last() == '\r' {
        line.drop_last()
    } else {
        line
    }
}

/// Reading `text` from the start: the lines finished by a `'\n'` so far, and
/// the characters seen since the last `'\n'`.
pub open spec fn scan_lines(text: Seq<char>) -> (Seq<Seq<char>>, Seq<char>)
    decreases text.len(),
{
    if text.len() == 0 {
        (seq![], seq![])
    } else {
        let (done, cur) = scan_lines(text.drop_last());
        if text.last() == '\n' {
            (done.push(strip_cr(cur)), seq![])
        } else {
            (done, cur.push(text.last()))
        }
    }
}

/// The lines of `text`: split at each `'\n'` (with an optional `'\r'` before
/// it); the last line needs no terminator, and no empty line follows a final
/// `'\n'`.
pub open spec fn text_lines(text: Seq<char>) -> Seq<Seq<char>> {
    let (done, cur) = scan_lines(text);
    if cur.len() > 0 {
        done.push(cur)
    } else {
        done
    }
}

/// One pattern row from one line of text.
pub open spec fn row_bits(line: Seq<char>) -> Seq<bool> {
    line.map_values(|c: char| is_mark(c))
}

/// The rows that `text` describes.
pub open spec fn pattern_rows(text: Seq<char>) -> Seq<Seq<bool>> {
    text_lines(text).map_values(|l: Seq<char>| row_bits(l))
}

/// The length of the longest row, 0 when there is none.
pub open spec fn max_row_len(rows: Seq<Seq<bool>>) -> nat
    decreases rows.len(),
{
    if rows.len() == 0 {
        0
    } else {
        let m = max_row_len(rows.drop_last());
        if rows.last().len() > m {
            rows.last().len()
        } else {
            m
        }
    }
}

/// A pattern whose width and height agree with its rows.
pub open spec fn well_formed(p: KnitPattern) -> bool {
    &&& p.height == p@.len()
    &&& p.width == max_row_len(p@)
}

/// Parses pattern text: one row per line, top to bottom; `#`, `@`, `X` and `x`
/// mark selected needles, every other character (and every position past the
/// end of a short line) is unset. Never fails: empty text gives an empty
/// pattern.
pub fn parse_pattern(pattern: &str) -> (r: KnitPattern)
    ensures
        r@ == pattern_rows(pattern@),
        well_formed(r),
{
    let mut rows: Vec<Vec<bool>> = Vec::new();
    let mut cur: Vec<bool> = Vec::new();
    let mut last_cr = false;
    let mut width: usize = 0;
    let ghost mut seen: Seq<char> = seq![];
    for c in it: pattern.chars()
        invariant
            it.seq() == pattern@,
            seen == pattern@.take(it.index() as int),
            rows_view(rows@) == scan_lines(seen).0.map_values(|l: Seq<char>| row_bits(l)),
            cur@ == row_bits(scan_lines(seen).1),
            last_cr == (scan_lines(seen).1.len() > 0 && scan_lines(seen).1.last() == '\r'),
            width == max_row_len(rows_view(rows@)),
    {
        proof {
            assert(pattern@.take(it.index() + 1) == seen.push(c));
        }
        if c == '\n' {
            if last_cr {
                cur.pop();
            }
            let n = cur.len();
            if n > width {
                width = n;
            }
            let ghost before = rows@;
            proof {
                let next = seen.push(c);
                assert(next.drop_last() == seen);
                let (done, line) = scan_lines(seen);
                assert(cur@ == row_bits(strip_cr(line)));
                assert(rows_view(before.push(cur)) == rows_view(before).push(cur@));
                assert(done.push(strip_cr(line)).map_values(|l: Seq<char>| row_bits(l))
                    == done.map_values(|l: Seq<char>| row_bits(l)).push(row_bits(strip_cr(line))));
                assert(rows_view(before.push(cur)).drop_last() == rows_view(before));
            }
            rows.push(cur);
            cur = Vec::new();
            last_cr = false;
        } else {
            cur.push(c == '#' || c == '@' || c == 'X' || c == 'x');
            last_cr = c == '\r';
            proof {
                let next = seen.push(c);
                assert(next.drop_last() == seen);
                assert(row_bits(scan_lines(seen).1.push(c)) == row_bits(scan_lines(seen).1).push(
                    is_mark(c),
                ));
            }
        }
        proof {
            seen = seen.push(c);
        }
    }
    proof {
        assert(seen == pattern@);
    }
    if cur.len() > 0 {
        let n = cur.len();
        if n > width {
            width = n;
        }
        let ghost before = rows@;
        proof {
            assert(rows_view(before.push(cur)) == rows_view(before).push(cur@));
            assert(rows_view(before.push(cur)).drop_last() == rows_view(before));
        }
        rows.push(cur);
    }
    proof {
        assert(rows_view(rows@) == pattern_rows(pattern@));
    }
    let height = rows.len();
    KnitPattern { rows, width, height }
}

/// The bit at `(row, needle)`; negative or too large coordinates read as unset.
pub fn pattern_get(pattern: &KnitPattern, row: i32, needle: i32) -> (r: bool)
    ensures
        r == bit_at(pattern@, row as int, needle as int),
{
    if row < 0 || needle < 0 {
        return false;
    }
    pattern.bit_at(row as usize, needle as usize)
}

} // verus!
