//! A fixed-width progress bar drawn with block characters, each cell filled
//! to the nearest eighth.

use vstd::prelude::*;

verus! {

/// A completely filled cell.
pub const FULL_BLOCK: char = '█';

/// An empty cell.
pub const BLANK: char = ' ';

/// An exact ratio of two integers. A progress value is the ratio of the
/// distance covered to the whole distance.
#[derive(Clone, Copy, Debug, PartialEq, Eq, Structural)]
pub struct Fraction {
    pub numerator: i64,
    pub denominator: i64,
}

impl Fraction {
    /// The ratio lies between zero and one, both included.
    pub open spec fn in_unit_range(self) -> bool {
        0 <= self.numerator <= self.denominator && self.denominator > 0
    }

    /// The ratio of `numerator` to `denominator`.
    pub fn new(numerator: i64, denominator: i64) -> (f: Fraction)
        ensures
            f.numerator == numerator,
            f.denominator == denominator,
    {
        Fraction { numerator, denominator }
    }

    /// The nearest ratio between zero and one with the same denominator:
    /// the ratio itself where it lies between them, else zero or one.
    pub fn clamped(&self) -> (f: Fraction)
        requires
            self.denominator > 0,
        ensures
            f.in_unit_range(),
            f.denominator == self.denominator,
            self.in_unit_range() ==> f == *self,
            self.numerator < 0 ==> f.numerator == 0,
            self.numerator > self.denominator ==> f.numerator == self.denominator,
    {
        let numerator = if self.numerator < 0 {
            0
        } else if self.numerator > self.denominator {
            self.denominator
        } else {
            self.numerator
        };
        Fraction { numerator, denominator: self.denominator }
    }

    /// Tests whether the ratio lies between zero and one.
    pub fn is_in_unit_range(&self) -> (b: bool)
        ensures
            b == self.in_unit_range(),
    {
        0 <= self.numerator && self.numerator <= self.denominator && self.denominator > 0
    }
}

/// The glyph for a cell of which `rem / den` is filled, with `0 <= rem < den`.
///
/// The filled share, as a percentage, selects one of nine buckets that are
/// centred on the eighths: below 6.25 nothing is drawn, from 6.25 up to (not
/// including) 18.75 the one-eighth block, and so on in steps of 12.5, until
/// from 93.75 on the cell counts as full. The bounds below are those
/// percentages times one hundred.
pub open spec fn partial_glyph(rem: int, den: int) -> Option<char> {
    let share = 10000 * rem;
    if share < 625 * den {
        None
    } else if share < 1875 * den {
        Some('▏')
    } else if share < 3125 * den {
        Some('▎')
    } else if share < 4375 * den {
        Some('▍')
    } else if share < 5625 * den {
        Some('▌')
    } else if share < 6875 * den {
        Some('▋')
    } else if share < 8125 * den {
        Some('▊')
    } else if share < 9375 * den {
        Some('▉')
    } else {
        Some(FULL_BLOCK)
    }
}

/// A run of `n` copies of `c` (empty when `n` is not positive).
pub open spec fn repeat(c: char, n: int) -> Seq<char> {
    Seq::new(
        if n > 0 {
            n as nat
        } else {
            0
        },
        |i: int| c,
    )
}

/// The number of cells that `progress` fills completely in a bar of
/// `width` cells.
pub open spec fn whole_cells(progress: Fraction, width: nat) -> int {
    (progress.numerator * width) / (progress.denominator as int)
}

/// What is left of the progress after the whole cells, in parts of a cell
/// of which `progress.denominator` make a full one.
pub open spec fn cell_rest(progress: Fraction, width: nat) -> int {
    (progress.numerator * width) % (progress.denominator as int)
}

/// The filled part of the bar: the whole cells, then the glyph of the cell
/// that is partly filled, if it gets one.
pub open spec fn filled_cells(progress: Fraction, width: nat) -> Seq<char> {
    let whole = repeat(FULL_BLOCK, whole_cells(progress, width));
    match partial_glyph(cell_rest(progress, width), progress.denominator as int) {
        Some(glyph) => whole.push(glyph),
        None => whole,
    }
}

/// The bar for `progress` in `width` cells: the filled part, padded on the
/// right with blanks up to `width`.
pub open spec fn bar_cells(progress: Fraction, width: nat) -> Seq<char> {
    let filled = filled_cells(progress, width);
    filled + repeat(BLANK, width - filled.len())
}

/// For a ratio between zero and one, the whole cells never exceed the
/// width, and when they fill it nothing is left over for a partial cell.
pub proof fn lemma_whole_cells_fit(progress: Fraction, width: nat)
    requires
        progress.in_unit_range(),
    ensures
        0 <= whole_cells(progress, width) <= width,
        0 <= cell_rest(progress, width) < progress.denominator,
        whole_cells(progress, width) == width ==> cell_rest(progress, width) == 0,
{
    let n = progress.numerator as int;
    let d = progress.denominator as int;
    let w = width as int;
    let q = whole_cells(progress, width);
    let r = cell_rest(progress, width);
    vstd::arithmetic::div_mod::lemma_fundamental_div_mod(n * w, d);
    vstd::arithmetic::div_mod::lemma_mod_bound(n * w, d);
    assert(0 <= n * w <= d * w) by (nonlinear_arith)
        requires
            0 <= n <= d,
            0 <= w,
    ;
    assert(q >= 0) by (nonlinear_arith)
        requires
            n * w == d * q + r,
            0 <= r < d,
            0 <= n * w,
    ;
    assert(q <= w && (q == w ==> r == 0)) by (nonlinear_arith)
        requires
            n * w == d * q + r,
            0 <= r < d,
            n * w <= d * w,
    ;
}

/// The bar of a ratio between zero and one is exactly as wide as asked:
/// the filled part never outgrows the width, so nothing needs cutting.
pub proof fn lemma_bar_width(progress: Fraction, width: nat)
    requires
        progress.in_unit_range(),
    ensures
        filled_cells(progress, width).len() <= width,
        bar_cells(progress, width).len() == width,
{
    lemma_whole_cells_fit(progress, width);
}

/// Picks the glyph for a cell of which `rem / den` is filled.
pub fn glyph_for(rem: u64, den: u64) -> (glyph: Option<char>)
    requires
        rem < den,
    ensures
        glyph == partial_glyph(rem as int, den as int),
{
    let share: u128 = 10000 * (rem as u128);
    let den: u128 = den as u128;
    if share < 625 * den {
        None
    } else if share < 1875 * den {
        Some('▏')
    } else if share < 3125 * den {
        Some('▎')
    } else if share < 4375 * den {
        Some('▍')
    } else if share < 5625 * den {
        Some('▌')
    } else if share < 6875 * den {
        Some('▋')
    } else if share < 8125 * den {
        Some('▊')
    } else if share < 9375 * den {
        Some('▉')
    } else {
        Some(FULL_BLOCK)
    }
}

/// Renders `progress` as a bar of `progress_bar_length` cells: full blocks
/// for the whole cells, one partial block where the rest of the progress
/// amounts to at least a sixteenth of a cell, then blanks.
pub fn pct_progress_bar(progress: Fraction, progress_bar_length: usize) -> (bar: String)
    requires
        progress.in_unit_range(),
    ensures
        bar@ == bar_cells(progress, progress_bar_length as nat),
        bar@.len() == progress_bar_length,
{
    let width: u128 = progress_bar_length as u128;
    let num: u128 = progress.numerator as u128;
    let den: u128 = progress.denominator as u128;
    proof {
        lemma_whole_cells_fit(progress, progress_bar_length as nat);
        lemma_bar_width(progress, progress_bar_length as nat);
        assert(num * width <= 0x7fff_ffff_ffff_ffff * 0xffff_ffff_ffff_ffff) by (nonlinear_arith)
            requires
                0 <= num <= 0x7fff_ffff_ffff_ffff,
                0 <= width <= 0xffff_ffff_ffff_ffff,
        ;
    }
    let exact: u128 = num * width;
    let whole: usize = (exact / den) as usize;
    let rem: u64 = (exact % den) as u64;

    let mut bar = String::new();
    let mut count: usize = 0;
    while count < whole
        invariant
            count <= whole,
            bar@ == repeat(FULL_BLOCK, count as int),
        decreases whole - count,
    {
        bar.push(FULL_BLOCK);
        count += 1;
    }
    if let Some(glyph) = glyph_for(rem, progress.denominator as u64) {
        bar.push(glyph);
        count += 1;
    }
    let ghost filled = bar@;
    assert(filled == filled_cells(progress, progress_bar_length as nat));
    while count < progress_bar_length
        invariant
            count <= progress_bar_length,
            filled.len() <= count,
            bar@ == filled + repeat(BLANK, count - filled.len()),
        decreases progress_bar_length - count,
    {
        bar.push(BLANK);
        count += 1;
    }
    bar
}

} // verus!
