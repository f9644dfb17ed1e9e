//! The price axis: it maps a price to a continuous row coordinate and
//! renders the label column on the left of the plot.
//!
//! The coordinate is kept as an exact rational (`RowCoord`), so the
//! quarter-row thresholds of the rasterizer are decided by exact integer
//! arithmetic.  The axis is rebuilt from the visible candles' price
//! extrema and the plot height before every render pass.

use vstd::prelude::*;

verus! {

/// Width in characters of the label column, candle columns start after it.
pub const AXIS_WIDTH: i64 = 12;

/// Width in characters of the numeric part of a label; one more column
/// holds the tick mark.
pub const AXIS_NUMBER_WIDTH: i64 = 11;

/// Largest denominator a well-formed `RowCoord` may carry: the widest
/// possible price range, `i64::MAX - i64::MIN`.
pub const COORD_DEN_MAX: i128 = 0x1_0000_0000_0000_0000;

/// Largest magnitude a well-formed `RowCoord` numerator may carry; wide
/// enough for any price difference times any plot height.
pub const COORD_NUM_MAX: i128 = 0x20_0000_0000_0000_0000_0000;

/// A continuous row coordinate, the exact rational `num / den`.
/// Row `y` of the plot corresponds to coordinate value `y`; larger
/// values sit higher on the screen.
#[derive(Debug, Clone, Copy, PartialEq, Eq, Structural)]
pub struct RowCoord {
    pub num: i128,
    pub den: i128,
}

impl RowCoord {
    /// Bounds under which every comparison the rasterizer makes fits
    /// comfortably in `i128`.
    pub open spec fn wf(&self) -> bool {
        &&& 1 <= self.den <= COORD_DEN_MAX
        &&& -COORD_NUM_MAX <= self.num <= COORD_NUM_MAX
    }

    /// The coordinate `quarters / 4`: a convenient way to write exact
    /// quarter-row positions.
    pub fn from_quarters(quarters: i64) -> (c: RowCoord)
        ensures
            c.num == quarters as int,
            c.den == 4,
            c.wf(),
    {
        RowCoord { num: quarters as i128, den: 4 }
    }
}

/// The price axis scale for one render pass: the visible candles' price
/// extrema and the plot height they are spread over.
#[derive(Debug, Clone, Copy, PartialEq, Eq, Structural)]
pub struct YAxis {
    pub min_price: i64,
    pub max_price: i64,
    pub height: i64,
}

/// The exact rational coordinate the axis assigns to a price, as a
/// `(numerator, denominator)` pair.
///
/// With a proper price range the map is affine: the least price sits at
/// coordinate `1`, the greatest at coordinate `height`.  With an empty
/// or single-price range every price sits at the middle row.
pub open spec fn spec_price_to_height(ax: YAxis, price: int) -> (int, int) {
    if ax.max_price > ax.min_price {
        (
            (price - ax.min_price) * (ax.height - 1) + (ax.max_price - ax.min_price),
            ax.max_price - ax.min_price,
        )
    } else {
        (if ax.height >= 2 { ax.height as int / 2 } else { 0 }, 1)
    }
}

/// The price labelled on row `y`: the inverse of the affine coordinate
/// map, rounded down to a whole price unit.
pub open spec fn spec_row_price(ax: YAxis, y: int) -> int {
    if ax.max_price > ax.min_price && ax.height >= 2 {
        ax.min_price + (y - 1) * (ax.max_price - ax.min_price) / (ax.height - 1)
    } else {
        ax.min_price as int
    }
}

/// The decimal digits of `n`, most significant first.
pub open spec fn spec_digits(n: nat) -> Seq<char>
    decreases n,
{
    if n < 10 {
        seq![spec_digit_char(n)]
    } else {
        spec_digits(n / 10).push(spec_digit_char(n % 10))
    }
}

pub open spec fn spec_digit_char(d: nat) -> char {
    if d == 0 {
        '0'
    } else if d == 1 {
        '1'
    } else if d == 2 {
        '2'
    } else if d == 3 {
        '3'
    } else if d == 4 {
        '4'
    } else if d == 5 {
        '5'
    } else if d == 6 {
        '6'
    } else if d == 7 {
        '7'
    } else if d == 8 {
        '8'
    } else {
        '9'
    }
}

/// The decimal rendering of a price, a minus sign first when negative.
pub open spec fn spec_signed_digits(p: int) -> Seq<char> {
    if p < 0 {
        seq!['-'] + spec_digits((-p) as nat)
    } else {
        spec_digits(p as nat)
    }
}

/// `k` spaces (none when `k` is not positive).
pub open spec fn spec_spaces(k: int) -> Seq<char> {
    Seq::new(if k > 0 { k as nat } else { 0 }, |i: int| ' ')
}

/// The label of a plot row: the row's price right-aligned in
/// `AXIS_NUMBER_WIDTH` columns, then a tick mark.
pub open spec fn spec_label(ax: YAxis, y: int) -> Seq<char> {
    let rep = spec_signed_digits(spec_row_price(ax, y));
    spec_spaces(AXIS_NUMBER_WIDTH as int - rep.len()) + rep + "┤"@
}

/// The blank label used left of auxiliary-pane rows.
pub open spec fn spec_blank_label() -> Seq<char> {
    "            "@
}

/// The blank label spans the whole axis column.
pub proof fn lemma_blank_label_len()
    ensures
        spec_blank_label().len() == AXIS_WIDTH as int,
{
    reveal_strlit("            ");
}

/// Every plot-row label is non-empty: it always carries at least one
/// digit and the tick mark.
pub proof fn lemma_label_nonempty(ax: YAxis, y: int)
    ensures
        spec_label(ax, y).len() >= AXIS_NUMBER_WIDTH as int,
        spec_label(ax, y).len() > 0,
{
    let p = spec_row_price(ax, y);
    let rep = spec_signed_digits(p);
    assert(rep.len() >= 1) by {
        if p < 0 {
            assert(spec_digits((-p) as nat).len() >= 1);
        } else {
            assert(spec_digits(p as nat).len() >= 1);
        }
    }
}

fn digit_str(d: u64) -> (r: &'static str)
    requires
        d < 10,
    ensures
        r@ == seq![spec_digit_char(d as nat)],
{
    proof {
        reveal_strlit("0");
        reveal_strlit("1");
        reveal_strlit("2");
        reveal_strlit("3");
        reveal_strlit("4");
        reveal_strlit("5");
        reveal_strlit("6");
        reveal_strlit("7");
        reveal_strlit("8");
        reveal_strlit("9");
    }
    let r: &'static str = if d == 0 {
        "0"
    } else if d == 1 {
        "1"
    } else if d == 2 {
        "2"
    } else if d == 3 {
        "3"
    } else if d == 4 {
        "4"
    } else if d == 5 {
        "5"
    } else if d == 6 {
        "6"
    } else if d == 7 {
        "7"
    } else if d == 8 {
        "8"
    } else {
        "9"
    };
    proof {
        assert(r@ =~= seq![spec_digit_char(d as nat)]);
    }
    r
}

/// Appends the decimal digits of `n` to `s`.
fn append_digits(s: &mut String, n: u64)
    ensures
        final(s)@ == old(s)@ + spec_digits(n as nat),
    decreases n,
{
    if n >= 10 {
        append_digits(s, n / 10);
    }
    let d = digit_str(n % 10);
    s.append(d);
    proof {
        if n >= 10 {
            assert(final(s)@ =~= old(s)@ + spec_digits(n as nat));
        } else {
            assert(final(s)@ =~= old(s)@ + spec_digits(n as nat));
        }
    }
}

/// A number below `10^k` has at most `k` decimal digits.
proof fn lemma_digits_len_le(n: nat, k: nat)
    requires
        1 <= k,
        n < vstd::arithmetic::power::pow(10, k),
    ensures
        spec_digits(n).len() <= k,
    decreases k,
{
    reveal_with_fuel(vstd::arithmetic::power::pow, 2);
    if n >= 10 {
        assert(vstd::arithmetic::power::pow(10, k) == 10 * vstd::arithmetic::power::pow(
            10,
            (k - 1) as nat,
        ));
        let p = vstd::arithmetic::power::pow(10, (k - 1) as nat);
        vstd::arithmetic::div_mod::lemma_fundamental_div_mod(n as int, 10);
        assert(n as int / 10 < p) by {
            if n as int / 10 >= p {
                assert(10 * (n as int / 10) >= 10 * p) by (nonlinear_arith)
                    requires
                        n as int / 10 >= p,
                ;
            }
        };
        lemma_digits_len_le(n / 10, (k - 1) as nat);
    }
}

/// Any `u64` has at most 20 decimal digits.
proof fn lemma_u64_digits(n: u64)
    ensures
        spec_digits(n as nat).len() <= 20,
{
    assert(vstd::arithmetic::power::pow(10, 20) == 100000000000000000000) by {
        reveal_with_fuel(vstd::arithmetic::power::pow, 21);
    };
    lemma_digits_len_le(n as nat, 20);
}

/// The number of decimal digits of `n`.
fn count_digits(n: u64) -> (c: usize)
    ensures
        c == spec_digits(n as nat).len(),
        1 <= c <= 20,
    decreases n,
{
    proof {
        lemma_u64_digits(n);
    }
    if n < 10 {
        1
    } else {
        let rest = count_digits(n / 10);
        proof {
            assert(spec_digits(n as nat).len() == spec_digits(n as nat / 10).len() + 1);
        }
        rest + 1
    }
}

impl YAxis {
    /// Bounds on the plot height under which the coordinate arithmetic
    /// fits in `i128`.
    pub open spec fn wf(&self) -> bool {
        -0x20000 <= self.height <= 0x10000
    }

    pub fn new(min_price: i64, max_price: i64, height: i64) -> (ax: YAxis)
        requires
            -0x20000 <= height <= 0x10000,
        ensures
            ax == (YAxis { min_price, max_price, height }),
            ax.wf(),
    {
        YAxis { min_price, max_price, height }
    }

    /// The continuous row coordinate of a price, exact.
    pub fn price_to_height(&self, price: i64) -> (c: RowCoord)
        requires
            self.wf(),
        ensures
            (c.num as int, c.den as int) == spec_price_to_height(*self, price as int),
            c.wf(),
    {
        if self.max_price > self.min_price {
            let diff: i128 = price as i128 - self.min_price as i128;
            let hm: i128 = self.height as i128 - 1;
            let den: i128 = self.max_price as i128 - self.min_price as i128;
            proof {
                assert(-0x20001_0000_0000_0000_0000 <= diff * hm
                    && diff * hm <= 0x20001_0000_0000_0000_0000) by (nonlinear_arith)
                    requires
                        -0x1_0000_0000_0000_0000 <= diff <= 0x1_0000_0000_0000_0000,
                        -0x20001 <= hm <= 0x20001,
                ;
            }
            let num: i128 = diff * hm + den;
            RowCoord { num, den }
        } else {
            let num: i128 = if self.height >= 2 {
                self.height as i128 / 2
            } else {
                0
            };
            RowCoord { num, den: 1 }
        }
    }

    /// The label of plot row `y`: the row's price right-aligned, then a
    /// tick mark.  Always at least `AXIS_NUMBER_WIDTH` characters.
    pub fn render_line(&self, y: i64) -> (r: String)
        requires
            self.wf(),
            1 <= y,
            self.height >= 2 ==> y < self.height,
        ensures
            r@ == spec_label(*self, y as int),
    {
        let price = self.row_price(y);
        let (neg, mag): (bool, u64) = if price < 0 {
            (true, (-(price as i128)) as u64)
        } else {
            (false, price as u64)
        };
        proof {
            if price < 0 {
                assert(mag as int == -(price as int));
            }
        }
        let nd = count_digits(mag);
        let width: usize = if neg {
            nd + 1
        } else {
            nd
        };
        let ghost rep = spec_signed_digits(price as int);
        proof {
            assert(rep.len() == width as int);
        }
        let mut s = String::new();
        let mut j: usize = width;
        proof {
            assert(s@ =~= spec_spaces(0));
        }
        while j < (AXIS_NUMBER_WIDTH as usize)
            invariant
                width <= j <= AXIS_NUMBER_WIDTH as usize || (width > AXIS_NUMBER_WIDTH as usize && j
                    == width),
                s@ =~= spec_spaces(j as int - width as int),
            decreases AXIS_NUMBER_WIDTH as usize - j,
        {
            s.append(" ");
            proof {
                reveal_strlit(" ");
                assert(s@ =~= spec_spaces(j as int + 1 - width as int));
            }
            j += 1;
        }
        let ghost pad = s@;
        proof {
            assert(pad =~= spec_spaces(AXIS_NUMBER_WIDTH as int - rep.len()));
        }
        if neg {
            s.append("-");
            proof {
                reveal_strlit("-");
            }
        }
        append_digits(&mut s, mag);
        proof {
            assert(s@ =~= pad + rep);
        }
        s.append("┤");
        proof {
            assert(s@ =~= spec_label(*self, y as int));
        }
        s
    }

    /// The blank label used left of auxiliary-pane rows.
    pub fn render_empty(&self) -> (r: String)
        ensures
            r@ == spec_blank_label(),
            r@.len() == AXIS_WIDTH as int,
    {
        let r = String::from_str("            ");
        proof {
            reveal_strlit("            ");
        }
        r
    }

    /// The price labelled on row `y`.
    pub fn row_price(&self, y: i64) -> (p: i64)
        requires
            self.wf(),
            1 <= y,
            self.height >= 2 ==> y < self.height,
        ensures
            p as int == spec_row_price(*self, y as int),
    {
        if self.max_price > self.min_price && self.height >= 2 {
            let d: u128 = (self.max_price as i128 - self.min_price as i128) as u128;
            let steps: u128 = (y - 1) as u128;
            let span: u128 = (self.height - 1) as u128;
            proof {
                assert(steps * d <= 0x20001 * (COORD_DEN_MAX as u128)) by (nonlinear_arith)
                    requires
                        steps <= 0x20001,
                        d <= COORD_DEN_MAX as u128,
                ;
            }
            let q: u128 = steps * d / span;
            proof {
                let di = d as int;
                let st = steps as int;
                let sp = span as int;
                assert(st * di <= sp * di) by (nonlinear_arith)
                    requires
                        0 <= st <= sp,
                        0 <= di,
                ;
                vstd::arithmetic::div_mod::lemma_div_is_ordered(st * di, sp * di, sp);
                vstd::arithmetic::div_mod::lemma_div_multiples_vanish(di, sp);
                assert(sp * di == di * sp) by (nonlinear_arith);
                assert(st * di / sp <= di);
                vstd::arithmetic::div_mod::lemma_div_pos_is_pos(st * di, sp);
            }
            let p: i128 = self.min_price as i128 + q as i128;
            p as i64
        } else {
            self.min_price
        }
    }
}

} // verus!
