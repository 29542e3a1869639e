//! Text of the heads-up display: grid-cell coordinates of the floating
//! origin, right-aligned in a fixed width.
use vstd::prelude::*;

verus! {

/// The width in which each grid-cell coordinate is printed.
pub const GRID_TEXT_WIDTH: usize = 15;

/// The character printed in front of a coordinate shorter than its width.
pub const GRID_TEXT_FILL: char = '_';

pub open spec fn digit_char(d: nat) -> char {
    seq!['0', '1', '2', '3', '4', '5', '6', '7', '8', '9'][d as int]
}

/// The decimal digits of `n`, most significant first, without leading
/// zeros (zero itself is one digit).
pub open spec fn digits_of(n: nat) -> Seq<char>
    decreases n,
{
    if n < 10 {
        seq![digit_char(n)]
    } else {
        digits_of(n / 10).push(digit_char(n % 10))
    }
}

/// `v` in decimal, with a minus sign when negative.
pub open spec fn decimal_of(v: int) -> Seq<char> {
    if v < 0 {
        seq!['-'] + digits_of((-v) as nat)
    } else {
        digits_of(v as nat)
    }
}

/// `s` right-aligned in `width` characters: `fill` in front up to that
/// width, nothing cut when `s` is longer.
pub open spec fn right_aligned(s: Seq<char>, width: nat, fill: char) -> Seq<char> {
    if s.len() >= width {
        s
    } else {
        Seq::new((width - s.len()) as nat, |_i: int| fill) + s
    }
}

fn digit(d: u64) -> (r: char)
    requires
        d < 10,
    ensures
        r == digit_char(d as nat),
{
    if d == 0 {
        '0'
    } else if d == 1 {
        '1'
    } else if d == 2 {
        '2'
    } else if d == 3 {
        '3'
    } else if d == 4 {
        '4'
    } else if d == 5 {
        '5'
    } else if d == 6 {
        '6'
    } else if d == 7 {
        '7'
    } else if d == 8 {
        '8'
    } else {
        '9'
    }
}

fn push_digits(n: u64, out: &mut Vec<char>)
    requires
        old(out)@.len() + 20 <= usize::MAX,
    ensures
        final(out)@ == old(out)@ + digits_of(n as nat),
        digits_of(n as nat).len() <= 20,
    decreases n,
{
    if n >= 10 {
        push_digits(n / 10, out);
    }
    out.push(digit(n % 10));
    proof {
        lemma_digits_len(n as nat);
    }
    assert(out@ =~= old(out)@ + digits_of(n as nat));
}

spec fn pow10(k: nat) -> nat
    decreases k,
{
    if k == 0 {
        1
    } else {
        10 * pow10((k - 1) as nat)
    }
}

proof fn lemma_digits_len_below(n: nat, k: nat)
    requires
        1 <= k,
        n < pow10(k),
    ensures
        digits_of(n).len() <= k,
    decreases n,
{
    if n >= 10 {
        let k1 = (k - 1) as nat;
        if k1 == 0 {
            assert(pow10(1) == 10 * pow10(0));
        }
        assert(pow10(k) == 10 * pow10(k1));
        assert(n / 10 < pow10(k1)) by (nonlinear_arith)
            requires
                n < 10 * pow10(k1),
        ;
        lemma_digits_len_below(n / 10, k1);
    }
}

proof fn lemma_digits_len(n: nat)
    requires
        n <= u64::MAX,
    ensures
        digits_of(n).len() <= 20,
{
    reveal_with_fuel(pow10, 21);
    lemma_digits_len_below(n, 20);
}

/// `v` in decimal, right-aligned in `width` characters with `fill` in front.
pub fn right_aligned_decimal(v: i64, width: usize, fill: char) -> (r: Vec<char>)
    ensures
        r@ == right_aligned(decimal_of(v as int), width as nat, fill),
{
    let mut body: Vec<char> = Vec::new();
    let magnitude: u64;
    if v < 0 {
        body.push('-');
        magnitude = (-(v as i128)) as u64;
    } else {
        magnitude = v as u64;
    }
    push_digits(magnitude, &mut body);
    assert(body@ =~= decimal_of(v as int));
    let mut out: Vec<char> = Vec::new();
    if body.len() < width {
        let pad = width - body.len();
        let mut k: usize = 0;
        while k < pad
            invariant
                k <= pad,
                out@ =~= Seq::new(k as nat, |_i: int| fill),
            decreases pad - k,
        {
            out.push(fill);
            k = k + 1;
        }
    }
    let mut j: usize = 0;
    let start = out.len();
    while j < body.len()
        invariant
            j <= body@.len(),
            start == out@.len() - j,
            out@ =~= out@.subrange(0, start as int) + body@.subrange(0, j as int),
            start as nat == (if body@.len() < width {
                width - body@.len()
            } else {
                0int
            }),
            out@.subrange(0, start as int) =~= Seq::new(start as nat, |_i: int| fill),
            body@ == decimal_of(v as int),
        decreases body@.len() - j,
    {
        out.push(body[j]);
        j = j + 1;
    }
    assert(body@.subrange(0, j as int) =~= body@);
    out
}

/// A grid-cell coordinate as the HUD prints it.
pub fn grid_coordinate_text(v: i64) -> (r: Vec<char>)
    ensures
        r@ == right_aligned(decimal_of(v as int), GRID_TEXT_WIDTH as nat, GRID_TEXT_FILL),
{
    right_aligned_decimal(v, GRID_TEXT_WIDTH, GRID_TEXT_FILL)
}

} // verus!
