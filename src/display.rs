use vstd::prelude::*;

verus! {

pub open spec fn digit_char(d: nat) -> char {
    if d == 0 { '0' }
    else if d == 1 { '1' }
    else if d == 2 { '2' }
    else if d == 3 { '3' }
    else if d == 4 { '4' }
    else if d == 5 { '5' }
    else if d == 6 { '6' }
    else if d == 7 { '7' }
    else if d == 8 { '8' }
    else { '9' }
}

/// Decimal digits of `n`, most significant first, without leading zeros.
pub open spec fn decimal(n: nat) -> Seq<char>
    decreases n,
{
    if n < 10 {
        seq![digit_char(n)]
    } else {
        decimal(n / 10).push(digit_char(n % 10))
    }
}

/// Decimal digits of `n`, padded with a leading zero to at least two.
pub open spec fn two_digits(n: nat) -> Seq<char> {
    if n < 10 {
        seq!['0'] + decimal(n)
    } else {
        decimal(n)
    }
}

/// `MM:SS` text of a time span given in milliseconds: whole minutes, then the
/// remaining whole seconds.
pub open spec fn clock_text(ms: nat) -> Seq<char> {
    two_digits(ms / 1000 / 60) + seq![':'] + two_digits(ms / 1000 % 60)
}

/// Width of the cells of a progress bar that are filled:
/// `floor(elapsed / duration * width)`, at most `width`, and none for a zero duration.
pub open spec fn fill_width(elapsed_ms: nat, duration_ms: nat, width: nat) -> nat {
    if duration_ms == 0 {
        0
    } else if elapsed_ms >= duration_ms {
        width
    } else {
        elapsed_ms * width / duration_ms
    }
}

fn digit(d: u64) -> (c: char)
    requires
        d < 10,
    ensures
        c == digit_char(d as nat),
{
    if d == 0 { '0' }
    else if d == 1 { '1' }
    else if d == 2 { '2' }
    else if d == 3 { '3' }
    else if d == 4 { '4' }
    else if d == 5 { '5' }
    else if d == 6 { '6' }
    else if d == 7 { '7' }
    else if d == 8 { '8' }
    else { '9' }
}

fn push_decimal(n: u64, out: &mut Vec<char>)
    ensures
        final(out)@ == old(out)@ + decimal(n as nat),
    decreases n,
{
    if n < 10 {
        out.push(digit(n));
    } else {
        push_decimal(n / 10, out);
        out.push(digit(n % 10));
        proof {
            assert(decimal(n as nat) == decimal((n / 10) as nat).push(digit_char((n % 10) as nat)));
        }
    }
}

fn push_two_digits(n: u64, out: &mut Vec<char>)
    ensures
        final(out)@ == old(out)@ + two_digits(n as nat),
{
    if n < 10 {
        out.push('0');
    }
    push_decimal(n, out);
}

/// Relies on `FromIterator<char> for String` (through `Iterator::collect`):
/// the string holds the given characters in order.
#[verifier::external_body]
fn string_from_chars(v: &Vec<char>) -> (r: String)
    ensures
        r@ == v@,
{
    v.iter().collect()
}

/// The span `ms` (milliseconds) as `MM:SS`; minutes beyond 99 take more digits.
pub fn format_duration(ms: u64) -> (r: String)
    ensures
        r@ == clock_text(ms as nat),
{
    let secs: u64 = ms / 1000;
    let mut out: Vec<char> = Vec::new();
    push_two_digits(secs / 60, &mut out);
    out.push(':');
    push_two_digits(secs % 60, &mut out);
    string_from_chars(&out)
}

/// Number of filled cells of a progress bar `width` cells wide.
pub fn progress_fill(elapsed_ms: u64, duration_ms: u64, width: usize) -> (r: usize)
    ensures
        r == fill_width(elapsed_ms as nat, duration_ms as nat, width as nat),
        r <= width,
{
    if duration_ms == 0 {
        0
    } else if elapsed_ms >= duration_ms {
        width
    } else {
        proof {
            let (a, b) = (elapsed_ms as int, width as int);
            assert(a * b <= 0xffff_ffff_ffff_ffff * 0xffff_ffff_ffff_ffff) by (nonlinear_arith)
                requires
                    0 <= a <= 0xffff_ffff_ffff_ffff,
                    0 <= b <= 0xffff_ffff_ffff_ffff,
            {
            }
        }
        let prod: u128 = (elapsed_ms as u128) * (width as u128);
        let q: u128 = prod / (duration_ms as u128);
        proof {
            assert(q <= width) by (nonlinear_arith)
                requires
                    q == prod / (duration_ms as u128),
                    prod == (elapsed_ms as u128) * (width as u128),
                    elapsed_ms < duration_ms,
                    duration_ms > 0,
            {
                assert(prod <= duration_ms * width);
            }
        }
        q as usize
    }
}

} // verus!
