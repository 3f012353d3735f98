//! The plain-text image format: a header, then one line of three intensities
//! for each pixel.

use vstd::prelude::*;

verus! {

/// The byte of a line's end.
pub const LINE_END: u8 = 10;

/// The byte between two numbers of a line.
pub const GAP: u8 = 32;

/// The byte of the digit zero; the other digits follow it.
pub const DIGIT_ZERO: u8 = 48;

/// The largest intensity of a channel, which the header announces.
pub const CHANNEL_MAX: u64 = 255;

/// The byte that writes the digit `d`.
pub open spec fn digit(d: nat) -> u8 {
    (DIGIT_ZERO + d) as u8
}

/// The decimal numeral of `n`: its digits from the most significant down,
/// without leading zeros, and the single digit zero for 0.
pub open spec fn decimal(n: nat) -> Seq<u8>
    decreases n,
{
    if n < 10 {
        seq![digit(n)]
    } else {
        decimal(n / 10).push(digit(n % 10))
    }
}

/// The number that a sequence of digit bytes writes, read from the left.
pub open spec fn numeral_value(digits: Seq<u8>) -> nat
    decreases digits.len(),
{
    if digits.len() == 0 {
        0
    } else {
        (numeral_value(digits.drop_last()) * 10 + (digits.last() - DIGIT_ZERO)) as nat
    }
}

/// The header of an image of `width` by `height` pixels: the format's mark,
/// the two dimensions, and the largest intensity, each on a line.
pub open spec fn header_text(width: nat, height: nat) -> Seq<u8> {
    seq![0x50u8, 0x33u8, LINE_END] + decimal(width) + seq![GAP] + decimal(height) + seq![LINE_END]
        + decimal(CHANNEL_MAX as nat) + seq![LINE_END]
}

/// The line of one pixel: red, green and blue with a gap between them.
pub open spec fn pixel_text(red: nat, green: nat, blue: nat) -> Seq<u8> {
    decimal(red) + seq![GAP] + decimal(green) + seq![GAP] + decimal(blue) + seq![LINE_END]
}

/// A numeral reads back as its number, and only the numeral of 0 begins with
/// the digit zero.
pub proof fn lemma_decimal_reads_back(n: nat)
    ensures
        numeral_value(decimal(n)) == n,
        decimal(n).len() >= 1,
        decimal(n)[0] == DIGIT_ZERO ==> n == 0,
        forall|i: int|
            0 <= i < decimal(n).len() ==> DIGIT_ZERO <= #[trigger] decimal(n)[i] <= DIGIT_ZERO + 9,
    decreases n,
{
    if n < 10 {
        assert(decimal(n).drop_last() =~= Seq::<u8>::empty());
        assert(numeral_value(decimal(n).drop_last()) == 0);
    } else {
        lemma_decimal_reads_back(n / 10);
        assert(decimal(n).drop_last() =~= decimal(n / 10));
    }
}

/// Writes the numeral of `n` at the end of `out`.
pub fn push_decimal(out: &mut Vec<u8>, n: u64)
    ensures
        final(out)@ == old(out)@ + decimal(n as nat),
    decreases n,
{
    if n >= 10 {
        push_decimal(out, n / 10);
    }
    out.push(DIGIT_ZERO + (n % 10) as u8);
}

/// The header of an image of `width` by `height` pixels.
pub fn header(width: usize, height: usize) -> (r: Vec<u8>)
    ensures
        r@ == header_text(width as nat, height as nat),
{
    let mut out: Vec<u8> = Vec::new();
    out.push(0x50u8);
    out.push(0x33u8);
    out.push(LINE_END);
    push_decimal(&mut out, width as u64);
    out.push(GAP);
    push_decimal(&mut out, height as u64);
    out.push(LINE_END);
    push_decimal(&mut out, CHANNEL_MAX);
    out.push(LINE_END);
    out
}

/// Writes the line of one pixel at the end of `out`.
pub fn push_pixel(out: &mut Vec<u8>, red: u8, green: u8, blue: u8)
    ensures
        final(out)@ == old(out)@ + pixel_text(red as nat, green as nat, blue as nat),
{
    push_decimal(out, red as u64);
    out.push(GAP);
    push_decimal(out, green as u64);
    out.push(GAP);
    push_decimal(out, blue as u64);
    out.push(LINE_END);
}

/// The line of one pixel.
pub fn pixel_line(red: u8, green: u8, blue: u8) -> (r: Vec<u8>)
    ensures
        r@ == pixel_text(red as nat, green as nat, blue as nat),
{
    let mut out: Vec<u8> = Vec::new();
    push_pixel(&mut out, red, green, blue);
    out
}

} // verus!
