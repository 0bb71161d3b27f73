//! Terminal control sequences as bytes, produced by termion, and the
//! appending of byte runs to an output buffer.
use vstd::prelude::*;

use termion::{color, cursor};

verus! {

/// The decimal digits of `n` in ASCII, most significant first.
pub open spec fn decimal(n: nat) -> Seq<u8>
    decreases n,
{
    if n < 10 {
        seq![(48 + n) as u8]
    } else {
        decimal(n / 10) + seq![(48 + n % 10) as u8]
    }
}

/// `ESC [ row ; column H`: move the cursor to column `x`, row `y`.
pub open spec fn goto_code(x: u16, y: u16) -> Seq<u8> {
    seq![0x1bu8, 0x5bu8] + decimal(y as nat) + seq![0x3bu8] + decimal(x as nat) + seq![0x48u8]
}

/// `ESC [ n D`: move the cursor `n` columns to the left.
pub open spec fn left_code(n: u16) -> Seq<u8> {
    seq![0x1bu8, 0x5bu8] + decimal(n as nat) + seq![0x44u8]
}

/// `ESC [ 39 m`: reset the foreground colour to the terminal's default.
pub open spec fn fg_reset_code() -> Seq<u8> {
    seq![0x1bu8, 0x5bu8, 0x33u8, 0x39u8, 0x6du8]
}

/// Relies on termion's `From<cursor::Goto> for String`, which writes
/// `ESC [`, the row and the column in decimal, separated by `;`, then `H`.
#[verifier::external_body]
pub(crate) fn goto_bytes(x: u16, y: u16) -> (r: Vec<u8>)
    ensures
        r@ == goto_code(x, y),
{
    String::from(cursor::Goto(x, y)).into_bytes()
}

/// Relies on termion's `From<cursor::Left> for String`, which writes
/// `ESC [`, the count in decimal, then `D`.
#[verifier::external_body]
pub(crate) fn left_bytes(n: u16) -> (r: Vec<u8>)
    ensures
        r@ == left_code(n),
{
    String::from(cursor::Left(n)).into_bytes()
}

/// Relies on termion's `color::Reset::fg_str`, which returns `ESC [ 39 m`.
#[verifier::external_body]
pub(crate) fn fg_reset_bytes() -> (r: Vec<u8>)
    ensures
        r@ == fg_reset_code(),
{
    color::Reset.fg_str().as_bytes().to_vec()
}

/// Appends `bytes` to the end of `buff`.
pub(crate) fn push_all(buff: &mut Vec<u8>, bytes: &[u8])
    ensures
        final(buff)@ == old(buff)@ + bytes@,
{
    let ghost start = buff@;
    let mut i: usize = 0;
    while i < bytes.len()
        invariant
            i <= bytes@.len(),
            buff@ == start + bytes@.subrange(0, i as int),
        decreases bytes@.len() - i,
    {
        buff.push(bytes[i]);
        i = i + 1;
        assert(bytes@.subrange(0, i as int) =~= bytes@.subrange(0, i - 1).push(bytes@[i - 1]));
    }
    assert(bytes@.subrange(0, bytes@.len() as int) =~= bytes@);
}

} // verus!
