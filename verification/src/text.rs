//! Rendering numbers and bytes as text: decimal and upper-case hexadecimal.
use vstd::prelude::*;
use vstd::string::*;

verus! {

/// The digit character for a value below 16 (`0`-`9`, then `A`-`F`).
pub open spec fn digit_char(d: int) -> char {
    if d < 10 {
        (48 + d) as char
    } else {
        (55 + d) as char
    }
}

/// The two upper-case hexadecimal digits of a byte.
pub open spec fn hex_byte(b: u8) -> Seq<char> {
    seq![digit_char((b / 16) as int), digit_char((b % 16) as int)]
}

/// Each byte as two upper-case hexadecimal digits, in order.
pub open spec fn hex_text(bytes: Seq<u8>) -> Seq<char>
    decreases bytes.len(),
{
    if bytes.len() == 0 {
        Seq::empty()
    } else {
        hex_text(bytes.drop_last()) + hex_byte(bytes.last())
    }
}

/// The decimal digits of `n`, without leading zeros.
pub open spec fn decimal_text(n: nat) -> Seq<char>
    decreases n,
{
    if n < 10 {
        seq![digit_char(n as int)]
    } else {
        decimal_text(n / 10) + seq![digit_char((n % 10) as int)]
    }
}

/// The upper-case hexadecimal digits of `n`, without leading zeros.
pub open spec fn hex_number_text(n: nat) -> Seq<char>
    decreases n,
{
    if n < 16 {
        seq![digit_char(n as int)]
    } else {
        hex_number_text(n / 16) + seq![digit_char((n % 16) as int)]
    }
}

/// The one-character text of a digit below 16.
fn digit(d: u32) -> (r: &'static str)
    requires
        d < 16,
    ensures
        r@ == seq![digit_char(d as int)],
{
    let digits = "0123456789ABCDEF";
    proof {
        reveal_strlit("0123456789ABCDEF");
        assert forall|i: int| 0 <= i < digits@.len() implies '\0' <= #[trigger] digits@[i] <= '\u{7f}' by {
        }
    }
    let r = digits.substring_ascii(d as usize, d as usize + 1);
    assert(r@ =~= seq![digit_char(d as int)]);
    r
}

/// Renders `bytes` as upper-case hexadecimal, two digits per byte.
pub fn hex(bytes: &[u8]) -> (r: String)
    ensures
        r@ == hex_text(bytes@),
{
    let mut s = String::new();
    let mut i: usize = 0;
    while i < bytes.len()
        invariant
            i <= bytes@.len(),
            s@ == hex_text(bytes@.take(i as int)),
        decreases bytes.len() - i,
    {
        let b = bytes[i];
        s.append(digit((b / 16) as u32));
        s.append(digit((b % 16) as u32));
        assert(bytes@.take(i + 1).drop_last() =~= bytes@.take(i as int));
        i = i + 1;
    }
    assert(bytes@.take(bytes@.len() as int) =~= bytes@);
    s
}

/// Renders `n` in decimal.
pub fn decimal(n: u32) -> (r: String)
    ensures
        r@ == decimal_text(n as nat),
    decreases n,
{
    if n < 10 {
        String::from_str(digit(n))
    } else {
        let mut s = decimal(n / 10);
        s.append(digit(n % 10));
        s
    }
}

/// Renders `n` in upper-case hexadecimal.
pub fn hex_number(n: u32) -> (r: String)
    ensures
        r@ == hex_number_text(n as nat),
    decreases n,
{
    if n < 16 {
        String::from_str(digit(n))
    } else {
        let mut s = hex_number(n / 16);
        s.append(digit(n % 16));
        s
    }
}

} // verus!
