//! Short printable forms of public material, and the parity bit of a byte string.

use vstd::prelude::*;
use vstd::string::StrSliceExecFns;
use vstd::string::StringExecFns;

verus! {

/// The lower-case hexadecimal digit of `d < 16`.
pub open spec fn hex_char(d: u8) -> char {
    if d < 10 {
        ((d + 48) as u8) as char
    } else {
        ((d + 87) as u8) as char
    }
}

/// The two hexadecimal digits of a byte.
pub open spec fn hex_byte(b: u8) -> Seq<char> {
    seq![hex_char(b / 16), hex_char(b % 16)]
}

/// The first ten hexadecimal digits of a byte string of at least five bytes: those of its
/// first five bytes.
pub open spec fn hex_prefix(b: Seq<u8>) -> Seq<char> {
    hex_byte(b[0]) + hex_byte(b[1]) + hex_byte(b[2]) + hex_byte(b[3]) + hex_byte(b[4])
}

/// The number of one bits of `x`.
pub open spec fn count_ones(x: u8) -> nat
    decreases x,
{
    if x == 0 {
        0
    } else {
        (x % 2) as nat + count_ones(x / 2)
    }
}

/// The exclusive or of all bytes of `b`.
pub open spec fn xor_all(b: Seq<u8>) -> u8
    decreases b.len(),
{
    if b.len() == 0 {
        0
    } else {
        xor_all(b.drop_last()) ^ b.last()
    }
}

/// The parity of the number of one bits of the exclusive or of all bytes of `b`.
pub open spec fn byte_parity(b: Seq<u8>) -> bool {
    count_ones(xor_all(b)) % 2 == 1
}

fn hex_digit(d: u8) -> (r: &'static str)
    requires
        d < 16,
    ensures
        r@ == seq![hex_char(d)],
{
    proof {
        reveal_strlit("0");
        reveal_strlit("1");
        reveal_strlit("2");
        reveal_strlit("3");
        reveal_strlit("4");
        reveal_strlit("5");
        reveal_strlit("6");
        reveal_strlit("7");
        reveal_strlit("8");
        reveal_strlit("9");
        reveal_strlit("a");
        reveal_strlit("b");
        reveal_strlit("c");
        reveal_strlit("d");
        reveal_strlit("e");
        reveal_strlit("f");
    }
    let r = if d == 0 {
        "0"
    } else if d == 1 {
        "1"
    } else if d == 2 {
        "2"
    } else if d == 3 {
        "3"
    } else if d == 4 {
        "4"
    } else if d == 5 {
        "5"
    } else if d == 6 {
        "6"
    } else if d == 7 {
        "7"
    } else if d == 8 {
        "8"
    } else if d == 9 {
        "9"
    } else if d == 10 {
        "a"
    } else if d == 11 {
        "b"
    } else if d == 12 {
        "c"
    } else if d == 13 {
        "d"
    } else if d == 14 {
        "e"
    } else {
        "f"
    };
    assert(r@ =~= seq![hex_char(d)]);
    r
}

fn push_hex_byte(s: &mut String, b: u8)
    ensures
        final(s)@ == old(s)@ + hex_byte(b),
{
    s.append(hex_digit(b / 16));
    s.append(hex_digit(b % 16));
    assert(final(s)@ =~= old(s)@ + hex_byte(b));
}

/// `name(` followed by the first ten hexadecimal digits of `b`, and `)`.
pub fn labelled_hex(name: &str, b: &[u8]) -> (r: String)
    requires
        b@.len() >= 5,
    ensures
        r@ == name@ + seq!['('] + hex_prefix(b@) + seq![')'],
{
    let mut s = String::from_str(name);
    proof {
        reveal_strlit("(");
        reveal_strlit(")");
    }
    s.append("(");
    push_hex_byte(&mut s, b[0]);
    push_hex_byte(&mut s, b[1]);
    push_hex_byte(&mut s, b[2]);
    push_hex_byte(&mut s, b[3]);
    push_hex_byte(&mut s, b[4]);
    s.append(")");
    assert(s@ =~= name@ + seq!['('] + hex_prefix(b@) + seq![')']);
    s
}

/// The parity of the number of one bits of the exclusive or of all bytes of `b`.
pub fn parity_of(b: &[u8]) -> (r: bool)
    ensures
        r == byte_parity(b@),
{
    let mut x: u8 = 0;
    let mut i: usize = 0;
    while i < b.len()
        invariant
            i <= b@.len(),
            x == xor_all(b@.subrange(0, i as int)),
        decreases b@.len() - i,
    {
        proof {
            assert(b@.subrange(0, i + 1).drop_last() =~= b@.subrange(0, i as int));
        }
        x = x ^ b[i];
        i = i + 1;
    }
    proof {
        assert(b@.subrange(0, b@.len() as int) =~= b@);
    }
    let ghost x0 = x;
    let mut ones: u8 = 0;
    while x > 0
        invariant
            ones < 2,
            (ones + count_ones(x)) % 2 == count_ones(x0) % 2,
        decreases x,
    {
        proof {
            assert(count_ones(x) == (x % 2) as nat + count_ones(x / 2));
        }
        ones = (ones + x % 2) % 2;
        x = x / 2;
    }
    ones == 1
}

} // verus!
