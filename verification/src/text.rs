//! Building blocks for the rendered output: decimal digits, repeated
//! glyphs and space padding, each with an exact character-level
//! specification.

use vstd::prelude::*;

verus! {

/// The character for one decimal digit.
pub open spec fn spec_digit(d: int) -> char {
    if d == 0 {
        '0'
    } else if d == 1 {
        '1'
    } else if d == 2 {
        '2'
    } else if d == 3 {
        '3'
    } else if d == 4 {
        '4'
    } else if d == 5 {
        '5'
    } else if d == 6 {
        '6'
    } else if d == 7 {
        '7'
    } else if d == 8 {
        '8'
    } else {
        '9'
    }
}

/// The decimal digits of a non-negative number, most significant first,
/// without leading zeros.
pub open spec fn spec_dec(n: int) -> Seq<char>
    decreases n,
{
    if n < 10 {
        seq![spec_digit(n)]
    } else {
        spec_dec(n / 10).push(spec_digit(n % 10))
    }
}

/// The decimal rendering of a signed number: a minus sign before the
/// digits of its magnitude.
pub open spec fn spec_dec_signed(n: int) -> Seq<char> {
    if n < 0 {
        seq!['-'] + spec_dec(-n)
    } else {
        spec_dec(n)
    }
}

/// `count` copies of `piece`, one after another.
pub open spec fn spec_repeat(piece: Seq<char>, count: int) -> Seq<char>
    decreases count,
{
    if count <= 0 {
        Seq::empty()
    } else {
        spec_repeat(piece, count - 1) + piece
    }
}

/// `count` spaces.
pub open spec fn spec_spaces(count: int) -> Seq<char> {
    spec_repeat(seq![' '], count)
}

/// Appends the character for one decimal digit.
pub fn append_digit(s: &mut String, d: u8)
    requires
        d < 10,
    ensures
        final(s)@ == old(s)@.push(spec_digit(d as int)),
{
    proof {
        reveal_strlit("0");
        reveal_strlit("1");
        reveal_strlit("2");
        reveal_strlit("3");
        reveal_strlit("4");
        reveal_strlit("5");
        reveal_strlit("6");
        reveal_strlit("7");
        reveal_strlit("8");
        reveal_strlit("9");
    }
    let lit: &str = match d {
        0 => "0",
        1 => "1",
        2 => "2",
        3 => "3",
        4 => "4",
        5 => "5",
        6 => "6",
        7 => "7",
        8 => "8",
        _ => "9",
    };
    s.append(lit);
    proof {
        assert(s@ =~= old(s)@.push(spec_digit(d as int)));
    }
}

/// Appends the decimal digits of `n`.
pub fn append_dec_u32(s: &mut String, n: u32)
    ensures
        final(s)@ == old(s)@ + spec_dec(n as int),
    decreases n,
{
    if n < 10 {
        append_digit(s, n as u8);
        proof {
            assert(s@ =~= old(s)@ + spec_dec(n as int));
        }
    } else {
        append_dec_u32(s, n / 10);
        append_digit(s, (n % 10) as u8);
        proof {
            assert(s@ =~= old(s)@ + spec_dec(n as int));
        }
    }
}

/// Appends the decimal rendering of a signed number.
pub fn append_dec_i32(s: &mut String, n: i32)
    ensures
        final(s)@ == old(s)@ + spec_dec_signed(n as int),
{
    if n < 0 {
        proof {
            reveal_strlit("-");
        }
        s.append("-");
        let magnitude: u32 = (-(n as i64)) as u32;
        append_dec_u32(s, magnitude);
        proof {
            assert(s@ =~= old(s)@ + spec_dec_signed(n as int));
        }
    } else {
        append_dec_u32(s, n as u32);
    }
}

/// Appends `count` copies of `piece`.
pub fn append_repeat(s: &mut String, piece: &str, count: usize)
    ensures
        final(s)@ == old(s)@ + spec_repeat(piece@, count as int),
{
    let ghost init: Seq<char> = s@;
    proof {
        assert(init + spec_repeat(piece@, 0) =~= init);
    }
    let mut i: usize = 0;
    while i < count
        invariant
            i <= count,
            s@ == init + spec_repeat(piece@, i as int),
        decreases count - i,
    {
        s.append(piece);
        i = i + 1;
        proof {
            assert((init + spec_repeat(piece@, i - 1)) + piece@ =~= init + spec_repeat(
                piece@,
                i as int,
            ));
        }
    }
}

/// Appends `count` spaces.
pub fn append_spaces(s: &mut String, count: usize)
    ensures
        final(s)@ == old(s)@ + spec_spaces(count as int),
{
    proof {
        reveal_strlit(" ");
        assert(" "@ =~= seq![' ']);
    }
    append_repeat(s, " ", count);
}

} // verus!
