//! Small coordinate and text helpers shared by the widgets.
use vstd::prelude::*;

use crate::character::Character;

verus! {

/// The linear index of column `x`, row `y` in a grid `width` cells wide.
pub fn linear_pos_from_x_y(x: u16, y: u16, width: u16) -> (r: u16)
    requires
        y * width + x <= u16::MAX,
    ensures
        r == y * width + x,
{
    let adjusted_y: u16 = y * width;
    x + adjusted_y
}

/// The decimal digit `d` as a character, for `d` in 0..=9.
pub open spec fn digit_char(d: int) -> char {
    if d == 0 {
        '0'
    } else if d == 1 {
        '1'
    } else if d == 2 {
        '2'
    } else if d == 3 {
        '3'
    } else if d == 4 {
        '4'
    } else if d == 5 {
        '5'
    } else if d == 6 {
        '6'
    } else if d == 7 {
        '7'
    } else if d == 8 {
        '8'
    } else {
        '9'
    }
}

/// The decimal digits of `n`, most significant first; empty when
/// `n <= 0`.
pub open spec fn dec_digits(n: int) -> Seq<char>
    decreases n,
{
    if n <= 0 {
        Seq::empty()
    } else {
        dec_digits(n / 10).push(digit_char(n % 10))
    }
}

/// The decimal text of `n`: `"0"` for zero or less, the digits without
/// a leading zero otherwise.
pub open spec fn dec_chars(n: int) -> Seq<char> {
    if n <= 0 {
        seq!['0']
    } else {
        dec_digits(n)
    }
}

/// `k` zero characters.
pub open spec fn zero_chars(k: int) -> Seq<char> {
    Seq::new(if k > 0 {
        k as nat
    } else {
        0
    }, |i: int| '0')
}

/// The decimal text of `n`, left-padded with zeros to at least `width`
/// characters.
pub open spec fn padded_dec_chars(n: int, width: int) -> Seq<char> {
    zero_chars(width - dec_chars(n).len()) + dec_chars(n)
}

fn push_dec_digits(n: u64, out: &mut Vec<char>)
    ensures
        final(out)@ == old(out)@ + dec_digits(n as int),
    decreases n,
{
    if n > 0 {
        push_dec_digits(n / 10, out);
        let d: u64 = n % 10;
        let c: char = match d {
            0 => '0',
            1 => '1',
            2 => '2',
            3 => '3',
            4 => '4',
            5 => '5',
            6 => '6',
            7 => '7',
            8 => '8',
            _ => '9',
        };
        out.push(c);
        proof {
            assert(out@ =~= old(out)@ + dec_digits(n as int));
        }
    }
}

/// The decimal text of `n` as characters.
pub fn u64_dec_chars(n: u64) -> (v: Vec<char>)
    ensures
        v@ == dec_chars(n as int),
{
    let mut v: Vec<char> = Vec::new();
    if n == 0 {
        v.push('0');
        proof {
            assert(v@ =~= dec_chars(n as int));
        }
    } else {
        push_dec_digits(n, &mut v);
        proof {
            assert(v@ =~= dec_chars(n as int));
        }
    }
    v
}

/// The decimal text of `n`, left-padded with zeros to at least `width`
/// characters.
pub fn u64_dec_chars_padded(n: u64, width: usize) -> (v: Vec<char>)
    ensures
        v@ == padded_dec_chars(n as int, width as int),
{
    let digits = u64_dec_chars(n);
    let mut v: Vec<char> = Vec::new();
    let k: usize = digits.len();
    while v.len() + k < width
        invariant
            k == digits@.len(),
            v@ =~= zero_chars(v@.len() as int),
            v@.len() + k <= width || v@.len() == 0,
        decreases width - v@.len() - k,
    {
        v.push('0');
        proof {
            assert(v@ =~= zero_chars(v@.len() as int));
        }
    }
    let mut digits = digits;
    v.append(&mut digits);
    proof {
        assert(v@ =~= padded_dec_chars(n as int, width as int));
    }
    v
}

/// One plainly-styled cell per code point of `string`, in order.
pub fn char_vec_from_string(string: String) -> (v: Vec<Character>)
    ensures
        v@.len() == string@.len(),
        forall|i: int| 0 <= i < v@.len() ==> v@[i] == Character::from_char_spec(string@[i]),
{
    let mut v: Vec<Character> = Vec::new();
    let s: &str = string.as_str();
    let n: usize = s.unicode_len();
    for i in 0..n
        invariant
            n == string@.len(),
            s@ == string@,
            v@.len() == i,
            forall|j: int| 0 <= j < i ==> v@[j] == Character::from_char_spec(string@[j]),
    {
        let c: char = s.get_char(i);
        v.push(Character::from_char(c));
    }
    v
}

} // verus!
