//! Widths of names on a terminal.

use vstd::prelude::*;
use vstd::string::*;

verus! {

/// The width of a character: 2 for hiragana and katakana, else 1.
pub open spec fn char_width(c: char) -> int {
    if 0x3040 <= c as u32 <= 0x30ff {
        2
    } else {
        1
    }
}

/// The width of the first `n` characters of `s`.
pub open spec fn width_upto(s: Seq<char>, n: nat) -> int
    decreases n,
{
    if n == 0 {
        0
    } else {
        width_upto(s, (n - 1) as nat) + if n <= s.len() {
            char_width(s[n - 1])
        } else {
            0
        }
    }
}

/// The width of `s`.
pub open spec fn jp_width_spec(s: Seq<char>) -> int {
    width_upto(s, s.len())
}

/// The width of a string of hiragana, katakana and ASCII characters; a
/// width that does not fit counts as the largest number.
pub fn jp_width(s: &str) -> (w: usize)
    ensures
        w == if jp_width_spec(s@) <= usize::MAX {
            jp_width_spec(s@)
        } else {
            usize::MAX as int
        },
{
    let n = s.unicode_len();
    let mut w: u128 = 0;
    let mut i: usize = 0;
    while i < n
        invariant
            i <= n,
            n == s@.len(),
            w == width_upto(s@, i as nat),
            w <= 2 * i,
        decreases n - i,
    {
        let v = s.get_char(i) as u32;
        if 0x3040 <= v && v <= 0x30ff {
            w += 2;
        } else {
            w += 1;
        }
        i += 1;
    }
    if w > usize::MAX as u128 {
        usize::MAX
    } else {
        w as usize
    }
}

/// `n` spaces.
pub open spec fn spaces(n: nat) -> Seq<char> {
    Seq::new(n, |i: int| ' ')
}

/// `s` with spaces after it up to the width `w`; `s` itself where it is
/// that wide or wider.
pub fn jp_fixed_width_string(s: &str, w: usize) -> (r: String)
    ensures
        r@ == s@ + spaces(
            if w > jp_width_spec(s@) {
                (w - jp_width_spec(s@)) as nat
            } else {
                0
            },
        ),
{
    let width = jp_width(s);
    let num_spaces: usize = if w > width {
        w - width
    } else {
        0
    };
    let mut r = String::from_str(s);
    let mut i: usize = 0;
    proof {
        reveal_strlit(" ");
        assert(r@ =~= s@ + spaces(0));
    }
    while i < num_spaces
        invariant
            i <= num_spaces,
            r@ == s@ + spaces(i as nat),
            " "@ == seq![' '],
        decreases num_spaces - i,
    {
        r.append(" ");
        proof {
            assert(r@ =~= s@ + spaces((i + 1) as nat));
        }
        i += 1;
    }
    r
}

} // verus!
