//! What the user types: numbers, and the lines that hold them.

use vstd::prelude::*;
use vstd::string::*;
use crate::pokemon::IVs;

verus! {

/// A character that separates words: a space, a tab, a line break or one
/// of the other characters that Unicode counts as white space.
#[verifier::opaque]
pub open spec fn is_space(c: char) -> bool {
    let v = c as u32;
    ||| 9 <= v <= 13
    ||| v == 0x20
    ||| v == 0x85
    ||| v == 0xA0
    ||| v == 0x1680
    ||| 0x2000 <= v <= 0x200A
    ||| v == 0x2028
    ||| v == 0x2029
    ||| v == 0x202F
    ||| v == 0x205F
    ||| v == 0x3000
}

/// One of the digits 0 to 9.
pub open spec fn is_digit(c: char) -> bool {
    0x30 <= c as u32 <= 0x39
}

/// Every character of `s` is a digit.
pub open spec fn all_digits(s: Seq<char>) -> bool {
    forall|i: int| 0 <= i < s.len() ==> is_digit(#[trigger] s[i])
}

/// The number that the digits of `s` stand for.
pub open spec fn digits_value(s: Seq<char>) -> int
    decreases s.len(),
{
    if s.len() == 0 {
        0
    } else {
        digits_value(s.drop_last()) * 10 + (s.last() as u32 - 0x30)
    }
}

/// The whole number that `s` stands for: digits, at least one, with a plus
/// or a minus sign before them or none, and a value within 32 bits.
pub open spec fn int_value(s: Seq<char>) -> Option<int> {
    let signed = s.len() > 0 && (s[0] == '-' || s[0] == '+');
    let digits = if signed {
        s.subrange(1, s.len() as int)
    } else {
        s
    };
    let v = if s.len() > 0 && s[0] == '-' {
        -digits_value(digits)
    } else {
        digits_value(digits)
    };
    if digits.len() > 0 && all_digits(digits) && i32::MIN <= v <= i32::MAX {
        Some(v)
    } else {
        None
    }
}

/// The value of digits is not negative, and that of more digits is at
/// least that of fewer.
pub proof fn lemma_digits_grow(s: Seq<char>, n: int)
    requires
        all_digits(s),
        0 <= n <= s.len(),
    ensures
        0 <= digits_value(s.take(n)) <= digits_value(s),
    decreases s.len() - n,
{
    lemma_digits_nonneg(s.take(n));
    if n < s.len() {
        let t = s.take(n + 1);
        assert(t.drop_last() =~= s.take(n));
        assert(is_digit(t.last()));
        lemma_digits_grow(s, n + 1);
    } else {
        assert(s.take(n) =~= s);
    }
}

pub proof fn lemma_digits_nonneg(s: Seq<char>)
    requires
        all_digits(s),
    ensures
        digits_value(s) >= 0,
    decreases s.len(),
{
    if s.len() > 0 {
        assert(is_digit(s.last()));
        lemma_digits_nonneg(s.drop_last());
    }
}

/// The characters of a string, one by one.
pub fn chars_of(s: &str) -> (r: Vec<char>)
    ensures
        r@ == s@,
{
    let n = s.unicode_len();
    let mut v: Vec<char> = Vec::new();
    let mut i: usize = 0;
    while i < n
        invariant
            i <= n,
            n == s@.len(),
            v@ == s@.take(i as int),
        decreases n - i,
    {
        v.push(s.get_char(i));
        proof {
            assert(v@ =~= s@.take(i as int + 1));
        }
        i += 1;
    }
    proof {
        assert(v@ =~= s@);
    }
    v
}

pub fn space(c: char) -> (r: bool)
    ensures
        r == is_space(c),
{
    proof {
        reveal(is_space);
    }
    let v = c as u32;
    (9 <= v && v <= 13) || v == 0x20 || v == 0x85 || v == 0xA0 || v == 0x1680 || (0x2000 <= v && v
        <= 0x200A) || v == 0x2028 || v == 0x2029 || v == 0x202F || v == 0x205F || v == 0x3000
}

/// The whole number that the characters from `from` up to `to` stand for,
/// as `int_value` says.
pub fn parse_int(s: &Vec<char>, from: usize, to: usize) -> (r: Option<i32>)
    requires
        from <= to <= s@.len(),
    ensures
        match r {
            Some(v) => int_value(s@.subrange(from as int, to as int)) == Some(v as int),
            None => int_value(s@.subrange(from as int, to as int)) is None,
        },
{
    let ghost word = s@.subrange(from as int, to as int);
    if from == to {
        return None;
    }
    let negative = s[from] == '-';
    let signed = negative || s[from] == '+';
    let start: usize = if signed {
        from + 1
    } else {
        from
    };
    let ghost digits = s@.subrange(start as int, to as int);
    proof {
        assert(word[0] == s@[from as int]);
        if signed {
            assert(digits =~= word.subrange(1, word.len() as int));
        } else {
            assert(digits =~= word);
        }
    }
    if start == to {
        return None;
    }
    let mut v: i64 = 0;
    let mut i: usize = start;
    while i < to
        invariant
            start <= i <= to,
            to <= s@.len(),
            from < to,
            word == s@.subrange(from as int, to as int),
            negative == (word[0] == '-'),
            signed == (word[0] == '-' || word[0] == '+'),
            digits == s@.subrange(start as int, to as int),
            digits == if signed {
                word.subrange(1, word.len() as int)
            } else {
                word
            },
            digits.len() > 0,
            all_digits(digits.take(i - start)),
            v == digits_value(digits.take(i - start)),
            0 <= v <= 0x8000_0000,
        decreases to - i,
    {
        let c = s[i] as u32;
        let ghost pre = digits.take(i - start);
        let ghost next = digits.take(i - start + 1);
        proof {
            assert(next.drop_last() =~= pre);
            assert(next.last() == s@[i as int]);
        }
        if c < 0x30 || c > 0x39 {
            proof {
                assert(!is_digit(digits[i - start]));
            }
            return None;
        }
        v = v * 10 + (c - 0x30) as i64;
        if v > 0x8000_0000 {
            proof {
                if all_digits(digits) {
                    lemma_digits_grow(digits, i - start + 1);
                }
            }
            return None;
        }
        proof {
            assert forall|k: int| 0 <= k < next.len() implies is_digit(#[trigger] next[k]) by {
                if k < pre.len() {
                    assert(next[k] == pre[k]);
                }
            }
        }
        i += 1;
    }
    proof {
        assert(digits.take(to - start) =~= digits);
    }
    if negative {
        Some((-v) as i32)
    } else if v > 0x7FFF_FFFF {
        None
    } else {
        Some(v as i32)
    }
}

/// The characters from `a` up to `b` are a word of `s`: they hold no
/// white space, and white space or an end of `s` is on either side.
pub open spec fn is_word(s: Seq<char>, a: int, b: int) -> bool {
    &&& 0 <= a < b <= s.len()
    &&& forall|i: int| a <= i < b ==> !is_space(#[trigger] s[i])
    &&& (a == 0 || is_space(s[a - 1]))
    &&& (b == s.len() || is_space(s[b]))
}

/// `words` are the words among the first `n` characters of `s`, in their
/// order, of which the last may go on beyond them.
pub open spec fn words_cover(s: Seq<char>, words: Seq<(usize, usize)>, n: int) -> bool {
    &&& forall|k: int| 0 <= k < words.len() ==> is_word(s, (#[trigger] words[k]).0 as int, words[k].1 as int)
    &&& forall|k: int| 0 <= k < words.len() - 1 ==> (#[trigger] words[k]).1 < words[k + 1].0
    &&& forall|i: int|
        0 <= i < n && !is_space(#[trigger] s[i]) ==> exists|k: int|
            0 <= k < words.len() && (#[trigger] words[k]).0 <= i < words[k].1
}

/// `words` are the words among the first `n` characters of `s`, and a
/// word that ends within them has been told.
pub open spec fn scanned(s: Seq<char>, words: Seq<(usize, usize)>, n: int) -> bool {
    &&& 0 <= n <= s.len()
    &&& words_cover(s, words, n)
    &&& words.len() > 0 ==> words.last().1 <= n
    &&& n > 0 && !is_space(s[n - 1]) ==> words.len() > 0 && words.last().1 == n
}

/// Nothing is scanned at the start.
pub proof fn lemma_scan_start(s: Seq<char>)
    ensures
        scanned(s, Seq::empty(), 0),
{
}

/// White space adds no word.
pub proof fn lemma_scan_space(s: Seq<char>, words: Seq<(usize, usize)>, n: int)
    requires
        scanned(s, words, n),
        n < s.len(),
        is_space(s[n]),
    ensures
        scanned(s, words, n + 1),
{
    assert forall|i: int| 0 <= i < n + 1 && !is_space(#[trigger] s[i]) implies exists|k: int|
        0 <= k < words.len() && (#[trigger] words[k]).0 <= i < words[k].1 by {
        assert(i < n);
    }
}

/// A run of characters that are no white space, from the end of what was
/// scanned up to white space or the end, adds a word.
pub proof fn lemma_scan_word(s: Seq<char>, words: Seq<(usize, usize)>, a: usize, b: usize)
    requires
        scanned(s, words, a as int),
        a < b <= s.len(),
        forall|i: int| a <= i < b ==> !is_space(#[trigger] s[i]),
        a == 0 || is_space(s[a - 1]),
        b == s.len() || is_space(s[b as int]),
    ensures
        scanned(s, words.push((a, b)), b as int),
{
    let next = words.push((a, b));
    assert(is_word(s, a as int, b as int));
    assert forall|k: int| 0 <= k < next.len() implies is_word(
        s,
        (#[trigger] next[k]).0 as int,
        next[k].1 as int,
    ) by {
        if k < words.len() {
            assert(next[k] == words[k]);
        }
    }
    assert forall|k: int| 0 <= k < next.len() - 1 implies (#[trigger] next[k]).1 < next[k + 1].0 by {
        if k < words.len() - 1 {
            assert(next[k] == words[k] && next[k + 1] == words[k + 1]);
        } else {
            assert(next[k] == words.last());
            let e = words.last();
            assert(is_word(s, e.0 as int, e.1 as int));
            if e.1 == a {
                assert(!is_space(s[a - 1]));
            }
        }
    }
    assert forall|j: int| 0 <= j < b && !is_space(#[trigger] s[j]) implies exists|k: int|
        0 <= k < next.len() && (#[trigger] next[k]).0 <= j < next[k].1 by {
        if j < a {
            let k = choose|k: int| 0 <= k < words.len() && (#[trigger] words[k]).0 <= j < words[k].1;
            assert(next[k] == words[k]);
        } else {
            assert(next[next.len() - 1] == (a, b));
        }
    }
    assert(next.last() == (a, b));
}

/// The end of the run of characters that are no white space from `a` on.
pub fn word_end(s: &Vec<char>, a: usize) -> (b: usize)
    requires
        a < s@.len(),
        !is_space(s@[a as int]),
    ensures
        a < b <= s@.len(),
        forall|i: int| a <= i < b ==> !is_space(#[trigger] s@[i]),
        b == s@.len() || is_space(s@[b as int]),
{
    let n = s.len();
    let mut b = a + 1;
    while b < n && !space(s[b])
        invariant
            a < b <= n,
            n == s@.len(),
            !is_space(s@[a as int]),
            forall|k: int| a <= k < b ==> !is_space(#[trigger] s@[k]),
        decreases n - b,
    {
        b += 1;
    }
    b
}

/// The words of `s`: where each begins and ends.
pub fn split_words(s: &Vec<char>) -> (r: Vec<(usize, usize)>)
    ensures
        words_cover(s@, r@, s@.len() as int),
{
    let mut words: Vec<(usize, usize)> = Vec::new();
    let n = s.len();
    let mut i: usize = 0;
    proof {
        lemma_scan_start(s@);
    }
    while i < n
        invariant
            i <= n,
            n == s@.len(),
            scanned(s@, words@, i as int),
            i == 0 || is_space(s@[i - 1]) || (words@.len() > 0 && words@.last().1 == i),
        decreases n - i,
    {
        if space(s[i]) {
            proof {
                lemma_scan_space(s@, words@, i as int);
            }
            i += 1;
        } else {
            let a = i;
            let b = word_end(s, a);
            proof {
                if a > 0 && !is_space(s@[a - 1]) {
                    let e = words@.last();
                    assert(words_cover(s@, words@, a as int));
                    assert(is_word(s@, e.0 as int, e.1 as int));
                }
                lemma_scan_word(s@, words@, a, b);
            }
            words.push((a, b));
            i = b;
        }
    }
    words
}

/// Why a line does not hold a CP.
#[derive(Debug, Clone, Copy, PartialEq, Eq, Structural)]
pub enum CpError {
    /// The line is not a number.
    NotANumber,
    /// The number is not within 10 to 9999.
    OutOfRange,
}

/// Why a line does not hold individual values.
#[derive(Debug, Clone, Copy, PartialEq, Eq, Structural)]
pub enum IvsError {
    /// The line does not hold three words.
    Count,
    /// A word is not a number.
    NotANumber,
    /// A number is not within 0 to 15.
    OutOfRange,
}

/// What a line with the words `words` holds as CP: the number that the
/// line stands for between its first and its last word, from 10 to 9999.
pub open spec fn cp_value(s: Seq<char>, words: Seq<(usize, usize)>) -> Result<i32, CpError> {
    if words.len() == 0 {
        Err(CpError::NotANumber)
    } else {
        match int_value(s.subrange(words[0].0 as int, words.last().1 as int)) {
            None => Err(CpError::NotANumber),
            Some(v) => if 10 <= v < 10000 {
                Ok(v as i32)
            } else {
                Err(CpError::OutOfRange)
            },
        }
    }
}

/// The CP that a line holds: a number from 10 to 9999, with nothing but
/// white space around it.
pub fn parse_cp(line: &str) -> (r: Result<i32, CpError>)
    ensures
        exists|words: Seq<(usize, usize)>|
            #[trigger] words_cover(line@, words, line@.len() as int) && r == cp_value(line@, words),
{
    let s = chars_of(line);
    let words = split_words(&s);
    if words.len() == 0 {
        return Err(CpError::NotANumber);
    }
    let from = words[0].0;
    let to = words[words.len() - 1].1;
    proof {
        let w0 = words@[0];
        let w1 = words@[words@.len() - 1];
        assert(is_word(s@, w0.0 as int, w0.1 as int));
        assert(is_word(s@, w1.0 as int, w1.1 as int));
        lemma_words_ordered(s@, words@, 0, words@.len() - 1);
    }
    match parse_int(&s, from, to) {
        None => Err(CpError::NotANumber),
        Some(v) => if 10 <= v && v < 10000 {
            Ok(v)
        } else {
            Err(CpError::OutOfRange)
        },
    }
}

/// Words come one after the other.
pub proof fn lemma_words_ordered(s: Seq<char>, words: Seq<(usize, usize)>, j: int, k: int)
    requires
        words_cover(s, words, s.len() as int),
        0 <= j <= k < words.len(),
    ensures
        words[j].0 <= words[k].0,
        words[j].1 <= words[k].1,
    decreases k - j,
{
    if j < k {
        lemma_words_ordered(s, words, j, k - 1);
        assert(words[k - 1].1 < words[k].0);
        assert(is_word(s, words[k - 1].0 as int, words[k - 1].1 as int));
        assert(is_word(s, words[k].0 as int, words[k].1 as int));
    }
}

/// What the word from `w.0` to `w.1` holds as an individual value.
pub open spec fn iv_value(s: Seq<char>, w: (usize, usize)) -> Result<i32, IvsError> {
    match int_value(s.subrange(w.0 as int, w.1 as int)) {
        None => Err(IvsError::NotANumber),
        Some(v) => if 0 <= v < 16 {
            Ok(v as i32)
        } else {
            Err(IvsError::OutOfRange)
        },
    }
}

/// What a line with the words `words` holds as individual values: three
/// words, each a number from 0 to 15; the first word that is none decides
/// what is wrong.
pub open spec fn ivs_value(s: Seq<char>, words: Seq<(usize, usize)>) -> Result<IVs, IvsError> {
    if words.len() != 3 {
        Err(IvsError::Count)
    } else {
        match iv_value(s, words[0]) {
            Err(e) => Err(e),
            Ok(a) => match iv_value(s, words[1]) {
                Err(e) => Err(e),
                Ok(d) => match iv_value(s, words[2]) {
                    Err(e) => Err(e),
                    Ok(st) => Ok(IVs { attack: a, defense: d, stamina: st }),
                },
            },
        }
    }
}

/// One word as an individual value.
pub fn parse_iv(s: &Vec<char>, w: (usize, usize)) -> (r: Result<i32, IvsError>)
    requires
        w.0 <= w.1 <= s@.len(),
    ensures
        r == iv_value(s@, w),
{
    match parse_int(s, w.0, w.1) {
        None => Err(IvsError::NotANumber),
        Some(v) => if 0 <= v && v < 16 {
            Ok(v)
        } else {
            Err(IvsError::OutOfRange)
        },
    }
}

/// The individual values that a line holds: attack, defense and stamina,
/// three numbers from 0 to 15 with white space between them.
pub fn parse_ivs(line: &str) -> (r: Result<IVs, IvsError>)
    ensures
        exists|words: Seq<(usize, usize)>|
            #[trigger] words_cover(line@, words, line@.len() as int) && r == ivs_value(line@, words),
        r is Ok ==> r.unwrap().wf(),
{
    let s = chars_of(line);
    let words = split_words(&s);
    if words.len() != 3 {
        return Err(IvsError::Count);
    }
    proof {
        assert(is_word(s@, words@[0].0 as int, words@[0].1 as int));
        assert(is_word(s@, words@[1].0 as int, words@[1].1 as int));
        assert(is_word(s@, words@[2].0 as int, words@[2].1 as int));
    }
    let a = match parse_iv(&s, words[0]) {
        Ok(v) => v,
        Err(e) => {
            return Err(e);
        },
    };
    let d = match parse_iv(&s, words[1]) {
        Ok(v) => v,
        Err(e) => {
            return Err(e);
        },
    };
    let st = match parse_iv(&s, words[2]) {
        Ok(v) => v,
        Err(e) => {
            return Err(e);
        },
    };
    Ok(IVs { attack: a, defense: d, stamina: st })
}

} // verus!
