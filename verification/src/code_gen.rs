//! Session codes: six characters from a 31-symbol alphabet of visually
//! unambiguous characters (no `0`/`O`, `1`/`I`/`L`). This module draws
//! random candidates and enumerates the code space; uniqueness against
//! live sessions is the registry's business.

use rand::Rng;
use vstd::prelude::*;

verus! {

/// The 31 visually unambiguous symbols a session code is drawn from.
pub open spec fn code_alphabet() -> Seq<char> {
    seq![
        'A',
        'B',
        'C',
        'D',
        'E',
        'F',
        'G',
        'H',
        'J',
        'K',
        'M',
        'N',
        'P',
        'Q',
        'R',
        'S',
        'T',
        'U',
        'V',
        'W',
        'X',
        'Y',
        'Z',
        '2',
        '3',
        '4',
        '5',
        '6',
        '7',
        '8',
        '9',
    ]
}

pub open spec fn is_code_char(c: char) -> bool {
    code_alphabet().contains(c)
}

/// A well-formed session code: exactly six characters, all from the alphabet.
pub open spec fn valid_code(s: Seq<char>) -> bool {
    &&& s.len() == 6
    &&& forall|i: int| 0 <= i < s.len() ==> is_code_char(#[trigger] s[i])
}

/// Relies on rand's `Rng::gen_range` over `0..n` (with `thread_rng` as the
/// generator): for a nonempty range it returns a value inside the range,
/// and panics only on an empty one.
#[verifier::external_body]
fn random_below(n: usize) -> (r: usize)
    requires
        0 < n,
    ensures
        r < n,
{
    rand::thread_rng().gen_range(0..n)
}

/// Relies on `String::push`: appends exactly the given character.
#[verifier::external_body]
fn push_char(s: &mut String, c: char)
    ensures
        final(s)@ == old(s)@.push(c),
{
    s.push(c);
}

fn code_char_at(i: usize) -> (c: char)
    requires
        i < 31,
    ensures
        c == code_alphabet()[i as int],
{
    match i {
        0 => 'A',
        1 => 'B',
        2 => 'C',
        3 => 'D',
        4 => 'E',
        5 => 'F',
        6 => 'G',
        7 => 'H',
        8 => 'J',
        9 => 'K',
        10 => 'M',
        11 => 'N',
        12 => 'P',
        13 => 'Q',
        14 => 'R',
        15 => 'S',
        16 => 'T',
        17 => 'U',
        18 => 'V',
        19 => 'W',
        20 => 'X',
        21 => 'Y',
        22 => 'Z',
        23 => '2',
        24 => '3',
        25 => '4',
        26 => '5',
        27 => '6',
        28 => '7',
        29 => '8',
        _ => '9',
    }
}

/// The position of a character in the code alphabet. Characters outside
/// the alphabet share the last position; encoding never produces them.
pub open spec fn char_index(c: char) -> int {
    if c == 'A' {
        0
    } else if c == 'B' {
        1
    } else if c == 'C' {
        2
    } else if c == 'D' {
        3
    } else if c == 'E' {
        4
    } else if c == 'F' {
        5
    } else if c == 'G' {
        6
    } else if c == 'H' {
        7
    } else if c == 'J' {
        8
    } else if c == 'K' {
        9
    } else if c == 'M' {
        10
    } else if c == 'N' {
        11
    } else if c == 'P' {
        12
    } else if c == 'Q' {
        13
    } else if c == 'R' {
        14
    } else if c == 'S' {
        15
    } else if c == 'T' {
        16
    } else if c == 'U' {
        17
    } else if c == 'V' {
        18
    } else if c == 'W' {
        19
    } else if c == 'X' {
        20
    } else if c == 'Y' {
        21
    } else if c == 'Z' {
        22
    } else if c == '2' {
        23
    } else if c == '3' {
        24
    } else if c == '4' {
        25
    } else if c == '5' {
        26
    } else if c == '6' {
        27
    } else if c == '7' {
        28
    } else if c == '8' {
        29
    } else {
        30
    }
}

/// A code read as a base-31 number, most significant character first.
pub open spec fn code_num(s: Seq<char>) -> int
    decreases s.len(),
{
    if s.len() == 0 {
        0
    } else {
        code_num(s.drop_last()) * 31 + char_index(s.last())
    }
}

proof fn lemma_char_index_inverse(k: int)
    requires
        0 <= k < 31,
    ensures
        char_index(code_alphabet()[k]) == k,
{
}

/// How many session codes there are: 31 to the 6th power.
pub open spec fn code_space() -> int {
    887503681
}

/// Writes `i` in base 31 as a six-character code, most significant
/// character first. Distinct numbers give distinct codes, which is what
/// the registry's sweep for a free code rests on.
pub fn encode_code(i: usize) -> (r: String)
    requires
        i < code_space(),
    ensures
        valid_code(r@),
        code_num(r@) == i,
{
    let d0 = i % 31;
    let i1 = i / 31;
    let d1 = i1 % 31;
    let i2 = i1 / 31;
    let d2 = i2 % 31;
    let i3 = i2 / 31;
    let d3 = i3 % 31;
    let i4 = i3 / 31;
    let d4 = i4 % 31;
    let i5 = i4 / 31;
    proof {
        assert(i5 < 31) by {
            vstd::arithmetic::div_mod::lemma_multiply_divide_lt(i as int, 31, 28629151);
            vstd::arithmetic::div_mod::lemma_multiply_divide_lt(i1 as int, 31, 923521);
            vstd::arithmetic::div_mod::lemma_multiply_divide_lt(i2 as int, 31, 29791);
            vstd::arithmetic::div_mod::lemma_multiply_divide_lt(i3 as int, 31, 961);
            vstd::arithmetic::div_mod::lemma_multiply_divide_lt(i4 as int, 31, 31);
        }
    }
    let c5 = code_char_at(i5);
    let c4 = code_char_at(d4);
    let c3 = code_char_at(d3);
    let c2 = code_char_at(d2);
    let c1 = code_char_at(d1);
    let c0 = code_char_at(d0);
    let mut s = String::new();
    push_char(&mut s, c5);
    push_char(&mut s, c4);
    push_char(&mut s, c3);
    push_char(&mut s, c2);
    push_char(&mut s, c1);
    push_char(&mut s, c0);
    proof {
        lemma_char_index_inverse(i5 as int);
        lemma_char_index_inverse(d4 as int);
        lemma_char_index_inverse(d3 as int);
        lemma_char_index_inverse(d2 as int);
        lemma_char_index_inverse(d1 as int);
        lemma_char_index_inverse(d0 as int);
        assert(forall|j: int| 0 <= j < s@.len() ==> is_code_char(#[trigger] s@[j])) by {
            assert(is_code_char(c5)) by {
                assert(code_alphabet()[i5 as int] == c5);
            }
            assert(is_code_char(c4)) by {
                assert(code_alphabet()[d4 as int] == c4);
            }
            assert(is_code_char(c3)) by {
                assert(code_alphabet()[d3 as int] == c3);
            }
            assert(is_code_char(c2)) by {
                assert(code_alphabet()[d2 as int] == c2);
            }
            assert(is_code_char(c1)) by {
                assert(code_alphabet()[d1 as int] == c1);
            }
            assert(is_code_char(c0)) by {
                assert(code_alphabet()[d0 as int] == c0);
            }
        }
        assert(code_num(s@) == i) by {
            reveal_with_fuel(code_num, 7);
        }
    }
    s
}

/// Draws one candidate session code at random.
pub fn get_code() -> (r: String)
    ensures
        valid_code(r@),
{
    let mut s = String::new();
    let mut i: usize = 0;
    while i < 6
        invariant
            i <= 6,
            s@.len() == i,
            forall|j: int| 0 <= j < i ==> is_code_char(#[trigger] s@[j]),
        decreases 6 - i,
    {
        let k = random_below(31);
        let c = code_char_at(k);
        proof {
            assert(is_code_char(c)) by {
                assert(code_alphabet()[k as int] == c);
            }
        }
        push_char(&mut s, c);
        i += 1;
    }
    s
}

} // verus!
