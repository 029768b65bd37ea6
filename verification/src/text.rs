//! Rendering of the score labels and of target names as character vectors.
//!
//! The host turns these into engine strings; the contracts pin the exact
//! characters, so the displayed text provably mirrors the score values.

use vstd::prelude::*;

verus! {

/// The character for a single decimal digit.
pub open spec fn digit_char(d: int) -> char {
    if d == 0 {
        '0'
    } else if d == 1 {
        '1'
    } else if d == 2 {
        '2'
    } else if d == 3 {
        '3'
    } else if d == 4 {
        '4'
    } else if d == 5 {
        '5'
    } else if d == 6 {
        '6'
    } else if d == 7 {
        '7'
    } else if d == 8 {
        '8'
    } else {
        '9'
    }
}

/// The decimal rendering of a natural number, most significant digit first,
/// with no leading zeros (zero itself renders as "0").
pub open spec fn dec_digits(n: nat) -> Seq<char>
    decreases n,
{
    if n < 10 {
        seq![digit_char(n as int)]
    } else {
        dec_digits(n / 10) + seq![digit_char((n % 10) as int)]
    }
}

/// The full text of the score label for a given score.
pub open spec fn score_text_spec(n: nat) -> Seq<char> {
    seq!['S', 'c', 'o', 'r', 'e', ':', ' '] + dec_digits(n)
}

/// The full text of the high-score label for a given high score.
pub open spec fn high_score_text_spec(n: nat) -> Seq<char> {
    seq!['H', 'i', 'g', 'h', ' ', 'S', 'c', 'o', 'r', 'e', ':', ' '] + dec_digits(n)
}

/// The registry name of the target spawned with the given counter value.
pub open spec fn target_name_spec(id: int) -> Seq<char> {
    seq!['f', 'e', 'r', 'r', 'i', 's'] + dec_digits(id as nat)
}

fn digit_to_char(d: u32) -> (c: char)
    requires
        d < 10,
    ensures
        c == digit_char(d as int),
{
    if d == 0 {
        '0'
    } else if d == 1 {
        '1'
    } else if d == 2 {
        '2'
    } else if d == 3 {
        '3'
    } else if d == 4 {
        '4'
    } else if d == 5 {
        '5'
    } else if d == 6 {
        '6'
    } else if d == 7 {
        '7'
    } else if d == 8 {
        '8'
    } else {
        '9'
    }
}

/// The decimal digits of `n`, most significant first.
pub fn u32_digits(n: u32) -> (v: Vec<char>)
    ensures
        v@ == dec_digits(n as nat),
    decreases n,
{
    if n < 10 {
        let c = digit_to_char(n);
        let v: Vec<char> = vec![c];
        proof {
            assert(v@ =~= dec_digits(n as nat));
        }
        v
    } else {
        let mut v = u32_digits(n / 10);
        let c = digit_to_char(n % 10);
        v.push(c);
        proof {
            assert(v@ =~= dec_digits(n as nat));
        }
        v
    }
}

/// The score label text for score `n`, e.g. "Score: 12".
pub fn score_text(n: u32) -> (v: Vec<char>)
    ensures
        v@ == score_text_spec(n as nat),
{
    let mut v: Vec<char> = vec!['S', 'c', 'o', 'r', 'e', ':', ' '];
    let mut d = u32_digits(n);
    v.append(&mut d);
    proof {
        assert(v@ =~= score_text_spec(n as nat));
    }
    v
}

/// The high-score label text for high score `n`, e.g. "High Score: 12".
pub fn high_score_text(n: u32) -> (v: Vec<char>)
    ensures
        v@ == high_score_text_spec(n as nat),
{
    let mut v: Vec<char> = vec!['H', 'i', 'g', 'h', ' ', 'S', 'c', 'o', 'r', 'e', ':', ' '];
    let mut d = u32_digits(n);
    v.append(&mut d);
    proof {
        assert(v@ =~= high_score_text_spec(n as nat));
    }
    v
}

/// The registry name of the target with counter value `id`, e.g. "ferris3".
pub fn target_name(id: i32) -> (v: Vec<char>)
    requires
        id >= 0,
    ensures
        v@ == target_name_spec(id as int),
{
    let mut v: Vec<char> = vec!['f', 'e', 'r', 'r', 'i', 's'];
    let mut d = u32_digits(id as u32);
    v.append(&mut d);
    proof {
        assert(v@ =~= target_name_spec(id as int));
    }
    v
}

} // verus!
