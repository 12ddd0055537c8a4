//! Canonical study identifiers.
//!
//! The registry names its records `study_1`, `study_2`, ... in registration
//! order. Identifier generation must be collision-free and must not be
//! derivable from the record's own fields, so it is driven by a counter; the
//! proofs here show that the numbering is injective, which is what makes the
//! generated identifiers unique across all cycles and contributors.

use vstd::prelude::*;

verus! {

/// The character for one decimal digit.
pub open spec fn digit_char(d: nat) -> char {
    if d == 0 {
        '0'
    } else if d == 1 {
        '1'
    } else if d == 2 {
        '2'
    } else if d == 3 {
        '3'
    } else if d == 4 {
        '4'
    } else if d == 5 {
        '5'
    } else if d == 6 {
        '6'
    } else if d == 7 {
        '7'
    } else if d == 8 {
        '8'
    } else {
        '9'
    }
}

/// The digit a character stands for; ten for a character that is no digit.
pub open spec fn char_digit(c: char) -> nat {
    if c == '0' {
        0
    } else if c == '1' {
        1
    } else if c == '2' {
        2
    } else if c == '3' {
        3
    } else if c == '4' {
        4
    } else if c == '5' {
        5
    } else if c == '6' {
        6
    } else if c == '7' {
        7
    } else if c == '8' {
        8
    } else if c == '9' {
        9
    } else {
        10
    }
}

/// The decimal numeral of `n`, most significant digit first, no leading zeros.
pub open spec fn dec_seq(n: nat) -> Seq<char>
    decreases n,
{
    if n < 10 {
        seq![digit_char(n)]
    } else {
        dec_seq(n / 10) + seq![digit_char(n % 10)]
    }
}

/// The value a digit string denotes, read left to right.
pub open spec fn seq_val(s: Seq<char>) -> nat
    decreases s.len(),
{
    if s.len() == 0 {
        0
    } else {
        seq_val(s.drop_last()) * 10 + char_digit(s.last())
    }
}

/// A digit's character reads back as that digit.
pub proof fn lemma_digit_char_roundtrip(d: nat)
    requires
        d < 10,
    ensures
        char_digit(digit_char(d)) == d,
{
}

/// Reading the numeral of `n` back gives `n`: the numeral is a faithful code.
pub proof fn lemma_dec_seq_val(n: nat)
    ensures
        seq_val(dec_seq(n)) == n,
    decreases n,
{
    if n < 10 {
        let s = seq![digit_char(n)];
        assert(s.drop_last() =~= Seq::<char>::empty());
        assert(s.last() == digit_char(n));
        lemma_digit_char_roundtrip(n);
        assert(seq_val(s) == seq_val(s.drop_last()) * 10 + char_digit(s.last()));
        assert(seq_val(Seq::<char>::empty()) == 0);
    } else {
        lemma_dec_seq_val(n / 10);
        let s = dec_seq(n / 10) + seq![digit_char(n % 10)];
        assert(s =~= dec_seq(n));
        assert(s.drop_last() =~= dec_seq(n / 10));
        assert(s.last() == digit_char(n % 10));
        lemma_digit_char_roundtrip(n % 10);
        assert(seq_val(s) == seq_val(s.drop_last()) * 10 + char_digit(s.last()));
        assert(seq_val(dec_seq(n / 10)) == n / 10);
        vstd::arithmetic::div_mod::lemma_fundamental_div_mod(n as int, 10);
    }
}

/// Distinct numbers have distinct numerals.
pub proof fn lemma_dec_seq_injective(a: nat, b: nat)
    requires
        dec_seq(a) == dec_seq(b),
    ensures
        a == b,
{
    lemma_dec_seq_val(a);
    lemma_dec_seq_val(b);
}

/// A shared prefix cancels: equal concatenations have equal tails.
pub proof fn lemma_concat_left_cancel<A>(p: Seq<A>, a: Seq<A>, b: Seq<A>)
    requires
        p + a == p + b,
    ensures
        a == b,
{
    assert((p + a).len() == p.len() + a.len());
    assert((p + b).len() == p.len() + b.len());
    assert(a.len() == b.len());
    assert forall|i: int| 0 <= i < a.len() implies a[i] == b[i] by {
        assert((p + a)[p.len() + i] == a[i]);
        assert((p + b)[p.len() + i] == b[i]);
    }
    assert(a =~= b);
}

/// The canonical identifier of the `n`-th registered study.
pub open spec fn study_id_seq(n: nat) -> Seq<char> {
    "study_"@ + dec_seq(n)
}

/// Distinct registration counters give distinct study identifiers.
pub proof fn lemma_study_id_seq_injective(a: nat, b: nat)
    requires
        study_id_seq(a) == study_id_seq(b),
    ensures
        a == b,
{
    lemma_concat_left_cancel("study_"@, dec_seq(a), dec_seq(b));
    lemma_dec_seq_injective(a, b);
}

/// The one-character string for the digit `d`.
fn digit_str(d: u64) -> (r: &'static str)
    requires
        d < 10,
    ensures
        r@ == seq![digit_char(d as nat)],
{
    proof {
        reveal_strlit("0");
        reveal_strlit("1");
        reveal_strlit("2");
        reveal_strlit("3");
        reveal_strlit("4");
        reveal_strlit("5");
        reveal_strlit("6");
        reveal_strlit("7");
        reveal_strlit("8");
        reveal_strlit("9");
    }
    if d == 0 {
        "0"
    } else if d == 1 {
        "1"
    } else if d == 2 {
        "2"
    } else if d == 3 {
        "3"
    } else if d == 4 {
        "4"
    } else if d == 5 {
        "5"
    } else if d == 6 {
        "6"
    } else if d == 7 {
        "7"
    } else if d == 8 {
        "8"
    } else {
        "9"
    }
}

/// The decimal numeral of `n` as an owned string.
fn dec_string(n: u64) -> (r: String)
    ensures
        r@ == dec_seq(n as nat),
    decreases n,
{
    if n < 10 {
        String::from_str(digit_str(n))
    } else {
        let mut s = dec_string(n / 10);
        s.append(digit_str(n % 10));
        s
    }
}

/// The canonical identifier of the `n`-th registered study, as a string.
pub fn make_study_id(n: u64) -> (r: String)
    ensures
        r@ == study_id_seq(n as nat),
{
    let prefix = String::from_str("study_");
    let digits = dec_string(n);
    prefix.concat(digits.as_str())
}

} // verus!
