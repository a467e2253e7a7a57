//! Synthetic labels for wire-level filter sections.
//!
//! Each entry of a compiled section is keyed by a label derived purely from
//! the entry's position in the input sequence (`account_0`, `account_1`,
//! ...). Re-compiling the same inputs therefore yields the same labels, and
//! distinct positions yield distinct labels.

use vstd::prelude::*;
use vstd::arithmetic::div_mod::lemma_fundamental_div_mod;
use vstd::string::StringExecFns;

verus! {

/// The character for one decimal digit.
pub open spec fn digit_char(d: nat) -> char {
    if d == 0 {
        '0'
    } else if d == 1 {
        '1'
    } else if d == 2 {
        '2'
    } else if d == 3 {
        '3'
    } else if d == 4 {
        '4'
    } else if d == 5 {
        '5'
    } else if d == 6 {
        '6'
    } else if d == 7 {
        '7'
    } else if d == 8 {
        '8'
    } else {
        '9'
    }
}

/// The numeric value of one decimal digit character.
pub open spec fn char_digit(c: char) -> nat {
    if c == '0' {
        0
    } else if c == '1' {
        1
    } else if c == '2' {
        2
    } else if c == '3' {
        3
    } else if c == '4' {
        4
    } else if c == '5' {
        5
    } else if c == '6' {
        6
    } else if c == '7' {
        7
    } else if c == '8' {
        8
    } else {
        9
    }
}

/// The decimal digits of `n`, most significant first, without leading
/// zeros (`0` is rendered as the single digit `0`).
pub open spec fn dec_digits(n: nat) -> Seq<char>
    decreases n,
{
    if n < 10 {
        seq![digit_char(n)]
    } else {
        dec_digits(n / 10).push(digit_char(n % 10))
    }
}

/// The numeric value of a sequence of decimal digit characters.
pub open spec fn digits_value(s: Seq<char>) -> nat
    decreases s.len(),
{
    if s.len() == 0 {
        0
    } else {
        digits_value(s.drop_last()) * 10 + char_digit(s.last())
    }
}

/// Rendering `n` in decimal and reading the digits back yields `n`.
pub proof fn lemma_dec_digits_value(n: nat)
    ensures
        digits_value(dec_digits(n)) == n,
    decreases n,
{
    if n < 10 {
        let s = seq![digit_char(n)];
        assert(s.drop_last() =~= Seq::<char>::empty());
        assert(digits_value(Seq::<char>::empty()) == 0);
        assert(digits_value(s) == 0 * 10 + char_digit(s.last()));
        assert(char_digit(digit_char(n)) == n);
    } else {
        lemma_dec_digits_value(n / 10);
        let prev = dec_digits(n / 10);
        let whole = prev.push(digit_char(n % 10));
        assert(whole.drop_last() =~= prev);
        assert(whole.last() == digit_char(n % 10));
        assert(digits_value(whole) == digits_value(prev) * 10 + char_digit(digit_char(n % 10)));
        assert(char_digit(digit_char(n % 10)) == n % 10);
        lemma_fundamental_div_mod(n as int, 10);
    }
}

/// Distinct numbers render to distinct digit sequences.
pub proof fn lemma_dec_digits_injective(m: nat, n: nat)
    requires
        dec_digits(m) == dec_digits(n),
    ensures
        m == n,
{
    lemma_dec_digits_value(m);
    lemma_dec_digits_value(n);
}

/// The label for position `i` of a section: the section's prefix followed
/// by the decimal digits of `i`.
pub open spec fn label_chars(prefix: Seq<char>, i: nat) -> Seq<char> {
    prefix + dec_digits(i)
}

/// The label of the `i`-th entry of the accounts section.
pub open spec fn account_label(i: nat) -> Seq<char> {
    label_chars("account_"@, i)
}

/// The label of the `i`-th entry of the transactions section.
pub open spec fn transaction_label(i: nat) -> Seq<char> {
    label_chars("transaction_"@, i)
}

/// Labels with one prefix are distinct for distinct positions, so the keys
/// of a compiled section are unique.
pub proof fn lemma_label_injective(prefix: Seq<char>, i: nat, j: nat)
    requires
        label_chars(prefix, i) == label_chars(prefix, j),
    ensures
        i == j,
{
    let a = dec_digits(i);
    let b = dec_digits(j);
    assert((prefix + a).len() == prefix.len() + a.len());
    assert((prefix + b).len() == prefix.len() + b.len());
    assert forall|k: int| 0 <= k < a.len() implies a[k] == b[k] by {
        assert((prefix + a)[prefix.len() + k] == a[k]);
        assert((prefix + b)[prefix.len() + k] == b[k]);
    }
    assert(a =~= b);
    lemma_dec_digits_injective(i, j);
}

/// Appends one decimal digit character to `s`.
fn push_digit(s: &mut String, d: usize)
    requires
        d < 10,
    ensures
        final(s)@ == old(s)@.push(digit_char(d as nat)),
{
    proof {
        reveal_strlit("0");
        reveal_strlit("1");
        reveal_strlit("2");
        reveal_strlit("3");
        reveal_strlit("4");
        reveal_strlit("5");
        reveal_strlit("6");
        reveal_strlit("7");
        reveal_strlit("8");
        reveal_strlit("9");
    }
    let ghost before = s@;
    if d == 0 {
        s.append("0");
    } else if d == 1 {
        s.append("1");
    } else if d == 2 {
        s.append("2");
    } else if d == 3 {
        s.append("3");
    } else if d == 4 {
        s.append("4");
    } else if d == 5 {
        s.append("5");
    } else if d == 6 {
        s.append("6");
    } else if d == 7 {
        s.append("7");
    } else if d == 8 {
        s.append("8");
    } else {
        s.append("9");
    }
    proof {
        assert(s@ =~= before.push(digit_char(d as nat)));
    }
}

/// Renders `n` in decimal.
pub fn dec_string(n: usize) -> (s: String)
    ensures
        s@ == dec_digits(n as nat),
    decreases n,
{
    if n < 10 {
        let mut s = String::new();
        push_digit(&mut s, n);
        proof {
            assert(s@ =~= dec_digits(n as nat));
        }
        s
    } else {
        let mut s = dec_string(n / 10);
        push_digit(&mut s, n % 10);
        proof {
            assert(s@ =~= dec_digits(n as nat));
        }
        s
    }
}

/// Builds the label `<prefix><i>` for the `i`-th entry of a section.
pub fn make_label(prefix: &str, i: usize) -> (s: String)
    ensures
        s@ == label_chars(prefix@, i as nat),
{
    let mut s = prefix.to_owned();
    let digits = dec_string(i);
    s.append(digits.as_str());
    s
}

} // verus!
