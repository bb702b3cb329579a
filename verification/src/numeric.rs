//! Decimal reading and writing of unsigned 64-bit amounts.
//!
//! Amount fields arrive as decimal strings and leave as decimal strings;
//! this module gives both directions an exact meaning over sequences of
//! characters.

use vstd::prelude::*;

verus! {

/// Whether `c` is a decimal digit.
pub open spec fn is_dec_digit(c: char) -> bool {
    48 <= c as int <= 57
}

/// The numeric value of the digit `c`.
pub open spec fn digit_val(c: char) -> int {
    c as int - 48
}

/// The digit character for a value `d` below ten.
pub open spec fn digit_char(d: int) -> char {
    (d + 48) as char
}

/// The numeric value of a digit sequence, most significant digit first.
pub open spec fn dec_val(s: Seq<char>) -> int
    decreases s.len(),
{
    if s.len() == 0 {
        0
    } else {
        dec_val(s.drop_last()) * 10 + digit_val(s.last())
    }
}

/// Whether every character of `s` is a decimal digit.
pub open spec fn all_dec_digits(s: Seq<char>) -> bool {
    forall|i: int| 0 <= i < s.len() ==> is_dec_digit(#[trigger] s[i])
}

/// The decimal writing of `n`: no sign, no leading zero except for zero itself.
pub open spec fn u64_dec(n: int) -> Seq<char>
    decreases n,
{
    if n <= 0 {
        seq![digit_char(0)]
    } else if n < 10 {
        seq![digit_char(n)]
    } else {
        u64_dec(n / 10).push(digit_char(n % 10))
    }
}

/// The digit part of an amount string: an optional leading `+` is skipped.
pub open spec fn digits_of(s: Seq<char>) -> Seq<char> {
    if s.len() > 0 && s[0] == '+' {
        s.subrange(1, s.len() as int)
    } else {
        s
    }
}

/// Whether `s` is a decimal writing of a value that fits in 64 unsigned
/// bits: an optional `+`, then one or more digits, as `u64::from_str`
/// accepts.
pub open spec fn parses_as_u64(s: Seq<char>) -> bool {
    &&& digits_of(s).len() > 0
    &&& all_dec_digits(digits_of(s))
    &&& dec_val(digits_of(s)) <= u64::MAX
}

proof fn lemma_dec_val_nonneg(t: Seq<char>)
    requires
        all_dec_digits(t),
    ensures
        dec_val(t) >= 0,
    decreases t.len(),
{
    if t.len() > 0 {
        assert(all_dec_digits(t.drop_last()));
        lemma_dec_val_nonneg(t.drop_last());
    }
}

proof fn lemma_dec_val_step(t: Seq<char>, k: int)
    requires
        0 <= k < t.len(),
    ensures
        dec_val(t.subrange(0, k + 1)) == dec_val(t.subrange(0, k)) * 10 + digit_val(t[k]),
{
    assert(t.subrange(0, k + 1).drop_last() =~= t.subrange(0, k));
    assert(t.subrange(0, k + 1).last() == t[k]);
}

proof fn lemma_dec_val_prefix(t: Seq<char>, k: int)
    requires
        all_dec_digits(t),
        0 <= k <= t.len(),
    ensures
        dec_val(t.subrange(0, k)) <= dec_val(t),
    decreases t.len() - k,
{
    if k == t.len() {
        assert(t.subrange(0, k) =~= t);
    } else {
        lemma_dec_val_step(t, k);
        assert(all_dec_digits(t.subrange(0, k)));
        lemma_dec_val_nonneg(t.subrange(0, k));
        lemma_dec_val_prefix(t, k + 1);
    }
}

/// Reads a decimal amount, as `u64::from_str` would: `None` exactly when
/// the string is not an optional `+` followed by one or more digits whose
/// value fits in 64 unsigned bits.
pub fn parse_u64(s: &str) -> (r: Option<u64>)
    ensures
        r is Some <==> parses_as_u64(s@),
        r matches Some(n) ==> n == dec_val(digits_of(s@)),
{
    let len: usize = s.unicode_len();
    let start: usize = if len > 0 && s.get_char(0) == '+' {
        1
    } else {
        0
    };
    assert(s@.subrange(start as int, s@.len() as int) =~= digits_of(s@));
    if start >= len {
        assert(digits_of(s@).len() == 0);
        return None;
    }
    let mut acc: u64 = 0;
    let mut i: usize = start;
    while i < len
        invariant
            start <= i <= len,
            len == s@.len(),
            start <= 1,
            s@.subrange(start as int, s@.len() as int) =~= digits_of(s@),
            all_dec_digits(s@.subrange(start as int, i as int)),
            acc == dec_val(s@.subrange(start as int, i as int)),
        decreases len - i,
    {
        let c: char = s.get_char(i);
        let cu: u32 = c as u32;
        proof {
            assert(digits_of(s@)[i - start] == s@[i as int]);
        }
        if cu < 48 || cu > 57 {
            assert(!is_dec_digit(s@[i as int]));
            assert(!all_dec_digits(digits_of(s@)));
            return None;
        }
        let d: u64 = (cu - 48) as u64;
        proof {
            assert(is_dec_digit(s@[i as int]));
            assert(digit_val(s@[i as int]) == d);
            lemma_dec_val_step(digits_of(s@), i - start);
            assert(digits_of(s@).subrange(0, i - start) =~= s@.subrange(
                start as int,
                i as int,
            ));
            assert(digits_of(s@).subrange(0, i - start + 1) =~= s@.subrange(
                start as int,
                i as int + 1,
            ));
        }
        if acc > (u64::MAX - d) / 10 {
            proof {
                assert(acc * 10 + d > u64::MAX) by (nonlinear_arith)
                    requires
                        acc > (u64::MAX - d) / 10,
                        d <= 9,
                        acc >= 0,
                ;
                if all_dec_digits(digits_of(s@)) {
                    lemma_dec_val_prefix(digits_of(s@), i - start + 1);
                    assert(dec_val(digits_of(s@)) > u64::MAX);
                }
            }
            return None;
        }
        proof {
            assert(acc * 10 + d <= u64::MAX) by (nonlinear_arith)
                requires
                    acc <= (u64::MAX - d) / 10,
                    d <= 9,
                    acc >= 0,
            ;
        }
        acc = acc * 10 + d;
        i = i + 1;
    }
    assert(s@.subrange(start as int, i as int) =~= digits_of(s@));
    Some(acc)
}

/// The decimal writing of an amount reads back as the same amount: writing
/// never loses a value, and every written amount is accepted by the reader.
pub proof fn lemma_write_read_round_trip(n: u64)
    ensures
        parses_as_u64(u64_dec(n as int)),
        dec_val(u64_dec(n as int)) == n,
{
    lemma_u64_dec_digits(n as int);
    lemma_u64_dec_val(n as int);
    assert(u64_dec(n as int)[0] != '+');
    assert(digits_of(u64_dec(n as int)) =~= u64_dec(n as int));
}

proof fn lemma_u64_dec_digits(n: int)
    requires
        n >= 0,
    ensures
        u64_dec(n).len() > 0,
        all_dec_digits(u64_dec(n)),
        is_dec_digit(u64_dec(n)[0]),
    decreases n,
{
    if n >= 10 {
        lemma_u64_dec_digits(n / 10);
        assert forall|i: int| 0 <= i < u64_dec(n).len() implies is_dec_digit(
            #[trigger] u64_dec(n)[i],
        ) by {
            if i < u64_dec(n / 10).len() {
                assert(u64_dec(n)[i] == u64_dec(n / 10)[i]);
            } else {
                assert(u64_dec(n)[i] == digit_char(n % 10));
            }
        }
    }
}

proof fn lemma_digit_char_val(d: int)
    requires
        0 <= d <= 9,
    ensures
        digit_val(digit_char(d)) == d,
        is_dec_digit(digit_char(d)),
{
    assert(digit_char(d) as int == d + 48);
}

proof fn lemma_u64_dec_val(n: int)
    requires
        n >= 0,
    ensures
        dec_val(u64_dec(n)) == n,
    decreases n,
{
    if n < 10 {
        lemma_digit_char_val(n);
        assert(u64_dec(n).drop_last() =~= Seq::<char>::empty());
        assert(dec_val(u64_dec(n)) == dec_val(u64_dec(n).drop_last()) * 10 + digit_val(
            u64_dec(n).last(),
        ));
    } else {
        lemma_u64_dec_val(n / 10);
        lemma_digit_char_val(n % 10);
        assert(u64_dec(n).drop_last() =~= u64_dec(n / 10));
        assert(dec_val(u64_dec(n)) == dec_val(u64_dec(n).drop_last()) * 10 + digit_val(
            u64_dec(n).last(),
        ));
    }
}

/// The digit character for a digit value, as a one-character string slice.
fn digit_str(d: u64) -> (r: &'static str)
    requires
        d < 10,
    ensures
        r@ =~= seq![digit_char(d as int)],
{
    proof {
        reveal_strlit("0");
        reveal_strlit("1");
        reveal_strlit("2");
        reveal_strlit("3");
        reveal_strlit("4");
        reveal_strlit("5");
        reveal_strlit("6");
        reveal_strlit("7");
        reveal_strlit("8");
        reveal_strlit("9");
    }
    match d {
        0 => "0",
        1 => "1",
        2 => "2",
        3 => "3",
        4 => "4",
        5 => "5",
        6 => "6",
        7 => "7",
        8 => "8",
        _ => "9",
    }
}

/// Writes `n` in decimal, as `u64::to_string` would.
pub fn format_u64(n: u64) -> (r: String)
    ensures
        r@ =~= u64_dec(n as int),
    decreases n,
{
    if n < 10 {
        let mut s = String::new();
        s.append(digit_str(n));
        s
    } else {
        let mut s = format_u64(n / 10);
        s.append(digit_str(n % 10));
        s
    }
}

} // verus!
