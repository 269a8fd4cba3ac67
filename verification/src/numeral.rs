//! Decimal numerals: writing an unsigned value as its digit string and
//! reading a digit string back as a `u64`.

use vstd::prelude::*;
use vstd::string::StringExecFns;

verus! {

/// The character standing for one decimal digit value.
pub open spec fn digit_char(d: nat) -> char {
    if d == 0 {
        '0'
    } else if d == 1 {
        '1'
    } else if d == 2 {
        '2'
    } else if d == 3 {
        '3'
    } else if d == 4 {
        '4'
    } else if d == 5 {
        '5'
    } else if d == 6 {
        '6'
    } else if d == 7 {
        '7'
    } else if d == 8 {
        '8'
    } else {
        '9'
    }
}

/// The decimal numeral of `n`, most-significant digit first, without sign or
/// leading zeros (`0` itself is written as one `'0'`).
pub open spec fn spec_decimal(n: nat) -> Seq<char>
    decreases n,
{
    if n < 10 {
        seq![digit_char(n)]
    } else {
        spec_decimal(n / 10) + seq![digit_char(n % 10)]
    }
}

pub open spec fn is_digit_char(c: char) -> bool {
    48 <= c as u32 && c as u32 <= 57
}

/// The numeric value of a digit character.
pub open spec fn digit_val(c: char) -> nat {
    (c as u32 - 48) as nat
}

/// The value of a digit string read as a base-10 numeral.
pub open spec fn spec_decimal_value(s: Seq<char>) -> nat
    decreases s.len(),
{
    if s.len() == 0 {
        0
    } else {
        spec_decimal_value(s.drop_last()) * 10 + digit_val(s.last())
    }
}

/// The digits of a numeral token, once an optional leading `'+'` is removed.
pub open spec fn spec_numeral_body(s: Seq<char>) -> Seq<char> {
    if s.len() > 0 && s[0] == '+' {
        s.skip(1)
    } else {
        s
    }
}

/// Whether `s` is a valid `u64` decimal numeral: an optional `'+'`, then at
/// least one digit, all characters digits, and a value that fits in 64 bits.
pub open spec fn spec_is_u64_numeral(s: Seq<char>) -> bool {
    let b = spec_numeral_body(s);
    &&& b.len() > 0
    &&& forall|k: int| 0 <= k < b.len() ==> is_digit_char(#[trigger] b[k])
    &&& spec_decimal_value(b) <= u64::MAX
}

proof fn lemma_decimal_nonempty(n: nat)
    ensures
        spec_decimal(n).len() >= 1,
        n >= 10 ==> spec_decimal(n).len() >= 2,
    decreases n,
{
    if n >= 10 {
        lemma_decimal_nonempty(n / 10);
    }
}

proof fn lemma_digit_char_injective(d1: nat, d2: nat)
    requires
        d1 < 10,
        d2 < 10,
        digit_char(d1) == digit_char(d2),
    ensures
        d1 == d2,
{
}

/// Distinct values have distinct decimal numerals.
pub proof fn lemma_decimal_injective(n1: nat, n2: nat)
    requires
        spec_decimal(n1) == spec_decimal(n2),
    ensures
        n1 == n2,
    decreases n1,
{
    lemma_decimal_nonempty(n1);
    lemma_decimal_nonempty(n2);
    if n1 < 10 && n2 < 10 {
        assert(spec_decimal(n1)[0] == digit_char(n1));
        assert(spec_decimal(n2)[0] == digit_char(n2));
        lemma_digit_char_injective(n1, n2);
    } else if n1 < 10 {
        assert(spec_decimal(n1).len() == 1);
        assert(spec_decimal(n2).len() >= 2);
    } else if n2 < 10 {
        assert(spec_decimal(n2).len() == 1);
        assert(spec_decimal(n1).len() >= 2);
    } else {
        let s1 = spec_decimal(n1);
        let s2 = spec_decimal(n2);
        let p1 = spec_decimal(n1 / 10);
        let p2 = spec_decimal(n2 / 10);
        assert(s1 == p1 + seq![digit_char(n1 % 10)]);
        assert(s2 == p2 + seq![digit_char(n2 % 10)]);
        assert(s1[s1.len() - 1] == digit_char(n1 % 10));
        assert(s2[s2.len() - 1] == digit_char(n2 % 10));
        lemma_digit_char_injective(n1 % 10, n2 % 10);
        assert(p1 =~= s1.subrange(0, s1.len() - 1));
        assert(p2 =~= s2.subrange(0, s2.len() - 1));
        lemma_decimal_injective(n1 / 10, n2 / 10);
        assert(n1 == 10 * (n1 / 10) + n1 % 10);
        assert(n2 == 10 * (n2 / 10) + n2 % 10);
    }
}

/// A numeral's value only grows as more characters are appended.
proof fn lemma_decimal_value_prefix(t: Seq<char>, j: int)
    requires
        0 <= j <= t.len(),
    ensures
        spec_decimal_value(t.subrange(0, j)) <= spec_decimal_value(t),
    decreases t.len(),
{
    if j == t.len() {
        assert(t.subrange(0, j) =~= t);
    } else {
        let t1 = t.drop_last();
        assert(t1.subrange(0, j) =~= t.subrange(0, j));
        lemma_decimal_value_prefix(t1, j);
        assert(spec_decimal_value(t1) * 10 >= spec_decimal_value(t1));
    }
}

fn digit_str(d: u64) -> (r: &'static str)
    requires
        d < 10,
    ensures
        r@ == seq![digit_char(d as nat)],
{
    proof {
        reveal_strlit("0");
        reveal_strlit("1");
        reveal_strlit("2");
        reveal_strlit("3");
        reveal_strlit("4");
        reveal_strlit("5");
        reveal_strlit("6");
        reveal_strlit("7");
        reveal_strlit("8");
        reveal_strlit("9");
    }
    let r = match d {
        0 => "0",
        1 => "1",
        2 => "2",
        3 => "3",
        4 => "4",
        5 => "5",
        6 => "6",
        7 => "7",
        8 => "8",
        _ => "9",
    };
    proof {
        assert(r@ =~= seq![digit_char(d as nat)]);
    }
    r
}

/// Appends the decimal numeral of `n` to `s`.
pub fn push_decimal(s: &mut String, n: u64)
    ensures
        final (s)@ == old(s)@ + spec_decimal(n as nat),
    decreases n,
{
    if n >= 10 {
        push_decimal(s, n / 10);
    }
    s.append(digit_str(n % 10));
    proof {
        assert(s@ =~= old(s)@ + spec_decimal(n as nat));
    }
}

/// Reads `s` as a decimal `u64` numeral; `None` exactly when `s` is not one
/// (no digits, a non-digit character, or a value above `u64::MAX`).
pub fn parse_u64_numeral(s: &str) -> (r: Option<u64>)
    ensures
        r is Some <==> spec_is_u64_numeral(s@),
        r matches Some(v) ==> v == spec_decimal_value(spec_numeral_body(s@)),
{
    let n: usize = s.unicode_len();
    let mut i: usize = 0;
    if n > 0 && s.get_char(0) == '+' {
        i = 1;
    }
    let ghost start = i as int;
    let ghost body = spec_numeral_body(s@);
    proof {
        assert(body =~= s@.subrange(start, n as int));
    }
    if i == n {
        return None;
    }
    let mut acc: u64 = 0;
    while i < n
        invariant
            0 <= start <= i <= n == s@.len(),
            body == s@.subrange(start, n as int),
            body == spec_numeral_body(s@),
            forall|k: int| start <= k < i ==> is_digit_char(#[trigger] s@[k]),
            acc == spec_decimal_value(s@.subrange(start, i as int)),
        decreases n - i,
    {
        let c = s.get_char(i);
        let v: u32 = c as u32;
        if v < 48 || v > 57 {
            proof {
                vstd::seq::lemma_seq_subrange_index_alt(s@, start, n as int, i as int);
                assert(body[i - start] == s@[i as int]);
                assert(!is_digit_char(body[i - start]));
            }
            return None;
        }
        let d: u64 = (v - 48) as u64;
        let ghost prev = s@.subrange(start, i as int);
        let ghost cur = s@.subrange(start, i as int + 1);
        proof {
            assert(cur.drop_last() =~= prev);
            assert(cur.last() == s@[i as int]);
        }
        let m = match acc.checked_mul(10) {
            Some(m) => m,
            None => {
                proof {
                    assert(spec_decimal_value(cur) > u64::MAX);
                    assert(cur =~= body.subrange(0, i as int + 1 - start));
                    lemma_decimal_value_prefix(body, i as int + 1 - start);
                }
                return None;
            },
        };
        let t = match m.checked_add(d) {
            Some(t) => t,
            None => {
                proof {
                    assert(spec_decimal_value(cur) > u64::MAX);
                    assert(cur =~= body.subrange(0, i as int + 1 - start));
                    lemma_decimal_value_prefix(body, i as int + 1 - start);
                }
                return None;
            },
        };
        acc = t;
        i = i + 1;
    }
    proof {
        assert(s@.subrange(start, n as int) == body);
        assert forall|k: int| 0 <= k < body.len() implies is_digit_char(#[trigger] body[k]) by {
            assert(body[k] == s@[k + start]);
        };
    }
    Some(acc)
}

} // verus!
