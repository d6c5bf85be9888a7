use vstd::prelude::*;
use vstd::string::{StrSliceExecFns, StringExecFns};

verus! {

/// The character of a decimal digit.
pub open spec fn digit_char(d: nat) -> char {
    if d == 0 { '0' }
    else if d == 1 { '1' }
    else if d == 2 { '2' }
    else if d == 3 { '3' }
    else if d == 4 { '4' }
    else if d == 5 { '5' }
    else if d == 6 { '6' }
    else if d == 7 { '7' }
    else if d == 8 { '8' }
    else { '9' }
}

/// The decimal rendering of `n`, without leading zeros.
pub open spec fn spec_decimal(n: nat) -> Seq<char>
    decreases n,
{
    if n < 10 {
        seq![digit_char(n)]
    } else {
        spec_decimal(n / 10).push(digit_char(n % 10))
    }
}

fn digit_str(d: u64) -> (r: &'static str)
    requires
        d < 10,
    ensures
        r@ == seq![digit_char(d as nat)],
{
    if d == 0 {
        proof { reveal_strlit("0"); }
        "0"
    } else if d == 1 {
        proof { reveal_strlit("1"); }
        "1"
    } else if d == 2 {
        proof { reveal_strlit("2"); }
        "2"
    } else if d == 3 {
        proof { reveal_strlit("3"); }
        "3"
    } else if d == 4 {
        proof { reveal_strlit("4"); }
        "4"
    } else if d == 5 {
        proof { reveal_strlit("5"); }
        "5"
    } else if d == 6 {
        proof { reveal_strlit("6"); }
        "6"
    } else if d == 7 {
        proof { reveal_strlit("7"); }
        "7"
    } else if d == 8 {
        proof { reveal_strlit("8"); }
        "8"
    } else {
        proof { reveal_strlit("9"); }
        "9"
    }
}

/// The value of a decimal digit character.
pub open spec fn digit_value(c: char) -> int {
    (c as int) - ('0' as int)
}

pub open spec fn is_digit(c: char) -> bool {
    '0' <= c && c <= '9'
}

/// The value of a string of decimal digits.
pub open spec fn digits_value(s: Seq<char>) -> int
    decreases s.len(),
{
    if s.len() == 0 {
        0
    } else {
        digits_value(s.drop_last()) * 10 + digit_value(s.last())
    }
}

/// The decimal rendering consists of digits and reads back as the number.
pub proof fn lemma_decimal_value(n: nat)
    ensures
        digits_value(spec_decimal(n)) == n,
        spec_decimal(n).len() > 0,
        forall|i: int| 0 <= i < spec_decimal(n).len() ==> is_digit(#[trigger] spec_decimal(n)[i]),
    decreases n,
{
    lemma_digit_char(n % 10);
    if n >= 10 {
        lemma_decimal_value(n / 10);
        assert(spec_decimal(n).drop_last() =~= spec_decimal(n / 10));
        assert(spec_decimal(n).last() == digit_char(n % 10));
        assert(digits_value(spec_decimal(n)) == digits_value(spec_decimal(n / 10)) * 10 + digit_value(
            digit_char(n % 10),
        ));
        assert(n == (n / 10) * 10 + n % 10);
        assert forall|i: int| 0 <= i < spec_decimal(n).len() implies is_digit(#[trigger] spec_decimal(n)[i]) by {
            if i < spec_decimal(n).len() - 1 {
                assert(spec_decimal(n)[i] == spec_decimal(n / 10)[i]);
            }
        }
    } else {
        assert(spec_decimal(n).drop_last() =~= Seq::<char>::empty());
        assert(digits_value(Seq::<char>::empty()) == 0);
        assert(n % 10 == n);
    }
}

/// Distinct numbers have distinct renderings.
pub proof fn lemma_decimal_injective(m: nat, n: nat)
    ensures
        spec_decimal(m) == spec_decimal(n) ==> m == n,
{
    lemma_decimal_value(m);
    lemma_decimal_value(n);
}

proof fn lemma_prefix_value_nonneg(s: Seq<char>, i: int)
    requires
        0 <= i <= s.len(),
        forall|k: int| 0 <= k < s.len() ==> is_digit(#[trigger] s[k]),
    ensures
        digits_value(s.take(i)) >= 0,
    decreases i,
{
    if i > 0 {
        lemma_prefix_value_nonneg(s, i - 1);
        assert(s.take(i).drop_last() =~= s.take(i - 1));
        assert(is_digit(s[i - 1]));
    }
}

proof fn lemma_digit_char(d: nat)
    requires
        d < 10,
    ensures
        digit_value(digit_char(d)) == d,
        is_digit(digit_char(d)),
{
}

/// A longer prefix of a digit string has at least the value of a shorter one.
proof fn lemma_prefix_value_grows(s: Seq<char>, i: int, j: int)
    requires
        0 <= i <= j <= s.len(),
        forall|k: int| 0 <= k < s.len() ==> is_digit(#[trigger] s[k]),
    ensures
        digits_value(s.take(i)) <= digits_value(s.take(j)),
        digits_value(s.take(i)) >= 0,
    decreases j,
{
    if i < j {
        lemma_prefix_value_grows(s, i, j - 1);
        assert(s.take(j).drop_last() =~= s.take(j - 1));
        assert(is_digit(s[j - 1]));
    } else {
        lemma_prefix_value_nonneg(s, i);
    }
}

/// The number whose decimal rendering is `s`, if there is one within `u32`.
pub fn parse_u32(s: &String) -> (r: Option<u32>)
    ensures
        match r {
            Some(n) => s@ == spec_decimal(n as nat),
            None => forall|n: u32| s@ != spec_decimal(n as nat),
        },
{
    let chars = s.as_str();
    let len = chars.unicode_len();
    let mut value: u64 = 0;
    let mut i: usize = 0;
    while i < len
        invariant
            len == s@.len(),
            chars@ == s@,
            i <= len,
            value <= u32::MAX,
            value == digits_value(s@.take(i as int)),
            forall|k: int| 0 <= k < i ==> is_digit(#[trigger] s@[k]),
        decreases len - i,
    {
        let c = chars.get_char(i);
        if c < '0' || c > '9' {
            proof {
                assert forall|n: u32| s@ != spec_decimal(n as nat) by {
                    lemma_decimal_value(n as nat);
                    if s@ == spec_decimal(n as nat) {
                        assert(is_digit(s@[i as int]));
                    }
                }
            }
            return None;
        }
        let d = (c as u32 - '0' as u32) as u64;
        let next = value * 10 + d;
        assert(s@.take(i + 1).drop_last() =~= s@.take(i as int));
        if next > u32::MAX as u64 {
            proof {
                assert forall|n: u32| s@ != spec_decimal(n as nat) by {
                    lemma_decimal_value(n as nat);
                    if s@ == spec_decimal(n as nat) {
                        lemma_prefix_value_grows(s@, i + 1, s@.len() as int);
                        assert(s@.take(s@.len() as int) =~= s@);
                    }
                }
            }
            return None;
        }
        value = next;
        i = i + 1;
    }
    let v = value as u32;
    let text = decimal_string(v as u64);
    if text == *s {
        Some(v)
    } else {
        proof {
            assert(s@.take(s@.len() as int) =~= s@);
            assert forall|n: u32| s@ != spec_decimal(n as nat) by {
                lemma_decimal_value(n as nat);
                if s@ == spec_decimal(n as nat) {
                    assert(n == v);
                }
            }
        }
        None
    }
}

/// The number whose decimal rendering is `s`, if there is one within `u64`.
pub fn parse_u64(s: &String) -> (r: Option<u64>)
    ensures
        match r {
            Some(n) => s@ == spec_decimal(n as nat),
            None => forall|n: u64| s@ != spec_decimal(n as nat),
        },
{
    let chars = s.as_str();
    let len = chars.unicode_len();
    let mut value: u128 = 0;
    let mut i: usize = 0;
    while i < len
        invariant
            len == s@.len(),
            chars@ == s@,
            i <= len,
            value <= u64::MAX,
            value == digits_value(s@.take(i as int)),
            forall|k: int| 0 <= k < i ==> is_digit(#[trigger] s@[k]),
        decreases len - i,
    {
        let c = chars.get_char(i);
        if c < '0' || c > '9' {
            proof {
                assert forall|n: u64| s@ != spec_decimal(n as nat) by {
                    lemma_decimal_value(n as nat);
                    if s@ == spec_decimal(n as nat) {
                        assert(is_digit(s@[i as int]));
                    }
                }
            }
            return None;
        }
        let d = (c as u32 - '0' as u32) as u128;
        let next = value * 10 + d;
        assert(s@.take(i + 1).drop_last() =~= s@.take(i as int));
        if next > u64::MAX as u128 {
            proof {
                assert forall|n: u64| s@ != spec_decimal(n as nat) by {
                    lemma_decimal_value(n as nat);
                    if s@ == spec_decimal(n as nat) {
                        lemma_prefix_value_grows(s@, i + 1, s@.len() as int);
                        assert(s@.take(s@.len() as int) =~= s@);
                    }
                }
            }
            return None;
        }
        value = next;
        i = i + 1;
    }
    let v = value as u64;
    let text = decimal_string(v);
    if text == *s {
        Some(v)
    } else {
        proof {
            assert(s@.take(s@.len() as int) =~= s@);
            assert forall|n: u64| s@ != spec_decimal(n as nat) by {
                lemma_decimal_value(n as nat);
                if s@ == spec_decimal(n as nat) {
                    assert(n == v);
                }
            }
        }
        None
    }
}

/// Renders `n` in decimal.
pub fn decimal_string(n: u64) -> (r: String)
    ensures
        r@ == spec_decimal(n as nat),
    decreases n,
{
    if n < 10 {
        let s = String::from_str(digit_str(n));
        assert(s@ =~= spec_decimal(n as nat));
        s
    } else {
        let mut s = decimal_string(n / 10);
        s.append(digit_str(n % 10));
        assert(s@ =~= spec_decimal(n as nat));
        s
    }
}

/// A copy of a list of strings.
pub fn clone_strings(v: &Vec<String>) -> (r: Vec<String>)
    ensures
        r@ == v@,
{
    let mut r: Vec<String> = Vec::new();
    let mut i: usize = 0;
    while i < v.len()
        invariant
            i <= v@.len(),
            r@ == v@.take(i as int),
        decreases v@.len() - i,
    {
        r.push(v[i].clone());
        assert(r@ =~= v@.take(i + 1));
        i = i + 1;
    }
    assert(v@.take(v@.len() as int) =~= v@);
    r
}

} // verus!
