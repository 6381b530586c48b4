//! Decimal text for unsigned integers: reading a `u32` the way `str::parse`
//! does, and writing one the way `Display` does.
use vstd::prelude::*;

verus! {

pub open spec fn is_digit(c: char) -> bool {
    '0' <= c <= '9'
}

pub open spec fn digit_value(c: char) -> nat {
    (c as nat - '0' as nat) as nat
}

pub open spec fn digit_char(d: nat) -> char {
    (d + '0' as nat) as char
}

/// Every character is an ASCII digit and there is at least one.
pub open spec fn is_decimal(s: Seq<char>) -> bool {
    s.len() > 0 && forall|i: int| 0 <= i < s.len() ==> is_digit(#[trigger] s[i])
}

/// The number that a string of digits denotes.
pub open spec fn decimal_value(s: Seq<char>) -> nat
    decreases s.len(),
{
    if s.len() == 0 {
        0
    } else {
        decimal_value(s.drop_last()) * 10 + digit_value(s.last())
    }
}

/// The digits of a number, most significant first, without leading zeros.
pub open spec fn decimal_digits(n: nat) -> Seq<char>
    decreases n,
{
    if n < 10 {
        seq![digit_char(n)]
    } else {
        decimal_digits(n / 10).push(digit_char(n % 10))
    }
}

/// What `str::parse::<u32>` gives: an optional leading `+`, then one or more
/// ASCII digits whose value fits in a `u32`; anything else is an error.
pub open spec fn parsed_u32(s: Seq<char>) -> Option<u32> {
    let d = if s.len() > 0 && s[0] == '+' {
        s.drop_first()
    } else {
        s
    };
    if is_decimal(d) && decimal_value(d) <= u32::MAX {
        Some(decimal_value(d) as u32)
    } else {
        None
    }
}

/// Appending digits never makes the value smaller.
proof fn lemma_value_grows(s: Seq<char>, i: int, j: int)
    requires
        0 <= i <= j <= s.len(),
    ensures
        decimal_value(s.take(i)) <= decimal_value(s.take(j)),
    decreases j - i,
{
    if i < j {
        lemma_value_grows(s, i, j - 1);
        assert(s.take(j).drop_last() == s.take(j - 1));
    }
}

/// Reads a `u32` as `str::parse::<u32>` does; `None` on any error.
pub fn parse_u32(s: &str) -> (r: Option<u32>)
    ensures
        r == parsed_u32(s@),
{
    let n = s.unicode_len();
    let mut start: usize = 0;
    if n > 0 && s.get_char(0) == '+' {
        start = 1;
    }
    let ghost d = if s@.len() > 0 && s@[0] == '+' {
        s@.drop_first()
    } else {
        s@
    };
    assert(d == s@.subrange(start as int, n as int));
    if start == n {
        return None;
    }
    let mut acc: u64 = 0;
    let mut i: usize = start;
    while i < n
        invariant
            start <= i <= n,
            n == s@.len(),
            start < n,
            d == s@.subrange(start as int, n as int),
            d == (if s@.len() > 0 && s@[0] == '+' {
                s@.drop_first()
            } else {
                s@
            }),
            forall|k: int| 0 <= k < i - start ==> is_digit(#[trigger] d[k]),
            acc == decimal_value(d.take(i - start)),
            acc <= u32::MAX,
        decreases n - i,
    {
        let c = s.get_char(i);
        let ghost k = i - start;
        assert(d[k] == c);
        if c < '0' || c > '9' {
            assert(!is_decimal(d));
            return None;
        }
        assert(d.take(k + 1).drop_last() == d.take(k));
        assert(d.take(k + 1).last() == c);
        assert(digit_value(c) == c as u64 - '0' as u64);
        acc = acc * 10 + (c as u64 - '0' as u64);
        assert(acc == decimal_value(d.take(k + 1)));
        i = i + 1;
        if acc > 0xffff_ffff {
            proof {
                lemma_value_grows(d, k + 1, d.len() as int);
                assert(d.take(d.len() as int) == d);
                assert(decimal_value(d) > u32::MAX);
            }
            return None;
        }
    }
    assert(d.take(d.len() as int) == d);
    Some(acc as u32)
}

proof fn lemma_digit_round_trip(d: nat)
    requires
        d < 10,
    ensures
        is_digit(digit_char(d)),
        digit_value(digit_char(d)) == d,
{
    assert((d + '0' as nat) as char as nat == d + '0' as nat);
}

/// The digits of a number are digits.
proof fn lemma_digits_decimal(n: nat)
    ensures
        is_decimal(decimal_digits(n)),
        decimal_value(decimal_digits(n)) == n,
    decreases n,
{
    if n < 10 {
        lemma_digit_round_trip(n);
        assert(decimal_digits(n).drop_last() =~= Seq::<char>::empty());
        assert(decimal_value(Seq::<char>::empty()) == 0);
    } else {
        lemma_digits_decimal(n / 10);
        let s = decimal_digits(n);
        assert(s.drop_last() == decimal_digits(n / 10));
        lemma_digit_round_trip(n % 10);
        assert(s.last() == digit_char(n % 10));
        assert(decimal_value(s) == decimal_value(decimal_digits(n / 10)) * 10 + digit_value(
            digit_char(n % 10),
        ));
        assert forall|i: int| 0 <= i < s.len() implies is_digit(#[trigger] s[i]) by {
            if i < s.len() - 1 {
                assert(s[i] == decimal_digits(n / 10)[i]);
            }
        }
    }
}

/// Reading back the decimal text of a number gives the number.
pub proof fn lemma_parse_digits(n: u32)
    ensures
        parsed_u32(decimal_digits(n as nat)) == Some(n),
{
    lemma_digits_decimal(n as nat);
    let s = decimal_digits(n as nat);
    assert(s[0] != '+');
}

/// A leading zero does not change the value of a string of digits.
proof fn lemma_leading_zero_value(s: Seq<char>)
    ensures
        decimal_value(seq!['0'] + s) == decimal_value(s),
    decreases s.len(),
{
    let z = seq!['0'] + s;
    if s.len() == 0 {
        assert(z.drop_last() =~= Seq::<char>::empty());
        assert(decimal_value(Seq::<char>::empty()) == 0);
        assert(z.last() == '0');
        assert(digit_value('0') == 0);
        assert(decimal_value(s) == 0);
    } else {
        lemma_leading_zero_value(s.drop_last());
        assert(z.drop_last() =~= seq!['0'] + s.drop_last());
        assert(z.last() == s.last());
    }
}

/// What reading a `u32` accepts: one leading `+` is the same as none, a
/// leading zero changes nothing, any other character than a digit (after
/// the sign) is refused, and what is read is the value of the digits, never
/// more than `u32::MAX`.
pub proof fn lemma_parse_rules(s: Seq<char>)
    ensures
        s.len() > 0 && s[0] != '+' ==> parsed_u32(seq!['+'] + s) == parsed_u32(s),
        s.len() > 0 && s[0] != '+' ==> parsed_u32(seq!['0'] + s) == parsed_u32(s),
        (exists|i: int| 0 <= i < s.len() && !is_digit(#[trigger] s[i]) && !(i == 0 && s[i] == '+'))
            ==> parsed_u32(s) is None,
        s.len() == 0 ==> parsed_u32(s) is None,
        parsed_u32(s) matches Some(n) ==> ({
            let d = if s[0] == '+' {
                s.drop_first()
            } else {
                s
            };
            is_decimal(d) && decimal_value(d) == n
        }),
{
    if s.len() > 0 && s[0] != '+' {
        assert((seq!['+'] + s).drop_first() =~= s);
        lemma_leading_zero_value(s);
        let z = seq!['0'] + s;
        assert(z[0] != '+');
        if is_decimal(s) {
            assert forall|i: int| 0 <= i < z.len() implies is_digit(#[trigger] z[i]) by {
                if i > 0 {
                    assert(z[i] == s[i - 1]);
                }
            }
        }
        if is_decimal(z) {
            assert forall|i: int| 0 <= i < s.len() implies is_digit(#[trigger] s[i]) by {
                assert(z[i + 1] == s[i]);
            }
        }
    }
    if exists|i: int| 0 <= i < s.len() && !is_digit(#[trigger] s[i]) && !(i == 0 && s[i] == '+') {
        let i = choose|i: int| 0 <= i < s.len() && !is_digit(#[trigger] s[i]) && !(i == 0 && s[i] == '+');
        if s[0] == '+' {
            assert(s.drop_first()[i - 1] == s[i]);
        }
    }
}

fn digit_str(d: u32) -> (r: &'static str)
    requires
        d < 10,
    ensures
        r@ == seq![digit_char(d as nat)],
{
    proof {
        reveal_strlit("0");
        reveal_strlit("1");
        reveal_strlit("2");
        reveal_strlit("3");
        reveal_strlit("4");
        reveal_strlit("5");
        reveal_strlit("6");
        reveal_strlit("7");
        reveal_strlit("8");
        reveal_strlit("9");
    }
    match d {
        0 => "0",
        1 => "1",
        2 => "2",
        3 => "3",
        4 => "4",
        5 => "5",
        6 => "6",
        7 => "7",
        8 => "8",
        _ => "9",
    }
}

/// Appends the decimal text of `n`.
pub fn push_decimal(out: &mut String, n: u32)
    ensures
        final(out)@ == old(out)@ + decimal_digits(n as nat),
    decreases n,
{
    if n >= 10 {
        push_decimal(out, n / 10);
    }
    out.append(digit_str(n % 10));
    proof {
        if n >= 10 {
            assert(old(out)@ + decimal_digits(n as nat) =~= old(out)@ + decimal_digits(
                (n / 10) as nat,
            ) + seq![digit_char((n % 10) as nat)]);
        }
    }
}

/// The decimal text of `n`, as `Display` writes it.
pub fn u32_to_string(n: u32) -> (r: String)
    ensures
        r@ == decimal_digits(n as nat),
{
    let mut s = String::new();
    push_decimal(&mut s, n);
    assert(s@ =~= decimal_digits(n as nat));
    s
}

} // verus!
