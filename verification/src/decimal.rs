use vstd::prelude::*;
use vstd::string::*;

verus! {

/// Whether `c` is one of the ASCII digits `0` to `9`.
pub open spec fn is_digit(c: char) -> bool {
    48 <= (c as int) && (c as int) <= 57
}

/// The number that the ASCII digit `c` stands for.
pub open spec fn digit_value(c: char) -> nat {
    ((c as int) - 48) as nat
}

/// The ASCII digit that stands for `d`, for `d < 10`.
pub open spec fn digit_char(d: nat) -> char
    recommends
        d < 10,
{
    ((d + 48) as int) as char
}

/// Every character of `s` is an ASCII digit.
pub open spec fn all_digits(s: Seq<char>) -> bool {
    forall|i: int| 0 <= i < s.len() ==> #[trigger] is_digit(s[i])
}

/// The number that a string of digits stands for, read in base ten.
pub open spec fn digits_value(s: Seq<char>) -> nat
    decreases s.len(),
{
    if s.len() == 0 {
        0
    } else {
        digits_value(s.drop_last()) * 10 + digit_value(s.last())
    }
}

/// The shortest base-ten digit string of `n`.
pub open spec fn decimal_digits(n: nat) -> Seq<char>
    decreases n,
{
    if n < 10 {
        seq![digit_char(n)]
    } else {
        decimal_digits(n / 10).push(digit_char(n % 10))
    }
}

/// The text of an integer as Rust's `Display` writes it: a `-` for a
/// negative number, then the digits of its magnitude.
pub open spec fn decimal_text(v: int) -> Seq<char> {
    if v < 0 {
        seq!['-'] + decimal_digits((-v) as nat)
    } else {
        decimal_digits(v as nat)
    }
}

/// The integer that `s` denotes as `i64::from_str` reads it, without the
/// range limit: an optional `+` or `-`, then one or more digits, nothing else.
pub open spec fn signed_decimal_value(s: Seq<char>) -> Option<int> {
    if s.len() == 0 {
        None
    } else {
        let body = if s[0] == '-' || s[0] == '+' { s.skip(1) } else { s };
        if body.len() == 0 || !all_digits(body) {
            None
        } else if s[0] == '-' {
            Some(-(digits_value(body) as int))
        } else {
            Some(digits_value(body) as int)
        }
    }
}

/// What `s.parse::<i64>()` gives: the value when `s` is a signed decimal
/// number within the range of `i64`, nothing otherwise.
pub open spec fn parse_i64_spec(s: Seq<char>) -> Option<i64> {
    match signed_decimal_value(s) {
        Some(v) => if i64::MIN <= v <= i64::MAX {
            Some(v as i64)
        } else {
            None
        },
        None => None,
    }
}

proof fn lemma_digits_value_prefix(s: Seq<char>, k: int)
    requires
        all_digits(s),
        0 <= k <= s.len(),
    ensures
        digits_value(s.take(k)) <= digits_value(s),
    decreases s.len(),
{
    if k < s.len() {
        assert(all_digits(s.drop_last())) by {
            assert forall|i: int| 0 <= i < s.drop_last().len() implies #[trigger] is_digit(
                s.drop_last()[i],
            ) by {
                assert(is_digit(s[i]));
            }
        }
        lemma_digits_value_prefix(s.drop_last(), k);
        assert(s.drop_last().take(k) =~= s.take(k));
    } else {
        assert(s.take(k) =~= s);
    }
}

proof fn lemma_decimal_digits(n: nat)
    ensures
        decimal_digits(n).len() > 0,
        all_digits(decimal_digits(n)),
        digits_value(decimal_digits(n)) == n,
    decreases n,
{
    if n < 10 {
        assert(digit_value(digit_char(n)) == n);
        let s = decimal_digits(n);
        assert(s.drop_last() =~= Seq::<char>::empty());
        assert(digits_value(Seq::<char>::empty()) == 0);
        assert(s.last() == digit_char(n));
        assert(digits_value(s) == digits_value(s.drop_last()) * 10 + digit_value(s.last()));
    } else {
        lemma_decimal_digits(n / 10);
        let s = decimal_digits(n);
        assert(s.drop_last() =~= decimal_digits(n / 10));
        assert(digit_value(digit_char(n % 10)) == n % 10);
        assert(s.last() == digit_char(n % 10));
        assert((n / 10) * 10 + n % 10 == n);
        assert(digits_value(s) == digits_value(s.drop_last()) * 10 + digit_value(s.last()));
        assert forall|i: int| 0 <= i < s.len() implies #[trigger] is_digit(s[i]) by {
            if i < s.len() - 1 {
                assert(s[i] == decimal_digits(n / 10)[i]);
            }
        }
    }
}

/// Reading back the text that `Display` writes for an `i64` gives the same
/// number: `decimal_text` and `parse_i64_spec` are inverse on the whole
/// range of `i64`.
pub proof fn lemma_parse_decimal_text(v: int)
    requires
        i64::MIN <= v <= i64::MAX,
    ensures
        parse_i64_spec(decimal_text(v)) == Some(v as i64),
{
    let m: nat = if v < 0 { (-v) as nat } else { v as nat };
    lemma_decimal_digits(m);
    let d = decimal_digits(m);
    let s = decimal_text(v);
    assert(is_digit(d[0]));
    if v < 0 {
        assert(s[0] == '-');
        assert(s.skip(1) =~= d);
    } else {
        assert(s =~= d);
        assert(s[0] != '-' && s[0] != '+');
    }
}

/// The text of a number is its canonical decimal form: a `-` exactly for a
/// negative number, then one or more digits, the first of which is `0`
/// only for zero.
pub proof fn lemma_decimal_text_shape(v: int)
    ensures
        ({
            let t = decimal_text(v);
            let digits = if v < 0 { t.skip(1) } else { t };
            &&& t.len() > 0
            &&& (t[0] == '-') <==> v < 0
            &&& digits.len() > 0
            &&& all_digits(digits)
            &&& (digits[0] == '0') <==> v == 0
        }),
{
    let m: nat = if v < 0 { (-v) as nat } else { v as nat };
    lemma_decimal_digits(m);
    lemma_leading_digit(m);
    let t = decimal_text(v);
    let d = decimal_digits(m);
    assert(is_digit(d[0]));
    if v < 0 {
        assert(t.skip(1) =~= d);
        assert(t[0] == '-');
        assert(m != 0);
    } else {
        assert(t == d);
        assert(t[0] != '-');
    }
}

proof fn lemma_leading_digit(n: nat)
    ensures
        (decimal_digits(n)[0] == '0') <==> n == 0,
    decreases n,
{
    if n >= 10 {
        lemma_leading_digit(n / 10);
        lemma_decimal_digits(n / 10);
        assert(decimal_digits(n)[0] == decimal_digits(n / 10)[0]);
    } else {
        assert(digit_value(digit_char(n)) == n);
    }
}

/// Text that the parser accepts is an optional sign followed by digits and
/// nothing else; a text of digits alone is read as the number they denote,
/// and a `-` before them negates it.
pub proof fn lemma_parse_accepts_signed_digits(s: Seq<char>)
    ensures
        parse_i64_spec(s) is Some ==> {
            &&& s.len() > 0
            &&& (is_digit(s[0]) || s[0] == '-' || s[0] == '+')
            &&& forall|i: int| 1 <= i < s.len() ==> #[trigger] is_digit(s[i])
        },
        s.len() > 0 && all_digits(s) && digits_value(s) <= i64::MAX ==> parse_i64_spec(s) == Some(
            digits_value(s) as i64,
        ),
        s.len() > 0 && all_digits(s) && digits_value(s) <= i64::MAX ==> parse_i64_spec(seq!['-'] + s)
            == Some((-(digits_value(s) as int)) as i64),
{
    if parse_i64_spec(s) is Some {
        let body = if s[0] == '-' || s[0] == '+' { s.skip(1) } else { s };
        assert forall|i: int| 1 <= i < s.len() implies #[trigger] is_digit(s[i]) by {
            if s[0] == '-' || s[0] == '+' {
                assert(s[i] == body[i - 1]);
                assert(is_digit(body[i - 1]));
            } else {
                assert(is_digit(body[i]));
            }
        }
        if !(s[0] == '-' || s[0] == '+') {
            assert(is_digit(body[0]));
        }
    }
    if s.len() > 0 && all_digits(s) {
        assert(is_digit(s[0]));
        assert((seq!['-'] + s).skip(1) =~= s);
    }
}

/// The one-character text of the digit `d`.
fn digit_text(d: u64) -> (res: &'static str)
    requires
        d < 10,
    ensures
        res@ == seq![digit_char(d as nat)],
{
    proof {
        reveal_strlit("0");
        reveal_strlit("1");
        reveal_strlit("2");
        reveal_strlit("3");
        reveal_strlit("4");
        reveal_strlit("5");
        reveal_strlit("6");
        reveal_strlit("7");
        reveal_strlit("8");
        reveal_strlit("9");
    }
    match d {
        0 => "0",
        1 => "1",
        2 => "2",
        3 => "3",
        4 => "4",
        5 => "5",
        6 => "6",
        7 => "7",
        8 => "8",
        _ => "9",
    }
}

fn push_digits(out: &mut String, n: u64)
    ensures
        final(out)@ == old(out)@ + decimal_digits(n as nat),
    decreases n,
{
    if n >= 10 {
        push_digits(out, n / 10);
    }
    out.append(digit_text(n % 10));
    proof {
        if n < 10 {
            assert(n % 10 == n);
        }
    }
}

/// The decimal text of `v`, as `v.to_string()` writes it.
pub fn format_i32(v: i32) -> (res: String)
    ensures
        res@ == decimal_text(v as int),
{
    let mut out = String::new();
    if v < 0 {
        out.append("-");
        proof {
            reveal_strlit("-");
        }
        let magnitude: u64 = (0i64 - (v as i64)) as u64;
        push_digits(&mut out, magnitude);
    } else {
        push_digits(&mut out, v as u64);
    }
    out
}

/// Reads `s` as `s.parse::<i64>()` does: `Some` of the value exactly when
/// `s` is an optional sign followed by one or more digits and the value fits
/// in an `i64`.
pub fn parse_i64(s: &str) -> (res: Option<i64>)
    ensures
        res == parse_i64_spec(s@),
{
    let n = s.unicode_len();
    if n == 0 {
        return None;
    }
    let first = s.get_char(0);
    let negative = first == '-';
    let start: usize = if first == '-' || first == '+' { 1 } else { 0 };
    let ghost body = if first == '-' || first == '+' { s@.skip(1) } else { s@ };
    assert(body =~= s@.subrange(start as int, n as int));
    if start == n {
        return None;
    }
    let mut acc: u128 = 0;
    let mut i: usize = start;
    while i < n
        invariant
            n == s@.len(),
            n > 0,
            first == s@[0],
            body == (if first == '-' || first == '+' { s@.skip(1) } else { s@ }),
            start <= i <= n,
            body =~= s@.subrange(start as int, n as int),
            all_digits(s@.subrange(start as int, i as int)),
            acc == digits_value(s@.subrange(start as int, i as int)),
            acc <= 9223372036854775808,
        decreases n - i,
    {
        let c = s.get_char(i);
        let ghost prefix = s@.subrange(start as int, i as int);
        let ghost next = s@.subrange(start as int, i + 1);
        assert(next.drop_last() =~= prefix);
        if !(c >= '0' && c <= '9') {
            assert(!all_digits(body)) by {
                assert(body[i - start] == c);
                assert(!is_digit(body[i - start]));
            }
            return None;
        }
        let d: u32 = (c as u32) - 48;
        acc = acc * 10 + (d as u128);
        assert(all_digits(next)) by {
            assert forall|k: int| 0 <= k < next.len() implies #[trigger] is_digit(next[k]) by {
                if k < prefix.len() {
                    assert(next[k] == prefix[k]);
                }
            }
        }
        if acc > 9223372036854775808 {
            proof {
                if all_digits(body) {
                    lemma_digits_value_prefix(body, i + 1 - start);
                    assert(body.take(i + 1 - start) =~= next);
                }
            }
            return None;
        }
        i = i + 1;
    }
    assert(s@.subrange(start as int, n as int) =~= body);
    if negative {
        if acc == 9223372036854775808 {
            Some(i64::MIN)
        } else {
            Some(0i64 - (acc as i64))
        }
    } else if acc <= 9223372036854775807 {
        Some(acc as i64)
    } else {
        None
    }
}

} // verus!
