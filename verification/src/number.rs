use vstd::prelude::*;

verus! {

/// The character of a decimal digit (`'0'` past nine).
pub open spec fn digit_char(d: int) -> char {
    if d == 1 {
        '1'
    } else if d == 2 {
        '2'
    } else if d == 3 {
        '3'
    } else if d == 4 {
        '4'
    } else if d == 5 {
        '5'
    } else if d == 6 {
        '6'
    } else if d == 7 {
        '7'
    } else if d == 8 {
        '8'
    } else if d == 9 {
        '9'
    } else {
        '0'
    }
}

/// The decimal numeral of a natural number, without leading zeros.
pub open spec fn nat_decimal(n: nat) -> Seq<char>
    decreases n,
{
    if n < 10 {
        seq![digit_char(n as int)]
    } else {
        nat_decimal(n / 10).push(digit_char((n % 10) as int))
    }
}

/// The decimal numeral of an integer: a minus sign before negative ones.
pub open spec fn int_decimal(i: int) -> Seq<char> {
    if i < 0 {
        seq!['-'] + nat_decimal((-i) as nat)
    } else {
        nat_decimal(i as nat)
    }
}

/// Whether a character is an ASCII decimal digit.
pub open spec fn is_digit(c: char) -> bool {
    '0' <= c && c <= '9'
}

/// The value of an ASCII decimal digit.
pub open spec fn digit_value(c: char) -> int {
    (c as int) - ('0' as int)
}

/// Whether every character of a text is an ASCII decimal digit.
pub open spec fn all_digits(s: Seq<char>) -> bool {
    forall|i: int| 0 <= i < s.len() ==> #[trigger] is_digit(s[i])
}

/// The value of a string of decimal digits, most significant first.
pub open spec fn digits_value(s: Seq<char>) -> int
    decreases s.len(),
{
    if s.len() == 0 {
        0
    } else {
        digits_value(s.drop_last()) * 10 + digit_value(s.last())
    }
}

/// What parsing a text as an `i64` gives: an optional `+` or `-`, then
/// one or more ASCII digits, whose value must lie in the range of `i64`.
/// Nothing else is accepted: no spaces, no other signs, no empty digits.
pub open spec fn spec_parse_i64(s: Seq<char>) -> Option<i64> {
    let signed = s.len() > 0 && (s[0] == '+' || s[0] == '-');
    let negative = s.len() > 0 && s[0] == '-';
    let body = if signed {
        s.drop_first()
    } else {
        s
    };
    if body.len() == 0 || !all_digits(body) {
        None
    } else {
        let v = if negative {
            -digits_value(body)
        } else {
            digits_value(body)
        };
        if i64::MIN <= v <= i64::MAX {
            Some(v as i64)
        } else {
            None
        }
    }
}

/// The text of one decimal digit.
fn digit_text(d: u64) -> (res: &'static str)
    requires
        d < 10,
    ensures
        res@ == seq![digit_char(d as int)],
{
    if d == 0 {
        proof {
            reveal_strlit("0");
        }
        "0"
    } else if d == 1 {
        proof {
            reveal_strlit("1");
        }
        "1"
    } else if d == 2 {
        proof {
            reveal_strlit("2");
        }
        "2"
    } else if d == 3 {
        proof {
            reveal_strlit("3");
        }
        "3"
    } else if d == 4 {
        proof {
            reveal_strlit("4");
        }
        "4"
    } else if d == 5 {
        proof {
            reveal_strlit("5");
        }
        "5"
    } else if d == 6 {
        proof {
            reveal_strlit("6");
        }
        "6"
    } else if d == 7 {
        proof {
            reveal_strlit("7");
        }
        "7"
    } else if d == 8 {
        proof {
            reveal_strlit("8");
        }
        "8"
    } else {
        proof {
            reveal_strlit("9");
        }
        "9"
    }
}

/// The decimal numeral of an unsigned number.
pub fn decimal_u64(n: u64) -> (res: String)
    ensures
        res@ == nat_decimal(n as nat),
    decreases n,
{
    if n < 10 {
        String::from_str(digit_text(n))
    } else {
        let mut s = decimal_u64(n / 10);
        s.append(digit_text(n % 10));
        s
    }
}

/// The decimal numeral of a count.
pub fn decimal_usize(n: usize) -> (res: String)
    ensures
        res@ == nat_decimal(n as nat),
{
    decimal_u64(n as u64)
}

/// The decimal numeral of a signed number, as Rust displays it.
pub fn decimal_i64(i: i64) -> (res: String)
    ensures
        res@ == int_decimal(i as int),
{
    if i < 0 {
        let magnitude: u64 = if i == i64::MIN {
            9223372036854775808u64
        } else {
            (-i) as u64
        };
        let digits = decimal_u64(magnitude);
        let mut s = String::from_str("-");
        proof {
            reveal_strlit("-");
        }
        s.append(digits.as_str());
        s
    } else {
        decimal_u64(i as u64)
    }
}

/// A string of digits is worth at least as much as each of its prefixes,
/// and never less than zero.
proof fn lemma_prefix_value(s: Seq<char>, k: int)
    requires
        all_digits(s),
        0 <= k <= s.len(),
    ensures
        0 <= digits_value(s.subrange(0, k)) <= digits_value(s),
    decreases s.len(),
{
    if s.len() > 0 {
        let t = s.drop_last();
        assert(all_digits(t)) by {
            assert forall|i: int| 0 <= i < t.len() implies #[trigger] is_digit(t[i]) by {
                assert(is_digit(s[i]));
            }
        }
        assert(is_digit(s[s.len() - 1]));
        lemma_prefix_value(t, t.len() as int);
        assert(t.subrange(0, t.len() as int) =~= t);
        if k == s.len() {
            assert(s.subrange(0, k) =~= s);
        } else {
            assert(s.subrange(0, k) =~= t.subrange(0, k));
            lemma_prefix_value(t, k);
        }
    } else {
        assert(s.subrange(0, k) =~= s);
    }
}

/// Reading one more digit multiplies the value read so far by ten and adds it.
proof fn lemma_value_step(s: Seq<char>, k: int)
    requires
        0 <= k < s.len(),
    ensures
        digits_value(s.subrange(0, k + 1)) == digits_value(s.subrange(0, k)) * 10 + digit_value(s[k]),
{
    assert(s.subrange(0, k + 1).drop_last() =~= s.subrange(0, k));
}

/// One more digit keeps a prefix all digits.
proof fn lemma_digits_extend(t: Seq<char>, j: int)
    requires
        0 <= j < t.len(),
        all_digits(t.subrange(0, j)),
        is_digit(t[j]),
    ensures
        all_digits(t.subrange(0, j + 1)),
{
    assert forall|k: int| 0 <= k < j + 1 implies #[trigger] is_digit(t.subrange(0, j + 1)[k]) by {
        if k < j {
            assert(t.subrange(0, j + 1)[k] == t.subrange(0, j)[k]);
        }
    }
}

/// A prefix worth more than a bound leaves the whole digit string above it.
proof fn lemma_over_limit(t: Seq<char>, j: int, limit: int)
    requires
        0 <= j < t.len(),
        digits_value(t.subrange(0, j + 1)) > limit,
    ensures
        all_digits(t) ==> digits_value(t) > limit,
{
    if all_digits(t) {
        lemma_prefix_value(t, j + 1);
    }
}

/// Parses a text as an `i64` as the standard library's `str::parse::<i64>` does.
pub fn parse_i64(s: &str) -> (res: Option<i64>)
    ensures
        res == spec_parse_i64(s@),
{
    let n = s.unicode_len();
    if n == 0 {
        return None;
    }
    let first = s.get_char(0);
    let negative = first == '-';
    let start: usize = if first == '-' || first == '+' {
        1
    } else {
        0
    };
    let ghost body = s@.subrange(start as int, n as int);
    assert(start == 1 ==> body =~= s@.drop_first());
    assert(start == 0 ==> body =~= s@);
    if start == n {
        return None;
    }
    let limit: u64 = if negative {
        9223372036854775808u64
    } else {
        9223372036854775807u64
    };
    let mut acc: u64 = 0;
    let mut i: usize = start;
    assert(body.subrange(0, 0) =~= Seq::<char>::empty());
    while i < n
        invariant
            n == s@.len(),
            start <= i <= n,
            body == s@.subrange(start as int, n as int),
            n > 0,
            start <= 1,
            negative == (s@[0] == '-'),
            (start == 1) == (s@[0] == '-' || s@[0] == '+'),
            start == 1 ==> body == s@.drop_first(),
            start == 0 ==> body == s@,
            limit == (if negative { 9223372036854775808u64 } else { 9223372036854775807u64 }),
            acc as int == digits_value(body.subrange(0, i - start)),
            acc <= limit,
            all_digits(body.subrange(0, i - start)),
        decreases n - i,
    {
        let c = s.get_char(i);
        let ghost j: int = i - start;
        assert(body[j] == c);
        if !('0' <= c && c <= '9') {
            assert(!is_digit(body[j]));
            return None;
        }
        let d: u64 = ((c as u32) - ('0' as u32)) as u64;
        proof {
            lemma_value_step(body, j);
            lemma_digits_extend(body, j);
        }
        let next: u128 = (acc as u128) * 10 + (d as u128);
        if next > limit as u128 {
            proof {
                lemma_over_limit(body, j, limit as int);
            }
            return None;
        }
        acc = next as u64;
        i = i + 1;
    }
    assert(body.subrange(0, n - start) =~= body);
    if negative {
        if acc == 9223372036854775808u64 {
            Some(i64::MIN)
        } else {
            Some(-(acc as i64))
        }
    } else {
        Some(acc as i64)
    }
}

/// A digit's character is a digit worth it.
proof fn lemma_digit_char(d: int)
    requires
        0 <= d < 10,
    ensures
        is_digit(digit_char(d)),
        digit_value(digit_char(d)) == d,
{
}

/// A decimal numeral is a non-empty string of digits worth its number.
proof fn lemma_decimal_digits(n: nat)
    ensures
        nat_decimal(n).len() >= 1,
        all_digits(nat_decimal(n)),
        digits_value(nat_decimal(n)) == n,
    decreases n,
{
    if n < 10 {
        let s = nat_decimal(n);
        lemma_digit_char(n as int);
        assert(s.drop_last() =~= Seq::<char>::empty());
        assert(digits_value(s.drop_last()) == 0);
        assert(s.last() == digit_char(n as int));
        assert(is_digit(s[0]));
    } else {
        lemma_decimal_digits(n / 10);
        let s = nat_decimal(n);
        let t = nat_decimal(n / 10);
        lemma_digit_char((n % 10) as int);
        assert(s.drop_last() =~= t);
        assert(n == (n / 10) * 10 + n % 10);
        assert(s.last() == digit_char((n % 10) as int));
        assert(digits_value(s) == digits_value(t) * 10 + digit_value(s.last()));
        assert forall|k: int| 0 <= k < s.len() implies #[trigger] is_digit(s[k]) by {
            if k < t.len() {
                assert(s[k] == t[k]);
            }
        }
    }
}

/// The decimal numeral of every `i64` parses back to it: `parse_i64`
/// undoes `decimal_i64`.
pub proof fn law_decimal_parses_back(i: i64)
    ensures
        spec_parse_i64(int_decimal(i as int)) == Some(i),
{
    if i < 0 {
        let m = (-i) as nat;
        lemma_decimal_digits(m);
        let s = int_decimal(i as int);
        assert(s.drop_first() =~= nat_decimal(m));
        assert(s[0] == '-');
    } else {
        lemma_decimal_digits(i as nat);
        let s = int_decimal(i as int);
        assert(is_digit(s[0]));
    }
}

/// `parse_i64` accepts only numerals: an optional `+` or `-` and then at
/// least one ASCII digit, and nothing else; a `-` gives a value of at most
/// zero, and a `+` or a leading digit a value of at least zero.
pub proof fn law_parse_accepts_numerals(s: Seq<char>)
    ensures
        spec_parse_i64(s) matches Some(v) ==> {
            &&& s.len() >= 1
            &&& ('0' <= s[0] <= '9' || s[0] == '+' || s[0] == '-')
            &&& (s[0] == '+' || s[0] == '-' ==> s.len() >= 2)
            &&& forall|i: int| 1 <= i < s.len() ==> '0' <= #[trigger] s[i] <= '9'
            &&& (s[0] == '-' ==> v <= 0)
            &&& (s[0] != '-' ==> v >= 0)
        },
{
    if let Some(v) = spec_parse_i64(s) {
        let signed = s[0] == '+' || s[0] == '-';
        let body = if signed { s.drop_first() } else { s };
        lemma_prefix_value(body, 0);
        assert(body.subrange(0, 0) =~= Seq::<char>::empty());
        assert forall|i: int| 1 <= i < s.len() implies '0' <= #[trigger] s[i] <= '9' by {
            if signed {
                assert(is_digit(body[i - 1]));
            } else {
                assert(is_digit(body[i]));
            }
        }
        if !signed {
            assert(is_digit(body[0]));
        }
    }
}

/// Appending a digit to a numeral multiplies its value by ten and adds the
/// digit, away from zero: the sign applies to the whole numeral.
pub proof fn law_parse_digit_step(s: Seq<char>, d: char)
    requires
        '0' <= d <= '9',
    ensures
        spec_parse_i64(s) matches Some(v) ==> (spec_parse_i64(s.push(d)) matches Some(w) ==> w
            as int == 10 * (v as int) + (if s[0] == '-' {
            -((d as int) - ('0' as int))
        } else {
            (d as int) - ('0' as int)
        })),
{
    if let Some(v) = spec_parse_i64(s) {
        let t = s.push(d);
        let signed = s[0] == '+' || s[0] == '-';
        let body = if signed { s.drop_first() } else { s };
        let tbody = if signed { t.drop_first() } else { t };
        assert(t[0] == s[0]);
        assert(tbody =~= body.push(d));
        assert(tbody.drop_last() =~= body);
    }
}

/// A leading zero before the digits changes nothing.
pub proof fn law_parse_leading_zero(s: Seq<char>)
    requires
        s.len() >= 1,
        '0' <= s[0] <= '9',
    ensures
        spec_parse_i64(seq!['0'] + s) == spec_parse_i64(s),
{
    let t = seq!['0'] + s;
    lemma_leading_zero_value(s);
    assert(all_digits(t) <==> all_digits(s)) by {
        if all_digits(s) {
            assert forall|i: int| 0 <= i < t.len() implies #[trigger] is_digit(t[i]) by {
                if i > 0 {
                    assert(t[i] == s[i - 1]);
                    assert(is_digit(s[i - 1]));
                }
            }
        }
        if all_digits(t) {
            assert forall|i: int| 0 <= i < s.len() implies #[trigger] is_digit(s[i]) by {
                assert(t[i + 1] == s[i]);
                assert(is_digit(t[i + 1]));
            }
        }
    }
}

/// A leading zero adds nothing to the value of a digit string.
proof fn lemma_leading_zero_value(s: Seq<char>)
    ensures
        digits_value(seq!['0'] + s) == digits_value(s),
    decreases s.len(),
{
    let t = seq!['0'] + s;
    if s.len() == 0 {
        assert(t.drop_last() =~= Seq::<char>::empty());
        assert(digits_value(t.drop_last()) == 0);
        assert(digits_value(t) == digit_value('0'));
        assert(s =~= Seq::<char>::empty());
    } else {
        lemma_leading_zero_value(s.drop_last());
        assert(t.drop_last() =~= seq!['0'] + s.drop_last());
        assert(t.last() == s.last());
        assert(digits_value(t) == digits_value(t.drop_last()) * 10 + digit_value(t.last()));
    }
}

} // verus!
