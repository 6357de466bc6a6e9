//! Text in the few forms that the overlay reads and writes: decimal numbers,
//! ASCII switches and path prefixes.
use vstd::prelude::*;
use vstd::string::StringExecFns;

verus! {

/// The decimal digit `d` as a character.
pub open spec fn digit_char(d: nat) -> char
    recommends
        d < 10,
{
    (48 + d) as char
}

/// Whether `c` is one of `0` to `9`.
pub open spec fn is_digit(c: char) -> bool {
    '0' <= c <= '9'
}

/// The number that the digit `c` stands for.
pub open spec fn digit_value(c: char) -> nat
    recommends
        is_digit(c),
{
    (c as nat - 48) as nat
}

/// `n` in decimal, most significant digit first, without leading zeros.
pub open spec fn decimal(n: nat) -> Seq<char>
    decreases n,
{
    if n < 10 {
        seq![digit_char(n)]
    } else {
        decimal(n / 10).push(digit_char(n % 10))
    }
}

/// Whether every character of `s` is a digit.
pub open spec fn all_digits(s: Seq<char>) -> bool {
    forall|i: int| 0 <= i < s.len() ==> is_digit(#[trigger] s[i])
}

/// The number that a run of digits stands for, most significant digit first.
pub open spec fn digits_value(s: Seq<char>) -> nat
    decreases s.len(),
{
    if s.len() == 0 {
        0
    } else {
        digits_value(s.drop_last()) * 10 + digit_value(s.last())
    }
}

/// The number that `s` spells, if it is an optional `+` followed by at least one digit and
/// nothing else.
pub open spec fn unsigned_value(s: Seq<char>) -> Option<nat> {
    let digits = if s.len() > 0 && s[0] == '+' {
        s.skip(1)
    } else {
        s
    };
    if digits.len() > 0 && all_digits(digits) {
        Some(digits_value(digits))
    } else {
        None
    }
}

/// The 64-bit unsigned number that `s` spells, if it spells one.
pub open spec fn u64_value(s: Seq<char>) -> Option<u64> {
    match unsigned_value(s) {
        Some(n) => if n <= u64::MAX {
            Some(n as u64)
        } else {
            None
        },
        None => None,
    }
}

/// `c` with the letters `A` to `Z` replaced by `a` to `z`.
pub open spec fn ascii_lower(c: char) -> char {
    if 'A' <= c <= 'Z' {
        (c as u32 + 32) as char
    } else {
        c
    }
}

/// `s` with the letters `A` to `Z` replaced by `a` to `z`.
pub open spec fn ascii_lowercase(s: Seq<char>) -> Seq<char> {
    s.map_values(|c: char| ascii_lower(c))
}

/// Whether `s` begins with `prefix`.
pub open spec fn has_prefix(s: Seq<char>, prefix: Seq<char>) -> bool {
    prefix.len() <= s.len() && s.take(prefix.len() as int) == prefix
}

/// A decimal numeral holds digits only, at least one of them, and reads back as the number it
/// was written from.
pub proof fn lemma_decimal_digits(n: nat)
    ensures
        all_digits(decimal(n)),
        decimal(n).len() > 0,
        digits_value(decimal(n)) == n,
    decreases n,
{
    reveal_with_fuel(digits_value, 2);
    if n >= 10 {
        lemma_decimal_digits(n / 10);
        assert(decimal(n).drop_last() =~= decimal(n / 10));
        assert(decimal(n).last() == digit_char(n % 10));
    } else {
        assert(decimal(n).drop_last() =~= Seq::<char>::empty());
    }
}

/// A decimal numeral begins with `0` only where it is `0` itself.
pub proof fn lemma_decimal_leading_zero(n: nat)
    ensures
        decimal(n)[0] == '0' ==> n == 0,
        decimal(n).len() == 1 <==> n < 10,
    decreases n,
{
    lemma_decimal_digits(n);
    if n >= 10 {
        lemma_decimal_leading_zero(n / 10);
        lemma_decimal_digits(n / 10);
    }
}

/// A run of digits without leading zeros is the decimal numeral of its value.
pub proof fn lemma_canonical_digits(s: Seq<char>)
    requires
        s.len() > 0,
        all_digits(s),
        s.len() > 1 ==> s[0] != '0',
    ensures
        s == decimal(digits_value(s)),
        s.len() > 1 ==> digits_value(s) >= 10,
    decreases s.len(),
{
    reveal_with_fuel(digits_value, 2);
    let init = s.drop_last();
    assert(s =~= init.push(s.last()));
    assert(is_digit(s.last()));
    if s.len() == 1 {
        assert(init =~= Seq::<char>::empty());
        assert(s =~= decimal(digits_value(s)));
    } else {
        assert(is_digit(init[0]));
        assert(all_digits(init)) by {
            assert forall|i: int| 0 <= i < init.len() implies is_digit(#[trigger] init[i]) by {
                assert(init[i] == s[i]);
            }
        }
        lemma_canonical_digits(init);
        if init.len() == 1 {
            assert(init.drop_last() =~= Seq::<char>::empty());
            assert(digits_value(init) == digit_value(init[0]));
            assert(init[0] == s[0]);
        }
        assert(digits_value(s) == digits_value(init) * 10 + digit_value(s.last()));
        assert(digits_value(s) / 10 == digits_value(init));
        assert(s =~= decimal(digits_value(s)));
    }
}

/// The value of a run of digits grows with the run.
pub proof fn lemma_digits_value_grows(s: Seq<char>, i: int)
    requires
        0 <= i <= s.len(),
    ensures
        digits_value(s.take(i)) <= digits_value(s),
    decreases s.len() - i,
{
    if i == s.len() {
        assert(s.take(i) =~= s);
    } else {
        lemma_digits_value_grows(s, i + 1);
        assert(s.take(i + 1).drop_last() =~= s.take(i));
    }
}

/// The characters of `s`, in order.
pub fn chars_of(s: &str) -> (chars: Vec<char>)
    ensures
        chars@ == s@,
{
    let mut chars: Vec<char> = Vec::new();
    for c in it: s.chars()
        invariant
            it.seq() == s@,
            chars@ == s@.take(it.index() as int),
    {
        chars.push(c);
    }
    assert(s@.take(s@.len() as int) =~= s@);
    chars
}

/// The digit `d` as a string.
fn digit_str(d: u64) -> (s: &'static str)
    requires
        d < 10,
    ensures
        s@ == seq![digit_char(d as nat)],
{
    proof {
        reveal_strlit("0");
        reveal_strlit("1");
        reveal_strlit("2");
        reveal_strlit("3");
        reveal_strlit("4");
        reveal_strlit("5");
        reveal_strlit("6");
        reveal_strlit("7");
        reveal_strlit("8");
        reveal_strlit("9");
    }
    match d {
        0 => "0",
        1 => "1",
        2 => "2",
        3 => "3",
        4 => "4",
        5 => "5",
        6 => "6",
        7 => "7",
        8 => "8",
        _ => "9",
    }
}

/// Writes `n` in decimal.
pub fn decimal_string(n: u64) -> (s: String)
    ensures
        s@ == decimal(n as nat),
    decreases n,
{
    if n < 10 {
        digit_str(n).to_owned()
    } else {
        let mut s = decimal_string(n / 10);
        s.append(digit_str(n % 10));
        s
    }
}

/// Reads a 64-bit unsigned number: an optional `+`, then decimal digits and nothing else.
///
/// There is no number where the text has another form or the value is too large.
pub fn parse_u64(text: &str) -> (n: Option<u64>)
    ensures
        n == u64_value(text@),
{
    let chars = chars_of(text);
    let start: usize = if chars.len() > 0 && chars[0] == '+' {
        1
    } else {
        0
    };
    let ghost digits = chars@.skip(start as int);
    assert(start == 0 ==> digits =~= chars@);
    if start == chars.len() {
        return None;
    }
    let mut value: u64 = 0;
    let mut i: usize = start;
    assert(digits.take(0) =~= Seq::<char>::empty());
    while i < chars.len()
        invariant
            start <= i <= chars.len(),
            chars@ == text@,
            digits == chars@.skip(start as int),
            digits.len() > 0,
            unsigned_value(text@) == (if all_digits(digits) {
                Some(digits_value(digits))
            } else {
                None::<nat>
            }),
            all_digits(digits.take(i - start)),
            value == digits_value(digits.take(i - start)),
        decreases chars.len() - i,
    {
        let c = chars[i];
        assert(digits[i - start] == c);
        let ghost next = digits.take(i + 1 - start);
        assert(next.drop_last() =~= digits.take(i - start));
        assert(next.last() == c);
        if c < '0' || '9' < c {
            assert(!is_digit(digits[i - start]));
            return None;
        }
        let d: u64 = c as u64 - 48;
        proof {
            lemma_digits_value_grows(digits, i + 1 - start);
        }
        assert(digits_value(next) == value * 10 + d);
        if value > (u64::MAX - d) / 10 {
            return None;
        }
        value = value * 10 + d;
        assert forall|j: int| 0 <= j < next.len() implies is_digit(#[trigger] next[j]) by {
            if j < i - start {
                assert(digits.take(i - start)[j] == next[j]);
            }
        }
        i = i + 1;
    }
    assert(digits.take(digits.len() as int) =~= digits);
    Some(value)
}

/// Whether two strings hold the same characters.
pub fn str_eq(a: &str, b: &str) -> (eq: bool)
    ensures
        eq == (a@ == b@),
{
    a.to_owned() == b.to_owned()
}

/// Whether `s` begins with `prefix`.
pub fn starts_with(s: &str, prefix: &str) -> (yes: bool)
    ensures
        yes == has_prefix(s@, prefix@),
{
    let chars = chars_of(s);
    let wanted = chars_of(prefix);
    if wanted.len() > chars.len() {
        return false;
    }
    let ghost head = s@.take(prefix@.len() as int);
    let mut i: usize = 0;
    while i < wanted.len()
        invariant
            chars@ == s@,
            wanted@ == prefix@,
            wanted.len() <= chars.len(),
            i <= wanted.len(),
            head == s@.take(prefix@.len() as int),
            forall|j: int| 0 <= j < i ==> chars@[j] == wanted@[j],
        decreases wanted.len() - i,
    {
        if chars[i] != wanted[i] {
            assert(head[i as int] == chars@[i as int]);
            return false;
        }
        i = i + 1;
    }
    assert(head =~= prefix@);
    true
}

/// Whether `s` becomes `lower` when the letters `A` to `Z` in it are replaced by `a` to `z`.
pub fn lowercase_eq(s: &str, lower: &str) -> (eq: bool)
    ensures
        eq == (ascii_lowercase(s@) == lower@),
{
    let chars = chars_of(s);
    let wanted = chars_of(lower);
    if chars.len() != wanted.len() {
        return false;
    }
    let mut i: usize = 0;
    while i < wanted.len()
        invariant
            chars@ == s@,
            wanted@ == lower@,
            wanted.len() == chars.len(),
            i <= wanted.len(),
            forall|j: int| 0 <= j < i ==> ascii_lower(chars@[j]) == wanted@[j],
        decreases wanted.len() - i,
    {
        let c = chars[i];
        let same: bool = if 'A' <= c && c <= 'Z' {
            (c as u8 + 32) as char == wanted[i]
        } else {
            c == wanted[i]
        };
        if !same {
            assert(ascii_lowercase(s@)[i as int] != lower@[i as int]);
            return false;
        }
        i = i + 1;
    }
    assert(ascii_lowercase(s@) =~= lower@);
    true
}

/// Appends a `/` to `value` unless it ends with one.
pub fn ensure_trailing_slash(value: String) -> (res: String)
    ensures
        res@ == with_trailing_slash(value@),
{
    proof {
        reveal_strlit("/");
    }
    let chars = chars_of(value.as_str());
    if chars.len() > 0 && chars[chars.len() - 1] == '/' {
        value
    } else {
        let mut res = value;
        res.append("/");
        assert(res@ =~= value@.push('/'));
        res
    }
}

/// `s`, followed by a `/` where it does not end with one.
pub open spec fn with_trailing_slash(s: Seq<char>) -> Seq<char> {
    if s.len() > 0 && s.last() == '/' {
        s
    } else {
        s.push('/')
    }
}

/// A text made to end with a slash ends with one and begins with the text, and to do it again
/// changes nothing.
pub proof fn law_trailing_slash_settles(s: Seq<char>)
    ensures
        with_trailing_slash(s).last() == '/',
        has_prefix(with_trailing_slash(s), s),
        with_trailing_slash(with_trailing_slash(s)) == with_trailing_slash(s),
{
    assert(with_trailing_slash(s).take(s.len() as int) =~= s);
}

/// A number written in decimal is read back as itself.
pub proof fn law_decimal_reads_back(n: u64)
    ensures
        u64_value(decimal(n as nat)) == Some(n),
{
    lemma_decimal_digits(n as nat);
    assert(is_digit(decimal(n as nat)[0]));
}

/// A numeral grows by one digit with each power of ten: that of a number below ten is its digit,
/// and that of a greater one is the numeral of its tenth, followed by the digit of what is left.
pub proof fn law_numeral_grows_digit_by_digit(n: nat, d: nat)
    requires
        d < 10,
    ensures
        decimal(d).len() == 1,
        decimal(d)[0] as int == '0' as int + d,
        n > 0 ==> decimal(10 * n + d).drop_last() == decimal(n),
        n > 0 ==> decimal(10 * n + d).last() as int == '0' as int + d,
{
    if n > 0 {
        assert((10 * n + d) / 10 == n);
        assert((10 * n + d) % 10 == d);
        assert(decimal(10 * n + d).drop_last() =~= decimal(n));
    }
}

/// The number that a text spells grows digit by digit: a single digit, or one behind a plus
/// sign, spells itself; a further digit makes the number ten times as great and adds to it; and
/// where the number gets too great, or another character comes, the text spells none, whatever
/// follows. No digit at all spells none.
pub proof fn law_number_is_read_digit_by_digit(s: Seq<char>, c: char)
    ensures
        u64_value(Seq::empty()) is None,
        u64_value(seq!['+']) is None,
        s.len() == 0 || s == seq!['+'] ==> u64_value(s.push(c)) == (if '0' <= c <= '9' {
            Some((c as int - '0' as int) as u64)
        } else {
            None::<u64>
        }),
        s.len() > 0 && s != seq!['+'] ==> u64_value(s.push(c)) == (match u64_value(s) {
            Some(n) => if '0' <= c <= '9' && 10 * n + (c as int - '0' as int)
                <= 0xffff_ffff_ffff_ffff {
                Some((10 * n + (c as int - '0' as int)) as u64)
            } else {
                None
            },
            None => None,
        }),
{
    reveal_with_fuel(digits_value, 2);
    let plus = seq!['+'];
    assert(plus.skip(1) =~= Seq::<char>::empty());
    let t = s.push(c);
    let bare = if s.len() > 0 && s[0] == '+' {
        s.skip(1)
    } else {
        s
    };
    if s.len() == 0 || s == plus {
        let digits = if s.len() == 0 && c != '+' {
            t
        } else {
            t.skip(1)
        };
        if s == plus {
            assert(digits =~= seq![c]);
        } else if c == '+' {
            assert(digits =~= Seq::<char>::empty());
        } else {
            assert(digits =~= seq![c]);
        }
        if digits.len() == 1 {
            assert(digits.drop_last() =~= Seq::<char>::empty());
            assert(all_digits(digits) <==> is_digit(digits[0]));
        }
    } else {
        let digits = bare.push(c);
        assert(t[0] == s[0]);
        if s[0] == '+' {
            assert(t.skip(1) =~= digits);
            if s.len() == 1 {
                assert(s =~= plus);
            }
        } else {
            assert(t =~= digits);
        }
        assert(bare.len() > 0);
        assert(digits.drop_last() =~= bare);
        assert(digits.last() == c);
        assert(all_digits(digits) <==> all_digits(bare) && is_digit(c)) by {
            if all_digits(digits) {
                assert(is_digit(digits[bare.len() as int]));
                assert forall|i: int| 0 <= i < bare.len() implies is_digit(#[trigger] bare[i]) by {
                    assert(digits[i] == bare[i]);
                }
            }
            if all_digits(bare) && is_digit(c) {
                assert forall|i: int| 0 <= i < digits.len() implies is_digit(
                    #[trigger] digits[i],
                ) by {
                    if i < bare.len() {
                        assert(digits[i] == bare[i]);
                    }
                }
            }
        }
    }
}

/// A letter from `A` to `Z` has its small letter at the same distance from `a`; every other
/// character stays, and so does the length of a text.
pub proof fn law_lowercase_changes_capitals_alone(s: Seq<char>, i: int)
    requires
        0 <= i < s.len(),
    ensures
        ascii_lowercase(s).len() == s.len(),
        'A' <= s[i] <= 'Z' ==> ascii_lowercase(s)[i] as int - 'a' as int == s[i] as int
            - 'A' as int,
        !('A' <= s[i] <= 'Z') ==> ascii_lowercase(s)[i] == s[i],
{
}

/// A text has just those prefixes to which something can be appended to make it.
pub proof fn law_prefix_is_what_text_begins_with(prefix: Seq<char>, rest: Seq<char>, s: Seq<char>)
    ensures
        has_prefix(prefix + rest, prefix),
        has_prefix(s, prefix) ==> s == prefix + s.skip(prefix.len() as int),
{
    assert((prefix + rest).take(prefix.len() as int) =~= prefix);
    if has_prefix(s, prefix) {
        assert(s =~= prefix + s.skip(prefix.len() as int));
    }
}

/// A text that ends with a slash is left as it is, and to any other just a slash is appended.
pub proof fn law_one_slash_is_appended(s: Seq<char>)
    ensures
        with_trailing_slash(s.push('/')) == s.push('/'),
        with_trailing_slash(Seq::empty()) == seq!['/'],
        s.len() > 0 && s[s.len() - 1] != '/' ==> with_trailing_slash(s) == s + seq!['/'],
{
    assert(Seq::<char>::empty().push('/') =~= seq!['/']);
    assert(s.push('/') =~= s + seq!['/']);
}

}
