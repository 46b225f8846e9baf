//! Text helpers shared by the formatters, parsers and editors.
//!
//! Strings are modelled by their character sequence (`s@`); byte lengths, where
//! the behaviour depends on them, by the UTF-8 encoding of that sequence.
use vstd::prelude::*;
use vstd::string::*;
use vstd::utf8::*;

verus! {

/// The character of a decimal digit.
pub open spec fn digit_char(d: nat) -> char
    recommends
        d < 10,
{
    (48 + d) as char
}

/// Decimal rendering of a natural number, without leading zeros.
pub open spec fn decimal(n: nat) -> Seq<char>
    decreases n,
{
    if n < 10 {
        seq![digit_char(n)]
    } else {
        decimal(n / 10).push(digit_char(n % 10))
    }
}

/// Decimal rendering of an integer, with a leading `-` when negative.
pub open spec fn signed_decimal(i: int) -> Seq<char> {
    if i < 0 {
        seq!['-'] + decimal((-i) as nat)
    } else {
        decimal(i as nat)
    }
}

/// Byte length of a character sequence, as `str::len` counts it.
pub open spec fn byte_len(s: Seq<char>) -> nat {
    encode_utf8(s).len()
}

/// Appends one character (std `String::push`).
#[verifier::external_body]
pub(crate) fn push_char(s: &mut String, c: char)
    ensures
        final(s)@ == old(s)@.push(c),
{
    s.push(c);
}

/// The character of a decimal digit, computed.
pub fn digit_to_char(d: u64) -> (c: char)
    requires
        d < 10,
    ensures
        c == digit_char(d as nat),
{
    let b: u8 = 48u8 + (d as u8);
    b as char
}

/// Appends the decimal rendering of `n`.
pub fn push_decimal(s: &mut String, n: u64)
    ensures
        final(s)@ == old(s)@ + decimal(n as nat),
    decreases n,
{
    let ghost start = s@;
    if n >= 10 {
        push_decimal(s, n / 10);
    }
    let c = digit_to_char(n % 10);
    push_char(s, c);
    proof {
        if n >= 10 {
            assert(s@ =~= start + decimal(n as nat));
        } else {
            assert(s@ =~= start + decimal(n as nat));
        }
    }
}

/// Appends the decimal rendering of a signed value, `-` first when negative.
pub fn push_signed_decimal(s: &mut String, i: i64)
    ensures
        final(s)@ == old(s)@ + signed_decimal(i as int),
{
    let ghost start = s@;
    if i < 0 {
        push_char(s, '-');
        let m: u64 = if i == i64::MIN {
            9223372036854775808u64
        } else {
            (-i) as u64
        };
        push_decimal(s, m);
        assert(s@ =~= start + signed_decimal(i as int));
    } else {
        push_decimal(s, i as u64);
    }
}

/// Decimal rendering of `n` as a new string.
pub fn decimal_string(n: u64) -> (s: String)
    ensures
        s@ == decimal(n as nat),
{
    let mut s = String::new();
    push_decimal(&mut s, n);
    assert(s@ =~= decimal(n as nat));
    s
}

/// Copies a string slice into a new string.
pub fn owned(s: &str) -> (r: String)
    ensures
        r@ == s@,
{
    s.to_owned()
}

/// The texts of a sequence of strings.
pub open spec fn texts(v: Seq<String>) -> Seq<Seq<char>> {
    v.map_values(|s: String| s@)
}

/// Whether two string slices hold the same characters.
pub fn str_eq(a: &str, b: &str) -> (r: bool)
    ensures
        r == (a@ == b@),
{
    let n = a.unicode_len();
    let m = b.unicode_len();
    if n != m {
        return false;
    }
    let mut i: usize = 0;
    while i < n
        invariant
            n == a@.len(),
            m == b@.len(),
            n == m,
            i <= n,
            forall|j: int| 0 <= j < i ==> a@[j] == b@[j],
        decreases n - i,
    {
        if a.get_char(i) != b.get_char(i) {
            return false;
        }
        i = i + 1;
    }
    assert(a@ =~= b@);
    true
}

/// Whether a string slice contains a character.
pub fn contains_char(s: &str, c: char) -> (r: bool)
    ensures
        r == s@.contains(c),
{
    let n = s.unicode_len();
    let mut i: usize = 0;
    while i < n
        invariant
            n == s@.len(),
            i <= n,
            forall|j: int| 0 <= j < i ==> s@[j] != c,
        decreases n - i,
    {
        if s.get_char(i) == c {
            assert(s@[i as int] == c);
            return true;
        }
        i = i + 1;
    }
    false
}

/// Whether a character is an ASCII decimal digit.
pub open spec fn is_digit(c: char) -> bool {
    '0' <= c && c <= '9'
}

/// Numeric value of an ASCII decimal digit.
pub open spec fn digit_value(c: char) -> nat {
    (c as int - 48) as nat
}

/// Value of a sequence of decimal digits, read left to right.
pub open spec fn digits_value(s: Seq<char>) -> nat
    decreases s.len(),
{
    if s.len() == 0 {
        0
    } else {
        digits_value(s.drop_last()) * 10 + digit_value(s.last())
    }
}

/// The part of an unsigned numeral after an optional leading `+`.
pub open spec fn unsigned_digits(s: Seq<char>) -> Seq<char> {
    if s.len() > 0 && s[0] == '+' {
        s.drop_first()
    } else {
        s
    }
}

/// Whether every character is an ASCII decimal digit.
pub open spec fn all_digits(s: Seq<char>) -> bool {
    forall|i: int| 0 <= i < s.len() ==> is_digit(#[trigger] s[i])
}

/// What `str::parse` gives for an unsigned integer type whose largest value is
/// `max`: an optional `+`, then at least one ASCII digit and nothing else, with
/// a value that fits.
pub open spec fn parse_unsigned_spec(s: Seq<char>, max: nat) -> Option<nat> {
    let digits = unsigned_digits(s);
    if digits.len() == 0 || !all_digits(digits) || digits_value(digits) > max {
        None
    } else {
        Some(digits_value(digits))
    }
}

proof fn lemma_digits_value_monotone(s: Seq<char>, i: int)
    requires
        0 <= i <= s.len(),
        forall|j: int| 0 <= j < s.len() ==> is_digit(#[trigger] s[j]),
    ensures
        digits_value(s.subrange(0, i)) <= digits_value(s),
    decreases s.len() - i,
{
    if i < s.len() {
        lemma_digits_value_monotone(s, i + 1);
        assert(s.subrange(0, i + 1).drop_last() =~= s.subrange(0, i));
    } else {
        assert(s.subrange(0, i) =~= s);
    }
}

/// Parses an unsigned decimal as `str::parse` does for a type whose largest
/// value is `max`.
pub fn parse_unsigned(s: &str, max: u64) -> (r: Option<u64>)
    ensures
        match parse_unsigned_spec(s@, max as nat) {
            Some(v) => r == Some(v as u64),
            None => r.is_none(),
        },
{
    let n = s.unicode_len();
    let start: usize = if n > 0 && s.get_char(0) == '+' {
        1
    } else {
        0
    };
    let ghost digits = unsigned_digits(s@);
    assert(digits =~= s@.subrange(start as int, n as int));
    if start == n {
        return None;
    }
    let mut value: u64 = 0;
    let mut i: usize = start;
    while i < n
        invariant
            n == s@.len(),
            start <= i <= n,
            digits =~= s@.subrange(start as int, n as int),
            digits == unsigned_digits(s@),
            value as nat == digits_value(digits.subrange(0, i - start)),
            value <= max,
            forall|j: int| 0 <= j < i - start ==> is_digit(#[trigger] digits[j]),
        decreases n - i,
    {
        let c = s.get_char(i);
        assert(c == digits[i - start]);
        if c < '0' || c > '9' {
            assert(!is_digit(digits[i - start]));
            return None;
        }
        assert(digits.subrange(0, i + 1 - start).drop_last() =~= digits.subrange(0, i - start));
        let d: u64 = (c as u64) - 48;
        if d > max || value > (max - d) / 10 {
            proof {
                assert forall|j: int| 0 <= j < i + 1 - start implies is_digit(
                    #[trigger] digits.subrange(0, i + 1 - start)[j],
                ) by {}
                assert(digits_value(digits.subrange(0, i + 1 - start)) > max) by (nonlinear_arith)
                    requires
                        d > max || value > (max - d) / 10,
                        digits_value(digits.subrange(0, i + 1 - start)) == value * 10 + d,
                ;
                if all_digits(digits) {
                    lemma_digits_value_monotone(digits, i + 1 - start);
                }
            }
            return None;
        }
        assert(value * 10 + d <= max) by (nonlinear_arith)
            requires
                value <= (max - d) / 10,
                d <= 9,
        ;
        value = value * 10 + d;
        i = i + 1;
    }
    assert(digits.subrange(0, n - start) =~= digits);
    Some(value)
}

/// What `str::parse::<bool>` gives.
pub open spec fn parse_bool_spec(s: Seq<char>) -> Option<bool> {
    if s == "true"@ {
        Some(true)
    } else if s == "false"@ {
        Some(false)
    } else {
        None
    }
}

/// Parses `true` or `false` as `str::parse::<bool>` does.
pub fn parse_bool(s: &str) -> (r: Option<bool>)
    ensures
        r == parse_bool_spec(s@),
{
    if str_eq(s, "true") {
        Some(true)
    } else if str_eq(s, "false") {
        Some(false)
    } else {
        None
    }
}

/// Whether a character has the Unicode `White_Space` property (what
/// `char::is_whitespace`, and so `str::trim`, removes).
pub open spec fn is_whitespace(c: char) -> bool {
    ||| ('\u{9}' <= c && c <= '\u{d}')
    ||| c == ' '
    ||| c == '\u{85}'
    ||| c == '\u{a0}'
    ||| c == '\u{1680}'
    ||| ('\u{2000}' <= c && c <= '\u{200a}')
    ||| c == '\u{2028}'
    ||| c == '\u{2029}'
    ||| c == '\u{202f}'
    ||| c == '\u{205f}'
    ||| c == '\u{3000}'
}

/// Computes `is_whitespace`.
pub fn char_is_whitespace(c: char) -> (r: bool)
    ensures
        r == is_whitespace(c),
{
    ('\u{9}' <= c && c <= '\u{d}') || c == ' ' || c == '\u{85}' || c == '\u{a0}' || c
        == '\u{1680}' || ('\u{2000}' <= c && c <= '\u{200a}') || c == '\u{2028}' || c
        == '\u{2029}' || c == '\u{202f}' || c == '\u{205f}' || c == '\u{3000}'
}

/// The sequence without its leading whitespace.
pub open spec fn trim_start(s: Seq<char>) -> Seq<char>
    decreases s.len(),
{
    if s.len() > 0 && is_whitespace(s[0]) {
        trim_start(s.drop_first())
    } else {
        s
    }
}

/// The sequence without its trailing whitespace.
pub open spec fn trim_end(s: Seq<char>) -> Seq<char>
    decreases s.len(),
{
    if s.len() > 0 && is_whitespace(s.last()) {
        trim_end(s.drop_last())
    } else {
        s
    }
}

/// What `str::trim` gives: no leading and no trailing whitespace.
pub open spec fn trimmed(s: Seq<char>) -> Seq<char> {
    trim_end(trim_start(s))
}

/// Removes leading and trailing whitespace (`str::trim`).
pub fn trim(s: &str) -> (r: String)
    ensures
        r@ == trimmed(s@),
{
    let n = s.unicode_len();
    let mut i: usize = 0;
    assert(s@.subrange(0, n as int) =~= s@);
    while i < n && char_is_whitespace(s.get_char(i))
        invariant
            n == s@.len(),
            i <= n,
            trim_start(s@) == trim_start(s@.subrange(i as int, n as int)),
        decreases n - i,
    {
        assert(s@.subrange(i as int, n as int).drop_first() =~= s@.subrange(i + 1, n as int));
        i = i + 1;
    }
    let ghost t = s@.subrange(i as int, n as int);
    assert(trim_start(s@) == t);
    let mut j: usize = n;
    while j > i && char_is_whitespace(s.get_char(j - 1))
        invariant
            n == s@.len(),
            i <= j <= n,
            t == s@.subrange(i as int, n as int),
            trim_end(t) == trim_end(s@.subrange(i as int, j as int)),
        decreases j,
    {
        assert(s@.subrange(i as int, j as int).drop_last() =~= s@.subrange(i as int, j - 1));
        j = j - 1;
    }
    let sub = s.substring_char(i, j);
    owned(sub)
}

/// What `str::to_lowercase` gives: the Unicode lowercase mapping of each
/// character, as std defines it.
pub uninterp spec fn lowercase_of(s: Seq<char>) -> Seq<char>;

/// Lowercases a string (std `str::to_lowercase`). Trusted: the result is the
/// std lowercase mapping of the argument, named `lowercase_of`; nothing more
/// about that mapping is stated.
#[verifier::external_body]
pub(crate) fn to_lowercase(s: &str) -> (r: String)
    ensures
        r@ == lowercase_of(s@),
{
    s.to_lowercase()
}

/// The characters of a string slice, in a vector.
pub fn chars_of(s: &str) -> (r: Vec<char>)
    ensures
        r@ == s@,
{
    let n = s.unicode_len();
    let mut v: Vec<char> = Vec::new();
    let mut i: usize = 0;
    while i < n
        invariant
            n == s@.len(),
            i <= n,
            v@ == s@.take(i as int),
        decreases n - i,
    {
        v.push(s.get_char(i));
        i = i + 1;
        assert(v@ =~= s@.take(i as int));
    }
    assert(s@.take(n as int) =~= s@);
    v
}

/// ASCII lowercase of a character; other characters are unchanged.
pub open spec fn ascii_lower(c: char) -> char {
    if 'A' <= c && c <= 'Z' {
        ((c as int) + 32) as char
    } else {
        c
    }
}

/// Computes `ascii_lower`.
pub fn char_ascii_lower(c: char) -> (r: char)
    ensures
        r == ascii_lower(c),
{
    if 'A' <= c && c <= 'Z' {
        let b: u8 = (c as u8) + 32;
        b as char
    } else {
        c
    }
}

/// The sequence without a leading `+` or `-`.
pub open spec fn strip_sign(s: Seq<char>) -> Seq<char> {
    if s.len() > 0 && (s[0] == '+' || s[0] == '-') {
        s.drop_first()
    } else {
        s
    }
}

/// Index of the first `e` or `E`, or the length if there is none.
pub open spec fn exp_start(b: Seq<char>) -> int
    decreases b.len(),
{
    if b.len() == 0 {
        0
    } else if b[0] == 'e' || b[0] == 'E' {
        0
    } else {
        1 + exp_start(b.drop_first())
    }
}

/// Digits with at most one `.` and at least one digit.
pub open spec fn mantissa_ok(m: Seq<char>) -> bool {
    &&& forall|i: int| 0 <= i < m.len() ==> is_digit(#[trigger] m[i]) || m[i] == '.'
    &&& forall|i: int, j: int|
        0 <= i < m.len() && 0 <= j < m.len() && #[trigger] m[i] == '.' && #[trigger] m[j] == '.'
            ==> i == j
    &&& exists|i: int| 0 <= i < m.len() && is_digit(#[trigger] m[i])
}

/// An optional sign followed by at least one digit.
pub open spec fn exponent_ok(x: Seq<char>) -> bool {
    strip_sign(x).len() > 0 && all_digits(strip_sign(x))
}

/// `inf`, `infinity` or `nan`, in any ASCII case.
pub open spec fn is_special_float(b: Seq<char>) -> bool {
    let l = b.map_values(|c: char| ascii_lower(c));
    l == "inf"@ || l == "infinity"@ || l == "nan"@
}

/// A decimal number with an optional exponent: the mantissa before the first
/// `e`/`E`, then an optional signed exponent.
pub open spec fn is_decimal_number(b: Seq<char>) -> bool {
    let k = exp_start(b);
    mantissa_ok(b.take(k)) && (k == b.len() || exponent_ok(b.skip(k + 1)))
}

/// The text that `f64::from_str` accepts, by the grammar its documentation
/// gives: an optional sign, then `inf`, `infinity`, `nan` (any case) or a
/// decimal number with an optional exponent.
pub open spec fn is_float_text(s: Seq<char>) -> bool {
    is_special_float(strip_sign(s)) || is_decimal_number(strip_sign(s))
}

proof fn lemma_exp_start(b: Seq<char>, k: int)
    requires
        0 <= k <= b.len(),
        forall|i: int| 0 <= i < k ==> b[i] != 'e' && b[i] != 'E',
        k == b.len() || b[k] == 'e' || b[k] == 'E',
    ensures
        exp_start(b) == k,
    decreases k,
{
    if k > 0 {
        lemma_exp_start(b.drop_first(), k - 1);
    }
}

/// Whether `v[start..]`, lowercased, equals `lit`.
fn lowered_tail_eq(v: &Vec<char>, start: usize, lit: &str) -> (r: bool)
    requires
        start <= v@.len(),
    ensures
        r == (v@.skip(start as int).map_values(|c: char| ascii_lower(c)) == lit@),
{
    let l = chars_of(lit);
    let n = v.len() - start;
    let ghost low = v@.skip(start as int).map_values(|c: char| ascii_lower(c));
    if n != l.len() {
        return false;
    }
    let mut i: usize = 0;
    while i < n
        invariant
            n == v@.len() - start,
            start + n == v@.len(),
            v@.len() <= usize::MAX,
            n == l@.len(),
            l@ == lit@,
            start <= v@.len(),
            low == v@.skip(start as int).map_values(|c: char| ascii_lower(c)),
            i <= n,
            forall|j: int| 0 <= j < i ==> low[j] == l@[j],
        decreases n - i,
    {
        let k: usize = start + i;
        if char_ascii_lower(v[k]) != l[i] {
            return false;
        }
        i = i + 1;
    }
    assert(low =~= l@);
    true
}

/// Scans the mantissa of `v[start..]`: returns where it ends (the first `e`
/// or `E`, or the end) and whether it is a valid mantissa.
fn scan_mantissa(v: &Vec<char>, start: usize) -> (r: (usize, bool))
    requires
        start <= v@.len(),
    ensures
        start <= r.0 <= v@.len(),
        r.0 - start == exp_start(v@.skip(start as int)),
        r.1 == mantissa_ok(v@.skip(start as int).take(r.0 - start)),
{
    let n = v.len();
    let ghost b = v@.skip(start as int);
    let mut k: usize = start;
    let mut dots: usize = 0;
    let mut digits: usize = 0;
    let mut ok = true;
    let ghost mut dot_at: int = -1;
    while k < n && v[k] != 'e' && v[k] != 'E'
        invariant
            n == v@.len(),
            start <= k <= n,
            b == v@.skip(start as int),
            forall|i: int| 0 <= i < k - start ==> b[i] != 'e' && b[i] != 'E',
            ok == (forall|i: int| 0 <= i < k - start ==> is_digit(#[trigger] b[i]) || b[i] == '.'),
            dots == 0 ==> forall|i: int| 0 <= i < k - start ==> #[trigger] b[i] != '.',
            dots == 1 ==> 0 <= dot_at < k - start && b[dot_at] == '.' && forall|i: int|
                0 <= i < k - start && #[trigger] b[i] == '.' ==> i == dot_at,
            dots >= 2 ==> exists|i: int, j: int|
                0 <= i < k - start && 0 <= j < k - start && i != j && #[trigger] b[i] == '.'
                    && #[trigger] b[j] == '.',
            dots <= 2,
            (digits > 0) == exists|i: int| 0 <= i < k - start && is_digit(#[trigger] b[i]),
            digits <= 1,
        decreases n - k,
    {
        let c = v[k];
        assert(c == b[k - start]);
        if c == '.' {
            if dots == 1 {
                assert(b[dot_at] == '.' && b[k - start] == '.');
            }
            if dots == 0 {
                proof {
                    dot_at = k - start;
                }
            }
            if dots < 2 {
                dots = dots + 1;
            }
        } else if '0' <= c && c <= '9' {
            digits = 1;
        } else {
            ok = false;
        }
        k = k + 1;
    }
    let ghost kk = k - start;
    proof {
        lemma_exp_start(b, kk);
    }
    let mantissa = ok && dots <= 1 && digits > 0;
    assert(mantissa == mantissa_ok(b.take(kk))) by {
        let m = b.take(kk);
        if dots >= 2 {
            let (i, j) = choose|i: int, j: int|
                0 <= i < kk && 0 <= j < kk && i != j && #[trigger] b[i] == '.' && #[trigger] b[j]
                    == '.';
            assert(m[i] == '.' && m[j] == '.');
        }
        if digits > 0 {
            let i = choose|i: int| 0 <= i < kk && is_digit(#[trigger] b[i]);
            assert(is_digit(m[i]));
        }
        if !ok {
            let i = choose|i: int| 0 <= i < kk && !(is_digit(#[trigger] b[i]) || b[i] == '.');
            assert(!(is_digit(m[i]) || m[i] == '.'));
        }
    }
    (k, mantissa)
}

/// Whether `v[e..]` is an optional sign followed by at least one digit.
fn exponent_valid(v: &Vec<char>, e: usize) -> (r: bool)
    requires
        e <= v@.len(),
    ensures
        r == exponent_ok(v@.skip(e as int)),
{
    let n = v.len();
    let ghost x = v@.skip(e as int);
    let mut d0: usize = e;
    if d0 < n && (v[d0] == '+' || v[d0] == '-') {
        d0 = d0 + 1;
    }
    let ghost d = strip_sign(x);
    assert(d =~= v@.skip(d0 as int));
    if d0 == n {
        assert(d.len() == 0);
        return false;
    }
    let mut j: usize = d0;
    while j < n
        invariant
            n == v@.len(),
            d0 <= j <= n,
            e <= d0,
            d == v@.skip(d0 as int),
            x == v@.skip(e as int),
            d == strip_sign(x),
            forall|i: int| 0 <= i < j - d0 ==> is_digit(#[trigger] d[i]),
        decreases n - j,
    {
        if v[j] < '0' || v[j] > '9' {
            assert(!is_digit(d[j - d0]));
            return false;
        }
        j = j + 1;
    }
    true
}

/// Whether `f64::from_str` accepts the text (see `is_float_text`).
pub fn is_float_literal(s: &str) -> (r: bool)
    ensures
        r == is_float_text(s@),
{
    let v = chars_of(s);
    let n = v.len();
    let start: usize = if n > 0 && (v[0] == '+' || v[0] == '-') {
        1
    } else {
        0
    };
    let ghost b = strip_sign(s@);
    assert(b =~= v@.skip(start as int));
    if lowered_tail_eq(&v, start, "inf") || lowered_tail_eq(&v, start, "infinity")
        || lowered_tail_eq(&v, start, "nan") {
        return true;
    }
    let (k, mantissa) = scan_mantissa(&v, start);
    if !mantissa {
        return false;
    }
    if k == n {
        return true;
    }
    assert(b.skip(k - start + 1) =~= v@.skip(k + 1));
    exponent_valid(&v, k + 1)
}

/// The items joined with a separator between consecutive items.
pub open spec fn joined(items: Seq<Seq<char>>, sep: Seq<char>) -> Seq<char>
    decreases items.len(),
{
    if items.len() == 0 {
        Seq::empty()
    } else if items.len() == 1 {
        items[0]
    } else {
        joined(items.drop_last(), sep) + sep + items.last()
    }
}

/// Joins string slices with a separator (`[&str]::join`).
pub fn join_strs(items: &Vec<&str>, sep: &str) -> (r: String)
    ensures
        r@ == joined(items@.map_values(|s: &str| s@), sep@),
{
    let ghost views = items@.map_values(|s: &str| s@);
    let mut out = String::new();
    let mut i: usize = 0;
    while i < items.len()
        invariant
            i <= items@.len(),
            views == items@.map_values(|s: &str| s@),
            out@ == joined(views.take(i as int), sep@),
        decreases items@.len() - i,
    {
        assert(views.take(i + 1).drop_last() =~= views.take(i as int));
        if i > 0 {
            out.append(sep);
        } else {
            assert(views.take(1) =~= seq![views[0]]);
        }
        out.append(items[i]);
        i = i + 1;
    }
    assert(views.take(items@.len() as int) =~= views);
    out
}

/// Joins strings with a separator (`[String]::join`).
pub fn join_strings(items: &Vec<String>, sep: &str) -> (r: String)
    ensures
        r@ == joined(items@.map_values(|s: String| s@), sep@),
{
    let ghost views = items@.map_values(|s: String| s@);
    let mut out = String::new();
    let mut i: usize = 0;
    while i < items.len()
        invariant
            i <= items@.len(),
            views == items@.map_values(|s: String| s@),
            out@ == joined(views.take(i as int), sep@),
        decreases items@.len() - i,
    {
        assert(views.take(i + 1).drop_last() =~= views.take(i as int));
        if i > 0 {
            out.append(sep);
        } else {
            assert(views.take(1) =~= seq![views[0]]);
        }
        out.append(items[i].as_str());
        i = i + 1;
    }
    assert(views.take(items@.len() as int) =~= views);
    out
}

/// The text with `c` inserted before position `i`.
pub fn insert_char(s: &str, i: usize, c: char) -> (r: String)
    requires
        i <= s@.len(),
    ensures
        r@ == s@.take(i as int).push(c) + s@.skip(i as int),
{
    let n = s.unicode_len();
    let mut r = owned(s.substring_char(0, i));
    push_char(&mut r, c);
    r.append(s.substring_char(i, n));
    assert(r@ =~= s@.take(i as int).push(c) + s@.skip(i as int));
    r
}

/// The text without the character at position `i`.
pub fn remove_char(s: &str, i: usize) -> (r: String)
    requires
        i < s@.len(),
    ensures
        r@ == s@.take(i as int) + s@.skip(i + 1),
{
    let n = s.unicode_len();
    let mut r = owned(s.substring_char(0, i));
    r.append(s.substring_char(i + 1, n));
    assert(r@ =~= s@.take(i as int) + s@.skip(i + 1));
    r
}

/// The pieces of a text between the separators (`str::split` with a
/// character): one more piece than there are separators.
pub open spec fn split_on(s: Seq<char>, sep: char) -> Seq<Seq<char>>
    decreases s.len(),
{
    if s.len() == 0 {
        seq![Seq::empty()]
    } else {
        let rest = split_on(s.drop_last(), sep);
        if s.last() == sep {
            rest.push(Seq::empty())
        } else {
            rest.update(rest.len() - 1, rest.last().push(s.last()))
        }
    }
}

proof fn lemma_split_on_nonempty(s: Seq<char>, sep: char)
    ensures
        split_on(s, sep).len() >= 1,
    decreases s.len(),
{
    if s.len() > 0 {
        lemma_split_on_nonempty(s.drop_last(), sep);
    }
}

/// Splits a text at every occurrence of a separator character.
pub fn split_char(s: &str, sep: char) -> (r: Vec<String>)
    ensures
        r@.map_values(|x: String| x@) == split_on(s@, sep),
{
    let n = s.unicode_len();
    let mut done: Vec<String> = Vec::new();
    let mut cur = String::new();
    let mut i: usize = 0;
    while i < n
        invariant
            n == s@.len(),
            i <= n,
            done@.map_values(|x: String| x@).push(cur@) == split_on(s@.take(i as int), sep),
        decreases n - i,
    {
        let c = s.get_char(i);
        proof {
            assert(s@.take(i + 1).drop_last() =~= s@.take(i as int));
            lemma_split_on_nonempty(s@.take(i as int), sep);
        }
        let ghost before = done@.map_values(|x: String| x@).push(cur@);
        if c == sep {
            done.push(cur);
            cur = String::new();
            assert(done@.map_values(|x: String| x@).push(cur@) =~= before.push(Seq::empty()));
        } else {
            push_char(&mut cur, c);
            assert(done@.map_values(|x: String| x@).push(cur@) =~= before.update(
                before.len() - 1,
                before.last().push(c),
            ));
        }
        i = i + 1;
    }
    assert(s@.take(n as int) =~= s@);
    done.push(cur);
    done
}

/// The comma-separated items of a text, trimmed, without empty ones.
pub open spec fn comma_list(s: Seq<char>) -> Seq<Seq<char>> {
    split_on(s, ',').map_values(|p: Seq<char>| trimmed(p)).filter(|p: Seq<char>| p.len() > 0)
}

/// The comma-separated items of a text, trimmed, without empty ones
/// (`split(',').map(trim).filter(non-empty)`).
pub fn parse_comma_list(s: &str) -> (r: Vec<String>)
    ensures
        r@.map_values(|x: String| x@) == comma_list(s@),
{
    let parts = split_char(s, ',');
    let ghost pv = parts@.map_values(|x: String| x@);
    let ghost tv = pv.map_values(|p: Seq<char>| trimmed(p));
    let mut out: Vec<String> = Vec::new();
    let mut i: usize = 0;
    while i < parts.len()
        invariant
            i <= parts@.len(),
            pv == parts@.map_values(|x: String| x@),
            tv == pv.map_values(|p: Seq<char>| trimmed(p)),
            out@.map_values(|x: String| x@) == tv.take(i as int).filter(|p: Seq<char>| p.len() > 0),
        decreases parts@.len() - i,
    {
        reveal_with_fuel(Seq::<_>::filter, 1);
        assert(tv.take(i + 1).drop_last() =~= tv.take(i as int));
        let t = trim(parts[i].as_str());
        let ghost before = out@.map_values(|x: String| x@);
        if t.as_str().unicode_len() > 0 {
            out.push(t);
            assert(out@.map_values(|x: String| x@) =~= before.push(tv[i as int]));
        } else {
            assert(out@.map_values(|x: String| x@) =~= before);
        }
        i = i + 1;
    }
    assert(tv.take(parts@.len() as int) =~= tv);
    out
}

/// Whether the text begins with the prefix.
pub open spec fn has_prefix(s: Seq<char>, prefix: Seq<char>) -> bool {
    prefix.len() <= s.len() && s.take(prefix.len() as int) == prefix
}

/// Whether a string slice begins with the prefix (`str::starts_with`).
pub fn starts_with(s: &str, prefix: &str) -> (r: bool)
    ensures
        r == has_prefix(s@, prefix@),
{
    let n = s.unicode_len();
    let m = prefix.unicode_len();
    if m > n {
        return false;
    }
    let mut i: usize = 0;
    while i < m
        invariant
            n == s@.len(),
            m == prefix@.len(),
            m <= n,
            i <= m,
            forall|j: int| 0 <= j < i ==> s@[j] == prefix@[j],
        decreases m - i,
    {
        if s.get_char(i) != prefix.get_char(i) {
            assert(s@.take(m as int)[i as int] != prefix@[i as int]);
            return false;
        }
        i = i + 1;
    }
    assert(s@.take(m as int) =~= prefix@);
    true
}

/// The text after the prefix, when it begins with it (`str::strip_prefix`).
pub fn strip_prefix(s: &str, prefix: &str) -> (r: Option<String>)
    ensures
        has_prefix(s@, prefix@) ==> (r matches Some(t) && t@ == s@.skip(prefix@.len() as int)),
        !has_prefix(s@, prefix@) ==> r is None,
{
    if starts_with(s, prefix) {
        let n = s.unicode_len();
        let m = prefix.unicode_len();
        let t = s.substring_char(m, n);
        let r = owned(t);
        assert(r@ =~= s@.skip(m as int));
        Some(r)
    } else {
        None
    }
}

/// Removes the last character, if any (std `String::pop`).
#[verifier::external_body]
pub(crate) fn pop_char(s: &mut String) -> (r: Option<char>)
    ensures
        old(s)@.len() == 0 ==> final(s)@ == old(s)@ && r.is_none(),
        old(s)@.len() > 0 ==> final(s)@ == old(s)@.drop_last() && r == Some(old(s)@.last()),
{
    s.pop()
}

/// A one-character string.
pub fn char_string(c: char) -> (r: String)
    ensures
        r@ == seq![c],
{
    let mut s = String::new();
    push_char(&mut s, c);
    assert(s@ =~= seq![c]);
    s
}

/// Whether a character is an ASCII hexadecimal digit.
pub open spec fn is_hex(c: char) -> bool {
    is_digit(c) || ('a' <= c && c <= 'f') || ('A' <= c && c <= 'F')
}

/// Computes `is_hex`.
pub fn char_is_hex(c: char) -> (r: bool)
    ensures
        r == is_hex(c),
{
    ('0' <= c && c <= '9') || ('a' <= c && c <= 'f') || ('A' <= c && c <= 'F')
}

/// The UTF-8 encoding of a concatenation is the concatenation of the encodings.
pub proof fn lemma_encode_utf8_concat(a: Seq<char>, b: Seq<char>)
    ensures
        encode_utf8(a + b) == encode_utf8(a) + encode_utf8(b),
    decreases a.len(),
{
    if a.len() == 0 {
        assert(a + b =~= b);
    } else {
        assert((a + b).drop_first() =~= a.drop_first() + b);
        lemma_encode_utf8_concat(a.drop_first(), b);
        assert((a + b)[0] == a[0]);
        assert(encode_utf8(a + b) =~= encode_utf8(a) + encode_utf8(b));
    }
}

/// An ASCII character encodes as its own code.
pub proof fn lemma_encode_ascii(c: char)
    requires
        (c as u32) < 128,
    ensures
        encode_utf8(seq![c]) == seq![c as u8],
{
    let u = c as u32;
    assert((u & 0x7F) == u) by (bit_vector)
        requires
            u < 128,
    ;
    assert(seq![c].drop_first() =~= Seq::<char>::empty());
    assert(has_width_1_encoding(u));
    assert(encode_scalar(u) == seq![leading_byte_width_1(u)]);
    assert(leading_byte_width_1(u) == (u & 0x7F) as u8);
    assert((u & 0x7F) as u8 == c as u8);
    assert(encode_utf8(seq![c]) == encode_scalar(u) + encode_utf8(Seq::<char>::empty()));
    assert(encode_utf8(seq![c]) =~= seq![c as u8]);
}


/// The words still to come when `cur` is the word being read and `s` the
/// rest of the text.
pub open spec fn words_from(s: Seq<char>, cur: Seq<char>) -> Seq<Seq<char>>
    decreases s.len(),
{
    if s.len() == 0 {
        if cur.len() > 0 {
            seq![cur]
        } else {
            Seq::empty()
        }
    } else if is_whitespace(s[0]) {
        (if cur.len() > 0 {
            seq![cur]
        } else {
            Seq::empty()
        }) + words_from(s.drop_first(), Seq::empty())
    } else {
        words_from(s.drop_first(), cur.push(s[0]))
    }
}

/// What `str::split_whitespace` gives: the maximal runs of characters that
/// are not whitespace, in order.
pub open spec fn words(s: Seq<char>) -> Seq<Seq<char>> {
    words_from(s, Seq::empty())
}

/// Splits on whitespace (`str::split_whitespace`).
pub fn split_whitespace(s: &str) -> (r: Vec<String>)
    ensures
        texts(r@) == words(s@),
{
    let n = s.unicode_len();
    let mut out: Vec<String> = Vec::new();
    let mut cur = String::new();
    let mut i: usize = 0;
    assert(s@.subrange(0, n as int) =~= s@);
    assert(texts(out@) =~= Seq::<Seq<char>>::empty());
    assert(cur@ =~= Seq::<char>::empty());
    while i < n
        invariant
            n == s@.len(),
            i <= n,
            texts(out@) + words_from(s@.subrange(i as int, n as int), cur@) == words(s@),
        decreases n - i,
    {
        let c = s.get_char(i);
        let ghost rest = s@.subrange(i as int, n as int);
        let ghost before = texts(out@);
        assert(rest.drop_first() =~= s@.subrange(i + 1, n as int));
        assert(rest[0] == c);
        if char_is_whitespace(c) {
            if !cur.as_str().is_empty() {
                let ghost w = cur@;
                out.push(cur);
                cur = String::new();
                assert(texts(out@) =~= before + seq![w]);
                assert(before + (seq![w] + words_from(rest.drop_first(), Seq::empty()))
                    =~= texts(out@) + words_from(rest.drop_first(), cur@));
            } else {
                assert(cur@ =~= Seq::<char>::empty());
                assert(before + (Seq::<Seq<char>>::empty() + words_from(rest.drop_first(), Seq::empty()))
                    =~= before + words_from(rest.drop_first(), cur@));
            }
        } else {
            let ghost old_cur = cur@;
            push_char(&mut cur, c);
            assert(cur@ =~= old_cur.push(c));
        }
        i = i + 1;
    }
    let ghost before = texts(out@);
    assert(s@.subrange(n as int, n as int) =~= Seq::<char>::empty());
    if !cur.as_str().is_empty() {
        let ghost w = cur@;
        out.push(cur);
        assert(texts(out@) =~= before + seq![w]);
    } else {
        assert(cur@ =~= Seq::<char>::empty());
        assert(before + Seq::<Seq<char>>::empty() =~= before);
    }
    out
}


/// Where decimal digits read left to right onto `acc` first fail as a `u64`:
/// the `ParseIntError` text for a character that is no digit, or for a value
/// past `u64::MAX`; none when they all go through.
pub open spec fn digits_failure(d: Seq<char>, acc: nat) -> Option<Seq<char>>
    decreases d.len(),
{
    if d.len() == 0 {
        None
    } else if !is_digit(d[0]) {
        Some("invalid digit found in string"@)
    } else if acc * 10 + digit_value(d[0]) > u64::MAX {
        Some("number too large to fit in target type"@)
    } else {
        digits_failure(d.drop_first(), acc * 10 + digit_value(d[0]))
    }
}

/// The text of the error that `str::parse::<u64>` gives, none when it
/// succeeds: an empty text, a lone `+`, a character that is no digit, or a
/// value past `u64::MAX`, whichever the digits meet first.
pub open spec fn u64_parse_error(s: Seq<char>) -> Option<Seq<char>> {
    if s.len() == 0 {
        Some("cannot parse integer from empty string"@)
    } else if unsigned_digits(s).len() == 0 {
        Some("invalid digit found in string"@)
    } else {
        digits_failure(unsigned_digits(s), 0)
    }
}

/// Parses a `u64` as `str::parse` does, with the text of its error.
pub fn parse_u64_reporting(s: &str) -> (r: Result<u64, String>)
    ensures
        match u64_parse_error(s@) {
            Some(m) => r matches Err(e) && e@ == m,
            None => r matches Ok(v) && v as nat == digits_value(unsigned_digits(s@)),
        },
{
    let n = s.unicode_len();
    if n == 0 {
        return Err(owned("cannot parse integer from empty string"));
    }
    let start: usize = if s.get_char(0) == '+' {
        1
    } else {
        0
    };
    let ghost d = unsigned_digits(s@);
    assert(d =~= s@.subrange(start as int, n as int));
    if start == n {
        return Err(owned("invalid digit found in string"));
    }
    let mut acc: u64 = 0;
    let mut i: usize = start;
    assert(d.skip(0) =~= d);
    assert(d.take(0) =~= Seq::<char>::empty());
    while i < n
        invariant
            n == s@.len(),
            start <= i <= n,
            d == s@.subrange(start as int, n as int),
            d == unsigned_digits(s@),
            d.len() > 0,
            acc as nat == digits_value(d.take(i - start)),
            digits_failure(d.skip(i - start), acc as nat) == digits_failure(d, 0),
        decreases n - i,
    {
        let c = s.get_char(i);
        let k: usize = i - start;
        assert(d.skip(k as int)[0] == c);
        assert(d.skip(k as int).drop_first() =~= d.skip(k + 1));
        if c < '0' || c > '9' {
            return Err(owned("invalid digit found in string"));
        }
        let v: u64 = (c as u64) - 48;
        if acc > (u64::MAX - v) / 10 {
            assert(acc * 10 + v > u64::MAX) by (nonlinear_arith)
                requires
                    acc > (u64::MAX - v) / 10,
                    v <= 9,
            ;
            return Err(owned("number too large to fit in target type"));
        }
        assert(acc * 10 + v <= u64::MAX) by (nonlinear_arith)
            requires
                acc <= (u64::MAX - v) / 10,
                v <= 9,
        ;
        assert(d.take(k + 1).drop_last() =~= d.take(k as int));
        acc = acc * 10 + v;
        i = i + 1;
    }
    assert(d.take(n - start) =~= d);
    assert(d.skip(n - start) =~= Seq::<char>::empty());
    Ok(acc)
}


/// The value of decimal digits read left to right onto `acc`.
pub open spec fn digits_onto(acc: nat, d: Seq<char>) -> nat
    decreases d.len(),
{
    if d.len() == 0 {
        acc
    } else {
        digits_onto(acc * 10 + digit_value(d[0]), d.drop_first())
    }
}

proof fn lemma_digits_onto_grows(acc: nat, d: Seq<char>)
    ensures
        acc <= digits_onto(acc, d),
    decreases d.len(),
{
    if d.len() > 0 {
        lemma_digits_onto_grows(acc * 10 + digit_value(d[0]), d.drop_first());
    }
}

proof fn lemma_digits_onto_push(acc: nat, d: Seq<char>, c: char)
    ensures
        digits_onto(acc, d.push(c)) == digits_onto(acc, d) * 10 + digit_value(c),
    decreases d.len(),
{
    if d.len() > 0 {
        assert(d.push(c).drop_first() =~= d.drop_first().push(c));
        assert(d.push(c)[0] == d[0]);
        lemma_digits_onto_push(acc * 10 + digit_value(d[0]), d.drop_first(), c);
    } else {
        assert(d.push(c).drop_first() =~= Seq::<char>::empty());
        assert(d.push(c)[0] == c);
        assert(digits_onto(acc * 10 + digit_value(c), Seq::<char>::empty()) == acc * 10 + digit_value(c));
        assert(digits_onto(acc, d.push(c)) == digits_onto(acc * 10 + digit_value(c), d.push(c).drop_first()));
    }
}

proof fn lemma_digits_onto_value(d: Seq<char>)
    ensures
        digits_onto(0, d) == digits_value(d),
    decreases d.len(),
{
    if d.len() > 0 {
        lemma_digits_onto_value(d.drop_last());
        lemma_digits_onto_push(0, d.drop_last(), d.last());
        assert(d.drop_last().push(d.last()) =~= d);
    }
}

proof fn lemma_digits_no_failure(acc: nat, d: Seq<char>)
    requires
        all_digits(d),
        digits_onto(acc, d) <= u64::MAX,
    ensures
        digits_failure(d, acc) is None,
    decreases d.len(),
{
    if d.len() > 0 {
        assert(is_digit(d[0]));
        let next = acc * 10 + digit_value(d[0]);
        lemma_digits_onto_grows(next, d.drop_first());
        assert(all_digits(d.drop_first())) by {
            assert forall|i: int| 0 <= i < d.drop_first().len() implies is_digit(#[trigger] d.drop_first()[i]) by {
                assert(d.drop_first()[i] == d[i + 1]);
            }
        }
        lemma_digits_no_failure(next, d.drop_first());
    }
}

/// The decimal text of a number is a run of digits whose value is the
/// number.
pub proof fn lemma_decimal_digits(n: nat)
    ensures
        decimal(n).len() >= 1,
        all_digits(decimal(n)),
        digits_value(decimal(n)) == n,
    decreases n,
{
    if n >= 10 {
        lemma_decimal_digits(n / 10);
        let d = decimal(n / 10);
        assert(decimal(n) == d.push(digit_char(n % 10)));
        assert(decimal(n).drop_last() =~= d);
        let k = n % 10;
        assert(digit_char(k) as int == 48 + k);
        assert(digit_value(decimal(n).last()) == k);
        assert(n == (n / 10) * 10 + k);
        assert forall|i: int| 0 <= i < decimal(n).len() implies is_digit(#[trigger] decimal(n)[i]) by {
            if i < d.len() {
                assert(decimal(n)[i] == d[i]);
            }
        }
        assert(digits_value(decimal(n)) == digits_value(d) * 10 + digit_value(decimal(n).last()));
    } else {
        assert(digit_char(n) as int == 48 + n);
        assert(decimal(n).drop_last() =~= Seq::<char>::empty());
        assert(digits_value(decimal(n)) == digits_value(Seq::<char>::empty()) * 10 + digit_value(decimal(n).last()));
    }
}

/// `str::parse::<u64>` reads the decimal text of a `u64` back as that
/// number.
pub proof fn lemma_decimal_parses(n: u64)
    ensures
        u64_parse_error(decimal(n as nat)) is None,
        unsigned_digits(decimal(n as nat)) == decimal(n as nat),
        digits_value(unsigned_digits(decimal(n as nat))) == n,
        trimmed(decimal(n as nat)) == decimal(n as nat),
{
    let d = decimal(n as nat);
    lemma_decimal_digits(n as nat);
    assert(is_digit(d[0]));
    assert(is_digit(d.last()));
    assert(unsigned_digits(d) == d);
    lemma_digits_onto_value(d);
    lemma_digits_no_failure(0, d);
    assert(trim_start(d) == d);
    assert(trim_end(d) == d);
}


/// The number of bytes of a character's UTF-8 encoding.
pub open spec fn char_width(c: char) -> nat {
    encode_scalar(c as u32).len()
}

/// Computes `char_width` (`char::len_utf8`).
pub fn utf8_width(c: char) -> (r: usize)
    ensures
        r == char_width(c),
        1 <= r <= 4,
{
    let v = c as u32;
    if v <= 0x7F {
        1
    } else if v <= 0x7FF {
        2
    } else if v <= 0xFFFF {
        assert(!(0xD800 <= v <= 0xDFFF));
        3
    } else {
        4
    }
}

/// The byte length of a text with one character more.
pub proof fn lemma_byte_len_push(s: Seq<char>, c: char)
    ensures
        byte_len(s.push(c)) == byte_len(s) + char_width(c),
        1 <= char_width(c) <= 4,
{
    lemma_encode_utf8_concat(s, seq![c]);
    assert(s.push(c) =~= s + seq![c]);
    assert(seq![c].drop_first() =~= Seq::<char>::empty());
    assert(encode_utf8(seq![c]) =~= encode_scalar(c as u32) + encode_utf8(Seq::<char>::empty()));
    let v = c as u32;
    if !(v <= 0x7F) && !(0x80 <= v <= 0x7FF) && !(0x800 <= v <= 0xFFFF && !(0xD800 <= v <= 0xDFFF)) {
        assert(0x10000 <= v);
    }
}

/// The byte length of a concatenation.
pub proof fn lemma_byte_len_concat(a: Seq<char>, b: Seq<char>)
    ensures
        byte_len(a + b) == byte_len(a) + byte_len(b),
{
    lemma_encode_utf8_concat(a, b);
}

/// Byte offsets of character positions grow with the position.
pub proof fn lemma_byte_len_prefix_grows(s: Seq<char>, j: int, k: int)
    requires
        0 <= j <= k <= s.len(),
    ensures
        byte_len(s.take(j)) + (k - j) <= byte_len(s.take(k)),
    decreases k - j,
{
    if j < k {
        lemma_byte_len_prefix_grows(s, j, k - 1);
        assert(s.take(k) =~= s.take(k - 1).push(s[k - 1]));
        lemma_byte_len_push(s.take(k - 1), s[k - 1]);
    }
}

/// The character position at byte offset `b`, when `b` falls on a character
/// boundary (the start of a character, or the end of the text).
pub open spec fn char_at_byte(s: Seq<char>, b: int) -> Option<int> {
    if exists|k: int| 0 <= k <= s.len() && #[trigger] byte_len(s.take(k)) == b {
        Some(choose|k: int| 0 <= k <= s.len() && #[trigger] byte_len(s.take(k)) == b)
    } else {
        None
    }
}

/// There is at most one character position at a byte offset.
pub proof fn lemma_char_at_byte_unique(s: Seq<char>, b: int, k: int)
    requires
        0 <= k <= s.len(),
        byte_len(s.take(k)) == b,
    ensures
        char_at_byte(s, b) == Some(k),
{
    let j = choose|j: int| 0 <= j <= s.len() && #[trigger] byte_len(s.take(j)) == b;
    if j < k {
        lemma_byte_len_prefix_grows(s, j, k);
    } else if k < j {
        lemma_byte_len_prefix_grows(s, k, j);
    }
}

/// Finds the character position at a byte offset (`str::is_char_boundary`,
/// in character terms).
pub fn char_index_at_byte(s: &str, b: usize) -> (r: Option<usize>)
    ensures
        match char_at_byte(s@, b as int) {
            Some(k) => r matches Some(x) && x as int == k,
            None => r is None,
        },
{
    let n = s.unicode_len();
    let mut i: usize = 0;
    let mut acc: u128 = 0;
    assert(s@.take(0) =~= Seq::<char>::empty());
    while i < n
        invariant
            n == s@.len(),
            i <= n,
            acc == byte_len(s@.take(i as int)),
            acc <= b,
        decreases n - i,
    {
        if acc == b as u128 {
            proof {
                lemma_char_at_byte_unique(s@, b as int, i as int);
            }
            return Some(i);
        }
        let c = s.get_char(i);
        let w = utf8_width(c);
        proof {
            assert(s@.take(i + 1) =~= s@.take(i as int).push(c));
            lemma_byte_len_push(s@.take(i as int), c);
        }
        acc = acc + w as u128;
        i = i + 1;
        if acc > b as u128 {
            proof {
                assert forall|k: int| 0 <= k <= s@.len() implies #[trigger] byte_len(s@.take(k)) != b by {
                    if k < i {
                        lemma_byte_len_prefix_grows(s@, k, (i - 1) as int);
                    } else {
                        lemma_byte_len_prefix_grows(s@, i as int, k);
                    }
                }
            }
            return None;
        }
    }
    assert(s@.take(n as int) =~= s@);
    if acc == b as u128 {
        proof {
            lemma_char_at_byte_unique(s@, b as int, n as int);
        }
        Some(n)
    } else {
        proof {
            assert forall|k: int| 0 <= k <= s@.len() implies #[trigger] byte_len(s@.take(k)) != b by {
                lemma_byte_len_prefix_grows(s@, k, n as int);
            }
        }
        None
    }
}


/// The decimal text of a number reads back as the number, when it fits.
pub proof fn lemma_parse_decimal(n: nat, max: nat)
    requires
        n <= max,
    ensures
        parse_unsigned_spec(decimal(n), max) == Some(n),
{
    lemma_decimal_digits(n);
    let d = decimal(n);
    assert(is_digit(d[0]));
    assert(unsigned_digits(d) == d);
}

} // verus!
