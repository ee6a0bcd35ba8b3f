//! Text of the settings fields: equality of strings, decimal numbers,
//! seconds shown from milliseconds, and the parser of the countdown field.
use vstd::prelude::*;

verus! {

/// The largest countdown, in seconds, that the countdown field accepts.
pub const MAX_DURATION_SEC: u64 = 36000;

/// The shortest limited countdown, in seconds, that the countdown field
/// accepts (0 stands for no limit).
pub const MIN_DURATION_SEC: u64 = 10;

/// Whether a countdown is one the countdown field accepts: 0 (no limit) or
/// from `MIN_DURATION_SEC` to `MAX_DURATION_SEC` seconds.
pub open spec fn duration_allowed(v: int) -> bool {
    v == 0 || MIN_DURATION_SEC <= v <= MAX_DURATION_SEC
}

/// Whether two strings hold the same characters.
pub fn str_equal(a: &str, b: &str) -> (r: bool)
    ensures
        r == (a@ == b@),
{
    let n = a.unicode_len();
    if n != b.unicode_len() {
        return false;
    }
    let mut i: usize = 0;
    while i < n
        invariant
            n == a@.len(),
            n == b@.len(),
            i <= n,
            forall|j: int| 0 <= j < i ==> a@[j] == b@[j],
        decreases n - i,
    {
        if a.get_char(i) != b.get_char(i) {
            return false;
        }
        i = i + 1;
    }
    assert(a@ =~= b@);
    true
}

/// The characters of a string, in order.
pub fn chars_of(s: &str) -> (v: Vec<char>)
    ensures
        v@ == s@,
{
    let n = s.unicode_len();
    let mut v: Vec<char> = Vec::new();
    let mut i: usize = 0;
    while i < n
        invariant
            n == s@.len(),
            i <= n,
            v@ == s@.subrange(0, i as int),
        decreases n - i,
    {
        v.push(s.get_char(i));
        i = i + 1;
        assert(v@ =~= s@.subrange(0, i as int));
    }
    assert(s@.subrange(0, n as int) =~= s@);
    v
}

// ---------------------------------------------------------------------------
// Decimal digits
// ---------------------------------------------------------------------------

/// The ASCII character of a decimal digit.
pub open spec fn digit_char(d: int) -> char {
    if d == 0 {
        '0'
    } else if d == 1 {
        '1'
    } else if d == 2 {
        '2'
    } else if d == 3 {
        '3'
    } else if d == 4 {
        '4'
    } else if d == 5 {
        '5'
    } else if d == 6 {
        '6'
    } else if d == 7 {
        '7'
    } else if d == 8 {
        '8'
    } else {
        '9'
    }
}

/// Whether a character is an ASCII decimal digit.
pub open spec fn is_digit(c: char) -> bool {
    48 <= (c as u32) <= 57
}

/// The value of an ASCII decimal digit.
pub open spec fn digit_value(c: char) -> nat {
    ((c as u32) - 48) as nat
}

/// Whether every character of a text is an ASCII decimal digit.
pub open spec fn all_digits(d: Seq<char>) -> bool {
    forall|i: int| 0 <= i < d.len() ==> is_digit(#[trigger] d[i])
}

/// The number that a string of decimal digits denotes.
pub open spec fn digits_value(d: Seq<char>) -> nat
    decreases d.len(),
{
    if d.len() == 0 {
        0
    } else {
        digits_value(d.drop_last()) * 10 + digit_value(d.last())
    }
}

/// The decimal representation of a number, without leading zeros.
pub open spec fn decimal(n: nat) -> Seq<char>
    decreases n,
{
    if n < 10 {
        seq![digit_char(n as int)]
    } else {
        decimal(n / 10).push(digit_char((n % 10) as int))
    }
}

/// The fraction digits of `r` thousandths (`0 < r < 1000`), without
/// trailing zeros.
pub open spec fn fraction_text(r: nat) -> Seq<char> {
    let d1 = r / 100;
    let d2 = (r / 10) % 10;
    let d3 = r % 10;
    if d3 != 0 {
        seq![digit_char(d1 as int), digit_char(d2 as int), digit_char(d3 as int)]
    } else if d2 != 0 {
        seq![digit_char(d1 as int), digit_char(d2 as int)]
    } else {
        seq![digit_char(d1 as int)]
    }
}

/// Milliseconds shown as seconds: the whole seconds, then, where the value
/// is not whole, a point and the thousandths without trailing zeros.
pub open spec fn secs_text(ms: nat) -> Seq<char> {
    if ms % 1000 == 0 {
        decimal(ms / 1000)
    } else {
        decimal(ms / 1000) + seq!['.'] + fraction_text(ms % 1000)
    }
}

/// Ten to the power `k`.
pub open spec fn pow10(k: nat) -> nat
    decreases k,
{
    if k == 0 {
        1
    } else {
        10 * pow10((k - 1) as nat)
    }
}

proof fn lemma_digit_char(d: int)
    requires
        0 <= d < 10,
    ensures
        is_digit(digit_char(d)),
        digit_value(digit_char(d)) == d,
        d != 0 ==> digit_char(d) != '0',
{
}

/// The decimal representation is made of digits and denotes the number.
pub proof fn lemma_decimal_value(n: nat)
    ensures
        all_digits(decimal(n)),
        digits_value(decimal(n)) == n,
        decimal(n).len() >= 1,
    decreases n,
{
    if n < 10 {
        lemma_digit_char(n as int);
        assert(decimal(n).drop_last() =~= Seq::<char>::empty());
        assert(digits_value(Seq::<char>::empty()) == 0);
        assert(digits_value(decimal(n).drop_last()) == 0);
        assert(decimal(n).last() == digit_char(n as int));
    } else {
        lemma_decimal_value(n / 10);
        lemma_digit_char((n % 10) as int);
        let d = decimal(n);
        assert(d.drop_last() =~= decimal(n / 10));
        assert(d.last() == digit_char((n % 10) as int));
        assert(digits_value(d) == digits_value(decimal(n / 10)) * 10 + (n % 10));
        assert((n / 10) * 10 + n % 10 == n);
        assert forall|i: int| 0 <= i < d.len() implies is_digit(#[trigger] d[i]) by {
            if i < d.len() - 1 {
                assert(d[i] == decimal(n / 10)[i]);
            }
        }
    }
}

// ---------------------------------------------------------------------------
// Building decimal text
// ---------------------------------------------------------------------------

fn digit_str(d: u64) -> (s: &'static str)
    requires
        d < 10,
    ensures
        s@ == seq![digit_char(d as int)],
{
    proof {
        reveal_strlit("0");
        reveal_strlit("1");
        reveal_strlit("2");
        reveal_strlit("3");
        reveal_strlit("4");
        reveal_strlit("5");
        reveal_strlit("6");
        reveal_strlit("7");
        reveal_strlit("8");
        reveal_strlit("9");
    }
    let s = if d == 0 {
        "0"
    } else if d == 1 {
        "1"
    } else if d == 2 {
        "2"
    } else if d == 3 {
        "3"
    } else if d == 4 {
        "4"
    } else if d == 5 {
        "5"
    } else if d == 6 {
        "6"
    } else if d == 7 {
        "7"
    } else if d == 8 {
        "8"
    } else {
        "9"
    };
    assert(s@ =~= seq![digit_char(d as int)]);
    s
}

fn push_decimal(s: &mut String, n: u64)
    ensures
        final(s)@ == old(s)@ + decimal(n as nat),
    decreases n,
{
    if n >= 10 {
        push_decimal(s, n / 10);
    }
    s.append(digit_str(n % 10));
    assert(final(s)@ =~= old(s)@ + decimal(n as nat));
}

/// The decimal text of a number, as `to_string` writes it.
pub fn decimal_string(n: u64) -> (s: String)
    ensures
        s@ == decimal(n as nat),
{
    let mut s = String::new();
    push_decimal(&mut s, n);
    assert(s@ =~= decimal(n as nat));
    s
}

/// Milliseconds as the text of seconds, in the shortest form that shows
/// the value exactly: 100 gives "0.1", 50 gives "0.05", 2000 gives "2".
pub fn fmt_secs(ms: u64) -> (s: String)
    ensures
        s@ == secs_text(ms as nat),
{
    let whole = ms / 1000;
    let r = ms % 1000;
    let mut s = String::new();
    push_decimal(&mut s, whole);
    if r != 0 {
        proof {
            reveal_strlit(".");
        }
        s.append(".");
        let d1 = r / 100;
        let d2 = (r / 10) % 10;
        let d3 = r % 10;
        s.append(digit_str(d1));
        if d2 != 0 || d3 != 0 {
            s.append(digit_str(d2));
        }
        if d3 != 0 {
            s.append(digit_str(d3));
        }
    }
    assert(s@ =~= secs_text(ms as nat));
    s
}

/// The text of seconds shows the milliseconds exactly and in the shortest
/// form: a whole number of seconds is shown as the decimal number of
/// seconds; otherwise the whole seconds, a point and one to three fraction
/// digits, the last of which is not zero, together denote exactly `ms`
/// thousandths of a second.
pub proof fn lemma_secs_text_exact(ms: nat)
    ensures
        ms % 1000 == 0 ==> secs_text(ms) == decimal(ms / 1000) && digits_value(secs_text(ms))
            * 1000 == ms,
        ms % 1000 != 0 ==> {
            let f = fraction_text(ms % 1000);
            &&& secs_text(ms) == decimal(ms / 1000) + seq!['.'] + f
            &&& 1 <= f.len() <= 3
            &&& all_digits(f)
            &&& f.last() != '0'
            &&& digits_value(decimal(ms / 1000)) * 1000 + digits_value(f) * pow10(
                (3 - f.len()) as nat,
            ) == ms
        },
{
    lemma_decimal_value(ms / 1000);
    if ms % 1000 != 0 {
        let r = ms % 1000;
        let d1 = r / 100;
        let d2 = (r / 10) % 10;
        let d3 = r % 10;
        lemma_digit_char(d1 as int);
        lemma_digit_char(d2 as int);
        lemma_digit_char(d3 as int);
        let f = fraction_text(r);
        assert(pow10(0) == 1);
        assert(pow10(1) == 10);
        assert(pow10(2) == 100) by {
            assert(pow10(1) == 10);
        }
        assert(digits_value(Seq::<char>::empty()) == 0);
        if d3 != 0 {
            assert(f.drop_last() =~= seq![digit_char(d1 as int), digit_char(d2 as int)]);
            assert(f.drop_last().drop_last() =~= seq![digit_char(d1 as int)]);
            assert(f.drop_last().drop_last().drop_last() =~= Seq::<char>::empty());
            assert(digits_value(f.drop_last().drop_last()) == d1);
            assert(digits_value(f.drop_last()) == d1 * 10 + d2);
            assert(digits_value(f) == d1 * 100 + d2 * 10 + d3);
            assert(f.last() == digit_char(d3 as int));
            assert(r == d1 * 100 + d2 * 10 + d3);
            assert(f.len() == 3);
            assert(pow10((3 - f.len()) as nat) == 1);
            assert(digits_value(f) * pow10((3 - f.len()) as nat) == r);
        } else if d2 != 0 {
            assert(f.drop_last() =~= seq![digit_char(d1 as int)]);
            assert(f.drop_last().drop_last() =~= Seq::<char>::empty());
            assert(digits_value(f.drop_last()) == d1);
            assert(digits_value(f) == d1 * 10 + d2);
            assert(f.last() == digit_char(d2 as int));
            assert(r == d1 * 100 + d2 * 10);
            assert(pow10((3 - f.len()) as nat) == 10);
            assert(digits_value(f) * 10 == r);
            assert(digits_value(f) * pow10((3 - f.len()) as nat) == r);
        } else {
            assert(f.drop_last() =~= Seq::<char>::empty());
            assert(digits_value(f) == d1);
            assert(r == d1 * 100);
            assert(d1 != 0);
            assert(pow10((3 - f.len()) as nat) == 100);
            assert(digits_value(f) * 100 == r);
            assert(digits_value(f) * pow10((3 - f.len()) as nat) == r);
        }
        assert(all_digits(f));
        assert(ms == (ms / 1000) * 1000 + r);
    }
}

// ---------------------------------------------------------------------------
// Parsing the countdown field
// ---------------------------------------------------------------------------

/// Unicode white space, as `char::is_whitespace` defines it.
pub open spec fn is_white_space(c: char) -> bool {
    let u = c as u32;
    ||| 0x09 <= u <= 0x0D
    ||| u == 0x20
    ||| u == 0x85
    ||| u == 0xA0
    ||| u == 0x1680
    ||| 0x2000 <= u <= 0x200A
    ||| u == 0x2028
    ||| u == 0x2029
    ||| u == 0x202F
    ||| u == 0x205F
    ||| u == 0x3000
}

/// A text without its leading white space.
pub open spec fn trim_start(s: Seq<char>) -> Seq<char>
    decreases s.len(),
{
    if s.len() > 0 && is_white_space(s[0]) {
        trim_start(s.drop_first())
    } else {
        s
    }
}

/// A text without its trailing white space.
pub open spec fn trim_end(s: Seq<char>) -> Seq<char>
    decreases s.len(),
{
    if s.len() > 0 && is_white_space(s.last()) {
        trim_end(s.drop_last())
    } else {
        s
    }
}

/// A text without its leading and trailing white space.
pub open spec fn trim(s: Seq<char>) -> Seq<char> {
    trim_end(trim_start(s))
}

/// The digits of an unsigned number's text: a single leading plus sign is
/// allowed.
pub open spec fn unsigned_digits(t: Seq<char>) -> Seq<char> {
    if t.len() > 0 && t[0] == '+' {
        t.drop_first()
    } else {
        t
    }
}

/// The `u64` that a text denotes once trimmed, as `str::parse::<u64>`
/// reads it: an optional plus sign and at least one decimal digit, with a
/// value that fits.
pub open spec fn parse_u64_text(s: Seq<char>) -> Option<nat> {
    let d = unsigned_digits(trim(s));
    if d.len() > 0 && all_digits(d) && digits_value(d) <= u64::MAX {
        Some(digits_value(d))
    } else {
        None
    }
}

/// The countdown, in seconds, that the text of the countdown field sets:
/// a trimmed unsigned number that is 0 or from `MIN_DURATION_SEC` to
/// `MAX_DURATION_SEC`; any other text sets nothing.
pub open spec fn duration_field_value(s: Seq<char>) -> Option<nat> {
    match parse_u64_text(s) {
        Some(v) => if duration_allowed(v as int) {
            Some(v)
        } else {
            None
        },
        None => None,
    }
}

fn is_white_space_char(c: char) -> (r: bool)
    ensures
        r == is_white_space(c),
{
    let u = c as u32;
    (0x09 <= u && u <= 0x0D) || u == 0x20 || u == 0x85 || u == 0xA0 || u == 0x1680 || (0x2000 <= u
        && u <= 0x200A) || u == 0x2028 || u == 0x2029 || u == 0x202F || u == 0x205F || u == 0x3000
}

proof fn lemma_trim_start_skip(s: Seq<char>, i: int)
    requires
        0 <= i <= s.len(),
        forall|j: int| 0 <= j < i ==> is_white_space(#[trigger] s[j]),
    ensures
        trim_start(s) == trim_start(s.subrange(i, s.len() as int)),
    decreases i,
{
    if i > 0 {
        assert(is_white_space(s[0]));
        let t = s.drop_first();
        assert forall|j: int| 0 <= j < i - 1 implies is_white_space(#[trigger] t[j]) by {
            assert(t[j] == s[j + 1]);
        }
        lemma_trim_start_skip(t, i - 1);
        assert(t.subrange(i - 1, t.len() as int) =~= s.subrange(i, s.len() as int));
    } else {
        assert(s.subrange(0, s.len() as int) =~= s);
    }
}

proof fn lemma_trim_end_skip(s: Seq<char>, k: int)
    requires
        0 <= k <= s.len(),
        forall|j: int| k <= j < s.len() ==> is_white_space(#[trigger] s[j]),
    ensures
        trim_end(s) == trim_end(s.subrange(0, k)),
    decreases s.len() - k,
{
    if k < s.len() {
        assert(is_white_space(s.last()));
        let t = s.drop_last();
        assert forall|j: int| k <= j < t.len() implies is_white_space(#[trigger] t[j]) by {
            assert(t[j] == s[j]);
        }
        lemma_trim_end_skip(t, k);
        assert(t.subrange(0, k) =~= s.subrange(0, k));
    } else {
        assert(s.subrange(0, k) =~= s);
    }
}

/// The bounds of the trimmed text within `v`.
fn trim_bounds(v: &Vec<char>) -> (r: (usize, usize))
    ensures
        r.0 <= r.1 <= v@.len(),
        trim(v@) == v@.subrange(r.0 as int, r.1 as int),
{
    let n = v.len();
    let mut i: usize = 0;
    while i < n && is_white_space_char(v[i])
        invariant
            n == v@.len(),
            i <= n,
            forall|j: int| 0 <= j < i ==> is_white_space(#[trigger] v@[j]),
        decreases n - i,
    {
        i = i + 1;
    }
    proof {
        lemma_trim_start_skip(v@, i as int);
    }
    let ghost rest = v@.subrange(i as int, n as int);
    assert(rest.len() == 0 || !is_white_space(rest[0]));
    assert(trim_start(rest) == rest);
    let mut k: usize = n;
    while k > i && is_white_space_char(v[k - 1])
        invariant
            n == v@.len(),
            i <= k <= n,
            rest == v@.subrange(i as int, n as int),
            forall|j: int| k <= j < n ==> is_white_space(#[trigger] v@[j]),
        decreases k,
    {
        k = k - 1;
    }
    proof {
        assert forall|j: int| k - i <= j < rest.len() implies is_white_space(#[trigger] rest[j]) by {
            assert(rest[j] == v@[j + i]);
        }
        lemma_trim_end_skip(rest, k - i);
        let t = rest.subrange(0, k - i);
        assert(t =~= v@.subrange(i as int, k as int));
        assert(t.len() == 0 || !is_white_space(t.last()));
        assert(trim_end(t) == t);
    }
    (i, k)
}

proof fn lemma_digits_value_prefix(d: Seq<char>, k: int)
    requires
        0 <= k <= d.len(),
        all_digits(d),
    ensures
        digits_value(d.subrange(0, k)) <= digits_value(d),
    decreases d.len() - k,
{
    if k < d.len() {
        lemma_digits_value_prefix(d.drop_last(), k);
        assert(d.drop_last().subrange(0, k) =~= d.subrange(0, k));
        assert(all_digits(d.drop_last())) by {
            assert forall|i: int| 0 <= i < d.drop_last().len() implies is_digit(
                #[trigger] d.drop_last()[i],
            ) by {
                assert(d.drop_last()[i] == d[i]);
            }
        }
    } else {
        assert(d.subrange(0, k) =~= d);
    }
}

/// Reads the countdown field: the seconds that the text sets, where it is a
/// trimmed unsigned number that is 0 or from `MIN_DURATION_SEC` to
/// `MAX_DURATION_SEC`.
pub fn parse_duration_text(s: &str) -> (r: Option<u64>)
    ensures
        match r {
            Some(v) => duration_field_value(s@) == Some(v as nat),
            None => duration_field_value(s@) is None,
        },
{
    let v = chars_of(s);
    let (lo, hi) = trim_bounds(&v);
    let ghost t = v@.subrange(lo as int, hi as int);
    let mut start = lo;
    if start < hi && v[start] == '+' {
        start = start + 1;
    }
    let ghost d = unsigned_digits(t);
    assert(d =~= v@.subrange(start as int, hi as int));
    assert(trim(s@) == t);
    assert(unsigned_digits(trim(s@)) == d);
    if start == hi {
        return None;
    }
    let mut value: u64 = 0;
    let mut i = start;
    while i < hi
        invariant
            start <= i <= hi <= v@.len(),
            d == v@.subrange(start as int, hi as int),
            d == unsigned_digits(trim(s@)),
            forall|j: int| start <= j < i ==> is_digit(#[trigger] v@[j]),
            value as nat == digits_value(v@.subrange(start as int, i as int)),
            value <= MAX_DURATION_SEC,
        decreases hi - i,
    {
        let c = v[i];
        let u = c as u32;
        if u < 48 || u > 57 {
            assert(d[i - start] == c);
            assert(!is_digit(d[i - start]));
            assert(!all_digits(d));
            assert(parse_u64_text(s@) is None);
            return None;
        }
        let next = value * 10 + (u - 48) as u64;
        proof {
            let p = v@.subrange(start as int, i + 1);
            assert(p.drop_last() =~= v@.subrange(start as int, i as int));
            assert(p.last() == c);
        }
        if next > MAX_DURATION_SEC {
            proof {
                let k = i + 1 - start;
                assert(d.subrange(0, k) =~= v@.subrange(start as int, i + 1));
                if all_digits(d) {
                    lemma_digits_value_prefix(d, k);
                }
            }
            return None;
        }
        value = next;
        i = i + 1;
    }
    assert(v@.subrange(start as int, i as int) =~= d);
    assert(all_digits(d)) by {
        assert forall|j: int| 0 <= j < d.len() implies is_digit(#[trigger] d[j]) by {
            assert(d[j] == v@[j + start]);
        }
    }
    if value != 0 && value < MIN_DURATION_SEC {
        return None;
    }
    Some(value)
}

/// What the main window writes into the countdown field, the field reads
/// back: for every countdown the field accepts, the decimal text of the
/// countdown sets that very countdown.
pub proof fn lemma_duration_text_round_trip(n: nat)
    requires
        duration_allowed(n as int),
    ensures
        duration_field_value(decimal(n)) == Some(n),
{
    lemma_decimal_value(n);
    let d = decimal(n);
    assert(!is_white_space(d[0]));
    assert(!is_white_space(d.last()));
    assert(trim_start(d) == d);
    assert(trim_end(d) == d);
    assert(d[0] != '+');
    assert(unsigned_digits(trim(d)) == d);
}

} // verus!
