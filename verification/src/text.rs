//! Text helpers: characters, padding, trimming and decimal numbers.
//!
//! Everything here works on the character sequence that a `String` views as,
//! which is also how Rust's formatting counts widths.

use vstd::prelude::*;

verus! {

broadcast use vstd::string::group_string_axioms;

// ------------------------------------------------------------ characters ---

/// Calls std's `String::push`: the character is appended.
#[verifier::external_body]
pub(crate) fn push_char(s: &mut String, c: char)
    ensures
        final(s)@ == old(s)@.push(c),
{
    s.push(c);
}

/// The characters of a string slice, in order.
pub fn chars_of(s: &str) -> (v: Vec<char>)
    ensures
        v@ == s@,
{
    let mut v: Vec<char> = Vec::new();
    for c in iter: s.chars()
        invariant
            iter.seq() == s@,
            v@ == iter.seq().take(iter.index()),
    {
        v.push(c);
    }
    v
}

/// Appends `v[lo..hi]` to `s`.
pub fn push_range(s: &mut String, v: &Vec<char>, lo: usize, hi: usize)
    requires
        lo <= hi <= v@.len(),
    ensures
        final(s)@ == old(s)@ + v@.subrange(lo as int, hi as int),
{
    let mut i = lo;
    while i < hi
        invariant
            lo <= i <= hi <= v@.len(),
            s@ == old(s)@ + v@.subrange(lo as int, i as int),
        decreases hi - i,
    {
        push_char(s, v[i]);
        i = i + 1;
        assert(v@.subrange(lo as int, i as int) =~= v@.subrange(lo as int, i - 1).push(v@[i - 1]));
    }
}

/// A `String` holding `v[lo..hi]`.
pub fn string_of_range(v: &Vec<char>, lo: usize, hi: usize) -> (r: String)
    requires
        lo <= hi <= v@.len(),
    ensures
        r@ == v@.subrange(lo as int, hi as int),
{
    let mut r = String::new();
    push_range(&mut r, v, lo, hi);
    assert(Seq::<char>::empty() + v@.subrange(lo as int, hi as int) =~= v@.subrange(lo as int, hi as int));
    r
}

/// A `String` holding the characters of `v`.
pub fn string_of(v: &Vec<char>) -> (r: String)
    ensures
        r@ == v@,
{
    let r = string_of_range(v, 0, v.len());
    assert(v@.subrange(0, v@.len() as int) =~= v@);
    r
}

/// A copy of a string slice as an owned `String`.
pub fn owned(s: &str) -> (r: String)
    ensures
        r@ == s@,
{
    String::from_str(s)
}

/// A copy of an owned `String`.
pub fn copy(s: &String) -> (r: String)
    ensures
        r@ == s@,
{
    String::from_str(s.as_str())
}

/// Whether two strings hold the same characters.
pub fn same_text(a: &str, b: &str) -> (r: bool)
    ensures
        r == (a@ == b@),
{
    let x = chars_of(a);
    let y = chars_of(b);
    if x.len() != y.len() {
        return false;
    }
    let mut i: usize = 0;
    while i < x.len()
        invariant
            x@ == a@,
            y@ == b@,
            x@.len() == y@.len(),
            i <= x@.len(),
            forall|j: int| 0 <= j < i ==> x@[j] == y@[j],
        decreases x@.len() - i,
    {
        if x[i] != y[i] {
            return false;
        }
        i = i + 1;
    }
    assert(x@ =~= y@);
    true
}

// ------------------------------------------------------------ whitespace ---

/// Unicode's `White_Space` property, which is what `str::trim` removes.
pub open spec fn is_ws(c: char) -> bool {
    let n = c as int;
    ||| n == 0x20
    ||| 0x09 <= n <= 0x0d
    ||| n == 0x85
    ||| n == 0xa0
    ||| n == 0x1680
    ||| 0x2000 <= n <= 0x200a
    ||| n == 0x2028
    ||| n == 0x2029
    ||| n == 0x202f
    ||| n == 0x205f
    ||| n == 0x3000
}

fn char_is_ws(c: char) -> (r: bool)
    ensures
        r == is_ws(c),
{
    let n = c as u32;
    n == 0x20 || (0x09 <= n && n <= 0x0d) || n == 0x85 || n == 0xa0 || n == 0x1680 || (0x2000
        <= n && n <= 0x200a) || n == 0x2028 || n == 0x2029 || n == 0x202f || n == 0x205f || n
        == 0x3000
}

/// `s` without its leading whitespace.
pub open spec fn trim_start(s: Seq<char>) -> Seq<char>
    decreases s.len(),
{
    if s.len() > 0 && is_ws(s[0]) {
        trim_start(s.drop_first())
    } else {
        s
    }
}

/// `s` without its trailing whitespace.
pub open spec fn trim_end(s: Seq<char>) -> Seq<char>
    decreases s.len(),
{
    if s.len() > 0 && is_ws(s.last()) {
        trim_end(s.drop_last())
    } else {
        s
    }
}

/// `s` without leading or trailing whitespace: what `str::trim` gives.
pub open spec fn trim(s: Seq<char>) -> Seq<char> {
    trim_end(trim_start(s))
}

/// `str::trim`.
pub fn trimmed(s: &str) -> (r: String)
    ensures
        r@ == trim(s@),
{
    let v = chars_of(s);
    let mut lo: usize = 0;
    assert(v@.skip(0) =~= v@);
    while lo < v.len() && char_is_ws(v[lo])
        invariant
            v@ == s@,
            lo <= v@.len(),
            trim_start(s@) == trim_start(v@.skip(lo as int)),
        decreases v@.len() - lo,
    {
        assert(v@.skip(lo as int).drop_first() =~= v@.skip(lo + 1));
        lo = lo + 1;
    }
    let mut hi: usize = v.len();
    assert(v@.skip(lo as int) =~= v@.subrange(lo as int, hi as int));
    while hi > lo && char_is_ws(v[hi - 1])
        invariant
            v@ == s@,
            lo <= hi <= v@.len(),
            trim(s@) == trim_end(v@.subrange(lo as int, hi as int)),
        decreases hi - lo,
    {
        assert(v@.subrange(lo as int, hi as int).drop_last() =~= v@.subrange(lo as int, hi - 1));
        hi = hi - 1;
    }
    string_of_range(&v, lo, hi)
}

// ---------------------------------------------------- prefixes, suffixes ---

/// `s` with every leading repetition of `pat` removed: `str::trim_start_matches`.
pub open spec fn strip_prefixes(s: Seq<char>, pat: Seq<char>) -> Seq<char>
    decreases s.len(),
{
    if pat.len() > 0 && pat.len() <= s.len() && s.take(pat.len() as int) == pat {
        strip_prefixes(s.skip(pat.len() as int), pat)
    } else {
        s
    }
}

/// `s` with every trailing `c` removed: `str::trim_end_matches` with a char.
pub open spec fn strip_suffix_char(s: Seq<char>, c: char) -> Seq<char>
    decreases s.len(),
{
    if s.len() > 0 && s.last() == c {
        strip_suffix_char(s.drop_last(), c)
    } else {
        s
    }
}

fn has_at(v: &Vec<char>, at: usize, pat: &Vec<char>) -> (r: bool)
    requires
        at <= v@.len(),
    ensures
        r == (pat@.len() <= v@.len() - at && v@.subrange(at as int, at + pat@.len()) == pat@),
{
    let n = v.len();
    if pat.len() > n - at {
        return false;
    }
    let mut i: usize = 0;
    while i < pat.len()
        invariant
            n == v@.len(),
            at + pat@.len() <= v@.len(),
            i <= pat@.len(),
            forall|j: int| 0 <= j < i ==> v@[at + j] == pat@[j],
        decreases pat@.len() - i,
    {
        if v[at + i] != pat[i] {
            assert(v@.subrange(at as int, at + pat@.len())[i as int] != pat@[i as int]);
            return false;
        }
        i = i + 1;
    }
    assert(v@.subrange(at as int, at + pat@.len()) =~= pat@);
    true
}

/// `str::trim_start_matches` with a string pattern.
pub fn trim_start_matches(s: &str, pat: &str) -> (r: String)
    ensures
        r@ == strip_prefixes(s@, pat@),
{
    let v = chars_of(s);
    let p = chars_of(pat);
    if p.len() == 0 {
        return string_of(&v);
    }
    let mut at: usize = 0;
    let n = v.len();
    assert(v@.skip(0) =~= v@);
    while has_at(&v, at, &p)
        invariant
            n == v@.len(),
            v@ == s@,
            p@ == pat@,
            p@.len() > 0,
            at <= v@.len(),
            strip_prefixes(s@, pat@) == strip_prefixes(v@.skip(at as int), pat@),
        decreases v@.len() - at,
    {
        assert(v@.skip(at as int).take(p@.len() as int) =~= v@.subrange(
            at as int,
            at + p@.len(),
        ));
        assert(v@.skip(at as int).skip(p@.len() as int) =~= v@.skip(at + p@.len()));
        at = at + p.len();
    }
    assert(v@.skip(at as int).take(p@.len() as int) =~= v@.subrange(at as int, at + p@.len())
        || p@.len() > v@.len() - at);
    assert(v@.skip(at as int) =~= v@.subrange(at as int, v@.len() as int));
    string_of_range(&v, at, v.len())
}

/// `str::trim_end_matches` with a char pattern.
pub fn trim_end_matches(s: &str, c: char) -> (r: String)
    ensures
        r@ == strip_suffix_char(s@, c),
{
    let v = chars_of(s);
    let mut hi: usize = v.len();
    assert(v@.take(hi as int) =~= v@);
    while hi > 0 && v[hi - 1] == c
        invariant
            v@ == s@,
            hi <= v@.len(),
            strip_suffix_char(s@, c) == strip_suffix_char(v@.take(hi as int), c),
        decreases hi,
    {
        assert(v@.take(hi as int).drop_last() =~= v@.take(hi - 1));
        hi = hi - 1;
    }
    assert(v@.take(hi as int) =~= v@.subrange(0, hi as int));
    string_of_range(&v, 0, hi)
}

/// The first `n` characters of `s`, or all of it when it is shorter.
pub open spec fn take_chars(s: Seq<char>, n: nat) -> Seq<char> {
    if s.len() <= n {
        s
    } else {
        s.take(n as int)
    }
}

/// `s.chars().take(n).collect()`.
pub fn first_chars(s: &str, n: usize) -> (r: String)
    ensures
        r@ == take_chars(s@, n as nat),
{
    let v = chars_of(s);
    let hi = if v.len() <= n {
        v.len()
    } else {
        n
    };
    assert(v@.subrange(0, v@.len() as int) =~= v@);
    assert(v@.subrange(0, hi as int) =~= take_chars(s@, n as nat));
    string_of_range(&v, 0, hi)
}

/// ASCII lower case of one character, as `char::to_ascii_lowercase`.
pub open spec fn ascii_lower(c: char) -> char {
    if 'A' <= c && c <= 'Z' {
        ((c as int) + 32) as char
    } else {
        c
    }
}

fn lower_char(c: char) -> (r: char)
    ensures
        r == ascii_lower(c),
{
    if 'A' <= c && c <= 'Z' {
        ((c as u8) + 32) as char
    } else {
        c
    }
}

/// `str::eq_ignore_ascii_case`.
pub open spec fn eq_ignore_ascii_case(a: Seq<char>, b: Seq<char>) -> bool {
    a.len() == b.len() && forall|i: int| 0 <= i < a.len() ==> ascii_lower(a[i]) == ascii_lower(b[i])
}

/// `str::eq_ignore_ascii_case`.
pub fn same_ignoring_ascii_case(a: &str, b: &str) -> (r: bool)
    ensures
        r == eq_ignore_ascii_case(a@, b@),
{
    let x = chars_of(a);
    let y = chars_of(b);
    if x.len() != y.len() {
        return false;
    }
    let mut i: usize = 0;
    while i < x.len()
        invariant
            x@ == a@,
            y@ == b@,
            x@.len() == y@.len(),
            i <= x@.len(),
            forall|j: int| 0 <= j < i ==> ascii_lower(x@[j]) == ascii_lower(y@[j]),
        decreases x@.len() - i,
    {
        if lower_char(x[i]) != lower_char(y[i]) {
            return false;
        }
        i = i + 1;
    }
    true
}

/// Whether `s` begins with `c`: `str::starts_with` with a char.
pub fn starts_with_char(s: &str, c: char) -> (r: bool)
    ensures
        r == (s@.len() > 0 && s@[0] == c),
{
    let v = chars_of(s);
    v.len() > 0 && v[0] == c
}

// --------------------------------------------------------------- padding ---

/// `n` spaces.
pub open spec fn spaces(n: nat) -> Seq<char> {
    Seq::new(n, |i: int| ' ')
}

/// `format!("{:<w$}", s)`: `s` followed by spaces up to `w` characters.
pub open spec fn pad_right(s: Seq<char>, w: nat) -> Seq<char> {
    if s.len() < w {
        s + spaces((w - s.len()) as nat)
    } else {
        s
    }
}

/// `format!("{:>w$}", s)`: spaces up to `w` characters, then `s`.
pub open spec fn pad_left(s: Seq<char>, w: nat) -> Seq<char> {
    if s.len() < w {
        spaces((w - s.len()) as nat) + s
    } else {
        s
    }
}

fn push_spaces(s: &mut String, n: usize)
    ensures
        final(s)@ == old(s)@ + spaces(n as nat),
{
    let mut i: usize = 0;
    while i < n
        invariant
            i <= n,
            s@ == old(s)@ + spaces(i as nat),
        decreases n - i,
    {
        push_char(s, ' ');
        i = i + 1;
        assert(spaces(i as nat) =~= spaces((i - 1) as nat).push(' '));
    }
}

/// Appends `t` left-aligned in a field of `w` characters.
pub fn push_padded_right(s: &mut String, t: &str, w: usize)
    ensures
        final(s)@ == old(s)@ + pad_right(t@, w as nat),
{
    let v = chars_of(t);
    push_range(s, &v, 0, v.len());
    assert(v@.subrange(0, v@.len() as int) =~= t@);
    if v.len() < w {
        push_spaces(s, w - v.len());
    }
    assert(old(s)@ + t@ + spaces((w - t@.len()) as nat) =~= old(s)@ + (t@ + spaces(
        (w - t@.len()) as nat,
    )));
}

/// Appends `t` right-aligned in a field of `w` characters.
pub fn push_padded_left(s: &mut String, t: &str, w: usize)
    ensures
        final(s)@ == old(s)@ + pad_left(t@, w as nat),
{
    let v = chars_of(t);
    if v.len() < w {
        push_spaces(s, w - v.len());
    }
    push_range(s, &v, 0, v.len());
    assert(v@.subrange(0, v@.len() as int) =~= t@);
    assert(old(s)@ + spaces((w - t@.len()) as nat) + t@ =~= old(s)@ + (spaces(
        (w - t@.len()) as nat,
    ) + t@));
}

// --------------------------------------------------------------- numbers ---

/// The decimal digit for `d`, which must lie in `0..10`.
pub open spec fn digit(d: int) -> char {
    if d == 0 {
        '0'
    } else if d == 1 {
        '1'
    } else if d == 2 {
        '2'
    } else if d == 3 {
        '3'
    } else if d == 4 {
        '4'
    } else if d == 5 {
        '5'
    } else if d == 6 {
        '6'
    } else if d == 7 {
        '7'
    } else if d == 8 {
        '8'
    } else {
        '9'
    }
}

/// The decimal digit for `d < 10`.
pub fn digit_char(d: u64) -> (c: char)
    requires
        d < 10,
    ensures
        c == digit(d as int),
{
    if d == 0 {
        '0'
    } else if d == 1 {
        '1'
    } else if d == 2 {
        '2'
    } else if d == 3 {
        '3'
    } else if d == 4 {
        '4'
    } else if d == 5 {
        '5'
    } else if d == 6 {
        '6'
    } else if d == 7 {
        '7'
    } else if d == 8 {
        '8'
    } else {
        '9'
    }
}

/// The decimal representation of `n`, as `format!("{n}")` writes it.
pub open spec fn decimal(n: nat) -> Seq<char>
    decreases n,
{
    if n < 10 {
        seq![digit(n as int)]
    } else {
        decimal(n / 10).push(digit((n % 10) as int))
    }
}

/// Appends the decimal representation of `n`.
pub fn push_decimal(s: &mut String, n: u64)
    ensures
        final(s)@ == old(s)@ + decimal(n as nat),
    decreases n,
{
    if n >= 10 {
        push_decimal(s, n / 10);
    }
    push_char(s, digit_char(n % 10));
    if n >= 10 {
        assert(old(s)@ + decimal(n as nat) =~= old(s)@ + decimal((n / 10) as nat) + seq![
            digit((n % 10) as int),
        ]);
    }
}

/// `format!("{n}")` for an unsigned integer.
pub fn decimal_text(n: u64) -> (r: String)
    ensures
        r@ == decimal(n as nat),
{
    let mut r = String::new();
    push_decimal(&mut r, n);
    assert(Seq::<char>::empty() + decimal(n as nat) =~= decimal(n as nat));
    r
}

/// The magnitude of `n`.
pub open spec fn magnitude(n: int) -> nat {
    if n < 0 {
        (-n) as nat
    } else {
        n as nat
    }
}

/// A minus sign for negative numbers.
pub open spec fn sign(n: int) -> Seq<char> {
    if n < 0 {
        seq!['-']
    } else {
        Seq::empty()
    }
}

/// `format!("{n}")` for a signed integer.
pub open spec fn signed_decimal(n: int) -> Seq<char> {
    sign(n) + decimal(magnitude(n))
}

fn magnitude_of(n: i64) -> (m: u64)
    ensures
        m as nat == magnitude(n as int),
{
    if n < 0 {
        (0i128 - n as i128) as u64
    } else {
        n as u64
    }
}

fn push_sign(s: &mut String, n: i64)
    ensures
        final(s)@ == old(s)@ + sign(n as int),
{
    if n < 0 {
        push_char(s, '-');
    } else {
        assert(old(s)@ + Seq::<char>::empty() =~= old(s)@);
    }
}

/// Appends `format!("{n}")` for a signed integer.
pub fn push_signed(s: &mut String, n: i64)
    ensures
        final(s)@ == old(s)@ + signed_decimal(n as int),
{
    push_sign(s, n);
    push_decimal(s, magnitude_of(n));
    assert(old(s)@ + sign(n as int) + decimal(magnitude(n as int)) =~= old(s)@ + signed_decimal(
        n as int,
    ));
}

/// `a / unit` rounded to the nearest integer, ties to the even one: how Rust
/// rounds a decimal value when it formats it with fewer places.
pub open spec fn round_half_even(a: nat, unit: nat) -> nat
    recommends
        unit > 0,
{
    let q = a / unit;
    let r = a % unit;
    if 2 * r > unit {
        q + 1
    } else if 2 * r == unit && q % 2 == 1 {
        q + 1
    } else {
        q
    }
}

/// `round_half_even` on machine integers.
pub fn round_even(a: u64, unit: u64) -> (q: u64)
    requires
        unit > 1,
    ensures
        q as nat == round_half_even(a as nat, unit as nat),
{
    let q = a / unit;
    let r = a % unit;
    assert(q < a || a == 0 || q == 0) by (nonlinear_arith)
        requires
            q == a / unit,
            unit > 1,
    ;
    if r > unit - r {
        q + 1
    } else if r == unit - r && q % 2 == 1 {
        q + 1
    } else {
        q
    }
}

/// The two digits of `n < 100`, with a leading zero: `format!("{n:02}")`.
pub open spec fn two_digits(n: nat) -> Seq<char> {
    seq![digit((n / 10) as int), digit((n % 10) as int)]
}

/// Appends `format!("{n:02}")` for `n < 100`.
pub fn push_two_digits(s: &mut String, n: u64)
    requires
        n < 100,
    ensures
        final(s)@ == old(s)@ + two_digits(n as nat),
{
    push_char(s, digit_char(n / 10));
    push_char(s, digit_char(n % 10));
    assert(old(s)@.push(digit((n / 10) as int)).push(digit((n % 10) as int)) =~= old(s)@
        + two_digits(n as nat));
}

/// A reading held in thousandths, written with no decimals: `format!("{v:.0}")`
/// of the value it stands for.
pub open spec fn whole(milli: int) -> Seq<char> {
    sign(milli) + decimal(round_half_even(magnitude(milli), 1000))
}

/// A reading held in thousandths, written with two decimals: `format!("{v:.2}")`
/// of the value it stands for.
pub open spec fn hundredths(milli: int) -> Seq<char> {
    let c = round_half_even(magnitude(milli), 10);
    sign(milli) + decimal(c / 100) + seq!['.'] + two_digits(c % 100)
}

/// Appends `whole(milli)`.
pub fn push_whole(s: &mut String, milli: i64)
    ensures
        final(s)@ == old(s)@ + whole(milli as int),
{
    push_sign(s, milli);
    push_decimal(s, round_even(magnitude_of(milli), 1000));
    assert(old(s)@ + sign(milli as int) + decimal(round_half_even(magnitude(milli as int), 1000))
        =~= old(s)@ + whole(milli as int));
}

/// Appends `hundredths(milli)`.
pub fn push_hundredths(s: &mut String, milli: i64)
    ensures
        final(s)@ == old(s)@ + hundredths(milli as int),
{
    let c = round_even(magnitude_of(milli), 10);
    push_sign(s, milli);
    push_decimal(s, c / 100);
    push_char(s, '.');
    push_two_digits(s, c % 100);
    assert(old(s)@ + sign(milli as int) + decimal((c / 100) as nat) + seq!['.'] + two_digits(
        (c % 100) as nat,
    ) =~= old(s)@ + hundredths(milli as int));
}

/// `format!("{v:.0}")` of a reading held in thousandths.
pub fn whole_text(milli: i64) -> (r: String)
    ensures
        r@ == whole(milli as int),
{
    let mut r = String::new();
    push_whole(&mut r, milli);
    assert(Seq::<char>::empty() + whole(milli as int) =~= whole(milli as int));
    r
}

// ------------------------------------------------------------------ join ---

/// `parts` joined with `sep` between each two of them.
pub open spec fn join(parts: Seq<Seq<char>>, sep: Seq<char>) -> Seq<char>
    decreases parts.len(),
{
    if parts.len() == 0 {
        Seq::empty()
    } else if parts.len() == 1 {
        parts[0]
    } else {
        join(parts.drop_last(), sep) + sep + parts.last()
    }
}

/// The views of a list of strings.
pub open spec fn views(v: Seq<String>) -> Seq<Seq<char>> {
    v.map_values(|s: String| s@)
}

/// `parts.join(sep)`.
pub fn join_strings(parts: &Vec<String>, sep: &str) -> (r: String)
    ensures
        r@ == join(views(parts@), sep@),
{
    let mut r = String::new();
    let mut i: usize = 0;
    while i < parts.len()
        invariant
            i <= parts@.len(),
            r@ == join(views(parts@).take(i as int), sep@),
        decreases parts@.len() - i,
    {
        if i != 0 {
            r.append(sep);
        }
        r.append(parts[i].as_str());
        i = i + 1;
        assert(views(parts@).take(i as int).drop_last() =~= views(parts@).take(i - 1));
        if i == 1 {
            assert(Seq::<char>::empty() + parts@[0]@ =~= parts@[0]@);
        }
    }
    assert(views(parts@).take(parts@.len() as int) =~= views(parts@));
    r
}

// --------------------------------------------------------------- parsing ---

/// Calls std's `String::pop`: the last character, if any, is removed.
#[verifier::external_body]
pub(crate) fn pop_char(s: &mut String)
    ensures
        old(s)@.len() > 0 ==> final(s)@ == old(s)@.drop_last(),
        old(s)@.len() == 0 ==> final(s)@ == old(s)@,
{
    s.pop();
}

/// Whether `c` is an ASCII decimal digit.
pub open spec fn is_digit(c: char) -> bool {
    '0' <= c && c <= '9'
}

/// Whether every character of `s` is a decimal digit.
pub open spec fn all_digits(s: Seq<char>) -> bool {
    forall|i: int| 0 <= i < s.len() ==> is_digit(#[trigger] s[i])
}

/// The value of a string of decimal digits.
pub open spec fn digits_value(s: Seq<char>) -> nat
    decreases s.len(),
{
    if s.len() == 0 {
        0
    } else {
        digits_value(s.drop_last()) * 10 + ((s.last() as int) - ('0' as int)) as nat
    }
}

/// Ten to the power `k`.
pub open spec fn pow10(k: nat) -> nat
    decreases k,
{
    if k == 0 {
        1
    } else {
        10 * pow10((k - 1) as nat)
    }
}

/// The position of the first `.` in `s`, or its length when there is none.
pub open spec fn point_at(s: Seq<char>) -> int
    decreases s.len(),
{
    if s.len() == 0 {
        0
    } else if s[0] == '.' {
        0
    } else {
        1 + point_at(s.drop_first())
    }
}

/// A decimal number in the form Rust's float parsing accepts, without an
/// exponent: an optional sign, then digits with at most one point and at least
/// one digit. Gives whether it is negative, and its digits before and after the
/// point.
pub open spec fn number_parts(s: Seq<char>) -> Option<(bool, Seq<char>, Seq<char>)> {
    let neg = s.len() > 0 && s[0] == '-';
    let body = if s.len() > 0 && (s[0] == '-' || s[0] == '+') {
        s.drop_first()
    } else {
        s
    };
    let p = point_at(body);
    let int_part = body.take(p);
    let frac_part = if p < body.len() {
        body.skip(p + 1)
    } else {
        Seq::empty()
    };
    if all_digits(int_part) && all_digits(frac_part) && int_part.len() + frac_part.len() > 0 {
        Some((neg, int_part, frac_part))
    } else {
        None
    }
}

/// Whether `s` is a decimal number (see `number_parts`).
pub open spec fn is_number(s: Seq<char>) -> bool {
    number_parts(s) is Some
}

/// A decimal number written with no decimals, as `format!("{v:.0}")` writes
/// the value: rounded half to even, and with its minus sign even where it
/// rounds to zero. Anything that is not a number is left as it is.
pub open spec fn rounded_text(s: Seq<char>) -> Seq<char> {
    match number_parts(s) {
        Some((neg, i, f)) => (if neg {
            seq!['-']
        } else {
            Seq::empty()
        }) + decimal(round_half_even(digits_value(i + f), pow10(f.len()))),
        None => s,
    }
}

proof fn lemma_point_at(s: Seq<char>)
    ensures
        0 <= point_at(s) <= s.len(),
        point_at(s) < s.len() ==> s[point_at(s)] == '.',
        forall|j: int| 0 <= j < point_at(s) ==> s[j] != '.',
    decreases s.len(),
{
    if s.len() > 0 && s[0] != '.' {
        lemma_point_at(s.drop_first());
        assert forall|j: int| 0 <= j < point_at(s) implies s[j] != '.' by {
            if j > 0 {
                assert(s[j] == s.drop_first()[j - 1]);
            }
        }
    }
}

proof fn lemma_point_at_unique(s: Seq<char>, p: int)
    requires
        0 <= p <= s.len(),
        p < s.len() ==> s[p] == '.',
        forall|j: int| 0 <= j < p ==> s[j] != '.',
    ensures
        point_at(s) == p,
    decreases s.len(),
{
    if s.len() > 0 && s[0] != '.' {
        lemma_point_at_unique(s.drop_first(), p - 1);
    }
}

proof fn lemma_pow10_monotone(j: nat, k: nat)
    requires
        j <= k,
    ensures
        1 <= pow10(j) <= pow10(k),
    decreases k,
{
    if k > j {
        lemma_pow10_monotone(j, (k - 1) as nat);
    } else if k > 0 {
        lemma_pow10_monotone(0, (k - 1) as nat);
    }
}

proof fn lemma_pow10_bound(k: nat)
    ensures
        pow10(k) >= 1,
        k <= 24 ==> pow10(k) <= 1_000_000_000_000_000_000_000_000,
{
    reveal_with_fuel(pow10, 25);
    assert(pow10(24) == 1_000_000_000_000_000_000_000_000);
    if k <= 24 {
        lemma_pow10_monotone(k, 24);
    } else {
        lemma_pow10_monotone(0, k);
    }
}

proof fn lemma_digits_bound(s: Seq<char>)
    requires
        all_digits(s),
    ensures
        digits_value(s) < pow10(s.len()),
    decreases s.len(),
{
    if s.len() > 0 {
        lemma_digits_bound(s.drop_last());
        assert(is_digit(s[s.len() - 1]));
    }
}

/// The value of a string of digits, with the power of ten of its length.
fn digits_value_of(v: &Vec<char>, lo: usize, hi: usize) -> (r: (u128, u128))
    requires
        lo <= hi <= v@.len(),
        hi - lo <= 24,
        all_digits(v@.subrange(lo as int, hi as int)),
    ensures
        r.0 as nat == digits_value(v@.subrange(lo as int, hi as int)),
        r.1 as nat == pow10((hi - lo) as nat),
{
    let mut acc: u128 = 0;
    let mut p: u128 = 1;
    let mut i = lo;
    while i < hi
        invariant
            lo <= i <= hi <= v@.len(),
            hi - lo <= 24,
            all_digits(v@.subrange(lo as int, hi as int)),
            acc as nat == digits_value(v@.subrange(lo as int, i as int)),
            p as nat == pow10((i - lo) as nat),
        decreases hi - i,
    {
        proof {
            let sub = v@.subrange(lo as int, i as int);
            assert(all_digits(sub)) by {
                assert forall|j: int| 0 <= j < sub.len() implies is_digit(#[trigger] sub[j]) by {
                    assert(sub[j] == v@.subrange(lo as int, hi as int)[j]);
                }
            }
            lemma_digits_bound(sub);
            lemma_pow10_bound((i - lo) as nat);
            lemma_pow10_bound((i - lo + 1) as nat);
            assert(v@.subrange(lo as int, hi as int)[i - lo] == v@[i as int]);
            assert(is_digit(v@[i as int]));
        }
        let d = (v[i] as u32 - '0' as u32) as u128;
        assert(v@.subrange(lo as int, i + 1).drop_last() =~= v@.subrange(lo as int, i as int));
        assert(acc * 10 + d < pow10((i - lo + 1) as nat)) by (nonlinear_arith)
            requires
                acc < pow10((i - lo) as nat),
                d < 10,
                pow10((i - lo + 1) as nat) == 10 * pow10((i - lo) as nat),
        ;
        acc = acc * 10 + d;
        p = p * 10;
        i = i + 1;
    }
    (acc, p)
}

/// Whether `c` is an ASCII decimal digit.
pub fn is_digit_char(c: char) -> (r: bool)
    ensures
        r == is_digit(c),
{
    '0' <= c && c <= '9'
}

fn check_digits(v: &Vec<char>, lo: usize, hi: usize) -> (r: bool)
    requires
        lo <= hi <= v@.len(),
    ensures
        r == all_digits(v@.subrange(lo as int, hi as int)),
{
    let mut i = lo;
    while i < hi
        invariant
            lo <= i <= hi <= v@.len(),
            forall|j: int| lo <= j < i ==> is_digit(v@[j]),
        decreases hi - i,
    {
        if !is_digit_char(v[i]) {
            assert(v@.subrange(lo as int, hi as int)[i - lo] == v@[i as int]);
            return false;
        }
        i = i + 1;
    }
    assert forall|j: int| 0 <= j < hi - lo implies is_digit(#[trigger] v@.subrange(lo as int, hi as int)[j]) by {
        assert(v@.subrange(lo as int, hi as int)[j] == v@[lo + j]);
    }
    true
}

/// Where the parts of a number lie in `v`: whether it is negative, where its
/// digits before the point start and end, and where those after it start.
fn number_layout(v: &Vec<char>) -> (r: Option<(bool, usize, usize, usize)>)
    ensures
        match number_parts(v@) {
            Some(parts) => r matches Some(l) && {
                &&& l.1 <= l.2 <= l.3 <= v@.len()
                &&& parts.0 == l.0
                &&& parts.1 == v@.subrange(l.1 as int, l.2 as int)
                &&& parts.2 == v@.subrange(l.3 as int, v@.len() as int)
            },
            None => r is None,
        },
{
    let n = v.len();
    let neg = n > 0 && v[0] == '-';
    let start: usize = if n > 0 && (v[0] == '-' || v[0] == '+') {
        1
    } else {
        0
    };
    let ghost body = v@.skip(start as int);
    assert(body =~= if v@.len() > 0 && (v@[0] == '-' || v@[0] == '+') {
        v@.drop_first()
    } else {
        v@
    });
    let mut p = start;
    while p < n && v[p] != '.'
        invariant
            start <= p <= n,
            n == v@.len(),
            forall|j: int| start <= j < p ==> v@[j] != '.',
        decreases n - p,
    {
        p = p + 1;
    }
    proof {
        assert forall|j: int| 0 <= j < p - start implies body[j] != '.' by {
            assert(body[j] == v@[start + j]);
        }
        lemma_point_at_unique(body, p - start);
    }
    let frac_lo = if p < n {
        p + 1
    } else {
        n
    };
    assert(body.take(p - start) =~= v@.subrange(start as int, p as int));
    assert(if p - start < body.len() {
        body.skip(p - start + 1)
    } else {
        Seq::<char>::empty()
    } =~= v@.subrange(frac_lo as int, n as int));
    let int_ok = check_digits(v, start, p);
    let frac_ok = check_digits(v, frac_lo, n);
    if !int_ok || !frac_ok || (p - start) + (n - frac_lo) == 0 {
        return None;
    }
    Some((neg, start, p, frac_lo))
}

/// `digits_value(i + f) / 10^|f|`, rounded half to even.
fn rounded_value(v: &Vec<char>, a: usize, p: usize, b: usize) -> (m: u128)
    requires
        a <= p <= b <= v@.len(),
        v@.len() <= 24,
        all_digits(v@.subrange(a as int, p as int)),
        all_digits(v@.subrange(b as int, v@.len() as int)),
    ensures
        m as nat == round_half_even(
            digits_value(v@.subrange(a as int, p as int) + v@.subrange(b as int, v@.len() as int)),
            pow10((v@.len() - b) as nat),
        ),
{
    let n = v.len();
    let ghost ip = v@.subrange(a as int, p as int);
    let ghost fp = v@.subrange(b as int, n as int);
    let mut digits: Vec<char> = Vec::new();
    let mut i = a;
    while i < p
        invariant
            a <= i <= p <= n,
            n == v@.len(),
            digits@ == v@.subrange(a as int, i as int),
        decreases p - i,
    {
        digits.push(v[i]);
        i = i + 1;
        assert(digits@ =~= v@.subrange(a as int, i as int));
    }
    let mut j = b;
    while j < n
        invariant
            b <= j <= n,
            n == v@.len(),
            digits@ == ip + v@.subrange(b as int, j as int),
        decreases n - j,
    {
        digits.push(v[j]);
        j = j + 1;
        assert(digits@ =~= ip + v@.subrange(b as int, j as int));
    }
    assert(digits@.subrange(0, digits@.len() as int) =~= ip + fp);
    assert(all_digits(ip + fp)) by {
        assert forall|k: int| 0 <= k < (ip + fp).len() implies is_digit(#[trigger] (ip + fp)[k]) by {
            if k < ip.len() {
                assert((ip + fp)[k] == ip[k]);
            } else {
                assert((ip + fp)[k] == fp[k - ip.len()]);
            }
        }
    }
    let (value, _) = digits_value_of(&digits, 0, digits.len());
    let (_, unit) = digits_value_of(v, b, n);
    proof {
        lemma_digits_bound(ip + fp);
        lemma_pow10_bound((ip + fp).len());
        lemma_pow10_bound(fp.len());
    }
    let q = value / unit;
    let rem = value % unit;
    if rem > unit - rem {
        q + 1
    } else if rem == unit - rem && q % 2 == 1 {
        q + 1
    } else {
        q
    }
}

/// Whether `s` is a decimal number.
pub fn is_number_text(s: &str) -> (r: bool)
    ensures
        r == is_number(s@),
{
    let v = chars_of(s);
    number_layout(&v).is_some()
}

/// Appends the decimal representation of a wide unsigned integer.
fn push_decimal_wide(s: &mut String, n: u128)
    ensures
        final(s)@ == old(s)@ + decimal(n as nat),
    decreases n,
{
    if n >= 10 {
        push_decimal_wide(s, n / 10);
    }
    push_char(s, digit_char((n % 10) as u64));
    if n >= 10 {
        assert(old(s)@ + decimal(n as nat) =~= old(s)@ + decimal((n / 10) as nat) + seq![
            digit((n % 10) as int),
        ]);
    }
}

/// Appends `rounded_text(t)` for a text of at most 24 characters.
pub fn push_rounded(s: &mut String, t: &str)
    requires
        t@.len() <= 24,
    ensures
        final(s)@ == old(s)@ + rounded_text(t@),
{
    let v = chars_of(t);
    match number_layout(&v) {
        None => s.append(t),
        Some((neg, a, p, b)) => {
            let m = rounded_value(&v, a, p, b);
            if neg {
                push_char(s, '-');
            }
            push_decimal_wide(s, m);
        },
    }
}

// ---------------------------------------------------------------- bounds ---

proof fn lemma_trim_start_len(s: Seq<char>)
    ensures
        trim_start(s).len() <= s.len(),
    decreases s.len(),
{
    if s.len() > 0 && is_ws(s[0]) {
        lemma_trim_start_len(s.drop_first());
    }
}

proof fn lemma_trim_end_len(s: Seq<char>)
    ensures
        trim_end(s).len() <= s.len(),
    decreases s.len(),
{
    if s.len() > 0 && is_ws(s.last()) {
        lemma_trim_end_len(s.drop_last());
    }
}

/// Trimming never lengthens a string.
pub proof fn lemma_trim_len(s: Seq<char>)
    ensures
        trim(s).len() <= s.len(),
{
    lemma_trim_start_len(s);
    lemma_trim_end_len(trim_start(s));
}

proof fn lemma_decimal_len(n: nat, k: nat)
    requires
        n < pow10(k),
        k >= 1,
    ensures
        decimal(n).len() <= k,
    decreases n,
{
    if n >= 10 {
        if k == 1 {
            reveal_with_fuel(pow10, 2);
            assert(false);
        }
        assert(n / 10 < pow10((k - 1) as nat)) by (nonlinear_arith)
            requires
                n < pow10(k),
                pow10(k) == 10 * pow10((k - 1) as nat),
        ;
        lemma_decimal_len(n / 10, (k - 1) as nat);
    }
}

/// A whole `i64` written in decimal takes at most 20 characters.
pub proof fn lemma_signed_len(n: i64)
    ensures
        signed_decimal(n as int).len() <= 20,
{
    reveal_with_fuel(pow10, 20);
    assert(pow10(19) == 10_000_000_000_000_000_000);
    lemma_decimal_len(magnitude(n as int), 19);
}

/// A reading written with no decimals takes at most 17 characters.
pub proof fn lemma_whole_len(m: i64)
    ensures
        whole(m as int).len() <= 17,
{
    let a = magnitude(m as int);
    let q = round_half_even(a, 1000);
    assert(q <= a / 1000 + 1);
    reveal_with_fuel(pow10, 17);
    assert(pow10(16) == 10_000_000_000_000_000);
    lemma_decimal_len(q, 16);
}

} // verus!
