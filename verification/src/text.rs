//! Text primitives: characters, decimal numbers and float literals.
//!
//! Every token of a command line is handled as its sequence of characters.
//! The exec functions here take `&str` or the characters of one and are
//! stated over `Seq<char>`.

use vstd::prelude::*;
use vstd::string::*;

verus! {

/// Whether `c` is one of `0` to `9`.
pub open spec fn is_digit(c: char) -> bool {
    '0' <= c && c <= '9'
}

/// The number that the digit `c` stands for.
pub open spec fn digit_value(c: char) -> nat
    recommends
        is_digit(c),
{
    (c as int - '0' as int) as nat
}

/// Whether `s` holds digits only.
pub open spec fn all_digits(s: Seq<char>) -> bool {
    forall|i: int| 0 <= i < s.len() ==> is_digit(#[trigger] s[i])
}

/// The number that the digits `s` write in base ten; 0 for no digits.
pub open spec fn decimal_value(s: Seq<char>) -> nat
    decreases s.len(),
{
    if s.len() == 0 {
        0
    } else {
        decimal_value(s.drop_last()) * 10 + digit_value(s.last())
    }
}

/// How many digits `s` starts with.
pub open spec fn digit_run(s: Seq<char>) -> nat
    decreases s.len(),
{
    if s.len() > 0 && is_digit(s[0]) {
        1 + digit_run(s.skip(1))
    } else {
        0
    }
}

/// `s` without a leading `+`.
pub open spec fn skip_plus(s: Seq<char>) -> Seq<char> {
    if s.len() > 0 && s[0] == '+' {
        s.skip(1)
    } else {
        s
    }
}

/// `s` without a leading `+` or `-`.
pub open spec fn skip_sign(s: Seq<char>) -> Seq<char> {
    if s.len() > 0 && (s[0] == '+' || s[0] == '-') {
        s.skip(1)
    } else {
        s
    }
}

/// An unsigned decimal number no greater than `max`: an optional `+`, then
/// one or more digits and nothing else.
pub open spec fn unsigned_of(s: Seq<char>, max: nat) -> Option<nat> {
    let d = skip_plus(s);
    if d.len() > 0 && all_digits(d) && decimal_value(d) <= max {
        Some(decimal_value(d))
    } else {
        None
    }
}

/// A signed decimal number between `min` and `max`: an optional `+` or `-`,
/// then one or more digits and nothing else.
pub open spec fn signed_of(s: Seq<char>, min: int, max: int) -> Option<int> {
    let d = skip_sign(s);
    let v = if s.len() > 0 && s[0] == '-' {
        -(decimal_value(d) as int)
    } else {
        decimal_value(d) as int
    };
    if d.len() > 0 && all_digits(d) && min <= v <= max {
        Some(v)
    } else {
        None
    }
}

/// What `s` says as a `u8`, if it is one.
pub open spec fn u8_of(s: Seq<char>) -> Option<u8> {
    match unsigned_of(s, 0xff) {
        Some(n) => Some(n as u8),
        None => None,
    }
}

/// What `s` says as a `u32`, if it is one.
pub open spec fn u32_of(s: Seq<char>) -> Option<u32> {
    match unsigned_of(s, 0xffff_ffff) {
        Some(n) => Some(n as u32),
        None => None,
    }
}

/// What `s` says as an `i32`, if it is one.
pub open spec fn i32_of(s: Seq<char>) -> Option<i32> {
    match signed_of(s, -0x8000_0000, 0x7fff_ffff) {
        Some(n) => Some(n as i32),
        None => None,
    }
}

/// `c` in lower case, for the letters `A` to `Z`; any other character is
/// left as it is.
pub open spec fn lower(c: char) -> char {
    if 'A' <= c && c <= 'Z' {
        ((c as u8 + 32) as u8) as char
    } else {
        c
    }
}

/// Whether `s` is `word` but for the case of its letters. `word` is given in
/// lower case.
pub open spec fn is_word(s: Seq<char>, word: Seq<char>) -> bool {
    s.len() == word.len() && forall|i: int| 0 <= i < s.len() ==> lower(#[trigger] s[i]) == word[i]
}

/// An exponent: `e` or `E`, an optional sign, one or more digits.
pub open spec fn is_exponent(s: Seq<char>) -> bool {
    s.len() > 0 && (s[0] == 'e' || s[0] == 'E') && {
        let d = skip_sign(s.skip(1));
        d.len() > 0 && all_digits(d)
    }
}

/// A decimal number: digits, then optionally a point and digits, with at
/// least one digit in all, then optionally an exponent.
pub open spec fn is_number(s: Seq<char>) -> bool {
    let whole = digit_run(s);
    let after_whole = s.skip(whole as int);
    let pointed = after_whole.len() > 0 && after_whole[0] == '.';
    let after_point = if pointed {
        after_whole.skip(1)
    } else {
        after_whole
    };
    let fraction = if pointed {
        digit_run(after_point)
    } else {
        0
    };
    let rest = after_point.skip(fraction as int);
    whole + fraction > 0 && (rest.len() == 0 || is_exponent(rest))
}

/// The literals that the standard library reads as a floating-point number:
/// an optional sign, then `inf`, `infinity` or `nan` in any case, or a
/// decimal number.
pub open spec fn is_float_literal(s: Seq<char>) -> bool {
    let body = skip_sign(s);
    is_number(body) || is_word(body, "inf"@) || is_word(body, "infinity"@) || is_word(
        body,
        "nan"@,
    )
}

/// How often `c` occurs in `s`.
pub open spec fn count_char(s: Seq<char>, c: char) -> nat
    decreases s.len(),
{
    if s.len() == 0 {
        0
    } else {
        count_char(s.drop_last(), c) + if s.last() == c {
            1nat
        } else {
            0nat
        }
    }
}

/// `s` without the run of `c` that it ends with.
pub open spec fn trim_end(s: Seq<char>, c: char) -> Seq<char>
    decreases s.len(),
{
    if s.len() > 0 && s.last() == c {
        trim_end(s.drop_last(), c)
    } else {
        s
    }
}

/// Whether `sep` stands in `s` at index `i`.
pub open spec fn matches_at(s: Seq<char>, sep: Seq<char>, i: int) -> bool {
    0 <= i && i + sep.len() <= s.len() && s.subrange(i, i + sep.len()) == sep
}

/// The least index at which `sep` stands in `s`, if it stands in it.
pub open spec fn find(s: Seq<char>, sep: Seq<char>) -> Option<int>
    recommends
        sep.len() > 0,
    decreases s.len(),
{
    if s.len() == 0 || s.len() < sep.len() {
        None
    } else if matches_at(s, sep, 0) {
        Some(0)
    } else {
        match find(s.skip(1), sep) {
            Some(i) => Some(i + 1),
            None => None,
        }
    }
}

/// The pieces of `s` between the occurrences of `sep`, found from the left
/// and not overlapping. A text without `sep` is one piece; `n` occurrences
/// give `n + 1` pieces, empty ones included.
pub open spec fn split(s: Seq<char>, sep: Seq<char>) -> Seq<Seq<char>>
    recommends
        sep.len() > 0,
    decreases s.len(),
{
    match find(s, sep) {
        Some(i) => if sep.len() > 0 && 0 <= i && i + sep.len() <= s.len() {
            seq![s.take(i)] + split(s.skip(i + sep.len()), sep)
        } else {
            seq![s]
        },
        None => seq![s],
    }
}

/// The texts of `parts` with `sep` between each two.
pub open spec fn join(parts: Seq<Seq<char>>, sep: Seq<char>) -> Seq<char>
    decreases parts.len(),
{
    if parts.len() == 0 {
        Seq::empty()
    } else if parts.len() == 1 {
        parts[0]
    } else {
        join(parts.drop_last(), sep) + sep + parts.last()
    }
}

/// The character that writes the digit `d`.
pub open spec fn digit_char(d: nat) -> char
    recommends
        d < 10,
{
    (('0' as u8 + d) as u8) as char
}

/// `n` written in base ten, without leading zeros.
pub open spec fn decimal_text(n: nat) -> Seq<char>
    decreases n,
{
    if n < 10 {
        seq![digit_char(n)]
    } else {
        decimal_text(n / 10).push(digit_char(n % 10))
    }
}

/// A decimal prefix never exceeds the whole number.
pub proof fn lemma_decimal_prefix(s: Seq<char>, k: int)
    requires
        0 <= k <= s.len(),
    ensures
        decimal_value(s.take(k)) <= decimal_value(s),
    decreases s.len(),
{
    if k < s.len() {
        assert(s.drop_last().take(k) =~= s.take(k));
        lemma_decimal_prefix(s.drop_last(), k);
    } else {
        assert(s.take(k) =~= s);
    }
}

/// A run of digits is no longer than the text, and as long as the text
/// exactly when the text holds digits only.
pub proof fn lemma_digit_run(s: Seq<char>)
    ensures
        digit_run(s) <= s.len(),
        digit_run(s) == s.len() <==> all_digits(s),
        forall|i: int| 0 <= i < digit_run(s) ==> is_digit(#[trigger] s[i]),
        digit_run(s) < s.len() ==> !is_digit(s[digit_run(s) as int]),
    decreases s.len(),
{
    if s.len() > 0 && is_digit(s[0]) {
        let t = s.skip(1);
        lemma_digit_run(t);
        assert(forall|i: int| 0 <= i < t.len() ==> t[i] == s[i + 1]);
        assert forall|i: int| 0 <= i < digit_run(s) implies is_digit(#[trigger] s[i]) by {
            if i > 0 {
                assert(s[i] == t[i - 1]);
            }
        }
        if all_digits(t) {
            assert forall|i: int| 0 <= i < s.len() implies is_digit(#[trigger] s[i]) by {
                if i > 0 {
                    assert(s[i] == t[i - 1]);
                }
            }
        }
        if all_digits(s) {
            assert forall|i: int| 0 <= i < t.len() implies is_digit(#[trigger] t[i]) by {
                assert(t[i] == s[i + 1]);
            }
        }
    }
}

/// The characters of `s`, in order.
pub fn chars_of(s: &str) -> (v: Vec<char>)
    ensures
        v@ == s@,
{
    let mut v: Vec<char> = Vec::new();
    for c in it: s.chars()
        invariant
            v@ == it.seq().take(it.index() as int),
    {
        v.push(c);
    }
    v
}

/// The characters of `s` from index `from` up to `to`, as a text of their own.
pub fn slice_of(s: &str, from: usize, to: usize) -> (r: String)
    requires
        from <= to <= s@.len(),
    ensures
        r@ == s@.subrange(from as int, to as int),
{
    String::from_str(s.substring_char(from, to))
}

/// Whether two sequences of characters are the same.
pub fn same_chars(a: &Vec<char>, b: &Vec<char>) -> (r: bool)
    ensures
        r == (a@ == b@),
{
    if a.len() != b.len() {
        return false;
    }
    let n: usize = a.len();
    let mut i: usize = 0;
    while i < n
        invariant
            n == a.len(),
            n == b.len(),
            i <= n,
            a@.take(i as int) == b@.take(i as int),
        decreases n - i,
    {
        if a[i] != b[i] {
            return false;
        }
        assert(a@.take(i + 1) =~= a@.take(i as int).push(a@[i as int]));
        assert(b@.take(i + 1) =~= b@.take(i as int).push(b@[i as int]));
        i = i + 1;
    }
    assert(a@.take(n as int) =~= a@);
    assert(b@.take(n as int) =~= b@);
    true
}

/// Whether two texts are the same.
pub fn same_text(a: &str, b: &str) -> (r: bool)
    ensures
        r == (a@ == b@),
{
    let x: Vec<char> = chars_of(a);
    let y: Vec<char> = chars_of(b);
    same_chars(&x, &y)
}

/// Whether `c` occurs in `v`.
pub fn has_char(v: &Vec<char>, c: char) -> (r: bool)
    ensures
        r == v@.contains(c),
{
    let n: usize = v.len();
    let mut i: usize = 0;
    while i < n
        invariant
            n == v.len(),
            i <= n,
            forall|j: int| 0 <= j < i ==> v@[j] != c,
        decreases n - i,
    {
        if v[i] == c {
            return true;
        }
        i = i + 1;
    }
    false
}

/// How often `c` occurs in `v`.
pub fn count_of(v: &Vec<char>, c: char) -> (r: usize)
    ensures
        r == count_char(v@, c),
{
    let n: usize = v.len();
    let mut i: usize = 0;
    let mut k: usize = 0;
    while i < n
        invariant
            n == v.len(),
            i <= n,
            k <= i,
            k == count_char(v@.take(i as int), c),
        decreases n - i,
    {
        assert(v@.take(i + 1).drop_last() =~= v@.take(i as int));
        if v[i] == c {
            k = k + 1;
        }
        i = i + 1;
    }
    assert(v@.take(n as int) =~= v@);
    k
}

/// The length of `v` without the run of `c` that it ends with.
pub fn trimmed_len(v: &Vec<char>, c: char) -> (r: usize)
    ensures
        r <= v.len(),
        v@.take(r as int) == trim_end(v@, c),
{
    let mut n: usize = v.len();
    assert(v@.take(n as int) =~= v@);
    while n > 0 && v[n - 1] == c
        invariant
            n <= v.len(),
            trim_end(v@.take(n as int), c) == trim_end(v@, c),
        decreases n,
    {
        assert(v@.take(n as int).drop_last() =~= v@.take(n - 1));
        n = n - 1;
    }
    n
}

/// The number of digits that `v` holds from index `from` on, up to the first
/// character that is no digit.
pub fn digits_from(v: &Vec<char>, from: usize) -> (r: usize)
    requires
        from <= v.len(),
    ensures
        from + r <= v.len(),
        r == digit_run(v@.skip(from as int)),
{
    let n: usize = v.len();
    let mut i: usize = from;
    while i < n && v[i] >= '0' && v[i] <= '9'
        invariant
            n == v.len(),
            from <= i <= n,
            digit_run(v@.skip(from as int)) == (i - from) + digit_run(v@.skip(i as int)),
        decreases n - i,
    {
        assert(v@.skip(i as int).skip(1) =~= v@.skip(i + 1));
        i = i + 1;
    }
    i - from
}

/// The number that the characters of `v` from index `from` on write in base
/// ten, where they are digits, at least one, and the number is at most `max`.
fn digits_value(v: &Vec<char>, from: usize, max: u64) -> (r: Option<u64>)
    requires
        from <= v.len(),
        max <= 0xffff_ffff,
    ensures
        r == ({
            let d = v@.skip(from as int);
            if d.len() > 0 && all_digits(d) && decimal_value(d) <= max {
                Some(decimal_value(d) as u64)
            } else {
                None
            }
        }),
{
    let n: usize = v.len();
    if from >= n {
        return None;
    }
    let ghost d = v@.skip(from as int);
    let mut acc: u64 = 0;
    let mut i: usize = from;
    assert(d.take(0) =~= Seq::<char>::empty());
    while i < n
        invariant
            n == v.len(),
            from <= i <= n,
            d == v@.skip(from as int),
            all_digits(d.take(i - from)),
            acc == decimal_value(d.take(i - from)),
            acc <= max,
            max <= 0xffff_ffff,
        decreases n - i,
    {
        let c: char = v[i];
        assert(d[i - from] == c);
        if !(c >= '0' && c <= '9') {
            return None;
        }
        let digit: u64 = (c as u32 - '0' as u32) as u64;
        let next: u64 = acc * 10 + digit;
        proof {
            let t = d.take(i + 1 - from);
            assert(t.drop_last() =~= d.take(i - from));
            assert(t.last() == c);
            assert(next == decimal_value(t));
            assert forall|j: int| 0 <= j < t.len() implies is_digit(#[trigger] t[j]) by {
                if j < t.len() - 1 {
                    assert(t[j] == d.take(i - from)[j]);
                }
            }
        }
        if next > max {
            proof {
                lemma_decimal_prefix(d, i + 1 - from);
            }
            return None;
        }
        acc = next;
        i = i + 1;
    }
    assert(d.take(n - from) =~= d);
    Some(acc)
}

/// Reads `s` as a `u8`: an optional `+`, then digits that write a number up to 255.
pub fn parse_u8(s: &str) -> (r: Option<u8>)
    ensures
        r == u8_of(s@),
{
    let v: Vec<char> = chars_of(s);
    let from: usize = if v.len() > 0 && v[0] == '+' {
        1
    } else {
        0
    };
    assert(v@.skip(from as int) =~= skip_plus(s@));
    match digits_value(&v, from, 0xff) {
        Some(x) => Some(x as u8),
        None => None,
    }
}

/// Reads `s` as a `u32`: an optional `+`, then digits that write a number
/// that a `u32` holds.
pub fn parse_u32(s: &str) -> (r: Option<u32>)
    ensures
        r == u32_of(s@),
{
    let v: Vec<char> = chars_of(s);
    let from: usize = if v.len() > 0 && v[0] == '+' {
        1
    } else {
        0
    };
    assert(v@.skip(from as int) =~= skip_plus(s@));
    match digits_value(&v, from, 0xffff_ffff) {
        Some(x) => Some(x as u32),
        None => None,
    }
}

/// Reads `s` as an `i32`: an optional `+` or `-`, then digits that write a
/// number that an `i32` holds.
pub fn parse_i32(s: &str) -> (r: Option<i32>)
    ensures
        r == i32_of(s@),
{
    let v: Vec<char> = chars_of(s);
    let negative: bool = v.len() > 0 && v[0] == '-';
    let from: usize = if v.len() > 0 && (v[0] == '+' || v[0] == '-') {
        1
    } else {
        0
    };
    assert(v@.skip(from as int) =~= skip_sign(s@));
    if negative {
        match digits_value(&v, from, 0x8000_0000) {
            Some(x) => {
                let m: i64 = -(x as i64);
                Some(m as i32)
            },
            None => None,
        }
    } else {
        match digits_value(&v, from, 0x7fff_ffff) {
            Some(x) => Some(x as i32),
            None => None,
        }
    }
}

/// `c` in lower case, for the letters `A` to `Z`.
fn lower_of(c: char) -> (r: char)
    ensures
        r == lower(c),
{
    if c >= 'A' && c <= 'Z' {
        ((c as u8) + 32u8) as char
    } else {
        c
    }
}

/// Whether the characters of `v` from index `from` on are `word`, but for
/// the case of their letters.
fn word_from(v: &Vec<char>, from: usize, word: &str) -> (r: bool)
    requires
        from <= v.len(),
    ensures
        r == is_word(v@.skip(from as int), word@),
{
    let w: Vec<char> = chars_of(word);
    let n: usize = v.len();
    if n - from != w.len() {
        return false;
    }
    let ghost body = v@.skip(from as int);
    let mut i: usize = 0;
    while i < w.len()
        invariant
            n == v.len(),
            from <= n,
            n - from == w.len(),
            i <= w.len(),
            body == v@.skip(from as int),
            w@ == word@,
            forall|j: int| 0 <= j < i ==> lower(#[trigger] body[j]) == w@[j],
        decreases w.len() - i,
    {
        assert(body[i as int] == v@[from + i]);
        if lower_of(v[from + i]) != w[i] {
            return false;
        }
        i = i + 1;
    }
    true
}

/// Whether the characters of `v` from index `from` on are an exponent.
fn exponent_from(v: &Vec<char>, from: usize) -> (r: bool)
    requires
        from <= v.len(),
    ensures
        r == is_exponent(v@.skip(from as int)),
{
    let n: usize = v.len();
    let ghost rest = v@.skip(from as int);
    if from == n {
        return false;
    }
    assert(rest[0] == v@[from as int]);
    if !(v[from] == 'e' || v[from] == 'E') {
        return false;
    }
    let mut j: usize = from + 1;
    assert(rest.skip(1) =~= v@.skip(j as int));
    if j < n && (v[j] == '+' || v[j] == '-') {
        assert(rest.skip(1).skip(1) =~= v@.skip(j + 1));
        j = j + 1;
    }
    assert(v@.skip(j as int) == skip_sign(rest.skip(1)));
    let run: usize = digits_from(v, j);
    proof {
        lemma_digit_run(v@.skip(j as int));
    }
    j < n && run == n - j
}

/// Whether the characters of `v` from index `from` on are a decimal number.
fn number_from(v: &Vec<char>, from: usize) -> (r: bool)
    requires
        from <= v.len(),
    ensures
        r == is_number(v@.skip(from as int)),
{
    let n: usize = v.len();
    let ghost body = v@.skip(from as int);
    let whole: usize = digits_from(v, from);
    let after_whole: usize = from + whole;
    assert(body.skip(whole as int) =~= v@.skip(after_whole as int));
    if after_whole < n && v[after_whole] == '.' {
        let after_point: usize = after_whole + 1;
        assert(body.skip(whole as int).skip(1) =~= v@.skip(after_point as int));
        let fraction: usize = digits_from(v, after_point);
        let rest: usize = after_point + fraction;
        assert(v@.skip(after_point as int).skip(fraction as int) =~= v@.skip(rest as int));
        whole + fraction > 0 && (rest == n || exponent_from(v, rest))
    } else {
        assert(v@.skip(after_whole as int).skip(0) =~= v@.skip(after_whole as int));
        whole > 0 && (after_whole == n || exponent_from(v, after_whole))
    }
}

/// Whether `s` is a literal that the standard library reads as a
/// floating-point number.
pub fn is_float(s: &str) -> (r: bool)
    ensures
        r == is_float_literal(s@),
{
    let v: Vec<char> = chars_of(s);
    let n: usize = v.len();
    let start: usize = if n > 0 && (v[0] == '+' || v[0] == '-') {
        1
    } else {
        0
    };
    assert(v@.skip(start as int) =~= skip_sign(s@));
    number_from(&v, start) || word_from(&v, start, "inf") || word_from(&v, start, "infinity")
        || word_from(&v, start, "nan")
}

/// Looking for `sep` in what follows the first `a` characters is looking
/// for it in the whole, `a` places further on.
pub proof fn lemma_matches_skip(s: Seq<char>, sep: Seq<char>, a: int, j: int)
    requires
        0 <= a <= s.len(),
        0 <= j,
    ensures
        matches_at(s.skip(a), sep, j) == matches_at(s, sep, a + j),
{
    if j + sep.len() <= s.len() - a {
        assert(s.skip(a).subrange(j, j + sep.len()) =~= s.subrange(a + j, a + j + sep.len()));
    }
}

/// A text in which `sep` stands nowhere has no first occurrence of it.
pub proof fn lemma_find_none(s: Seq<char>, sep: Seq<char>)
    requires
        forall|j: int| 0 <= j ==> !matches_at(s, sep, j),
    ensures
        find(s, sep) is None,
    decreases s.len(),
{
    if !(s.len() == 0 || s.len() < sep.len()) {
        assert(!matches_at(s, sep, 0));
        assert forall|j: int| 0 <= j implies !matches_at(s.skip(1), sep, j) by {
            lemma_matches_skip(s, sep, 1, j);
        }
        lemma_find_none(s.skip(1), sep);
    }
}

/// The first occurrence of `sep` is the one before which there is none.
pub proof fn lemma_find_first(s: Seq<char>, sep: Seq<char>, k: int)
    requires
        sep.len() > 0,
        matches_at(s, sep, k),
        forall|j: int| 0 <= j < k ==> !matches_at(s, sep, j),
    ensures
        find(s, sep) == Some(k),
    decreases k,
{
    if k > 0 {
        assert(!matches_at(s, sep, 0));
        lemma_matches_skip(s, sep, 1, k - 1);
        assert forall|j: int| 0 <= j < k - 1 implies !matches_at(s.skip(1), sep, j) by {
            lemma_matches_skip(s, sep, 1, j);
        }
        lemma_find_first(s.skip(1), sep, k - 1);
    }
}

/// A text in which the character `c` does not occur is one piece when it is
/// split at `c`.
pub proof fn lemma_split_without(s: Seq<char>, c: char)
    requires
        !s.contains(c),
    ensures
        split(s, seq![c]) == seq![s],
{
    let sep = seq![c];
    assert forall|j: int| 0 <= j implies !matches_at(s, sep, j) by {
        if matches_at(s, sep, j) {
            assert(s.subrange(j, j + 1)[0] == sep[0]);
            assert(s[j] == c);
        }
    }
    lemma_find_none(s, sep);
}

/// Two texts in which the character `c` does not occur, with `c` between
/// them, are split at `c` into the two.
pub proof fn lemma_split_pair(a: Seq<char>, b: Seq<char>, c: char)
    requires
        !a.contains(c),
        !b.contains(c),
    ensures
        split(a + seq![c] + b, seq![c]) == seq![a, b],
{
    let sep = seq![c];
    let s = a + sep + b;
    let k = a.len() as int;
    assert(s.subrange(k, k + 1) =~= sep);
    assert forall|j: int| 0 <= j < k implies !matches_at(s, sep, j) by {
        if matches_at(s, sep, j) {
            assert(s.subrange(j, j + 1)[0] == sep[0]);
            assert(a[j] == c);
        }
    }
    lemma_find_first(s, sep, k);
    assert(s.take(k) =~= a);
    assert(s.skip(k + 1) =~= b);
    lemma_split_without(b, c);
    assert(seq![a] + seq![b] =~= seq![a, b]);
}

/// Whether `w` stands in `v` at index `i`.
fn stands_at(v: &Vec<char>, w: &Vec<char>, i: usize) -> (r: bool)
    requires
        i + w.len() <= v.len(),
    ensures
        r == matches_at(v@, w@, i as int),
{
    let m: usize = w.len();
    let mut k: usize = 0;
    while k < m
        invariant
            m == w.len(),
            i + m <= v.len(),
            k <= m,
            v@.subrange(i as int, i + k) == w@.take(k as int),
        decreases m - k,
    {
        if v[i + k] != w[k] {
            assert(v@.subrange(i as int, i + m)[k as int] != w@[k as int]);
            return false;
        }
        assert(v@.subrange(i as int, i + k + 1) =~= v@.subrange(i as int, i + k).push(
            v@[i + k],
        ));
        assert(w@.take(k + 1) =~= w@.take(k as int).push(w@[k as int]));
        k = k + 1;
    }
    assert(w@.take(m as int) =~= w@);
    true
}

/// The pieces of `s` between the occurrences of `sep`.
pub fn split_text(s: &str, sep: &str) -> (parts: Vec<String>)
    requires
        sep@.len() > 0,
    ensures
        parts.deep_view() == split(s@, sep@),
        parts.len() >= 1,
{
    let v: Vec<char> = chars_of(s);
    let w: Vec<char> = chars_of(sep);
    let n: usize = v.len();
    let m: usize = w.len();
    let mut parts: Vec<String> = Vec::new();
    let mut start: usize = 0;
    let mut i: usize = 0;
    assert(s@.skip(0) =~= s@);
    assert(parts.deep_view() + split(s@.skip(0), sep@) =~= split(s@, sep@));
    while i < n && m <= n - i
        invariant
            n == v.len(),
            m == w.len(),
            m > 0,
            v@ == s@,
            w@ == sep@,
            start <= i,
            i <= n || i == start,
            start <= n,
            split(s@, sep@) == parts.deep_view() + split(s@.skip(start as int), sep@),
            forall|j: int| 0 <= j < i - start ==> !matches_at(s@.skip(start as int), sep@, j),
        decreases n + m - i,
    {
        let ghost tail = s@.skip(start as int);
        proof {
            lemma_matches_skip(s@, sep@, start as int, i - start);
        }
        if stands_at(&v, &w, i) {
            let piece: String = slice_of(s, start, i);
            proof {
                lemma_find_first(tail, sep@, i - start);
                assert(tail.take(i - start) =~= s@.subrange(start as int, i as int));
                assert(tail.skip(i - start + m) =~= s@.skip(i + m));
                assert(parts.deep_view().push(piece@) + split(s@.skip(i + m), sep@)
                    =~= parts.deep_view() + split(tail, sep@));
            }
            let ghost before = parts.deep_view();
            parts.push(piece);
            assert(parts.deep_view() =~= before.push(piece@));
            i = i + m;
            start = i;
        } else {
            i = i + 1;
        }
    }
    let ghost tail = s@.skip(start as int);
    proof {
        assert forall|j: int| 0 <= j implies !matches_at(tail, sep@, j) by {
            if j >= i - start {
                assert(j + sep@.len() > tail.len());
            }
        }
        lemma_find_none(tail, sep@);
        assert(s@.subrange(start as int, n as int) =~= tail);
    }
    let piece: String = slice_of(s, start, n);
    let ghost before = parts.deep_view();
    parts.push(piece);
    assert(parts.deep_view() =~= before.push(piece@));
    assert(before.push(piece@) =~= before + seq![tail]);
    parts
}

/// The texts of `parts` with `sep` between each two.
pub fn join_texts(parts: &Vec<String>, sep: &str) -> (r: String)
    ensures
        r@ == join(parts.deep_view(), sep@),
{
    let mut r: String = String::new();
    let n: usize = parts.len();
    let ghost all = parts.deep_view();
    let mut i: usize = 0;
    assert(all.take(0) =~= Seq::<Seq<char>>::empty());
    while i < n
        invariant
            n == parts.len(),
            all == parts.deep_view(),
            i <= n,
            r@ == join(all.take(i as int), sep@),
        decreases n - i,
    {
        proof {
            assert(all.take(i + 1).drop_last() =~= all.take(i as int));
            assert(all.take(i + 1).last() == parts@[i as int]@);
            if i == 0 {
                assert(Seq::<char>::empty() + parts@[0]@ =~= parts@[0]@);
            }
        }
        if i > 0 {
            r.append(sep);
        }
        r.append(parts[i].as_str());
        i = i + 1;
    }
    assert(all.take(n as int) =~= all);
    r
}

/// The text of one digit.
fn digit_text(d: u64) -> (r: &'static str)
    requires
        d < 10,
    ensures
        r@ == seq![digit_char(d as nat)],
{
    proof {
        reveal_strlit("0");
        reveal_strlit("1");
        reveal_strlit("2");
        reveal_strlit("3");
        reveal_strlit("4");
        reveal_strlit("5");
        reveal_strlit("6");
        reveal_strlit("7");
        reveal_strlit("8");
        reveal_strlit("9");
    }
    let r: &'static str = if d == 0 {
        "0"
    } else if d == 1 {
        "1"
    } else if d == 2 {
        "2"
    } else if d == 3 {
        "3"
    } else if d == 4 {
        "4"
    } else if d == 5 {
        "5"
    } else if d == 6 {
        "6"
    } else if d == 7 {
        "7"
    } else if d == 8 {
        "8"
    } else {
        "9"
    };
    assert(r@ =~= seq![digit_char(d as nat)]);
    r
}

/// `n` written in base ten.
pub fn decimal_string(n: u64) -> (r: String)
    ensures
        r@ == decimal_text(n as nat),
    decreases n,
{
    if n < 10 {
        String::from_str(digit_text(n))
    } else {
        let mut r: String = decimal_string(n / 10);
        r.append(digit_text(n % 10));
        assert(r@ =~= decimal_text(n as nat));
        r
    }
}

/// The least index at which `w` stands in `v`, if it stands in it.
pub fn find_in(v: &Vec<char>, w: &Vec<char>) -> (r: Option<usize>)
    requires
        w.len() > 0,
    ensures
        match find(v@, w@) {
            Some(i) => r == Some(i as usize) && 0 <= i && i + w.len() <= v.len(),
            None => r is None,
        },
{
    let n: usize = v.len();
    let m: usize = w.len();
    let mut i: usize = 0;
    while i < n && m <= n - i
        invariant
            n == v.len(),
            m == w.len(),
            m > 0,
            forall|j: int| 0 <= j < i ==> !matches_at(v@, w@, j),
        decreases n - i,
    {
        if stands_at(v, w, i) {
            proof {
                lemma_find_first(v@, w@, i as int);
            }
            return Some(i);
        }
        i = i + 1;
    }
    proof {
        assert forall|j: int| 0 <= j implies !matches_at(v@, w@, j) by {
            if j >= i {
                assert(j + w@.len() > v@.len());
            }
        }
        lemma_find_none(v@, w@);
    }
    None
}

/// A whole number written in base ten, with `-` before a negative one.
pub open spec fn int_text(n: int) -> Seq<char> {
    if n < 0 {
        "-"@ + decimal_text((-n) as nat)
    } else {
        decimal_text(n as nat)
    }
}

/// `n` written in base ten, with `-` before a negative number.
pub fn int_string(n: i32) -> (r: String)
    ensures
        r@ == int_text(n as int),
{
    if n < 0 {
        let mut r: String = String::from_str("-");
        r.append(decimal_string((-(n as i64)) as u64).as_str());
        r
    } else {
        decimal_string(n as u64)
    }
}

} // verus!
