//! Text handling on sequences of characters.
//!
//! Strings are viewed as `Seq<char>`. The executable functions work on
//! `Vec<char>` so that a character can be read by its position, and every
//! one of them is specified by a spec function of this module.

use vstd::prelude::*;
use vstd::string::StringExecFns;

verus! {

/// `str`'s `==` from the standard library: two string slices are equal
/// exactly when they hold the same characters.
pub assume_specification[ <str as PartialEq>::eq ](a: &str, b: &str) -> (r: bool)
    ensures
        r == (a@ == b@),
;

/// `String::push` from the standard library: the character is appended to
/// the end of the string.
pub assume_specification[ String::push ](s: &mut String, c: char)
    ensures
        final(s)@ == old(s)@.push(c),
;

/// The characters of a string slice, in order.
pub fn chars_of(s: &str) -> (v: Vec<char>)
    ensures
        v@ == s@,
{
    broadcast use vstd::string::group_string_axioms;

    let mut v: Vec<char> = Vec::new();
    for c in it: s.chars()
        invariant
            it.seq() == s@,
            v@ == s@.take(it.index()),
    {
        v.push(c);
    }
    v
}

/// The string made of the characters `v[from..to]`.
pub fn text_of_range(v: &Vec<char>, from: usize, to: usize) -> (s: String)
    requires
        from <= to <= v.len(),
    ensures
        s@ == v@.subrange(from as int, to as int),
{
    let mut s = String::new();
    let mut i: usize = from;
    while i < to
        invariant
            from <= i <= to <= v.len(),
            s@ == v@.subrange(from as int, i as int),
        decreases to - i,
    {
        s.push(v[i]);
        i += 1;
    }
    s
}

/// The string made of all the characters of `v`.
pub fn text_of(v: &Vec<char>) -> (s: String)
    ensures
        s@ == v@,
{
    let s = text_of_range(v, 0, v.len());
    assert(v@.subrange(0, v.len() as int) == v@);
    s
}

/// The characters `v[from..to]` as a list of their own.
pub fn copy_range(v: &Vec<char>, from: usize, to: usize) -> (r: Vec<char>)
    requires
        from <= to <= v.len(),
    ensures
        r@ == v@.subrange(from as int, to as int),
{
    let mut r: Vec<char> = Vec::new();
    let mut i: usize = from;
    while i < to
        invariant
            from <= i <= to <= v.len(),
            r@ == v@.subrange(from as int, i as int),
        decreases to - i,
    {
        r.push(v[i]);
        i += 1;
    }
    r
}

/// White space as Unicode defines it (the property `White_Space`), which is
/// what trimming removes.
pub open spec fn is_whitespace(c: char) -> bool {
    let n = c as u32;
    ||| 0x09 <= n <= 0x0D
    ||| n == 0x20
    ||| n == 0x85
    ||| n == 0xA0
    ||| n == 0x1680
    ||| 0x2000 <= n <= 0x200A
    ||| n == 0x2028
    ||| n == 0x2029
    ||| n == 0x202F
    ||| n == 0x205F
    ||| n == 0x3000
}

/// Whether `c` is white space.
pub fn char_is_whitespace(c: char) -> (r: bool)
    ensures
        r == is_whitespace(c),
{
    let n: u32 = c as u32;
    (0x09 <= n && n <= 0x0D) || n == 0x20 || n == 0x85 || n == 0xA0 || n == 0x1680 || (0x2000 <= n
        && n <= 0x200A) || n == 0x2028 || n == 0x2029 || n == 0x202F || n == 0x205F || n == 0x3000
}

/// `s` without its leading white space.
pub open spec fn skip_leading_ws(s: Seq<char>) -> Seq<char>
    decreases s.len(),
{
    if s.len() > 0 && is_whitespace(s[0]) {
        skip_leading_ws(s.drop_first())
    } else {
        s
    }
}

/// `s` without its trailing white space.
pub open spec fn skip_trailing_ws(s: Seq<char>) -> Seq<char>
    decreases s.len(),
{
    if s.len() > 0 && is_whitespace(s.last()) {
        skip_trailing_ws(s.drop_last())
    } else {
        s
    }
}

/// `s` with the white space at both ends removed.
pub open spec fn trimmed(s: Seq<char>) -> Seq<char> {
    skip_trailing_ws(skip_leading_ws(s))
}

/// The bounds `(from, to)` of the trimmed part of `v`.
pub fn trim_bounds(v: &Vec<char>) -> (r: (usize, usize))
    ensures
        r.0 <= r.1 <= v.len(),
        v@.subrange(r.0 as int, r.1 as int) == trimmed(v@),
{
    let n = v.len();
    let mut i: usize = 0;
    assert(v@.skip(0) == v@);
    while i < n && char_is_whitespace(v[i])
        invariant
            i <= n == v.len(),
            skip_leading_ws(v@) == skip_leading_ws(v@.skip(i as int)),
        decreases n - i,
    {
        assert(v@.skip(i as int).drop_first() == v@.skip(i as int + 1));
        i += 1;
    }
    assert(skip_leading_ws(v@) == v@.skip(i as int));
    let mut j: usize = n;
    assert(v@.subrange(i as int, n as int) == v@.skip(i as int));
    while j > i && char_is_whitespace(v[j - 1])
        invariant
            i <= j <= n == v.len(),
            trimmed(v@) == skip_trailing_ws(v@.subrange(i as int, j as int)),
        decreases j,
    {
        assert(v@.subrange(i as int, j as int).drop_last() == v@.subrange(i as int, j as int - 1));
        j -= 1;
    }
    (i, j)
}

/// Whether `p` stands at the beginning of `s`.
pub open spec fn is_prefix(p: Seq<char>, s: Seq<char>) -> bool {
    p.len() <= s.len() && s.take(p.len() as int) == p
}

/// Whether `p` stands at the end of `s`.
pub open spec fn is_suffix(p: Seq<char>, s: Seq<char>) -> bool {
    p.len() <= s.len() && s.skip(s.len() - p.len()) == p
}

/// `s` without `p` at its end, or `s` itself where it does not end with `p`.
pub open spec fn strip_suffix(s: Seq<char>, p: Seq<char>) -> Seq<char> {
    if is_suffix(p, s) {
        s.take(s.len() - p.len())
    } else {
        s
    }
}

/// `s` without `p` at its beginning, or `s` itself where it does not begin
/// with `p`.
pub open spec fn strip_prefix(s: Seq<char>, p: Seq<char>) -> Seq<char> {
    if is_prefix(p, s) {
        s.skip(p.len() as int)
    } else {
        s
    }
}

/// Whether `p` stands in `s` at position `at`.
pub open spec fn occurs_at(p: Seq<char>, s: Seq<char>, at: int) -> bool {
    0 <= at && at + p.len() <= s.len() && s.subrange(at, at + p.len()) == p
}

/// Whether `p` occurs somewhere in `s`.
pub open spec fn has_substring(s: Seq<char>, p: Seq<char>) -> bool {
    exists|at: int| occurs_at(p, s, at)
}

/// Whether `p` stands in `v[..end]` at position `at`.
pub fn matches_at(v: &Vec<char>, end: usize, p: &Vec<char>, at: usize) -> (r: bool)
    requires
        end <= v.len(),
    ensures
        r == occurs_at(p@, v@.take(end as int), at as int),
{
    if p.len() > end || at > end - p.len() {
        return false;
    }
    let ghost s = v@.take(end as int);
    let mut k: usize = 0;
    while k < p.len()
        invariant
            k <= p.len(),
            end <= v.len(),
            at + p.len() <= end,
            s == v@.take(end as int),
            s.subrange(at as int, at + k) == p@.take(k as int),
        decreases p.len() - k,
    {
        if v[at + k] != p[k] {
            assert(s.subrange(at as int, at + p.len())[k as int] != p@[k as int]);
            return false;
        }
        assert(s.subrange(at as int, at + k + 1) == s.subrange(at as int, at + k).push(
            s[at + k],
        ));
        assert(p@.take(k as int + 1) == p@.take(k as int).push(p@[k as int]));
        k += 1;
    }
    assert(p@.take(p.len() as int) == p@);
    true
}

/// Whether `v[..end]` ends with `p`.
pub fn ends_with(v: &Vec<char>, end: usize, p: &Vec<char>) -> (r: bool)
    requires
        end <= v.len(),
    ensures
        r == is_suffix(p@, v@.take(end as int)),
{
    if p.len() > end {
        return false;
    }
    let r = matches_at(v, end, p, end - p.len());
    proof {
        let s = v@.take(end as int);
        assert(s.skip(s.len() - p.len()) == s.subrange(end - p.len(), (end - p.len()) + p.len()));
    }
    r
}

/// Whether `v[from..]` begins with `p`.
pub fn starts_with(v: &Vec<char>, p: &Vec<char>) -> (r: bool)
    ensures
        r == is_prefix(p@, v@),
{
    let r = matches_at(v, v.len(), p, 0);
    proof {
        assert(v@.take(v.len() as int) == v@);
        if p.len() <= v.len() {
            assert(v@.take(p.len() as int) == v@.subrange(0, 0 + p.len()));
        }
    }
    r
}

/// Whether `p` occurs somewhere in `v[..end]`.
pub fn contains_text(v: &Vec<char>, end: usize, p: &Vec<char>) -> (r: bool)
    requires
        end <= v.len(),
    ensures
        r == has_substring(v@.take(end as int), p@),
{
    let ghost s = v@.take(end as int);
    if p.len() > end {
        assert(forall|at: int| !occurs_at(p@, s, at));
        return false;
    }
    let last: usize = end - p.len();
    let mut at: usize = 0;
    while at < last
        invariant
            at <= last,
            last == end - p.len(),
            end <= v.len(),
            s == v@.take(end as int),
            forall|k: int| 0 <= k < at ==> !occurs_at(p@, s, k),
        decreases last - at,
    {
        if matches_at(v, end, p, at) {
            return true;
        }
        at += 1;
    }
    let r = matches_at(v, end, p, last);
    assert(!r ==> forall|k: int| !occurs_at(p@, s, k));
    r
}

/// Whether the character `c` occurs in `v[..end]`.
pub fn contains_char(v: &Vec<char>, end: usize, c: char) -> (r: bool)
    requires
        end <= v.len(),
    ensures
        r == v@.take(end as int).contains(c),
{
    let ghost s = v@.take(end as int);
    let mut i: usize = 0;
    while i < end
        invariant
            i <= end <= v.len(),
            s == v@.take(end as int),
            forall|k: int| 0 <= k < i ==> s[k] != c,
        decreases end - i,
    {
        if v[i] == c {
            assert(s[i as int] == c);
            return true;
        }
        i += 1;
    }
    false
}

/// The position just behind the last `c` in `s`, or 0 where `s` holds none.
pub open spec fn after_last_index(s: Seq<char>, c: char) -> int
    decreases s.len(),
{
    if s.len() == 0 {
        0
    } else if s.last() == c {
        s.len() as int
    } else {
        after_last_index(s.drop_last(), c)
    }
}

/// What follows the last `c` in `s`; all of `s` where it holds none.
pub open spec fn after_last(s: Seq<char>, c: char) -> Seq<char> {
    s.skip(after_last_index(s, c))
}

/// The part of `s` behind its last `c` holds no `c`, and `c` stands just
/// before it unless it is all of `s`.
pub proof fn lemma_after_last(s: Seq<char>, c: char)
    ensures
        0 <= after_last_index(s, c) <= s.len(),
        !after_last(s, c).contains(c),
        after_last_index(s, c) > 0 ==> s[after_last_index(s, c) - 1] == c,
        after_last_index(s, c) == 0 ==> !s.contains(c),
    decreases s.len(),
{
    if s.len() == 0 {
    } else if s.last() == c {
        assert(after_last(s, c).len() == 0);
    } else {
        let t = s.drop_last();
        lemma_after_last(t, c);
        let i = after_last_index(t, c);
        assert(after_last(s, c) == after_last(t, c).push(s.last()));
        assert forall|k: int| 0 <= k < after_last(s, c).len() implies after_last(s, c)[k] != c by {
            if k < after_last(t, c).len() {
                assert(after_last(t, c)[k] == after_last(s, c)[k]);
                assert(after_last(t, c).contains(after_last(t, c)[k]));
            }
        }
        if i == 0 {
            assert forall|k: int| 0 <= k < s.len() implies s[k] != c by {
                if k < t.len() {
                    assert(t[k] == s[k]);
                    assert(t.contains(t[k]));
                }
            }
        }
    }
}

/// What follows the last `c` of `a`, `c` and `b` in a row is `b`, where
/// `b` holds no `c`.
pub proof fn lemma_after_last_concat(a: Seq<char>, c: char, b: Seq<char>)
    requires
        !b.contains(c),
    ensures
        after_last(a + seq![c] + b, c) == b,
    decreases b.len(),
{
    let s = a + seq![c] + b;
    if b.len() == 0 {
        assert(s.last() == c);
        assert(s.skip(s.len() as int) =~= b);
    } else {
        assert(s.last() == b.last());
        assert(b.contains(b.last()));
        let t = s.drop_last();
        assert(t =~= a + seq![c] + b.drop_last());
        assert(!b.drop_last().contains(c)) by {
            if b.drop_last().contains(c) {
                let i = choose|i: int| 0 <= i < b.drop_last().len() && b.drop_last()[i] == c;
                assert(b[i] == c);
            }
        }
        lemma_after_last_concat(a, c, b.drop_last());
        lemma_after_last(t, c);
        assert(after_last(t, c).len() == t.len() - after_last_index(t, c));
        assert(after_last_index(s, c) == a.len() + 1);
        assert(s.skip(a.len() as int + 1) =~= b);
    }
}

/// What follows the last `c` of a text without `c` is the text.
pub proof fn lemma_after_last_none(s: Seq<char>, c: char)
    requires
        !s.contains(c),
    ensures
        after_last(s, c) == s,
{
    lemma_after_last(s, c);
    if after_last_index(s, c) > 0 {
        assert(s.contains(s[after_last_index(s, c) - 1]));
    }
    assert(s.skip(0) =~= s);
}

/// A text that neither begins nor ends with white space is its own
/// trimmed form.
pub proof fn lemma_trimmed_clean(s: Seq<char>)
    requires
        s.len() > 0,
        !is_whitespace(s[0]),
        !is_whitespace(s.last()),
    ensures
        trimmed(s) == s,
{
}

/// The position just behind the last `c` in `v[from..to]`, counted in `v`.
pub fn find_after_last(v: &Vec<char>, from: usize, to: usize, c: char) -> (r: usize)
    requires
        from <= to <= v.len(),
    ensures
        from <= r <= to,
        r - from == after_last_index(v@.subrange(from as int, to as int), c),
{
    let ghost s = v@.subrange(from as int, to as int);
    let mut j: usize = to;
    assert(s.take(to - from) == s);
    while j > from
        invariant
            from <= j <= to <= v.len(),
            s == v@.subrange(from as int, to as int),
            after_last_index(s, c) == after_last_index(s.take(j - from), c),
        decreases j,
    {
        if v[j - 1] == c {
            return j;
        }
        assert(s.take(j - from).drop_last() == s.take(j - from - 1));
        j -= 1;
    }
    j
}

/// The decimal digit for `d`, which is below ten.
pub open spec fn digit_char(d: nat) -> char {
    if d == 0 {
        '0'
    } else if d == 1 {
        '1'
    } else if d == 2 {
        '2'
    } else if d == 3 {
        '3'
    } else if d == 4 {
        '4'
    } else if d == 5 {
        '5'
    } else if d == 6 {
        '6'
    } else if d == 7 {
        '7'
    } else if d == 8 {
        '8'
    } else {
        '9'
    }
}

/// `n` written in base ten, without leading zeros.
pub open spec fn decimal(n: nat) -> Seq<char>
    decreases n,
{
    if n < 10 {
        seq![digit_char(n)]
    } else {
        decimal(n / 10).push(digit_char(n % 10))
    }
}

/// `n` written in base ten, with a minus sign where it is negative.
pub open spec fn signed_decimal(n: int) -> Seq<char> {
    if n < 0 {
        seq!['-'] + decimal((-n) as nat)
    } else {
        decimal(n as nat)
    }
}

/// The decimal digit for `d`, which is below ten.
fn digit_of(d: u64) -> (c: char)
    requires
        d < 10,
    ensures
        c == digit_char(d as nat),
{
    if d == 0 {
        '0'
    } else if d == 1 {
        '1'
    } else if d == 2 {
        '2'
    } else if d == 3 {
        '3'
    } else if d == 4 {
        '4'
    } else if d == 5 {
        '5'
    } else if d == 6 {
        '6'
    } else if d == 7 {
        '7'
    } else if d == 8 {
        '8'
    } else {
        '9'
    }
}

/// Appends `n` in base ten to `s`.
pub fn push_decimal(s: &mut String, n: u64)
    ensures
        final(s)@ == old(s)@ + decimal(n as nat),
    decreases n,
{
    if n >= 10 {
        push_decimal(s, n / 10);
    }
    s.push(digit_of(n % 10));
}

/// `n` in base ten.
pub fn decimal_text(n: u64) -> (s: String)
    ensures
        s@ == decimal(n as nat),
{
    let mut s = String::new();
    push_decimal(&mut s, n);
    s
}

/// Appends `n` in base ten to `s`, with a minus sign where it is negative.
pub fn push_signed_decimal(s: &mut String, n: i64)
    ensures
        final(s)@ == old(s)@ + signed_decimal(n as int),
{
    if n < 0 {
        s.push('-');
        let m: u64 = if n == i64::MIN {
            9223372036854775808u64
        } else {
            (-n) as u64
        };
        push_decimal(s, m);
        assert(old(s)@.push('-') + decimal(m as nat) == old(s)@ + (seq!['-'] + decimal(m as nat)));
    } else {
        push_decimal(s, n as u64);
    }
}

/// The concatenation of two pieces of text.
pub fn concat2(a: &str, b: &str) -> (s: String)
    ensures
        s@ == a@ + b@,
{
    let mut s = a.to_owned();
    s.append(b);
    s
}

/// The concatenation of three pieces of text.
pub fn concat3(a: &str, b: &str, c: &str) -> (s: String)
    ensures
        s@ == a@ + b@ + c@,
{
    let mut s = a.to_owned();
    s.append(b);
    s.append(c);
    s
}

/// The concatenation of five pieces of text.
pub fn concat5(a: &str, b: &str, c: &str, d: &str, e: &str) -> (s: String)
    ensures
        s@ == a@ + b@ + c@ + d@ + e@,
{
    let mut s = concat3(a, b, c);
    s.append(d);
    s.append(e);
    s
}

/// What `str::to_lowercase` of the standard library returns for a text.
pub uninterp spec fn lowercase_of(s: Seq<char>) -> Seq<char>;

/// `str::to_lowercase` from the standard library: the lowercase equivalent of
/// the text, as Unicode defines it. The result is named, not spelled out.
#[verifier::external_body]
pub(crate) fn to_lowercase(s: &str) -> (r: String)
    ensures
        r@ == lowercase_of(s@),
{
    s.to_lowercase()
}

/// The texts of a list of strings.
pub open spec fn views(v: Seq<String>) -> Seq<Seq<char>> {
    Seq::new(v.len(), |i: int| v[i]@)
}

/// Whether `a` comes before `b` in the order of strings: the first
/// character in which they differ decides, by its code point, and a proper
/// prefix comes first.
pub open spec fn text_less(a: Seq<char>, b: Seq<char>) -> bool
    decreases a.len(),
{
    if b.len() == 0 {
        false
    } else if a.len() == 0 {
        true
    } else if a[0] != b[0] {
        (a[0] as int) < (b[0] as int)
    } else {
        text_less(a.drop_first(), b.drop_first())
    }
}

/// No text comes before itself.
pub proof fn lemma_text_less_irreflexive(a: Seq<char>)
    ensures
        !text_less(a, a),
    decreases a.len(),
{
    if a.len() > 0 {
        lemma_text_less_irreflexive(a.drop_first());
    }
}

/// Of two different texts one comes before the other.
pub proof fn lemma_text_less_total(a: Seq<char>, b: Seq<char>)
    ensures
        a == b || text_less(a, b) || text_less(b, a),
        !(text_less(a, b) && text_less(b, a)),
    decreases a.len(),
{
    if a.len() == 0 || b.len() == 0 {
        if a.len() == 0 && b.len() == 0 {
            assert(a =~= b);
        }
    } else if a[0] != b[0] {

    } else {
        lemma_text_less_total(a.drop_first(), b.drop_first());
        if a.drop_first() == b.drop_first() {
            assert(a.len() == b.len());
            assert forall|i: int| 0 <= i < a.len() implies a[i] == b[i] by {
                if i > 0 {
                    assert(a[i] == a.drop_first()[i - 1]);
                    assert(b[i] == b.drop_first()[i - 1]);
                }
            }
            assert(a =~= b);
        }
    }
}

/// The order of strings is transitive.
pub proof fn lemma_text_less_transitive(a: Seq<char>, b: Seq<char>, c: Seq<char>)
    requires
        text_less(a, b),
        text_less(b, c),
    ensures
        text_less(a, c),
    decreases a.len(),
{
    if a.len() == 0 {
    } else if a[0] != b[0] {
    } else if b[0] != c[0] {
    } else {
        lemma_text_less_transitive(a.drop_first(), b.drop_first(), c.drop_first());
    }
}

/// Whether `a` comes before `b` in the order of strings.
pub fn text_is_less(a: &Vec<char>, b: &Vec<char>) -> (r: bool)
    ensures
        r == text_less(a@, b@),
{
    let mut i: usize = 0;
    assert(a@.skip(0) == a@ && b@.skip(0) == b@);
    while i < a.len() && i < b.len()
        invariant
            i <= a.len(),
            i <= b.len(),
            text_less(a@, b@) == text_less(a@.skip(i as int), b@.skip(i as int)),
        decreases a.len() - i,
    {
        if a[i] != b[i] {
            let x: char = a[i];
            let y: char = b[i];
            return x < y;
        }
        assert(a@.skip(i as int).drop_first() == a@.skip(i + 1));
        assert(b@.skip(i as int).drop_first() == b@.skip(i + 1));
        i += 1;
    }
    i < b.len()
}

/// The character `c`, `n` times.
pub open spec fn repeated(c: char, n: nat) -> Seq<char> {
    Seq::new(n, |i: int| c)
}

/// `s` filled up with spaces at its end to the width `width`; `s` itself
/// where it is as long or longer.
pub open spec fn padded(s: Seq<char>, width: nat) -> Seq<char> {
    if s.len() >= width {
        s
    } else {
        s + repeated(' ', (width - s.len()) as nat)
    }
}

/// Appends the character `c` to `s`, `n` times.
pub fn push_repeated(s: &mut String, c: char, n: usize)
    ensures
        final(s)@ == old(s)@ + repeated(c, n as nat),
{
    let mut i: usize = 0;
    assert(s@ =~= old(s)@ + repeated(c, 0));
    while i < n
        invariant
            i <= n,
            s@ == old(s)@ + repeated(c, i as nat),
        decreases n - i,
    {
        s.push(c);
        assert(s@ =~= old(s)@ + repeated(c, (i + 1) as nat));
        i += 1;
    }
}

/// Appends `text` to `s`, filled up with spaces to the width `width`.
pub fn push_padded(s: &mut String, text: &str, width: usize)
    ensures
        final(s)@ == old(s)@ + padded(text@, width as nat),
{
    let n = text.unicode_len();
    s.append(text);
    if n < width {
        push_repeated(s, ' ', width - n);
        assert(s@ =~= old(s)@ + padded(text@, width as nat));
    }
}

/// The position of the first `c` in `s`, or the length of `s` where it
/// holds none.
pub open spec fn first_index_of(s: Seq<char>, c: char) -> int
    decreases s.len(),
{
    if s.len() == 0 {
        0
    } else if s[0] == c {
        0
    } else {
        1 + first_index_of(s.drop_first(), c)
    }
}

/// The first `c` of `s` lies within `s` or at its end, and no `c` stands
/// before it.
pub proof fn lemma_first_index_of(s: Seq<char>, c: char)
    ensures
        0 <= first_index_of(s, c) <= s.len(),
        first_index_of(s, c) < s.len() ==> s[first_index_of(s, c)] == c,
        forall|i: int| 0 <= i < first_index_of(s, c) ==> s[i] != c,
    decreases s.len(),
{
    if s.len() > 0 && s[0] != c {
        lemma_first_index_of(s.drop_first(), c);
        assert forall|i: int| 0 <= i < first_index_of(s, c) implies s[i] != c by {
            if i > 0 {
                assert(s[i] == s.drop_first()[i - 1]);
            }
        }
    }
}

/// The lines of a text: what stands between its newlines. A newline at
/// the end of the text ends the last line and begins no other.
pub open spec fn lines_of(s: Seq<char>) -> Seq<Seq<char>>
    decreases s.len(),
{
    if s.len() == 0 {
        Seq::empty()
    } else {
        let k = first_index_of(s, '\n');
        if 0 <= k < s.len() {
            seq![s.take(k)] + lines_of(s.skip(k + 1))
        } else {
            seq![s]
        }
    }
}

/// The lines of a text, each with the white space at its ends removed.
pub open spec fn trimmed_lines_of(s: Seq<char>) -> Seq<Seq<char>> {
    Seq::new(lines_of(s).len(), |i: int| trimmed(lines_of(s)[i]))
}

/// The lines of a text, each with the white space at its ends removed.
pub fn trimmed_lines(text: &str) -> (r: Vec<String>)
    ensures
        views(r@) == trimmed_lines_of(text@),
{
    let v = chars_of(text);
    let mut r: Vec<String> = Vec::new();
    let mut start: usize = 0;
    let ghost mut done: Seq<Seq<char>> = Seq::empty();
    assert(v@.skip(0) == v@);
    while start < v.len()
        invariant
            start <= v.len(),
            v@ == text@,
            lines_of(v@) == done + lines_of(v@.skip(start as int)),
            r@.len() == done.len(),
            forall|i: int| 0 <= i < done.len() ==> (#[trigger] r@[i])@ == trimmed(done[i]),
        decreases v.len() - start,
    {
        let ghost rest = v@.skip(start as int);
        let mut end: usize = start;
        while end < v.len() && v[end] != '\n'
            invariant
                start <= end <= v.len(),
                rest == v@.skip(start as int),
                first_index_of(rest, '\n') == (end - start) + first_index_of(
                    v@.skip(end as int),
                    '\n',
                ),
            decreases v.len() - end,
        {
            assert(v@.skip(end as int).drop_first() == v@.skip(end + 1));
            end += 1;
        }
        proof {
            lemma_first_index_of(v@.skip(end as int), '\n');
            assert(first_index_of(rest, '\n') == end - start);
            assert(rest.take(end - start) == v@.subrange(start as int, end as int));
        }
        let line = copy_range(&v, start, end);
        let (from, to) = trim_bounds(&line);
        r.push(text_of_range(&line, from, to));
        proof {
            if end < v.len() {
                assert(rest.skip(end - start + 1) == v@.skip(end + 1));
                assert(done + (seq![line@] + lines_of(v@.skip(end + 1))) =~= done.push(line@)
                    + lines_of(v@.skip(end + 1)));
            } else {
                assert(rest.take(rest.len() as int) == rest);
                assert(lines_of(v@.skip(v.len() as int)) =~= Seq::<Seq<char>>::empty());
                assert(done + seq![rest] =~= done.push(line@) + Seq::<Seq<char>>::empty());
            }
            done = done.push(line@);
        }
        if end < v.len() {
            start = end + 1;
        } else {
            start = end;
        }
    }
    proof {
        assert(lines_of(v@.skip(start as int)) =~= Seq::<Seq<char>>::empty());
        assert(done + Seq::<Seq<char>>::empty() =~= done);
        assert(views(r@) =~= trimmed_lines_of(text@));
    }
    r
}

} // verus!
