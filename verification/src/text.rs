//! Text primitives: the few calls into `std` that are taken on trust, and the
//! scanners and formatters built on them.

use vstd::prelude::*;
use vstd::string::*;

verus! {

/// What `str::to_lowercase` makes of a text: the Unicode lower-casing of its
/// characters, which depends on the characters alone.
pub uninterp spec fn lowercase(s: Seq<char>) -> Seq<char>;

/// Whether a character is white space: the characters with the Unicode
/// property `White_Space`, which are the ones that `char::is_whitespace`
/// tells.
pub open spec fn white_space(c: char) -> bool {
    let n = c as int;
    (0x09 <= n <= 0x0D) || n == 0x20 || n == 0x85 || n == 0xA0 || n == 0x1680 || (0x2000 <= n
        <= 0x200A) || n == 0x2028 || n == 0x2029 || n == 0x202F || n == 0x205F || n == 0x3000
}

/// `needle` occurs in `hay` as a contiguous run of characters.
pub open spec fn has_substring(hay: Seq<char>, needle: Seq<char>) -> bool {
    exists|i: int|
        0 <= i && i + needle.len() <= hay.len() && #[trigger] hay.subrange(
            i,
            i + needle.len(),
        ) == needle
}

/// Strict lexicographic order of two texts by code point.
pub open spec fn text_lt(a: Seq<char>, b: Seq<char>) -> bool
    decreases a.len(),
{
    if b.len() == 0 {
        false
    } else if a.len() == 0 {
        true
    } else if a[0] != b[0] {
        (a[0] as int) < (b[0] as int)
    } else {
        text_lt(a.drop_first(), b.drop_first())
    }
}

/// `a` does not come after `b`.
pub open spec fn text_le(a: Seq<char>, b: Seq<char>) -> bool {
    !text_lt(b, a)
}

/// The views of a list of strings.
pub open spec fn texts(v: Seq<String>) -> Seq<Seq<char>> {
    v.map_values(|s: String| s@)
}

/// Calls `String::push`: the text afterwards is the text before with `c`
/// appended.
#[verifier::external_body]
pub(crate) fn push_char(s: &mut String, c: char)
    ensures
        final(s)@ == old(s)@.push(c),
{
    s.push(c)
}

/// Calls `String::pop`: removes and returns the last character, or returns
/// `None` and leaves an empty text empty.
#[verifier::external_body]
pub(crate) fn pop_char(s: &mut String) -> (r: Option<char>)
    ensures
        old(s)@.len() == 0 ==> r is None && final(s)@ == old(s)@,
        old(s)@.len() > 0 ==> r == Some(old(s)@.last()) && final(s)@ == old(s)@.drop_last(),
{
    s.pop()
}

/// Calls `str::to_lowercase`; the result is named by [`lowercase`].
#[verifier::external_body]
pub(crate) fn to_lowercase(s: &str) -> (r: String)
    ensures
        r@ == lowercase(s@),
{
    s.to_lowercase()
}

/// Whether a character is white space.
pub fn is_whitespace(c: char) -> (r: bool)
    ensures
        r == white_space(c),
{
    let n: u32 = c as u32;
    (0x09 <= n && n <= 0x0D) || n == 0x20 || n == 0x85 || n == 0xA0 || n == 0x1680 || (0x2000 <= n
        && n <= 0x200A) || n == 0x2028 || n == 0x2029 || n == 0x202F || n == 0x205F || n
        == 0x3000
}

/// The characters of a text, in order.
pub fn chars_of(s: &str) -> (out: Vec<char>)
    ensures
        out@ == s@,
{
    let mut out: Vec<char> = Vec::new();
    for c in it: s.chars()
        invariant
            it.seq() == s@,
            out@ == s@.take(it.index() as int),
    {
        out.push(c);
    }
    out
}

/// The text made of the characters `v[from..to]`.
pub fn text_of(v: &Vec<char>, from: usize, to: usize) -> (out: String)
    requires
        from <= to <= v.len(),
    ensures
        out@ == v@.subrange(from as int, to as int),
{
    let mut out = String::new();
    let mut i: usize = from;
    while i < to
        invariant
            from <= i <= to <= v.len(),
            out@ == v@.subrange(from as int, i as int),
        decreases to - i,
    {
        push_char(&mut out, v[i]);
        i += 1;
        assert(v@.subrange(from as int, i as int) == v@.subrange(from as int, i - 1).push(
            v@[i - 1],
        ));
    }
    out
}

/// Whether `needle` stands in `hay` at the place `at`.
fn stands_at(hay: &Vec<char>, needle: &Vec<char>, at: usize) -> (r: bool)
    requires
        at + needle.len() <= hay.len(),
    ensures
        r == (hay@.subrange(at as int, at + needle.len()) == needle@),
{
    let ghost part = hay@.subrange(at as int, at + needle.len());
    let mut i: usize = 0;
    while i < needle.len()
        invariant
            i <= needle.len(),
            at + needle.len() <= hay.len(),
            part == hay@.subrange(at as int, at + needle.len()),
            part.take(i as int) == needle@.take(i as int),
        decreases needle.len() - i,
    {
        if hay[at + i] != needle[i] {
            assert(part[i as int] != needle@[i as int]);
            return false;
        }
        i += 1;
        assert(part.take(i as int) == part.take(i - 1).push(part[i - 1]));
        assert(needle@.take(i as int) == needle@.take(i - 1).push(needle@[i - 1]));
    }
    assert(part.take(needle.len() as int) == part);
    assert(needle@.take(needle.len() as int) == needle@);
    true
}

/// Whether `needle` occurs somewhere in `hay`.
pub fn contains_text(hay: &str, needle: &str) -> (r: bool)
    ensures
        r == has_substring(hay@, needle@),
{
    let h = chars_of(hay);
    let n = chars_of(needle);
    if n.len() > h.len() {
        return false;
    }
    let last: usize = h.len() - n.len();
    let mut at: usize = 0;
    loop
        invariant
            h@ == hay@,
            n@ == needle@,
            n.len() <= h.len(),
            last == h.len() - n.len(),
            at <= last,
            forall|k: int| 0 <= k < at ==> #[trigger] h@.subrange(k, k + n.len()) != n@,
        decreases last - at,
    {
        if stands_at(&h, &n, at) {
            return true;
        }
        if at == last {
            return false;
        }
        at += 1;
    }
}

/// Whether the text begins with `prefix`.
pub fn starts_with_text(s: &str, prefix: &str) -> (r: bool)
    ensures
        r == prefix@.is_prefix_of(s@),
{
    let x = chars_of(s);
    let p = chars_of(prefix);
    if p.len() > x.len() {
        return false;
    }
    stands_at(&x, &p, 0)
}

/// Whether `a` comes before `b` in the lexicographic order of their code
/// points, which is the order `<` puts two strings in.
pub fn text_before(a: &str, b: &str) -> (r: bool)
    ensures
        r == text_lt(a@, b@),
{
    let x = chars_of(a);
    let y = chars_of(b);
    let mut i: usize = 0;
    assert(x@.skip(0) =~= x@);
    assert(y@.skip(0) =~= y@);
    loop
        invariant
            x@ == a@,
            y@ == b@,
            i <= x.len(),
            i <= y.len(),
            text_lt(a@, b@) == text_lt(x@.skip(i as int), y@.skip(i as int)),
        decreases x.len() - i,
    {
        if i == y.len() {
            return false;
        }
        if i == x.len() {
            return true;
        }
        assert(x@.skip(i as int)[0] == x@[i as int]);
        assert(y@.skip(i as int)[0] == y@[i as int]);
        if x[i] != y[i] {
            return x[i] < y[i];
        }
        assert(x@.skip(i as int).drop_first() =~= x@.skip(i + 1));
        assert(y@.skip(i as int).drop_first() =~= y@.skip(i + 1));
        i += 1;
    }
}

/// `a` followed by `b`.
pub fn concat2(a: &str, b: &str) -> (out: String)
    ensures
        out@ == a@ + b@,
{
    let mut out = String::from_str(a);
    out.append(b);
    out
}

/// `a`, `b` and `c` in a row.
pub fn concat3(a: &str, b: &str, c: &str) -> (out: String)
    ensures
        out@ == a@ + b@ + c@,
{
    let mut out = String::from_str(a);
    out.append(b);
    out.append(c);
    out
}

/// The items of `parts`, each two neighbours separated by `sep`.
pub open spec fn joined(parts: Seq<Seq<char>>, sep: Seq<char>) -> Seq<char>
    decreases parts.len(),
{
    if parts.len() == 0 {
        Seq::empty()
    } else if parts.len() == 1 {
        parts[0]
    } else {
        joined(parts.drop_last(), sep) + sep + parts.last()
    }
}

/// Joins the strings of `parts` with `sep` between neighbours.
pub fn join(parts: &Vec<String>, sep: &str) -> (out: String)
    ensures
        out@ == joined(texts(parts@), sep@),
{
    let mut out = String::new();
    let mut i: usize = 0;
    while i < parts.len()
        invariant
            i <= parts.len(),
            out@ == joined(texts(parts@).take(i as int), sep@),
        decreases parts.len() - i,
    {
        let ghost before = texts(parts@).take(i as int);
        let ghost after = texts(parts@).take(i + 1);
        assert(after.drop_last() == before);
        assert(after.last() == parts@[i as int]@);
        if i > 0 {
            out.append(sep);
        } else {
            assert(before.len() == 0);
            assert(out@ + parts@[i as int]@ == parts@[i as int]@);
        }
        out.append(parts[i].as_str());
        i += 1;
    }
    assert(texts(parts@).take(parts.len() as int) == texts(parts@));
    out
}

/// Whether two texts hold the same characters.
pub fn same_text(a: &str, b: &str) -> (r: bool)
    ensures
        r == (a@ == b@),
{
    let x = chars_of(a);
    let y = chars_of(b);
    if x.len() != y.len() {
        return false;
    }
    let mut i: usize = 0;
    while i < x.len()
        invariant
            x@ == a@,
            y@ == b@,
            x.len() == y.len(),
            i <= x.len(),
            x@.take(i as int) == y@.take(i as int),
        decreases x.len() - i,
    {
        if x[i] != y[i] {
            assert(a@[i as int] != b@[i as int]);
            return false;
        }
        i += 1;
        assert(x@.take(i as int) == x@.take(i - 1).push(x@[i - 1]));
        assert(y@.take(i as int) == y@.take(i - 1).push(y@[i - 1]));
    }
    assert(x@.take(x.len() as int) == x@);
    assert(y@.take(y.len() as int) == y@);
    true
}

/// A copy of a list of strings.
pub fn clone_texts(v: &Vec<String>) -> (out: Vec<String>)
    ensures
        texts(out@) == texts(v@),
{
    let mut out: Vec<String> = Vec::new();
    let mut i: usize = 0;
    while i < v.len()
        invariant
            i <= v.len(),
            out.len() == i,
            texts(out@) == texts(v@).take(i as int),
        decreases v.len() - i,
    {
        let ghost before = out@;
        out.push(v[i].clone());
        i += 1;
        assert forall|k: int| 0 <= k < i implies texts(out@)[k] == texts(v@)[k] by {
            if k < i - 1 {
                assert(texts(before)[k] == texts(v@).take(i - 1)[k]);
            }
        }
        assert(texts(out@) =~= texts(v@).take(i as int));
    }
    assert(texts(v@).take(v.len() as int) == texts(v@));
    out
}

/// The view of an optional string.
pub open spec fn opt_text(o: Option<String>) -> Option<Seq<char>> {
    match o {
        Some(s) => Some(s@),
        None => None,
    }
}

/// A copy of an optional string.
pub fn clone_opt_text(o: &Option<String>) -> (out: Option<String>)
    ensures
        opt_text(out) == opt_text(*o),
{
    match o {
        Some(s) => Some(s.clone()),
        None => None,
    }
}

/// No text comes both before and after another.
pub proof fn text_lt_asymmetric(a: Seq<char>, b: Seq<char>)
    ensures
        text_lt(a, b) ==> !text_lt(b, a),
    decreases a.len(),
{
    if text_lt(a, b) && a.len() > 0 && a[0] == b[0] {
        text_lt_asymmetric(a.drop_first(), b.drop_first());
    }
}

/// Of two texts, one does not come after the other.
pub proof fn text_le_total(a: Seq<char>, b: Seq<char>)
    ensures
        text_le(a, b) || text_le(b, a),
{
    text_lt_asymmetric(a, b);
}

/// "Does not come after" carries over a text in the middle.
pub proof fn text_le_transitive(a: Seq<char>, b: Seq<char>, c: Seq<char>)
    ensures
        text_le(a, b) && text_le(b, c) ==> text_le(a, c),
    decreases a.len(),
{
    if text_lt(c, a) {
        assert(a.len() > 0);
        if b.len() == 0 {
            assert(text_lt(b, a));
        } else if c.len() == 0 {
            assert(text_lt(c, b));
        } else if c[0] != a[0] {
            assert((c[0] as int) < (a[0] as int));
            if b[0] != a[0] && (b[0] as int) < (a[0] as int) {
                assert(text_lt(b, a));
            } else {
                assert((c[0] as int) < (b[0] as int));
                assert(text_lt(c, b));
            }
        } else if b[0] == a[0] {
            text_le_transitive(a.drop_first(), b.drop_first(), c.drop_first());
            assert(text_lt(c.drop_first(), a.drop_first()));
            if text_lt(c.drop_first(), b.drop_first()) {
                assert(text_lt(c, b));
            } else {
                assert(text_lt(b.drop_first(), a.drop_first()));
                assert(text_lt(b, a));
            }
        } else if (b[0] as int) < (a[0] as int) {
            assert(text_lt(b, a));
        } else {
            assert((a[0] as int) != (b[0] as int));
            assert((c[0] as int) < (b[0] as int));
            assert(text_lt(c, b));
        }
    }
}

/// How many characters at the front of `s` are white space (`space` true) or
/// are not (`space` false).
pub open spec fn run_of(s: Seq<char>, space: bool) -> nat
    decreases s.len(),
{
    if s.len() == 0 || white_space(s[0]) != space {
        0
    } else {
        1 + run_of(s.drop_first(), space)
    }
}

/// The words of a text: the maximal runs of characters that are not white
/// space, in order.
pub open spec fn words(s: Seq<char>) -> Seq<Seq<char>>
    decreases s.len(),
{
    let gap = run_of(s, true);
    let word = run_of(s.skip(gap as int), false);
    if word == 0 || gap + word > s.len() {
        Seq::empty()
    } else {
        seq![s.subrange(gap as int, (gap + word) as int)] + words(
            s.subrange((gap + word) as int, s.len() as int),
        )
    }
}

/// The end of the run of white space, or of other characters, that starts at
/// `from`.
fn scan_run(v: &Vec<char>, from: usize, space: bool) -> (to: usize)
    requires
        from <= v.len(),
    ensures
        from <= to <= v.len(),
        to - from == run_of(v@.skip(from as int), space),
{
    let mut to: usize = from;
    while to < v.len() && is_whitespace(v[to]) == space
        invariant
            from <= to <= v.len(),
            run_of(v@.skip(from as int), space) == (to - from) + run_of(v@.skip(to as int), space),
        decreases v.len() - to,
    {
        assert(v@.skip(to as int).drop_first() =~= v@.skip(to + 1));
        to += 1;
    }
    to
}

/// Splits a text at white space into its words.
pub fn split_whitespace(s: &str) -> (out: Vec<String>)
    ensures
        texts(out@) == words(s@),
{
    let v = chars_of(s);
    let mut out: Vec<String> = Vec::new();
    let mut i: usize = 0;
    assert(v@.skip(0) =~= v@);
    assert(texts(out@) + words(v@) =~= words(v@));
    loop
        invariant
            v@ == s@,
            i <= v.len(),
            words(s@) == texts(out@) + words(v@.skip(i as int)),
        decreases v.len() - i,
    {
        let ghost rest = v@.skip(i as int);
        let start = scan_run(&v, i, true);
        assert(rest.skip(start - i) =~= v@.skip(start as int));
        let end = scan_run(&v, start, false);
        if end == start {
            assert(words(rest) == Seq::<Seq<char>>::empty());
            assert(texts(out@) + Seq::<Seq<char>>::empty() =~= texts(out@));
            return out;
        }
        let word = text_of(&v, start, end);
        proof {
            assert(rest.subrange(start - i, end - i) =~= v@.subrange(start as int, end as int));
            assert(rest.subrange(end - i, rest.len() as int) =~= v@.skip(end as int));
            assert(texts(out@.push(word)) =~= texts(out@).push(word@));
            assert(texts(out@) + (seq![word@] + words(v@.skip(end as int))) =~= texts(out@).push(
                word@,
            ) + words(v@.skip(end as int)));
        }
        out.push(word);
        i = end;
    }
}

/// How many characters stand before the first line feed of `s`.
pub open spec fn line_len(s: Seq<char>) -> nat
    decreases s.len(),
{
    if s.len() == 0 || s[0] == '\n' {
        0
    } else {
        1 + line_len(s.drop_first())
    }
}

/// `t` without a carriage return at its end.
pub open spec fn strip_cr(t: Seq<char>) -> Seq<char> {
    if t.len() > 0 && t.last() == '\r' {
        t.drop_last()
    } else {
        t
    }
}

/// The lines of a text: it is cut at each line feed, a carriage return just
/// before a line feed goes with it, and what follows the last line feed is a
/// line only if it is not empty.
pub open spec fn lines(s: Seq<char>) -> Seq<Seq<char>>
    decreases s.len(),
{
    if s.len() == 0 {
        Seq::empty()
    } else {
        let end = line_len(s);
        if end >= s.len() {
            seq![s]
        } else {
            seq![strip_cr(s.take(end as int))] + lines(s.subrange((end + 1) as int, s.len() as int))
        }
    }
}

/// Splits a text into its lines.
pub fn split_lines(s: &str) -> (out: Vec<String>)
    ensures
        texts(out@) == lines(s@),
{
    let v = chars_of(s);
    let mut out: Vec<String> = Vec::new();
    let mut i: usize = 0;
    assert(v@.skip(0) =~= v@);
    assert(texts(out@) + lines(v@) =~= lines(v@));
    while i < v.len()
        invariant
            v@ == s@,
            i <= v.len(),
            lines(s@) == texts(out@) + lines(v@.skip(i as int)),
        decreases v.len() - i,
    {
        let ghost rest = v@.skip(i as int);
        let mut end: usize = i;
        while end < v.len() && v[end] != '\n'
            invariant
                i <= end <= v.len(),
                line_len(v@.skip(i as int)) == (end - i) + line_len(v@.skip(end as int)),
            decreases v.len() - end,
        {
            assert(v@.skip(end as int).drop_first() =~= v@.skip(end + 1));
            end += 1;
        }
        if end == v.len() {
            let line = text_of(&v, i, end);
            proof {
                assert(rest =~= v@.subrange(i as int, end as int));
                assert(texts(out@.push(line)) =~= texts(out@).push(line@));
                assert(texts(out@) + seq![line@] =~= texts(out@).push(line@));
                assert(lines(v@.skip(end as int)) == Seq::<Seq<char>>::empty());
                assert(texts(out@).push(line@) + Seq::<Seq<char>>::empty() =~= texts(out@).push(
                    line@,
                ));
            }
            out.push(line);
            i = end;
        } else {
            let stop = if end > i && v[end - 1] == '\r' {
                end - 1
            } else {
                end
            };
            let line = text_of(&v, i, stop);
            proof {
                assert(rest.take(end - i) =~= v@.subrange(i as int, end as int));
                assert(line@ =~= strip_cr(rest.take(end - i)));
                assert(rest.subrange(end - i + 1, rest.len() as int) =~= v@.skip(end + 1));
                assert(texts(out@.push(line)) =~= texts(out@).push(line@));
                assert(texts(out@) + (seq![line@] + lines(v@.skip(end + 1))) =~= texts(out@).push(
                    line@,
                ) + lines(v@.skip(end + 1)));
            }
            out.push(line);
            i = end + 1;
        }
    }
    assert(lines(v@.skip(i as int)) == Seq::<Seq<char>>::empty());
    assert(texts(out@) + Seq::<Seq<char>>::empty() =~= texts(out@));
    out
}

/// The character of a decimal digit.
pub open spec fn digit(d: nat) -> char {
    if d == 0 {
        '0'
    } else if d == 1 {
        '1'
    } else if d == 2 {
        '2'
    } else if d == 3 {
        '3'
    } else if d == 4 {
        '4'
    } else if d == 5 {
        '5'
    } else if d == 6 {
        '6'
    } else if d == 7 {
        '7'
    } else if d == 8 {
        '8'
    } else {
        '9'
    }
}

/// The decimal digits of a number, without leading zeros.
pub open spec fn digits(n: nat) -> Seq<char>
    decreases n,
{
    if n < 10 {
        seq![digit(n)]
    } else {
        digits(n / 10).push(digit(n % 10))
    }
}

/// A whole number in decimal, with a minus sign if it is negative.
pub open spec fn signed_digits(i: int) -> Seq<char> {
    if i < 0 {
        seq!['-'] + digits((-i) as nat)
    } else {
        digits(i as nat)
    }
}

fn digit_char(d: u128) -> (c: char)
    requires
        d < 10,
    ensures
        c == digit(d as nat),
{
    if d == 0 {
        '0'
    } else if d == 1 {
        '1'
    } else if d == 2 {
        '2'
    } else if d == 3 {
        '3'
    } else if d == 4 {
        '4'
    } else if d == 5 {
        '5'
    } else if d == 6 {
        '6'
    } else if d == 7 {
        '7'
    } else if d == 8 {
        '8'
    } else {
        '9'
    }
}

/// Writes a number in decimal.
pub fn decimal(n: u128) -> (out: String)
    ensures
        out@ == digits(n as nat),
    decreases n,
{
    if n < 10 {
        let mut out = String::new();
        push_char(&mut out, digit_char(n));
        assert(out@ =~= seq![digit(n as nat)]);
        out
    } else {
        let mut out = decimal(n / 10);
        push_char(&mut out, digit_char(n % 10));
        out
    }
}

/// Writes a whole number in decimal, with its sign if negative.
pub fn signed_decimal(i: i32) -> (out: String)
    ensures
        out@ == signed_digits(i as int),
{
    if i < 0 {
        let magnitude: u128 = (-(i as i64)) as u128;
        let body = decimal(magnitude);
        let mut out = String::new();
        push_char(&mut out, '-');
        out.append(body.as_str());
        assert(out@ =~= seq!['-'] + body@);
        out
    } else {
        decimal(i as u128)
    }
}

/// The value of a decimal digit character, if it is one.
pub open spec fn digit_value(c: char) -> Option<nat> {
    if c == '0' {
        Some(0)
    } else if c == '1' {
        Some(1)
    } else if c == '2' {
        Some(2)
    } else if c == '3' {
        Some(3)
    } else if c == '4' {
        Some(4)
    } else if c == '5' {
        Some(5)
    } else if c == '6' {
        Some(6)
    } else if c == '7' {
        Some(7)
    } else if c == '8' {
        Some(8)
    } else if c == '9' {
        Some(9)
    } else {
        None
    }
}

/// Every character of `s` is a decimal digit.
pub open spec fn all_digits(s: Seq<char>) -> bool {
    forall|i: int| 0 <= i < s.len() ==> digit_value(#[trigger] s[i]) is Some
}

/// The number that a run of decimal digits writes.
pub open spec fn number(s: Seq<char>) -> nat
    decreases s.len(),
{
    if s.len() == 0 {
        0
    } else {
        number(s.drop_last()) * 10 + match digit_value(s.last()) {
            Some(d) => d,
            None => 0,
        }
    }
}

/// What a text reads as an 8-bit number: an optional plus sign and then one
/// or more decimal digits that write at most 255.
pub open spec fn parsed_u8(s: Seq<char>) -> Option<u8> {
    let body = if s.len() > 0 && s[0] == '+' {
        s.drop_first()
    } else {
        s
    };
    if body.len() > 0 && all_digits(body) && number(body) <= 255 {
        Some(number(body) as u8)
    } else {
        None
    }
}

fn digit_of(c: char) -> (d: Option<u16>)
    ensures
        match d {
            Some(x) => digit_value(c) == Some(x as nat) && x < 10,
            None => digit_value(c) is None,
        },
{
    if c == '0' {
        Some(0)
    } else if c == '1' {
        Some(1)
    } else if c == '2' {
        Some(2)
    } else if c == '3' {
        Some(3)
    } else if c == '4' {
        Some(4)
    } else if c == '5' {
        Some(5)
    } else if c == '6' {
        Some(6)
    } else if c == '7' {
        Some(7)
    } else if c == '8' {
        Some(8)
    } else if c == '9' {
        Some(9)
    } else {
        None
    }
}

/// Reads a text as an 8-bit number.
pub fn parse_u8(s: &str) -> (r: Option<u8>)
    ensures
        r == parsed_u8(s@),
{
    let v = chars_of(s);
    let start: usize = if v.len() > 0 && v[0] == '+' {
        1
    } else {
        0
    };
    let ghost body = v@.skip(start as int);
    assert(body =~= if s@.len() > 0 && s@[0] == '+' {
        s@.drop_first()
    } else {
        s@
    });
    if start == v.len() {
        return None;
    }
    let mut value: u16 = 0;
    let mut i: usize = start;
    while i < v.len()
        invariant
            start <= i <= v.len(),
            body == v@.skip(start as int),
            parsed_u8(s@) == if body.len() > 0 && all_digits(body) && number(body) <= 255 {
                Some(number(body) as u8)
            } else {
                None
            },
            all_digits(body.take(i - start)),
            value == number(body.take(i - start)),
            value <= 255,
        decreases v.len() - i,
    {
        let ghost seen = body.take(i - start);
        let ghost next = body.take(i - start + 1);
        assert(next.drop_last() =~= seen);
        assert(next.last() == v@[i as int]);
        match digit_of(v[i]) {
            None => {
                assert(digit_value(body[i - start]) is None);
                return None;
            },
            Some(d) => {
                if value * 10 + d > 255 {
                    proof {
                        assert(number(next) == value * 10 + d);
                        number_grows(next, body);
                    }
                    return None;
                }
                value = value * 10 + d;
                assert forall|k: int| 0 <= k < next.len() implies digit_value(
                    #[trigger] next[k],
                ) is Some by {
                    if k < seen.len() {
                        assert(seen[k] == next[k]);
                    }
                }
            },
        }
        i += 1;
    }
    assert(body.take(v.len() - start) =~= body);
    Some(value as u8)
}

/// A run of digits writes at least what any front part of it writes.
pub proof fn number_grows(front: Seq<char>, whole: Seq<char>)
    requires
        front.len() <= whole.len(),
        front == whole.take(front.len() as int),
    ensures
        number(front) <= number(whole),
    decreases whole.len(),
{
    if front.len() < whole.len() {
        assert(whole.drop_last().take(front.len() as int) =~= front);
        number_grows(front, whole.drop_last());
    } else {
        assert(front =~= whole);
    }
}

/// The strings of `v` that are not empty, in order.
pub fn non_empty(v: &Vec<String>) -> (out: Vec<String>)
    ensures
        texts(out@) == texts(v@).filter(|s: Seq<char>| s.len() > 0),
{
    let mut out: Vec<String> = Vec::new();
    let mut i: usize = 0;
    proof {
        reveal(Seq::filter);
    }
    assert(texts(v@).take(0) =~= Seq::<Seq<char>>::empty());
    while i < v.len()
        invariant
            i <= v.len(),
            texts(out@) == texts(v@).take(i as int).filter(|s: Seq<char>| s.len() > 0),
        decreases v.len() - i,
    {
        proof {
            reveal(Seq::filter);
            assert(texts(v@).take(i + 1).drop_last() =~= texts(v@).take(i as int));
        }
        if !v[i].as_str().is_empty() {
            let ghost before = out@;
            out.push(v[i].clone());
            assert(texts(out@) =~= texts(before).push(v@[i as int]@));
        }
        i += 1;
    }
    assert(texts(v@).take(v.len() as int) =~= texts(v@));
    out
}

/// The pieces that `sep` cuts a text into: one more than it has separators,
/// empty pieces included.
pub open spec fn pieces(s: Seq<char>, sep: char) -> Seq<Seq<char>>
    decreases s.len(),
{
    if s.len() == 0 {
        seq![Seq::empty()]
    } else if s.last() == sep {
        pieces(s.drop_last(), sep).push(Seq::empty())
    } else {
        let before = pieces(s.drop_last(), sep);
        before.drop_last().push(before.last().push(s.last()))
    }
}

/// Cuts a text at every `sep`.
pub fn split(s: &str, sep: char) -> (out: Vec<String>)
    ensures
        texts(out@) == pieces(s@, sep),
        out.len() > 0,
{
    let v = chars_of(s);
    let mut done: Vec<String> = Vec::new();
    let mut current = String::new();
    let mut i: usize = 0;
    assert(v@.take(0) =~= Seq::<char>::empty());
    assert(texts(done@).push(current@) =~= seq![Seq::<char>::empty()]);
    while i < v.len()
        invariant
            v@ == s@,
            i <= v.len(),
            pieces(v@.take(i as int), sep) == texts(done@).push(current@),
        decreases v.len() - i,
    {
        let ghost seen = v@.take(i as int);
        let ghost next = v@.take(i + 1);
        assert(next.drop_last() =~= seen);
        assert(next.last() == v@[i as int]);
        let ghost before = texts(done@).push(current@);
        if v[i] == sep {
            let ghost finished = done@;
            done.push(current);
            current = String::new();
            assert(texts(done@) =~= texts(finished).push(before.last()));
            assert(texts(done@).push(current@) =~= before.push(Seq::empty()));
        } else {
            push_char(&mut current, v[i]);
            assert(texts(done@).push(current@) =~= before.drop_last().push(
                before.last().push(v@[i as int]),
            ));
        }
        i += 1;
    }
    assert(v@.take(v.len() as int) =~= v@);
    let ghost finished = done@;
    done.push(current);
    assert(texts(done@) =~= texts(finished).push(current@));
    done
}

/// A list of strings with no string in it.
pub fn no_texts() -> (out: Vec<String>)
    ensures
        texts(out@) == Seq::<Seq<char>>::empty(),
{
    let out: Vec<String> = Vec::new();
    assert(texts(out@) =~= Seq::<Seq<char>>::empty());
    out
}

/// Adds a copy of `t` to the end of `list`.
pub fn add_text(list: &mut Vec<String>, t: &str)
    ensures
        texts(final(list)@) == texts(old(list)@).push(t@),
{
    list.push(String::from_str(t));
    assert(texts(list@) =~= texts(old(list)@).push(t@));
}

/// `t` without the white space at its end.
pub open spec fn trimmed_end(t: Seq<char>) -> Seq<char>
    decreases t.len(),
{
    if t.len() > 0 && white_space(t.last()) {
        trimmed_end(t.drop_last())
    } else {
        t
    }
}

/// `s` without the white space at its two ends.
pub open spec fn trimmed(s: Seq<char>) -> Seq<char> {
    trimmed_end(s.skip(run_of(s, true) as int))
}

/// The text without the white space at its two ends.
pub fn trim(s: &str) -> (out: String)
    ensures
        out@ == trimmed(s@),
{
    let v = chars_of(s);
    let start = scan_run(&v, 0, true);
    assert(v@.skip(0) =~= v@);
    let mut end: usize = v.len();
    assert(v@.subrange(start as int, end as int) =~= v@.skip(start as int));
    while end > start && is_whitespace(v[end - 1])
        invariant
            start <= end <= v.len(),
            trimmed_end(v@.skip(start as int)) == trimmed_end(
                v@.subrange(start as int, end as int),
            ),
        decreases end,
    {
        assert(v@.subrange(start as int, end as int).drop_last() =~= v@.subrange(
            start as int,
            end - 1,
        ));
        end -= 1;
    }
    text_of(&v, start, end)
}

/// How many characters stand before the first `stop` in `s`.
pub open spec fn until(s: Seq<char>, stop: char) -> nat
    decreases s.len(),
{
    if s.len() == 0 || s[0] == stop {
        0
    } else {
        1 + until(s.drop_first(), stop)
    }
}

/// What follows the first `stop` in `s`, if `s` holds one.
pub open spec fn rest_after(s: Seq<char>, stop: char) -> Option<Seq<char>> {
    if until(s, stop) < s.len() {
        Some(s.skip((until(s, stop) + 1) as int))
    } else {
        None
    }
}

/// What follows the first `stop` in the text, if it holds one.
pub fn after_first(s: &str, stop: char) -> (out: Option<String>)
    ensures
        opt_text(out) == rest_after(s@, stop),
{
    let v = chars_of(s);
    let mut i: usize = 0;
    assert(v@.skip(0) =~= v@);
    while i < v.len() && v[i] != stop
        invariant
            i <= v.len(),
            until(v@, stop) == i + until(v@.skip(i as int), stop),
        decreases v.len() - i,
    {
        assert(v@.skip(i as int).drop_first() =~= v@.skip(i + 1));
        i += 1;
    }
    if i < v.len() {
        assert(v@.subrange(i + 1, v.len() as int) =~= v@.skip(i + 1));
        Some(text_of(&v, i + 1, v.len()))
    } else {
        None
    }
}

/// What follows `prefix` in `s`, if `s` begins with it.
pub open spec fn without_prefix(s: Seq<char>, prefix: Seq<char>) -> Option<Seq<char>> {
    if prefix.is_prefix_of(s) {
        Some(s.skip(prefix.len() as int))
    } else {
        None
    }
}

/// What follows `prefix` in the text, if the text begins with it.
pub fn strip_prefix(s: &str, prefix: &str) -> (out: Option<String>)
    ensures
        opt_text(out) == without_prefix(s@, prefix@),
{
    if starts_with_text(s, prefix) {
        let v = chars_of(s);
        let n = prefix.unicode_len();
        assert(v@.subrange(n as int, v.len() as int) =~= v@.skip(n as int));
        Some(text_of(&v, n, v.len()))
    } else {
        None
    }
}

/// Whether the list holds a string with this text.
pub fn holds_text(list: &Vec<String>, t: &str) -> (r: bool)
    ensures
        r == texts(list@).contains(t@),
{
    let mut i: usize = 0;
    while i < list.len()
        invariant
            i <= list.len(),
            forall|k: int| 0 <= k < i ==> texts(list@)[k] != t@,
        decreases list.len() - i,
    {
        if same_text(list[i].as_str(), t) {
            assert(texts(list@)[i as int] == t@);
            return true;
        }
        i += 1;
    }
    assert(texts(list@).len() == list.len());
    false
}

/// The strict order carries over a text in the middle.
pub proof fn text_lt_transitive(a: Seq<char>, b: Seq<char>, c: Seq<char>)
    ensures
        text_lt(a, b) && text_lt(b, c) ==> text_lt(a, c),
{
    text_lt_asymmetric(a, b);
    text_le_transitive(c, a, b);
}

/// Of two different texts, one comes before the other.
pub proof fn text_lt_connected(a: Seq<char>, b: Seq<char>)
    ensures
        a != b ==> text_lt(a, b) || text_lt(b, a),
    decreases a.len(),
{
    if a.len() == 0 || b.len() == 0 {
        if a.len() == 0 && b.len() == 0 {
            assert(a =~= b);
        }
    } else if a[0] == b[0] {
        if a.drop_first() == b.drop_first() {
            assert(a =~= seq![a[0]] + a.drop_first());
            assert(b =~= seq![b[0]] + b.drop_first());
        }
        text_lt_connected(a.drop_first(), b.drop_first());
    } else {
        assert((a[0] as int) < (b[0] as int) || (b[0] as int) < (a[0] as int));
    }
}

/// Adds copies of the strings of `src` to the end of `dst`.
pub fn extend_texts(dst: &mut Vec<String>, src: &Vec<String>)
    ensures
        texts(final(dst)@) == texts(old(dst)@) + texts(src@),
{
    let mut i: usize = 0;
    assert(texts(dst@) =~= texts(old(dst)@) + texts(src@).take(0));
    while i < src.len()
        invariant
            i <= src.len(),
            texts(dst@) == texts(old(dst)@) + texts(src@).take(i as int),
        decreases src.len() - i,
    {
        let ghost before = dst@;
        dst.push(src[i].clone());
        i += 1;
        assert(texts(dst@) =~= texts(before).push(src@[i - 1]@));
        assert(texts(dst@) =~= texts(old(dst)@) + texts(src@).take(i as int));
    }
    assert(texts(src@).take(src.len() as int) =~= texts(src@));
}

} // verus!
