//! Text helpers over `&str`, specified on sequences of characters.

use vstd::prelude::*;

verus! {

/// Whether `c` is white space: the characters with the Unicode property
/// `White_Space`.
pub open spec fn is_space(c: char) -> bool {
    let u = c as u32;
    ||| 0x09 <= u <= 0x0D
    ||| u == 0x20
    ||| u == 0x85
    ||| u == 0xA0
    ||| u == 0x1680
    ||| 0x2000 <= u <= 0x200A
    ||| u == 0x2028
    ||| u == 0x2029
    ||| u == 0x202F
    ||| u == 0x205F
    ||| u == 0x3000
}

/// `s` without its leading white space.
pub open spec fn trimmed_start(s: Seq<char>) -> Seq<char>
    decreases s.len(),
{
    if s.len() > 0 && is_space(s.first()) {
        trimmed_start(s.drop_first())
    } else {
        s
    }
}

/// `s` without its trailing white space.
pub open spec fn trimmed_end(s: Seq<char>) -> Seq<char>
    decreases s.len(),
{
    if s.len() > 0 && is_space(s.last()) {
        trimmed_end(s.drop_last())
    } else {
        s
    }
}

/// `s` without its leading and trailing white space.
pub open spec fn trimmed(s: Seq<char>) -> Seq<char> {
    trimmed_end(trimmed_start(s))
}

/// Whether `s` holds nothing but white space.
pub open spec fn is_blank(s: Seq<char>) -> bool {
    forall|i: int| 0 <= i < s.len() ==> is_space(#[trigger] s[i])
}

/// `s` with every leading repetition of `prefix` removed.
pub open spec fn without_leading(s: Seq<char>, prefix: Seq<char>) -> Seq<char>
    decreases s.len(),
{
    if prefix.len() > 0 && prefix.is_prefix_of(s) {
        without_leading(s.skip(prefix.len() as int), prefix)
    } else {
        s
    }
}

/// The length of the first line of `s`: the number of characters before its
/// first line feed, or all of them.
pub open spec fn line_len(s: Seq<char>) -> nat
    decreases s.len(),
{
    if s.len() == 0 || s.first() == '\n' {
        0
    } else {
        1 + line_len(s.drop_first())
    }
}

/// `line` without the carriage return that it ends with, if any.
pub open spec fn without_cr(line: Seq<char>) -> Seq<char> {
    if line.len() > 0 && line.last() == '\r' {
        line.drop_last()
    } else {
        line
    }
}

/// The first line of `s`, without its line ending (`\n` or `\r\n`). A
/// carriage return that no line feed follows belongs to the line.
pub open spec fn first_line(s: Seq<char>) -> Seq<char> {
    let line = s.take(line_len(s) as int);
    if line_len(s) < s.len() {
        without_cr(line)
    } else {
        line
    }
}

/// What follows the first line of `s` and its line ending.
pub open spec fn after_first_line(s: Seq<char>) -> Seq<char> {
    if line_len(s) < s.len() {
        s.skip(line_len(s) as int + 1)
    } else {
        Seq::empty()
    }
}

/// The lines of `s`, each without its line ending, as `str::lines` gives
/// them. A line ending at the very end opens no further line, so the empty
/// text has no lines.
pub open spec fn lines_of(s: Seq<char>) -> Seq<Seq<char>>
    decreases s.len(),
{
    if s.len() == 0 {
        Seq::empty()
    } else {
        seq![first_line(s)] + lines_of(after_first_line(s))
    }
}

/// The first line of `s` that is not blank, if there is one.
pub open spec fn first_nonblank_line(s: Seq<char>) -> Option<Seq<char>>
    decreases s.len(),
{
    if s.len() == 0 {
        None
    } else if !is_blank(first_line(s)) {
        Some(first_line(s))
    } else {
        first_nonblank_line(after_first_line(s))
    }
}

/// `s` with every occurrence of the character `from` replaced by the text
/// `to`.
pub open spec fn replaced(s: Seq<char>, from: char, to: Seq<char>) -> Seq<char>
    decreases s.len(),
{
    if s.len() == 0 {
        Seq::empty()
    } else if s.last() == from {
        replaced(s.drop_last(), from, to) + to
    } else {
        replaced(s.drop_last(), from, to).push(s.last())
    }
}

/// The decimal digit for `d`, which is below ten.
pub open spec fn digit_char(d: nat) -> char {
    if d == 0 {
        '0'
    } else if d == 1 {
        '1'
    } else if d == 2 {
        '2'
    } else if d == 3 {
        '3'
    } else if d == 4 {
        '4'
    } else if d == 5 {
        '5'
    } else if d == 6 {
        '6'
    } else if d == 7 {
        '7'
    } else if d == 8 {
        '8'
    } else {
        '9'
    }
}

/// The decimal numeral of `n`, without leading zeros.
pub open spec fn decimal(n: nat) -> Seq<char>
    decreases n,
{
    if n < 10 {
        seq![digit_char(n)]
    } else {
        decimal(n / 10).push(digit_char(n % 10))
    }
}

/// The characters of `s`, in order.
pub fn chars_of(s: &str) -> (out: Vec<char>)
    ensures
        out@ == s@,
{
    let mut out: Vec<char> = Vec::new();
    for c in it: s.chars()
        invariant
            it.seq() == s@,
            out@ == s@.take(it.index() as int),
    {
        out.push(c);
        assert(s@.take(it.index() + 1) == s@.take(it.index() as int).push(c));
    }
    out
}

/// Tests `c` for white space.
pub fn is_whitespace(c: char) -> (b: bool)
    ensures
        b == is_space(c),
{
    let u: u32 = c as u32;
    (0x09 <= u && u <= 0x0D) || u == 0x20 || u == 0x85 || u == 0xA0 || u == 0x1680 || (0x2000 <= u
        && u <= 0x200A) || u == 0x2028 || u == 0x2029 || u == 0x202F || u == 0x205F || u == 0x3000
}

/// Tests whether `s` starts with `prefix`.
pub fn starts_with(s: &str, prefix: &str) -> (b: bool)
    ensures
        b == prefix@.is_prefix_of(s@),
{
    let text = chars_of(s);
    let head = chars_of(prefix);
    holds_at(&text, 0, &head)
}

/// Tests whether `s` ends with `suffix`.
pub fn ends_with(s: &str, suffix: &str) -> (b: bool)
    ensures
        b == suffix@.is_suffix_of(s@),
{
    let text = chars_of(s);
    let tail = chars_of(suffix);
    if tail.len() > text.len() {
        return false;
    }
    let at: usize = text.len() - tail.len();
    let found = holds_at(&text, at, &tail);
    proof {
        assert(s@.skip(at as int) == s@.subrange(at as int, at + tail@.len()));
    }
    found
}

/// Tests whether `part` stands in `text` at index `at`.
fn holds_at(text: &Vec<char>, at: usize, part: &Vec<char>) -> (b: bool)
    requires
        at <= text.len(),
    ensures
        b == (at + part@.len() <= text@.len() && text@.subrange(at as int, at + part@.len())
            == part@),
{
    if part.len() > text.len() - at {
        return false;
    }
    let mut i: usize = 0;
    while i < part.len()
        invariant
            at + part@.len() <= text@.len() <= usize::MAX,
            i <= part@.len(),
            text@.subrange(at as int, at + i) == part@.take(i as int),
        decreases part@.len() - i,
    {
        if text[at + i] != part[i] {
            proof {
                let whole = text@.subrange(at as int, at + part@.len());
                assert(whole[i as int] != part@[i as int]);
            }
            return false;
        }
        proof {
            assert(text@.subrange(at as int, at + i + 1) == text@.subrange(at as int, at + i).push(
                text@[at + i],
            ));
            assert(part@.take(i + 1) == part@.take(i as int).push(part@[i as int]));
        }
        i = i + 1;
    }
    proof {
        assert(part@.take(part@.len() as int) == part@);
    }
    true
}

/// Removes the white space at both ends of `s`.
pub fn trim(s: &str) -> (out: String)
    ensures
        out@ == trimmed(s@),
{
    let cs = chars_of(s);
    let n: usize = cs.len();
    let mut a: usize = 0;
    proof {
        assert(cs@.skip(0) == cs@);
    }
    while a < n && is_whitespace(cs[a])
        invariant
            n == cs@.len(),
            a <= n,
            trimmed_start(cs@) == trimmed_start(cs@.skip(a as int)),
        decreases n - a,
    {
        proof {
            assert(cs@.skip(a as int).drop_first() == cs@.skip(a + 1));
        }
        a = a + 1;
    }
    let mut b: usize = n;
    proof {
        assert(cs@.skip(a as int) == cs@.subrange(a as int, n as int));
    }
    while b > a && is_whitespace(cs[b - 1])
        invariant
            n == cs@.len(),
            a <= b <= n,
            trimmed_end(cs@.skip(a as int)) == trimmed_end(cs@.subrange(a as int, b as int)),
        decreases b,
    {
        proof {
            assert(cs@.subrange(a as int, b as int).drop_last() == cs@.subrange(
                a as int,
                b - 1,
            ));
        }
        b = b - 1;
    }
    s.substring_char(a, b).to_owned()
}

/// Removes every leading repetition of `prefix` from `s`.
pub fn strip_leading(s: &str, prefix: &str) -> (out: String)
    ensures
        out@ == without_leading(s@, prefix@),
{
    let cs = chars_of(s);
    let ps = chars_of(prefix);
    let n: usize = cs.len();
    if ps.len() == 0 {
        return s.to_owned();
    }
    let mut at: usize = 0;
    proof {
        assert(cs@.skip(0) == cs@);
    }
    loop
        invariant
            n == cs@.len(),
            ps@.len() > 0,
            at <= n,
            without_leading(cs@, ps@) == without_leading(cs@.skip(at as int), ps@),
        ensures
            at <= n,
            without_leading(cs@, ps@) == cs@.skip(at as int),
        decreases n - at,
    {
        let found = holds_at(&cs, at, &ps);
        proof {
            assert(cs@.skip(at as int).len() == n - at);
            if at + ps@.len() <= n {
                assert(cs@.skip(at as int).subrange(0, ps@.len() as int) == cs@.subrange(
                    at as int,
                    at + ps@.len(),
                ));
            }
            assert(found == ps@.is_prefix_of(cs@.skip(at as int)));
        }
        if !found {
            break;
        }
        proof {
            assert(cs@.skip(at as int).skip(ps@.len() as int) == cs@.skip(at + ps@.len()));
        }
        at = at + ps.len();
    }
    proof {
        assert(cs@.skip(at as int) == cs@.subrange(at as int, n as int));
    }
    s.substring_char(at, n).to_owned()
}

/// The index at which the line that starts at `from` ends: that of its line
/// feed, or the length of `cs`.
fn line_end(cs: &Vec<char>, from: usize) -> (end: usize)
    requires
        from <= cs.len(),
    ensures
        from <= end <= cs.len(),
        end - from == line_len(cs@.skip(from as int)),
{
    let n: usize = cs.len();
    let mut i: usize = from;
    while i < n && cs[i] != '\n'
        invariant
            n == cs@.len(),
            from <= i <= n,
            line_len(cs@.skip(from as int)) == (i - from) + line_len(cs@.skip(i as int)),
        decreases n - i,
    {
        proof {
            assert(cs@.skip(i as int).drop_first() == cs@.skip(i + 1));
        }
        i = i + 1;
    }
    i
}

/// Tests whether `cs` holds nothing but white space from `a` up to `b`.
fn blank_between(cs: &Vec<char>, a: usize, b: usize) -> (blank: bool)
    requires
        a <= b <= cs.len(),
    ensures
        blank == is_blank(cs@.subrange(a as int, b as int)),
{
    let mut i: usize = a;
    while i < b
        invariant
            a <= i <= b <= cs.len(),
            is_blank(cs@.subrange(a as int, i as int)),
        decreases b - i,
    {
        if !is_whitespace(cs[i]) {
            proof {
                assert(cs@.subrange(a as int, b as int)[i - a] == cs@[i as int]);
            }
            return false;
        }
        proof {
            let next = cs@.subrange(a as int, i + 1);
            assert forall|k: int| 0 <= k < next.len() implies is_space(#[trigger] next[k]) by {
                if k < i - a {
                    assert(next[k] == cs@.subrange(a as int, i as int)[k]);
                }
            }
        }
        i = i + 1;
    }
    true
}

/// Where the line of `cs` that starts at `from` stops and ends: `stop` is
/// the index behind its last character, `end` that of its line feed.
fn line_bounds(cs: &Vec<char>, from: usize) -> (bounds: (usize, usize))
    requires
        from < cs.len(),
    ensures
        from <= bounds.0 <= bounds.1 <= cs.len(),
        first_line(cs@.skip(from as int)) == cs@.subrange(from as int, bounds.0 as int),
        bounds.1 == cs.len() ==> after_first_line(cs@.skip(from as int)) == Seq::<char>::empty(),
        bounds.1 < cs.len() ==> after_first_line(cs@.skip(from as int)) == cs@.skip(
            bounds.1 + 1,
        ),
{
    let end = line_end(cs, from);
    let stop: usize = if end < cs.len() && end > from && cs[end - 1] == '\r' {
        end - 1
    } else {
        end
    };
    proof {
        let rest = cs@.skip(from as int);
        let line = rest.take(end - from);
        assert(line == cs@.subrange(from as int, end as int));
        if end > from {
            assert(line.last() == cs@[end - 1]);
            assert(line.drop_last() == cs@.subrange(from as int, end - 1));
        }
        if end < cs.len() {
            assert(rest.skip(end - from + 1) == cs@.skip(end + 1));
        }
    }
    (stop, end)
}

/// The first line of `text` that is not blank, without its line ending.
pub fn first_nonblank(text: &str) -> (line: Option<String>)
    ensures
        line.deep_view() == first_nonblank_line(text@),
{
    let cs = chars_of(text);
    let n: usize = cs.len();
    let mut start: usize = 0;
    proof {
        assert(cs@.skip(0) == cs@);
    }
    while start < n
        invariant
            n == cs@.len(),
            cs@ == text@,
            start <= n,
            first_nonblank_line(cs@) == first_nonblank_line(cs@.skip(start as int)),
        decreases n - start,
    {
        let (stop, end) = line_bounds(&cs, start);
        if !blank_between(&cs, start, stop) {
            let line = text.substring_char(start, stop).to_owned();
            return Some(line);
        }
        if end == n {
            proof {
                assert(first_nonblank_line(Seq::<char>::empty()) == None::<Seq<char>>);
            }
            return None;
        }
        start = end + 1;
    }
    None
}

/// The lines of `text`, each without its line ending.
pub fn split_lines(text: &str) -> (lines: Vec<String>)
    ensures
        lines.deep_view() == lines_of(text@),
{
    let cs = chars_of(text);
    let n: usize = cs.len();
    let mut lines: Vec<String> = Vec::new();
    let mut start: usize = 0;
    proof {
        assert(cs@.skip(0) == cs@);
        assert(lines.deep_view() == Seq::<Seq<char>>::empty());
    }
    while start < n
        invariant
            n == cs@.len(),
            cs@ == text@,
            start <= n,
            lines_of(cs@) == lines.deep_view() + lines_of(cs@.skip(start as int)),
        decreases n - start,
    {
        let (stop, end) = line_bounds(&cs, start);
        let line = text.substring_char(start, stop).to_owned();
        let ghost before = lines.deep_view();
        lines.push(line);
        proof {
            assert(lines.deep_view() == before.push(line@));
            assert(before.push(line@) + lines_of(after_first_line(cs@.skip(start as int)))
                == before + (seq![line@] + lines_of(after_first_line(cs@.skip(start as int)))));
        }
        if end == n {
            start = n;
            proof {
                assert(cs@.skip(n as int) == Seq::<char>::empty());
            }
        } else {
            start = end + 1;
        }
    }
    proof {
        assert(lines.deep_view() + Seq::<Seq<char>>::empty() == lines.deep_view());
    }
    lines
}

/// Replaces every occurrence of the character `from` in `s` by the text `to`.
pub fn replace_char(s: &str, from: char, to: &str) -> (out: String)
    ensures
        out@ == replaced(s@, from, to@),
{
    let cs = chars_of(s);
    let n: usize = cs.len();
    let mut out = String::new();
    let mut i: usize = 0;
    proof {
        assert(cs@.take(0) == Seq::<char>::empty());
    }
    while i < n
        invariant
            n == cs@.len(),
            cs@ == s@,
            i <= n,
            out@ == replaced(cs@.take(i as int), from, to@),
        decreases n - i,
    {
        proof {
            assert(cs@.take(i + 1).drop_last() == cs@.take(i as int));
            assert(cs@.take(i + 1).last() == cs@[i as int]);
        }
        if cs[i] == from {
            out.append(to);
        } else {
            let one = s.substring_char(i, i + 1);
            proof {
                assert(one@ == seq![cs@[i as int]]);
                assert(out@ + one@ == out@.push(cs@[i as int]));
            }
            out.append(one);
        }
        i = i + 1;
    }
    proof {
        assert(cs@.take(n as int) == cs@);
    }
    out
}

/// The text of the decimal digit for `d`.
fn digit_text(d: u64) -> (t: &'static str)
    requires
        d < 10,
    ensures
        t@ == seq![digit_char(d as nat)],
{
    proof {
        reveal_strlit("0");
        reveal_strlit("1");
        reveal_strlit("2");
        reveal_strlit("3");
        reveal_strlit("4");
        reveal_strlit("5");
        reveal_strlit("6");
        reveal_strlit("7");
        reveal_strlit("8");
        reveal_strlit("9");
    }
    let t = if d == 0 {
        "0"
    } else if d == 1 {
        "1"
    } else if d == 2 {
        "2"
    } else if d == 3 {
        "3"
    } else if d == 4 {
        "4"
    } else if d == 5 {
        "5"
    } else if d == 6 {
        "6"
    } else if d == 7 {
        "7"
    } else if d == 8 {
        "8"
    } else {
        "9"
    };
    proof {
        assert(t@ =~= seq![digit_char(d as nat)]);
    }
    t
}

/// Writes `n` as a decimal numeral.
pub fn to_decimal(n: u64) -> (out: String)
    ensures
        out@ == decimal(n as nat),
    decreases n,
{
    if n < 10 {
        digit_text(n).to_owned()
    } else {
        let mut out = to_decimal(n / 10);
        let last = digit_text(n % 10);
        proof {
            assert(out@ + last@ == out@.push(digit_char((n % 10) as nat)));
        }
        out.append(last);
        out
    }
}

/// Appends a copy of `item` to `list`.
pub fn push_text(list: &mut Vec<String>, item: &str)
    ensures
        final(list).deep_view() == old(list).deep_view().push(item@),
{
    let owned = item.to_owned();
    list.push(owned);
    proof {
        assert(list.deep_view() =~= old(list).deep_view().push(item@));
    }
}

} // verus!
