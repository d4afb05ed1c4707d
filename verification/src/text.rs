//! Text operations on `&str`, specified over the `Seq<char>` the string denotes.

use vstd::prelude::*;
use vstd::string::StringExecFns;

verus! {

/// The characters of `s`, in order.
pub fn chars_of(s: &str) -> (out: Vec<char>)
    ensures
        out@ == s@,
{
    let mut out: Vec<char> = Vec::new();
    for c in it: s.chars()
        invariant
            out@ == it.seq().take(it.index() as int),
            it.seq() == s@,
    {
        out.push(c);
    }
    out
}

/// What an optional string slice denotes.
pub open spec fn text_of(s: Option<&str>) -> Option<Seq<char>> {
    match s {
        Some(t) => Some(t@),
        None => None,
    }
}

/// Whether `c` is whitespace in the sense of Unicode (`White_Space`).
pub open spec fn is_whitespace(c: char) -> bool {
    let n = c as u32;
    ||| 0x09 <= n <= 0x0D
    ||| n == 0x20
    ||| n == 0x85
    ||| n == 0xA0
    ||| n == 0x1680
    ||| 0x2000 <= n <= 0x200A
    ||| n == 0x2028
    ||| n == 0x2029
    ||| n == 0x202F
    ||| n == 0x205F
    ||| n == 0x3000
}

/// Whether `c` is whitespace.
pub fn char_is_whitespace(c: char) -> (b: bool)
    ensures
        b == is_whitespace(c),
{
    let n: u32 = c as u32;
    (0x09 <= n && n <= 0x0D) || n == 0x20 || n == 0x85 || n == 0xA0 || n == 0x1680 || (0x2000 <= n
        && n <= 0x200A) || n == 0x2028 || n == 0x2029 || n == 0x202F || n == 0x205F || n == 0x3000
}

/// Whether the two strings hold the same characters.
pub fn str_eq(a: &str, b: &str) -> (same: bool)
    ensures
        same == (a@ == b@),
{
    let x = chars_of(a);
    let y = chars_of(b);
    if x.len() != y.len() {
        return false;
    }
    let mut i: usize = 0;
    while i < x.len()
        invariant
            i <= x.len(),
            x.len() == y.len(),
            x@ == a@,
            y@ == b@,
            forall|j: int| 0 <= j < i ==> x@[j] == y@[j],
        decreases x.len() - i,
    {
        if x[i] != y[i] {
            return false;
        }
        i += 1;
    }
    assert(x@ =~= y@);
    true
}

/// Whether `s` begins with `prefix`.
pub fn starts_with(s: &str, prefix: &str) -> (b: bool)
    ensures
        b == prefix@.is_prefix_of(s@),
{
    let x = chars_of(s);
    let p = chars_of(prefix);
    if p.len() > x.len() {
        return false;
    }
    let mut i: usize = 0;
    while i < p.len()
        invariant
            i <= p.len() <= x.len(),
            x@ == s@,
            p@ == prefix@,
            forall|j: int| 0 <= j < i ==> x@[j] == p@[j],
        decreases p.len() - i,
    {
        if x[i] != p[i] {
            assert(x@.subrange(0, p@.len() as int)[i as int] == x@[i as int]);
            return false;
        }
        i += 1;
    }
    assert(p@ =~= x@.subrange(0, p@.len() as int));
    true
}

/// Whether `s` ends with `suffix`.
pub fn ends_with(s: &str, suffix: &str) -> (b: bool)
    ensures
        b == suffix@.is_suffix_of(s@),
{
    let x = chars_of(s);
    let p = chars_of(suffix);
    if p.len() > x.len() {
        return false;
    }
    let shift: usize = x.len() - p.len();
    let mut i: usize = 0;
    while i < p.len()
        invariant
            i <= p.len() <= x.len(),
            shift == x.len() - p.len(),
            x@ == s@,
            p@ == suffix@,
            forall|j: int| 0 <= j < i ==> x@[shift + j] == p@[j],
        decreases p.len() - i,
    {
        if x[shift + i] != p[i] {
            assert(x@.subrange(shift as int, x@.len() as int)[i as int] == x@[shift + i]);
            return false;
        }
        i += 1;
    }
    assert(p@ =~= x@.subrange(shift as int, x@.len() as int));
    true
}

/// Where `c` first occurs in `s`; the length of `s` if it does not occur.
pub open spec fn position(s: Seq<char>, c: char) -> int
    decreases s.len(),
{
    if s.len() == 0 || s[0] == c {
        0
    } else {
        1 + position(s.drop_first(), c)
    }
}

/// `position` is the one index before which `c` is absent and at which,
/// inside `s`, `c` stands.
pub proof fn lemma_position_is(s: Seq<char>, c: char, i: int)
    requires
        0 <= i <= s.len(),
        forall|j: int| 0 <= j < i ==> s[j] != c,
        i < s.len() ==> s[i] == c,
    ensures
        position(s, c) == i,
    decreases s.len(),
{
    if s.len() == 0 || s[0] == c {
    } else {
        let t = s.drop_first();
        assert forall|j: int| 0 <= j < i - 1 implies t[j] != c by {
            assert(t[j] == s[j + 1]);
        }
        lemma_position_is(t, c, i - 1);
    }
}

pub proof fn lemma_position_bounds(s: Seq<char>, c: char)
    ensures
        0 <= position(s, c) <= s.len(),
        forall|j: int| 0 <= j < position(s, c) ==> s[j] != c,
        position(s, c) < s.len() ==> s[position(s, c)] == c,
    decreases s.len(),
{
    if s.len() == 0 || s[0] == c {
    } else {
        let t = s.drop_first();
        lemma_position_bounds(t, c);
        assert forall|j: int| 0 <= j < position(s, c) implies s[j] != c by {
            if j > 0 {
                assert(t[j - 1] == s[j]);
            }
        }
    }
}

/// The index of the first `c` in `s`.
pub fn find_char(s: &str, c: char) -> (at: Option<usize>)
    ensures
        match at {
            Some(i) => i == position(s@, c) && i < s@.len(),
            None => position(s@, c) == s@.len(),
        },
{
    let x = chars_of(s);
    let mut i: usize = 0;
    while i < x.len()
        invariant
            i <= x.len(),
            x@ == s@,
            forall|j: int| 0 <= j < i ==> x@[j] != c,
        decreases x.len() - i,
    {
        if x[i] == c {
            proof {
                lemma_position_is(s@, c, i as int);
            }
            return Some(i);
        }
        i += 1;
    }
    proof {
        lemma_position_is(s@, c, i as int);
    }
    None
}

/// How many whitespace characters `s` begins with.
pub open spec fn leading_whitespace(s: Seq<char>) -> int
    decreases s.len(),
{
    if s.len() == 0 || !is_whitespace(s[0]) {
        0
    } else {
        1 + leading_whitespace(s.drop_first())
    }
}

/// How many whitespace characters `s` ends with.
pub open spec fn trailing_whitespace(s: Seq<char>) -> int
    decreases s.len(),
{
    if s.len() == 0 || !is_whitespace(s.last()) {
        0
    } else {
        1 + trailing_whitespace(s.drop_last())
    }
}

/// `s` without its leading whitespace.
pub open spec fn trim_start(s: Seq<char>) -> Seq<char> {
    s.skip(leading_whitespace(s))
}

/// `s` without its trailing whitespace.
pub open spec fn trim_end(s: Seq<char>) -> Seq<char> {
    s.take(s.len() - trailing_whitespace(s))
}

/// `s` without leading and trailing whitespace.
pub open spec fn trim(s: Seq<char>) -> Seq<char> {
    trim_end(trim_start(s))
}

pub proof fn lemma_leading_is(s: Seq<char>, i: int)
    requires
        0 <= i <= s.len(),
        forall|j: int| 0 <= j < i ==> is_whitespace(s[j]),
        i < s.len() ==> !is_whitespace(s[i]),
    ensures
        leading_whitespace(s) == i,
    decreases s.len(),
{
    if s.len() == 0 || !is_whitespace(s[0]) {
    } else {
        let t = s.drop_first();
        assert forall|j: int| 0 <= j < i - 1 implies is_whitespace(t[j]) by {
            assert(t[j] == s[j + 1]);
        }
        lemma_leading_is(t, i - 1);
    }
}

pub proof fn lemma_trailing_is(s: Seq<char>, k: int)
    requires
        0 <= k <= s.len(),
        forall|j: int| s.len() - k <= j < s.len() ==> is_whitespace(s[j]),
        k < s.len() ==> !is_whitespace(s[s.len() - k - 1]),
    ensures
        trailing_whitespace(s) == k,
    decreases s.len(),
{
    if s.len() == 0 || !is_whitespace(s.last()) {
    } else {
        let t = s.drop_last();
        assert forall|j: int| t.len() - (k - 1) <= j < t.len() implies is_whitespace(t[j]) by {
            assert(t[j] == s[j]);
        }
        lemma_trailing_is(t, k - 1);
    }
}

/// `s` without its leading whitespace.
pub fn trim_start_of<'a>(s: &'a str) -> (out: &'a str)
    ensures
        out@ == trim_start(s@),
{
    let x = chars_of(s);
    let mut start: usize = 0;
    while start < x.len() && char_is_whitespace(x[start])
        invariant
            start <= x.len(),
            forall|j: int| 0 <= j < start ==> is_whitespace(x@[j]),
        decreases x.len() - start,
    {
        start += 1;
    }
    proof {
        lemma_leading_is(x@, start as int);
    }
    s.substring_char(start, x.len())
}

/// `s` without leading and trailing whitespace.
pub fn trim_of<'a>(s: &'a str) -> (out: &'a str)
    ensures
        out@ == trim(s@),
{
    let x = chars_of(s);
    let mut start: usize = 0;
    while start < x.len() && char_is_whitespace(x[start])
        invariant
            start <= x.len(),
            forall|j: int| 0 <= j < start ==> is_whitespace(x@[j]),
        decreases x.len() - start,
    {
        start += 1;
    }
    let mut end: usize = x.len();
    while end > start && char_is_whitespace(x[end - 1])
        invariant
            start <= end <= x.len(),
            forall|j: int| end <= j < x.len() ==> is_whitespace(x@[j]),
        decreases end,
    {
        end -= 1;
    }
    proof {
        lemma_leading_is(x@, start as int);
        let rest = x@.skip(start as int);
        assert forall|j: int| rest.len() - (x.len() - end) <= j < rest.len() implies is_whitespace(
            rest[j],
        ) by {
            assert(rest[j] == x@[j + start]);
        }
        lemma_trailing_is(rest, x.len() - end);
        assert(rest.take(rest.len() - (x.len() - end)) =~= x@.subrange(start as int, end as int));
    }
    s.substring_char(start, end)
}

/// The view of each string slice in `v`.
pub open spec fn views_of(v: Seq<&str>) -> Seq<Seq<char>> {
    Seq::new(v.len(), |i: int| v[i]@)
}

/// `line` without one trailing carriage return.
pub open spec fn without_cr(line: Seq<char>) -> Seq<char> {
    if line.len() > 0 && line.last() == '\r' {
        line.drop_last()
    } else {
        line
    }
}

/// The lines of `s`: each ends at a line feed, which is dropped together with
/// a carriage return directly before it; what follows the last line feed is a
/// line if it is not empty.
pub open spec fn lines(s: Seq<char>) -> Seq<Seq<char>>
    decreases s.len(),
{
    if s.len() == 0 {
        Seq::empty()
    } else {
        let i = position(s, '\n');
        if 0 <= i < s.len() {
            seq![without_cr(s.take(i))] + lines(s.skip(i + 1))
        } else {
            seq![s]
        }
    }
}

/// The lines of `s`.
pub fn lines_of<'a>(s: &'a str) -> (out: Vec<&'a str>)
    ensures
        views_of(out@) == lines(s@),
{
    let x = chars_of(s);
    let mut out: Vec<&'a str> = Vec::new();
    let mut pos: usize = 0;
    assert(s@.skip(0) =~= s@);
    assert(views_of(out@) + lines(s@.skip(0)) =~= lines(s@));
    while pos < x.len()
        invariant
            pos <= x.len(),
            x@ == s@,
            views_of(out@) + lines(s@.skip(pos as int)) == lines(s@),
        decreases x.len() - pos,
    {
        let mut i: usize = pos;
        while i < x.len() && x[i] != '\n'
            invariant
                pos <= i <= x.len(),
                forall|j: int| pos <= j < i ==> x@[j] != '\n',
            decreases x.len() - i,
        {
            i += 1;
        }
        let ghost rest = s@.skip(pos as int);
        let ghost before = views_of(out@);
        proof {
            assert forall|j: int| 0 <= j < i - pos implies rest[j] != '\n' by {
                assert(rest[j] == x@[j + pos]);
            }
            lemma_position_is(rest, '\n', i - pos);
        }
        if i == x.len() {
            let line = s.substring_char(pos, i);
            out.push(line);
            proof {
                assert(line@ =~= rest);
                assert(lines(rest) =~= seq![rest]);
                assert(s@.skip(i as int).len() == 0);
                assert(views_of(out@) =~= before + seq![rest]);
                assert(views_of(out@) + lines(s@.skip(i as int)) =~= before + lines(rest));
            }
            pos = i;
        } else {
            let end: usize = if i > pos && x[i - 1] == '\r' {
                i - 1
            } else {
                i
            };
            let line = s.substring_char(pos, end);
            out.push(line);
            proof {
                let raw = rest.take(i - pos);
                assert(raw =~= s@.subrange(pos as int, i as int));
                if i > pos {
                    assert(raw.last() == x@[i - 1]);
                }
                assert(line@ =~= without_cr(raw));
                assert(rest.skip(i - pos + 1) =~= s@.skip(i + 1));
                assert(lines(rest) =~= seq![without_cr(raw)] + lines(s@.skip(i + 1)));
                assert(views_of(out@) =~= before + seq![without_cr(raw)]);
                assert(views_of(out@) + lines(s@.skip(i + 1)) =~= before + lines(rest));
            }
            pos = i + 1;
        }
    }
    assert(s@.skip(pos as int).len() == 0);
    assert(views_of(out@) + lines(s@.skip(pos as int)) =~= views_of(out@));
    out
}

/// Whether `needle` stands in `s` from index `i` on.
pub open spec fn occurs_at(s: Seq<char>, needle: Seq<char>, i: int) -> bool {
    0 <= i && i + needle.len() <= s.len() && s.subrange(i, i + needle.len()) == needle
}

/// Whether `needle` occurs somewhere in `s`.
pub open spec fn contains(s: Seq<char>, needle: Seq<char>) -> bool {
    exists|i: int| occurs_at(s, needle, i)
}

/// Whether `needle` occurs somewhere in `s`.
pub fn contains_str(s: &str, needle: &str) -> (found: bool)
    ensures
        found == contains(s@, needle@),
{
    let x = chars_of(s);
    let n = chars_of(needle);
    if n.len() > x.len() {
        return false;
    }
    let last: usize = x.len() - n.len();
    let mut i: usize = 0;
    while i <= last
        invariant
            i <= last + 1,
            last == x.len() - n.len(),
            x@ == s@,
            n@ == needle@,
            forall|k: int| 0 <= k < i ==> !occurs_at(s@, needle@, k),
        decreases last + 1 - i,
    {
        let mut j: usize = 0;
        let mut same = true;
        while j < n.len()
            invariant
                j <= n.len(),
                i <= last,
                last == x.len() - n.len(),
                same ==> forall|k: int| 0 <= k < j ==> x@[i + k] == n@[k],
                !same ==> exists|k: int| 0 <= k < n.len() && x@[i + k] != n@[k],
            decreases n.len() - j,
        {
            if x[i + j] != n[j] {
                same = false;
            }
            j += 1;
        }
        if same {
            assert(x@.subrange(i as int, i + n.len()) =~= n@);
            assert(occurs_at(s@, needle@, i as int));
            return true;
        }
        proof {
            let k = choose|k: int| 0 <= k < n.len() && x@[i + k] != n@[k];
            assert(x@.subrange(i as int, i + n.len())[k] == x@[i + k]);
        }
        i += 1;
    }
    false
}

/// `s` without `prefix` at its start, if it starts with it.
pub fn strip_prefix<'a>(s: &'a str, prefix: &str) -> (rest: Option<&'a str>)
    ensures
        rest is Some <==> prefix@.is_prefix_of(s@),
        rest is Some ==> rest->0@ == s@.skip(prefix@.len() as int),
{
    if starts_with(s, prefix) {
        let from = prefix.unicode_len();
        let to = s.unicode_len();
        Some(s.substring_char(from, to))
    } else {
        None
    }
}

/// `s` cut at its first `c`: what stands before it and what stands after.
pub fn split_once<'a>(s: &'a str, c: char) -> (parts: Option<(&'a str, &'a str)>)
    ensures
        match parts {
            Some((head, tail)) => {
                &&& position(s@, c) < s@.len()
                &&& head@ == s@.take(position(s@, c))
                &&& tail@ == s@.skip(position(s@, c) + 1)
            },
            None => position(s@, c) == s@.len(),
        },
{
    match find_char(s, c) {
        Some(i) => {
            let n = s.unicode_len();
            Some((s.substring_char(0, i), s.substring_char(i + 1, n)))
        },
        None => None,
    }
}

/// The strings of `parts` in order, with `sep` between each two.
pub open spec fn join(parts: Seq<Seq<char>>, sep: Seq<char>) -> Seq<char>
    decreases parts.len(),
{
    if parts.len() == 0 {
        Seq::empty()
    } else if parts.len() == 1 {
        parts[0]
    } else {
        join(parts.drop_last(), sep) + sep + parts.last()
    }
}

/// The strings of `parts` in order, with `sep` between each two.
pub fn join_strings(parts: &Vec<String>, sep: &str) -> (out: String)
    ensures
        out@ == join(parts.deep_view(), sep@),
{
    let mut out = String::new();
    let mut i: usize = 0;
    assert(parts.deep_view().take(0) =~= Seq::<Seq<char>>::empty());
    while i < parts.len()
        invariant
            i <= parts.len(),
            out@ == join(parts.deep_view().take(i as int), sep@),
        decreases parts.len() - i,
    {
        if i > 0 {
            out.append(sep);
        }
        out.append(parts[i].as_str());
        proof {
            let done = parts.deep_view().take(i + 1);
            assert(done.drop_last() =~= parts.deep_view().take(i as int));
            assert(done.last() == parts@[i as int]@);
            if i == 0 {
                assert(out@ =~= done[0]);
            }
        }
        i += 1;
    }
    assert(parts.deep_view().take(i as int) =~= parts.deep_view());
    out
}

/// `a` followed by `b`.
pub fn concat(a: &str, b: &str) -> (out: String)
    ensures
        out@ == a@ + b@,
{
    let mut out = String::from_str(a);
    out.append(b);
    out
}

/// The decimal digit for `d`.
pub open spec fn digit(d: int) -> char {
    if d == 0 {
        '0'
    } else if d == 1 {
        '1'
    } else if d == 2 {
        '2'
    } else if d == 3 {
        '3'
    } else if d == 4 {
        '4'
    } else if d == 5 {
        '5'
    } else if d == 6 {
        '6'
    } else if d == 7 {
        '7'
    } else if d == 8 {
        '8'
    } else {
        '9'
    }
}

/// `n` written in decimal, without leading zeros.
pub open spec fn decimal(n: nat) -> Seq<char>
    decreases n,
{
    if n < 10 {
        seq![digit(n as int)]
    } else {
        decimal(n / 10).push(digit((n % 10) as int))
    }
}

fn digit_str(d: u64) -> (s: &'static str)
    requires
        d < 10,
    ensures
        s@ == seq![digit(d as int)],
{
    proof {
        reveal_strlit("0");
        reveal_strlit("1");
        reveal_strlit("2");
        reveal_strlit("3");
        reveal_strlit("4");
        reveal_strlit("5");
        reveal_strlit("6");
        reveal_strlit("7");
        reveal_strlit("8");
        reveal_strlit("9");
    }
    let s = if d == 0 {
        "0"
    } else if d == 1 {
        "1"
    } else if d == 2 {
        "2"
    } else if d == 3 {
        "3"
    } else if d == 4 {
        "4"
    } else if d == 5 {
        "5"
    } else if d == 6 {
        "6"
    } else if d == 7 {
        "7"
    } else if d == 8 {
        "8"
    } else {
        "9"
    };
    assert(s@ =~= seq![digit(d as int)]);
    s
}

/// `n` written in decimal, without leading zeros.
pub fn decimal_of(n: u64) -> (out: String)
    ensures
        out@ == decimal(n as nat),
    decreases n,
{
    if n < 10 {
        String::from_str(digit_str(n))
    } else {
        let mut out = decimal_of(n / 10);
        out.append(digit_str(n % 10));
        assert(out@ =~= decimal((n / 10) as nat).push(digit((n % 10) as int)));
        out
    }
}

/// `child` below the directory `base`: `child` alone where it begins at the
/// root or `base` is empty, else the two with one `/` between them.
pub open spec fn join_path(base: Seq<char>, child: Seq<char>) -> Seq<char> {
    if (child.len() > 0 && child[0] == '/') || base.len() == 0 {
        child
    } else if base.last() == '/' {
        base + child
    } else {
        base + seq!['/'] + child
    }
}

/// `child` below the directory `base`.
pub fn join_path_of(base: &str, child: &str) -> (out: String)
    ensures
        out@ == join_path(base@, child@),
{
    let b = chars_of(base);
    let c = chars_of(child);
    if (c.len() > 0 && c[0] == '/') || b.len() == 0 {
        child.to_owned()
    } else if b[b.len() - 1] == '/' {
        concat(base, child)
    } else {
        let mut out = String::from_str(base);
        proof {
            reveal_strlit("/");
        }
        out.append("/");
        assert(out@ =~= base@ + seq!['/']);
        out.append(child);
        out
    }
}

/// The pieces of `s` between the occurrences of `c`: one more than `c`
/// occurs, some of them empty where two stand side by side or at an end.
pub open spec fn split(s: Seq<char>, c: char) -> Seq<Seq<char>>
    decreases s.len(),
{
    let i = position(s, c);
    if 0 <= i < s.len() {
        seq![s.take(i)] + split(s.skip(i + 1), c)
    } else {
        seq![s]
    }
}

/// The pieces of `s` between the occurrences of `c`.
pub fn split_of<'a>(s: &'a str, c: char) -> (out: Vec<&'a str>)
    ensures
        views_of(out@) == split(s@, c),
{
    let x = chars_of(s);
    let mut out: Vec<&'a str> = Vec::new();
    let mut pos: usize = 0;
    assert(s@.skip(0) =~= s@);
    assert(views_of(out@) + split(s@.skip(0), c) =~= split(s@, c));
    loop
        invariant_except_break
            pos <= x.len(),
            x@ == s@,
            views_of(out@) + split(s@.skip(pos as int), c) == split(s@, c),
        ensures
            views_of(out@) == split(s@, c),
        decreases x.len() - pos,
    {
        let mut i: usize = pos;
        while i < x.len() && x[i] != c
            invariant
                pos <= i <= x.len(),
                forall|j: int| pos <= j < i ==> x@[j] != c,
            decreases x.len() - i,
        {
            i += 1;
        }
        let ghost rest = s@.skip(pos as int);
        let ghost before = views_of(out@);
        proof {
            assert forall|j: int| 0 <= j < i - pos implies rest[j] != c by {
                assert(rest[j] == x@[j + pos]);
            }
            lemma_position_is(rest, c, i - pos);
        }
        let piece = s.substring_char(pos, i);
        out.push(piece);
        if i == x.len() {
            proof {
                assert(piece@ =~= rest);
                assert(views_of(out@) =~= before + seq![rest]);
            }
            break ;
        }
        proof {
            assert(piece@ =~= rest.take(i - pos));
            assert(rest.skip(i - pos + 1) =~= s@.skip(i + 1));
            assert(views_of(out@) =~= before + seq![rest.take(i - pos)]);
            assert(views_of(out@) + split(s@.skip(i + 1), c) =~= before + split(rest, c));
        }
        pos = i + 1;
    }
    out
}

/// How many times `c` stands at the start of `s`, without a break.
pub open spec fn leading_run(s: Seq<char>, c: char) -> int
    decreases s.len(),
{
    if s.len() == 0 || s[0] != c {
        0
    } else {
        1 + leading_run(s.drop_first(), c)
    }
}

/// How many times `c` stands at the end of `s`, without a break.
pub open spec fn trailing_run(s: Seq<char>, c: char) -> int
    decreases s.len(),
{
    if s.len() == 0 || s.last() != c {
        0
    } else {
        1 + trailing_run(s.drop_last(), c)
    }
}

/// `s` without the `c`s at its start and at its end.
pub open spec fn trim_matches(s: Seq<char>, c: char) -> Seq<char> {
    let rest = s.skip(leading_run(s, c));
    rest.take(rest.len() - trailing_run(rest, c))
}

pub proof fn lemma_leading_run_is(s: Seq<char>, c: char, i: int)
    requires
        0 <= i <= s.len(),
        forall|j: int| 0 <= j < i ==> s[j] == c,
        i < s.len() ==> s[i] != c,
    ensures
        leading_run(s, c) == i,
    decreases s.len(),
{
    if s.len() == 0 || s[0] != c {
    } else {
        let t = s.drop_first();
        assert forall|j: int| 0 <= j < i - 1 implies t[j] == c by {
            assert(t[j] == s[j + 1]);
        }
        lemma_leading_run_is(t, c, i - 1);
    }
}

pub proof fn lemma_trailing_run_is(s: Seq<char>, c: char, k: int)
    requires
        0 <= k <= s.len(),
        forall|j: int| s.len() - k <= j < s.len() ==> s[j] == c,
        k < s.len() ==> s[s.len() - k - 1] != c,
    ensures
        trailing_run(s, c) == k,
    decreases s.len(),
{
    if s.len() == 0 || s.last() != c {
    } else {
        let t = s.drop_last();
        assert forall|j: int| t.len() - (k - 1) <= j < t.len() implies t[j] == c by {
            assert(t[j] == s[j]);
        }
        lemma_trailing_run_is(t, c, k - 1);
    }
}

/// `s` without the `c`s at its start and at its end.
pub fn trim_matches_of<'a>(s: &'a str, c: char) -> (out: &'a str)
    ensures
        out@ == trim_matches(s@, c),
{
    let x = chars_of(s);
    let mut start: usize = 0;
    while start < x.len() && x[start] == c
        invariant
            start <= x.len(),
            forall|j: int| 0 <= j < start ==> x@[j] == c,
        decreases x.len() - start,
    {
        start += 1;
    }
    let mut end: usize = x.len();
    while end > start && x[end - 1] == c
        invariant
            start <= end <= x.len(),
            forall|j: int| end <= j < x.len() ==> x@[j] == c,
        decreases end,
    {
        end -= 1;
    }
    proof {
        lemma_leading_run_is(x@, c, start as int);
        let rest = x@.skip(start as int);
        assert forall|j: int| rest.len() - (x.len() - end) <= j < rest.len() implies rest[j]
            == c by {
            assert(rest[j] == x@[j + start]);
        }
        lemma_trailing_run_is(rest, c, x.len() - end);
        assert(rest.take(rest.len() - (x.len() - end)) =~= x@.subrange(start as int, end as int));
    }
    s.substring_char(start, end)
}

/// `unit` written `n` times in a row.
pub open spec fn repeated(unit: Seq<char>, n: nat) -> Seq<char>
    decreases n,
{
    if n == 0 {
        Seq::empty()
    } else {
        repeated(unit, (n - 1) as nat) + unit
    }
}

/// `unit` written `n` times in a row.
pub fn repeat(unit: &str, n: usize) -> (out: String)
    ensures
        out@ == repeated(unit@, n as nat),
{
    let mut out = String::new();
    let mut i: usize = 0;
    while i < n
        invariant
            i <= n,
            out@ == repeated(unit@, i as nat),
        decreases n - i,
    {
        out.append(unit);
        i += 1;
    }
    out
}

/// The first `n` characters of `s`; all of `s` if it has no more.
pub fn first_chars<'a>(s: &'a str, n: usize) -> (out: &'a str)
    ensures
        out@ == (if s@.len() > n {
            s@.take(n as int)
        } else {
            s@
        }),
{
    let len = s.unicode_len();
    if len > n {
        s.substring_char(0, n)
    } else {
        assert(s@.subrange(0, len as int) =~= s@);
        s.substring_char(0, len)
    }
}

} // verus!
