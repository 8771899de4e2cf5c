use vstd::prelude::*;
use vstd::string::*;

verus! {

/// `true` exactly when `prefix` is an initial segment of `s`.
pub open spec fn is_prefix(prefix: Seq<char>, s: Seq<char>) -> bool {
    prefix.len() <= s.len() && s.subrange(0, prefix.len() as int) == prefix
}

/// `true` exactly when `needle` occurs in `s` starting at position `at`.
pub open spec fn occurs_at(needle: Seq<char>, s: Seq<char>, at: int) -> bool {
    0 <= at && at + needle.len() <= s.len() && s.subrange(at, at + needle.len()) == needle
}

/// `true` exactly when `needle` occurs somewhere in `s`.
pub open spec fn occurs_in(needle: Seq<char>, s: Seq<char>) -> bool {
    exists|at: int| occurs_at(needle, s, at)
}

/// The character that writes the decimal digit `d`.
pub open spec fn digit_char(d: nat) -> char {
    if d == 0 {
        '0'
    } else if d == 1 {
        '1'
    } else if d == 2 {
        '2'
    } else if d == 3 {
        '3'
    } else if d == 4 {
        '4'
    } else if d == 5 {
        '5'
    } else if d == 6 {
        '6'
    } else if d == 7 {
        '7'
    } else if d == 8 {
        '8'
    } else {
        '9'
    }
}

/// The decimal numeral of `n`, most significant digit first, without
/// leading zeros.
pub open spec fn decimal(n: nat) -> Seq<char>
    decreases n,
{
    if n < 10 {
        seq![digit_char(n)]
    } else {
        decimal(n / 10).push(digit_char(n % 10))
    }
}

/// The characters of `s`, in order.
pub fn chars_of(s: &str) -> (chars: Vec<char>)
    ensures
        chars@ == s@,
{
    let n: usize = s.unicode_len();
    let mut chars: Vec<char> = Vec::new();
    let mut i: usize = 0;
    while i < n
        invariant
            n == s@.len(),
            i <= n,
            chars@ == s@.subrange(0, i as int),
        decreases n - i,
    {
        chars.push(s.get_char(i));
        assert(chars@ =~= s@.subrange(0, i + 1));
        i += 1;
    }
    assert(s@.subrange(0, n as int) =~= s@);
    chars
}

/// Does `needle` occur in `hay` at position `at`?
fn matches_at(hay: &Vec<char>, needle: &Vec<char>, at: usize) -> (hit: bool)
    requires
        at + needle@.len() <= hay@.len(),
    ensures
        hit == occurs_at(needle@, hay@, at as int),
{
    let m: usize = needle.len();
    let total: usize = hay.len();
    let mut k: usize = 0;
    while k < m
        invariant
            m == needle@.len(),
            at + m <= hay@.len(),
            total == hay@.len(),
            k <= m,
            forall|j: int| 0 <= j < k ==> hay@[at + j] == needle@[j],
        decreases m - k,
    {
        if hay[at + k] != needle[k] {
            assert(hay@.subrange(at as int, at + m)[k as int] != needle@[k as int]);
            return false;
        }
        k += 1;
    }
    assert(hay@.subrange(at as int, at + m) =~= needle@);
    true
}

/// Compares two string slices character by character.
pub fn str_eq(a: &str, b: &str) -> (same: bool)
    ensures
        same == (a@ == b@),
{
    let x = chars_of(a);
    let y = chars_of(b);
    if x.len() != y.len() {
        return false;
    }
    let hit = matches_at(&x, &y, 0);
    assert(x@.subrange(0, x@.len() as int) =~= x@);
    hit
}

/// Does `s` begin with `prefix`?
pub fn starts_with(s: &str, prefix: &str) -> (hit: bool)
    ensures
        hit == is_prefix(prefix@, s@),
{
    let x = chars_of(s);
    let p = chars_of(prefix);
    if p.len() > x.len() {
        return false;
    }
    matches_at(&x, &p, 0)
}

/// Does `needle` occur anywhere in `s`?
pub fn contains(s: &str, needle: &str) -> (hit: bool)
    ensures
        hit == occurs_in(needle@, s@),
{
    let x = chars_of(s);
    let p = chars_of(needle);
    if p.len() > x.len() {
        return false;
    }
    let last: usize = x.len() - p.len();
    let mut at: usize = 0;
    while at <= last
        invariant
            last + p@.len() == x@.len(),
            x@.len() <= usize::MAX,
            x@ == s@,
            p@ == needle@,
            at <= last + 1,
            forall|j: int| 0 <= j < at ==> !occurs_at(p@, x@, j),
        decreases last + 1 - at,
    {
        if matches_at(&x, &p, at) {
            return true;
        }
        if at == last {
            return false;
        }
        at += 1;
    }
    false
}

/// The one-character text of the decimal digit `d`.
fn digit_text(d: u64) -> (text: &'static str)
    requires
        d < 10,
    ensures
        text@ == seq![digit_char(d as nat)],
{
    proof {
        reveal_strlit("0");
        reveal_strlit("1");
        reveal_strlit("2");
        reveal_strlit("3");
        reveal_strlit("4");
        reveal_strlit("5");
        reveal_strlit("6");
        reveal_strlit("7");
        reveal_strlit("8");
        reveal_strlit("9");
    }
    let text = if d == 0 {
        "0"
    } else if d == 1 {
        "1"
    } else if d == 2 {
        "2"
    } else if d == 3 {
        "3"
    } else if d == 4 {
        "4"
    } else if d == 5 {
        "5"
    } else if d == 6 {
        "6"
    } else if d == 7 {
        "7"
    } else if d == 8 {
        "8"
    } else {
        "9"
    };
    assert(text@ =~= seq![digit_char(d as nat)]);
    text
}

/// Writes `n` in decimal.
pub fn decimal_text(n: u64) -> (text: String)
    ensures
        text@ == decimal(n as nat),
    decreases n,
{
    if n < 10 {
        String::from_str(digit_text(n))
    } else {
        let mut text = decimal_text(n / 10);
        text.append(digit_text(n % 10));
        assert(text@ =~= decimal(n as nat));
        text
    }
}

/// `head` followed by `tail`.
pub fn join2(head: &str, tail: &str) -> (text: String)
    ensures
        text@ == head@ + tail@,
{
    let mut text = String::from_str(head);
    text.append(tail);
    text
}

/// `a`, `b` and `c` in a row.
pub fn join3(a: &str, b: &str, c: &str) -> (text: String)
    ensures
        text@ == a@ + b@ + c@,
{
    let mut text = String::from_str(a);
    text.append(b);
    text.append(c);
    text
}

/// Does the event pattern `pattern` match the event name `name`? A pattern
/// that ends in `*` matches every name that begins with what stands before
/// the `*`; any other pattern matches the name equal to it.
pub open spec fn matches_pattern(pattern: Seq<char>, name: Seq<char>) -> bool {
    if pattern.len() > 0 && pattern.last() == '*' {
        is_prefix(pattern.drop_last(), name)
    } else {
        name == pattern
    }
}

/// A pattern made of a prefix and a closing `*` matches exactly the names
/// that begin with the prefix; a pattern that does not end in `*` matches
/// only itself.
pub proof fn law_wildcard_matching(prefix: Seq<char>, pattern: Seq<char>, name: Seq<char>)
    ensures
        matches_pattern(prefix.push('*'), name) <==> is_prefix(prefix, name),
        (pattern.len() == 0 || pattern.last() != '*') ==> (matches_pattern(pattern, name) <==> name
            == pattern),
{
    assert(prefix.push('*').drop_last() =~= prefix);
}

/// Does the event pattern `pattern` match the event name `name`?
pub fn pattern_matches(pattern: &str, name: &str) -> (hit: bool)
    ensures
        hit == matches_pattern(pattern@, name@),
{
    let p = chars_of(pattern);
    let x = chars_of(name);
    let m: usize = p.len();
    if m > 0 && p[m - 1] == '*' {
        if m - 1 > x.len() {
            return false;
        }
        let mut k: usize = 0;
        while k < m - 1
            invariant
                m == p@.len(),
                m >= 1,
                p@[m - 1] == '*',
                x@ == name@,
                p@ == pattern@,
                m - 1 <= x@.len(),
                k <= m - 1,
                forall|j: int| 0 <= j < k ==> x@[j] == p@[j],
            decreases m - 1 - k,
        {
            if x[k] != p[k] {
                assert(x@.subrange(0, m - 1)[k as int] != p@.drop_last()[k as int]);
                return false;
            }
            k += 1;
        }
        assert(x@.subrange(0, m - 1) =~= p@.drop_last());
        true
    } else {
        if m != x.len() {
            return false;
        }
        let hit = matches_at(&x, &p, 0);
        assert(x@.subrange(0, x@.len() as int) =~= x@);
        hit
    }
}

/// What is left of `s` without its first `count` characters: nothing,
/// where `s` has no more than `count`.
pub fn skip_chars(s: &str, count: usize) -> (rest: String)
    ensures
        rest@ == if count <= s@.len() {
            s@.subrange(count as int, s@.len() as int)
        } else {
            Seq::<char>::empty()
        },
{
    let n: usize = s.unicode_len();
    if count <= n {
        String::from_str(s.substring_char(count, n))
    } else {
        String::new()
    }
}

/// `true` exactly when `suffix` is a final segment of `s`.
pub open spec fn is_suffix(suffix: Seq<char>, s: Seq<char>) -> bool {
    suffix.len() <= s.len() && s.subrange(s.len() - suffix.len(), s.len() as int) == suffix
}

/// `s` without every copy of `suffix` at its end: the suffix is taken off
/// until `s` no longer ends in it. An empty suffix takes nothing off.
pub open spec fn without_trailing(s: Seq<char>, suffix: Seq<char>) -> Seq<char>
    decreases s.len(),
{
    if suffix.len() > 0 && is_suffix(suffix, s) {
        without_trailing(s.subrange(0, s.len() - suffix.len()), suffix)
    } else {
        s
    }
}

/// Does `s` end with `suffix`?
pub fn ends_with(s: &str, suffix: &str) -> (hit: bool)
    ensures
        hit == is_suffix(suffix@, s@),
{
    let x = chars_of(s);
    let p = chars_of(suffix);
    if p.len() > x.len() {
        return false;
    }
    let hit = matches_at(&x, &p, x.len() - p.len());
    hit
}

/// `s` without every copy of `suffix` at its end.
pub fn trim_end_matches(s: &str, suffix: &str) -> (rest: String)
    ensures
        rest@ == without_trailing(s@, suffix@),
{
    let x = chars_of(s);
    let p = chars_of(suffix);
    let m: usize = p.len();
    let mut end: usize = x.len();
    assert(x@.subrange(0, end as int) =~= x@);
    if m > 0 {
        while end >= m && matches_at(&x, &p, end - m)
            invariant
                m == p@.len(),
                m > 0,
                x@ == s@,
                p@ == suffix@,
                end <= x@.len(),
                without_trailing(s@, suffix@) == without_trailing(x@.subrange(0, end as int), p@),
            decreases end,
        {
            proof {
                let cur = x@.subrange(0, end as int);
                assert(cur.subrange(cur.len() - m, cur.len() as int) =~= x@.subrange(
                    end - m,
                    end as int,
                ));
                assert(is_suffix(p@, cur));
                assert(cur.subrange(0, cur.len() - m) =~= x@.subrange(0, end - m));
            }
            end = end - m;
        }
        proof {
            let cur = x@.subrange(0, end as int);
            if end >= m {
                assert(cur.subrange(cur.len() - m, cur.len() as int) =~= x@.subrange(
                    end - m,
                    end as int,
                ));
            }
            assert(!is_suffix(p@, cur));
        }
    }
    let rest = String::from_str(s.substring_char(0, end));
    rest
}

/// `s` with every occurrence of `from` replaced by `to`. Occurrences are
/// found from the left and do not overlap. An empty `from` occurs nowhere.
pub open spec fn replaced(s: Seq<char>, from: Seq<char>, to: Seq<char>) -> Seq<char>
    decreases s.len(),
{
    if from.len() == 0 || s.len() < from.len() {
        s
    } else if is_prefix(from, s) {
        to + replaced(s.subrange(from.len() as int, s.len() as int), from, to)
    } else {
        seq![s[0]] + replaced(s.subrange(1, s.len() as int), from, to)
    }
}

/// `text` with every occurrence of `from` replaced by `to`.
pub fn replace_all(text: &str, from: &str, to: &str) -> (out: String)
    ensures
        out@ == replaced(text@, from@, to@),
{
    let x = chars_of(text);
    let p = chars_of(from);
    let n: usize = x.len();
    let m: usize = p.len();
    if m == 0 || n < m {
        return String::from_str(text);
    }
    let mut out = String::new();
    let mut start: usize = 0;
    let mut i: usize = 0;
    assert(x@.subrange(0, n as int) =~= x@);
    assert(out@ + x@.subrange(0, 0) + replaced(x@.subrange(0, n as int), p@, to@) =~= replaced(
        x@,
        p@,
        to@,
    ));
    while i <= n - m
        invariant
            x@ == text@,
            p@ == from@,
            n == x@.len(),
            m == p@.len(),
            0 < m <= n,
            start <= i <= n,
            replaced(text@, from@, to@) == out@ + x@.subrange(start as int, i as int) + replaced(
                x@.subrange(i as int, n as int),
                p@,
                to@,
            ),
        decreases n - i,
    {
        let ghost rest = x@.subrange(i as int, n as int);
        let hit = matches_at(&x, &p, i);
        proof {
            assert(rest.subrange(0, m as int) =~= x@.subrange(i as int, i + m));
            assert(hit == is_prefix(p@, rest));
        }
        if hit {
            out.append(text.substring_char(start, i));
            out.append(to);
            proof {
                assert(rest.subrange(m as int, rest.len() as int) =~= x@.subrange(i + m, n as int));
                assert(x@.subrange(i + m, i + m) =~= Seq::<char>::empty());
                assert(out@ + x@.subrange(i + m, i + m) =~= out@);
            }
            i = i + m;
            start = i;
        } else {
            proof {
                assert(rest.subrange(1, rest.len() as int) =~= x@.subrange(i + 1, n as int));
                assert(x@.subrange(start as int, i as int) + seq![rest[0]] =~= x@.subrange(
                    start as int,
                    i + 1,
                ));
                assert(out@ + x@.subrange(start as int, i as int) + (seq![rest[0]] + replaced(
                    x@.subrange(i + 1, n as int),
                    p@,
                    to@,
                )) =~= out@ + x@.subrange(start as int, i + 1) + replaced(
                    x@.subrange(i + 1, n as int),
                    p@,
                    to@,
                ));
            }
            i = i + 1;
        }
    }
    proof {
        let rest = x@.subrange(i as int, n as int);
        assert(rest.len() < m);
        assert(x@.subrange(start as int, i as int) + rest =~= x@.subrange(start as int, n as int));
        assert(out@ + x@.subrange(start as int, i as int) + rest =~= out@ + x@.subrange(
            start as int,
            n as int,
        ));
    }
    out.append(text.substring_char(start, n));
    out
}

} // verus!
