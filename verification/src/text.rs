//! Text handling on Unicode scalar values.
//!
//! A string is modelled as the sequence of its characters. The functions of this module are the
//! searching, splitting and trimming operations that the rest of the crate builds on.
use vstd::prelude::*;
use vstd::string::*;

verus! {

/// `String::push`: the character is appended to the end of the string.
pub assume_specification[ String::push ](s: &mut String, c: char)
    ensures
        final(s)@ == old(s)@.push(c),
;

/// The characters with the Unicode `White_Space` property.
pub open spec fn white_space(c: char) -> bool {
    ||| '\u{9}' <= c <= '\u{d}'
    ||| c == ' '
    ||| c == '\u{85}'
    ||| c == '\u{a0}'
    ||| c == '\u{1680}'
    ||| '\u{2000}' <= c <= '\u{200a}'
    ||| c == '\u{2028}'
    ||| c == '\u{2029}'
    ||| c == '\u{202f}'
    ||| c == '\u{205f}'
    ||| c == '\u{3000}'
}

/// `char::is_whitespace`: true of the characters with the Unicode `White_Space` property, which
/// `white_space` lists.
pub assume_specification[ char::is_whitespace ](c: char) -> (r: bool)
    ensures
        r == white_space(c),
;

/// The lower-case form of an ASCII character; any other character is left as it is.
pub open spec fn ascii_lower(c: char) -> char {
    if 'A' <= c <= 'Z' {
        ((c as u32) + 32) as char
    } else {
        c
    }
}

/// What `str::to_lowercase` makes of a text.
pub uninterp spec fn lowercase(s: Seq<char>) -> Seq<char>;

/// `str::to_lowercase`: the lower-case equivalent of the text under Unicode's rules, which is
/// named and not written out here. Of a text in ASCII it is known that each letter `A` to `Z`
/// is mapped to `a` to `z` and that all else stays.
#[verifier::external_body]
pub(crate) fn to_lower(s: &str) -> (r: String)
    ensures
        r@ == lowercase(s@),
        vstd::utf8::is_ascii_chars(s@) ==> r@ == s@.map_values(|c: char| ascii_lower(c)),
{
    s.to_lowercase()
}

/// A text in lower case: in ASCII, each letter `A` to `Z` is mapped to `a` to `z` and all else
/// stays; any other text goes by Unicode's rules.
pub open spec fn lowered(s: Seq<char>) -> Seq<char> {
    if vstd::utf8::is_ascii_chars(s) {
        s.map_values(|c: char| ascii_lower(c))
    } else {
        lowercase(s)
    }
}

/// The characters of a string.
pub fn chars_of(s: &str) -> (r: Vec<char>)
    ensures
        r@ == s@,
{
    let mut r: Vec<char> = Vec::new();
    for c in it: s.chars()
        invariant
            r@ == it.seq().take(it.index() as int),
            it.seq() == s@,
    {
        r.push(c);
    }
    r
}

/// The string made of `v[from..to]`.
pub fn string_of(v: &Vec<char>, from: usize, to: usize) -> (r: String)
    requires
        from <= to <= v@.len(),
    ensures
        r@ == v@.subrange(from as int, to as int),
{
    let mut r = String::new();
    for i in from..to
        invariant
            from <= to <= v@.len(),
            r@ == v@.subrange(from as int, i as int),
    {
        r.push(v[i]);
    }
    r
}

/// Whether two strings hold the same characters.
pub fn same(a: &str, b: &str) -> (r: bool)
    ensures
        r == (a@ == b@),
{
    let mut x = a.chars();
    let mut y = b.chars();
    let ghost mut n: int = 0;
    loop
        invariant
            0 <= n <= a@.len(),
            n <= b@.len(),
            vstd::std_specs::iter::IteratorSpec::remaining(&x) == a@.skip(n),
            vstd::std_specs::iter::IteratorSpec::remaining(&y) == b@.skip(n),
            a@.take(n) == b@.take(n),
        decreases a@.len() - n,
    {
        let p = x.next();
        let q = y.next();
        match (p, q) {
            (Some(c), Some(d)) => {
                if c != d {
                    assert(a@[n] != b@[n]);
                    return false;
                }
                proof {
                    assert(a@.take(n + 1) =~= a@.take(n).push(c));
                    assert(b@.take(n + 1) =~= b@.take(n).push(d));
                    n = n + 1;
                }
            },
            (None, None) => {
                assert(a@ =~= a@.take(n));
                assert(b@ =~= b@.take(n));
                return true;
            },
            _ => {
                return false;
            },
        }
    }
}

/// The characters of an optional string.
pub open spec fn opt_view(s: Option<String>) -> Option<Seq<char>> {
    match s {
        Some(t) => Some(t@),
        None => None,
    }
}

/// The characters of an optional string slice.
pub open spec fn opt_str_view(s: Option<&str>) -> Option<Seq<char>> {
    match s {
        Some(t) => Some(t@),
        None => None,
    }
}

/// A copy of an optional string.
pub fn copy_opt(s: &Option<String>) -> (r: Option<String>)
    ensures
        opt_view(r) == opt_view(*s),
{
    match s {
        Some(t) => Some(t.clone()),
        None => None,
    }
}

/// `Option<String>` seen as `Option<&str>`.
pub fn opt_str(s: &Option<String>) -> (r: Option<&str>)
    ensures
        opt_str_view(r) == opt_view(*s),
{
    match s {
        Some(t) => Some(t.as_str()),
        None => None,
    }
}

/// An owned copy of an optional string slice.
pub fn own_opt(s: Option<&str>) -> (r: Option<String>)
    ensures
        opt_view(r) == opt_str_view(s),
{
    match s {
        Some(t) => Some(t.to_owned()),
        None => None,
    }
}

/// `pat` stands in `s` at position `i`.
pub open spec fn stands_at(s: Seq<char>, pat: Seq<char>, i: int) -> bool {
    0 <= i && i + pat.len() <= s.len() && s.subrange(i, i + pat.len()) == pat
}

/// `pat` stands somewhere in `s`.
pub open spec fn holds(s: Seq<char>, pat: Seq<char>) -> bool {
    exists|i: int| #[trigger] stands_at(s, pat, i)
}

fn is_at(s: &Vec<char>, pat: &Vec<char>, i: usize) -> (r: bool)
    requires
        i <= s@.len(),
    ensures
        r == stands_at(s@, pat@, i as int),
{
    let n = s.len();
    if pat.len() > n - i {
        return false;
    }
    for k in 0..pat.len()
        invariant
            n == s@.len(),
            i + pat@.len() <= n,
            s@.subrange(i as int, i + k) == pat@.take(k as int),
    {
        if s[i + k] != pat[k] {
            assert(s@.subrange(i as int, i + pat@.len())[k as int] != pat@[k as int]);
            return false;
        }
        assert(s@.subrange(i as int, i + k + 1) =~= s@.subrange(i as int, i + k).push(
            pat@[k as int],
        ));
        assert(pat@.take(k + 1) =~= pat@.take(k as int).push(pat@[k as int]));
    }
    assert(pat@.take(pat@.len() as int) =~= pat@);
    true
}

/// Whether `s` starts with `prefix`.
pub fn starts_with(s: &str, prefix: &str) -> (r: bool)
    ensures
        r == prefix@.is_prefix_of(s@),
{
    let v = chars_of(s);
    let p = chars_of(prefix);
    let r = is_at(&v, &p, 0);
    assert(r ==> prefix@ =~= s@.subrange(0, prefix@.len() as int));
    r
}

/// What follows `prefix` in `s`, if `s` starts with it.
pub open spec fn after_prefix(s: Seq<char>, prefix: Seq<char>) -> Option<Seq<char>> {
    if prefix.is_prefix_of(s) {
        Some(s.skip(prefix.len() as int))
    } else {
        None
    }
}

/// What follows `prefix` in `s`, if `s` starts with it.
pub fn strip_prefix(s: &str, prefix: &str) -> (r: Option<String>)
    ensures
        opt_view(r) == after_prefix(s@, prefix@),
{
    let v = chars_of(s);
    let p = chars_of(prefix);
    if is_at(&v, &p, 0) {
        assert(prefix@ =~= s@.subrange(0, prefix@.len() as int));
        let rest = string_of(&v, p.len(), v.len());
        assert(rest@ =~= s@.skip(prefix@.len() as int));
        Some(rest)
    } else {
        proof {
            if prefix@.is_prefix_of(s@) {
                assert(prefix@ =~= s@.subrange(0, prefix@.len() as int));
            }
        }
        None
    }
}

/// Whether `pat` stands somewhere in `s`.
pub fn contains(s: &str, pat: &str) -> (r: bool)
    ensures
        r == holds(s@, pat@),
{
    let v = chars_of(s);
    let p = chars_of(pat);
    if p.len() > v.len() {
        return false;
    }
    let last: usize = v.len() - p.len();
    let mut i: usize = 0;
    while i <= last
        invariant
            v@ == s@,
            p@ == pat@,
            p@.len() <= v@.len(),
            last == v@.len() - p@.len(),
            i <= last + 1,
            forall|k: int| 0 <= k < i ==> !#[trigger] stands_at(s@, pat@, k),
        decreases last + 1 - i,
    {
        if is_at(&v, &p, i) {
            return true;
        }
        if i == last {
            return false;
        }
        i = i + 1;
    }
    false
}

/// Two texts are the same but for the case of their ASCII letters.
pub open spec fn same_but_case(a: Seq<char>, b: Seq<char>) -> bool {
    a.len() == b.len() && forall|i: int|
        0 <= i < a.len() ==> ascii_lower(#[trigger] a[i]) == ascii_lower(b[i])
}

/// `s` starts with `pat`, but for the case of ASCII letters.
pub open spec fn starts_but_case(s: Seq<char>, pat: Seq<char>) -> bool {
    pat.len() <= s.len() && same_but_case(s.take(pat.len() as int), pat)
}

/// `pat` stands somewhere in `s`, in any case of its ASCII letters.
pub open spec fn holds_any_case(s: Seq<char>, pat: Seq<char>) -> bool {
    exists|i: int| 0 <= i <= s.len() && #[trigger] starts_but_case(s.skip(i), pat)
}

/// `s` without the occurrences of `pat` in any case of their ASCII letters. They are looked for
/// from the left and do not overlap.
pub open spec fn without_any_case(s: Seq<char>, pat: Seq<char>) -> Seq<char>
    decreases s.len(),
{
    if pat.len() == 0 || s.len() == 0 {
        s
    } else if starts_but_case(s, pat) {
        without_any_case(s.skip(pat.len() as int), pat)
    } else {
        seq![s[0]] + without_any_case(s.skip(1), pat)
    }
}

fn lower_char(c: char) -> (r: char)
    ensures
        r == ascii_lower(c),
{
    if 'A' <= c && c <= 'Z' {
        (c as u8 + 32) as char
    } else {
        c
    }
}

fn is_at_any_case(s: &Vec<char>, pat: &Vec<char>, i: usize) -> (r: bool)
    requires
        i <= s@.len(),
    ensures
        r == starts_but_case(s@.skip(i as int), pat@),
{
    let n = s.len();
    if pat.len() > n - i {
        return false;
    }
    let ghost part = s@.skip(i as int).take(pat@.len() as int);
    let mut k: usize = 0;
    while k < pat.len()
        invariant
            n == s@.len(),
            k <= pat@.len(),
            i + pat@.len() <= n,
            part == s@.skip(i as int).take(pat@.len() as int),
            forall|j: int| 0 <= j < k ==> ascii_lower(#[trigger] part[j]) == ascii_lower(pat@[j]),
        decreases pat@.len() - k,
    {
        assert(part[k as int] == s@[i + k]);
        if lower_char(s[i + k]) != lower_char(pat[k]) {
            return false;
        }
        k = k + 1;
    }
    true
}

/// `s` without the occurrences of `pat` in any case of their ASCII letters.
pub fn remove_any_case(s: &str, pat: &str) -> (r: String)
    ensures
        r@ == without_any_case(s@, pat@),
{
    let v = chars_of(s);
    let p = chars_of(pat);
    if p.len() == 0 {
        return s.to_owned();
    }
    let mut out = String::new();
    let mut i: usize = 0;
    assert(s@.skip(0) =~= s@);
    assert(out@ + without_any_case(s@, pat@) =~= without_any_case(s@, pat@));
    while i < v.len()
        invariant
            v@ == s@,
            p@ == pat@,
            p@.len() > 0,
            i <= v@.len(),
            out@ + without_any_case(s@.skip(i as int), pat@) == without_any_case(s@, pat@),
        decreases v@.len() - i,
    {
        let ghost rest = s@.skip(i as int);
        if is_at_any_case(&v, &p, i) {
            assert(rest.skip(pat@.len() as int) =~= s@.skip(i + pat@.len()));
            i = i + p.len();
        } else {
            proof {
                assert(rest.skip(1) =~= s@.skip(i + 1));
                assert(out@.push(s@[i as int]) + without_any_case(rest.skip(1), pat@) =~= out@ + (
                seq![rest[0]] + without_any_case(rest.skip(1), pat@)));
            }
            out.push(v[i]);
            i = i + 1;
        }
    }
    assert(s@.skip(i as int) =~= Seq::<char>::empty());
    assert(out@ + Seq::<char>::empty() =~= out@);
    out
}

/// It does not matter in which case the pattern is given.
pub proof fn law_removal_ignores_case(s: Seq<char>, pat: Seq<char>, other: Seq<char>)
    requires
        same_but_case(pat, other),
    ensures
        without_any_case(s, pat) == without_any_case(s, other),
    decreases s.len(),
{
    if pat.len() > 0 && s.len() > 0 {
        if pat.len() <= s.len() {
            let start = s.take(pat.len() as int);
            assert(same_but_case(start, pat) == same_but_case(start, other)) by {
                assert forall|i: int| 0 <= i < pat.len() implies ascii_lower(pat[i])
                    == ascii_lower(#[trigger] other[i]) by {
                    assert(ascii_lower(pat[i]) == ascii_lower(other[i]));
                }
            }
            law_removal_ignores_case(s.skip(pat.len() as int), pat, other);
        }
        law_removal_ignores_case(s.skip(1), pat, other);
    }
}

/// A text in which the pattern stands in no case of its letters is left as it is.
pub proof fn law_nothing_else_is_removed(s: Seq<char>, pat: Seq<char>)
    requires
        !holds_any_case(s, pat),
    ensures
        without_any_case(s, pat) == s,
    decreases s.len(),
{
    if pat.len() > 0 && s.len() > 0 {
        assert(s.skip(0) =~= s);
        assert(!starts_but_case(s.skip(0), pat));
        let rest = s.skip(1);
        assert forall|i: int| 0 <= i <= rest.len() implies !#[trigger] starts_but_case(
            rest.skip(i),
            pat,
        ) by {
            assert(rest.skip(i) =~= s.skip(i + 1));
            assert(!starts_but_case(s.skip(i + 1), pat));
        }
        law_nothing_else_is_removed(rest, pat);
        assert(seq![s[0]] + rest =~= s);
    }
}

/// A text that is the pattern but for the case of its letters, followed by a rest, is left with
/// what the rest is left with.
pub proof fn law_leading_pattern_is_removed(word: Seq<char>, rest: Seq<char>, pat: Seq<char>)
    requires
        pat.len() > 0,
        same_but_case(word, pat),
    ensures
        without_any_case(word + rest, pat) == without_any_case(rest, pat),
{
    assert((word + rest).take(pat.len() as int) =~= word);
    assert((word + rest).skip(pat.len() as int) =~= rest);
}

/// The parts of `s` between the occurrences of `sep`.
pub open spec fn split(s: Seq<char>, sep: char) -> Seq<Seq<char>>
    decreases s.len(),
{
    if s.len() == 0 {
        seq![Seq::empty()]
    } else {
        let parts = split(s.drop_last(), sep);
        if s.last() == sep {
            parts.push(Seq::empty())
        } else {
            parts.drop_last().push(parts.last().push(s.last()))
        }
    }
}

/// A split has at least one part.
pub proof fn lemma_split_nonempty(s: Seq<char>, sep: char)
    ensures
        split(s, sep).len() > 0,
    decreases s.len(),
{
    if s.len() > 0 {
        lemma_split_nonempty(s.drop_last(), sep);
    }
}

/// A text without the separator is one part.
pub proof fn lemma_split_single(s: Seq<char>, sep: char)
    requires
        !s.contains(sep),
    ensures
        split(s, sep) == seq![s],
    decreases s.len(),
{
    if s.len() > 0 {
        let init = s.drop_last();
        assert forall|i: int| 0 <= i < init.len() implies init[i] != sep by {
            assert(s[i] != sep);
        }
        lemma_split_single(init, sep);
        assert(s.last() == s[s.len() - 1]);
        assert(init.push(s.last()) =~= s);
        assert(split(s, sep) =~= seq![s]);
    } else {
        assert(s =~= Seq::empty());
    }
}

/// What follows a separator and holds none is one more part.
pub proof fn lemma_split_append(s: Seq<char>, tail: Seq<char>, sep: char)
    requires
        !tail.contains(sep),
    ensures
        split(s.push(sep) + tail, sep) == split(s, sep).push(tail),
    decreases tail.len(),
{
    let whole = s.push(sep) + tail;
    if tail.len() == 0 {
        assert(whole =~= s.push(sep));
        assert(whole.drop_last() =~= s);
        assert(tail =~= Seq::empty());
    } else {
        let init = tail.drop_last();
        assert forall|i: int| 0 <= i < init.len() implies init[i] != sep by {
            assert(tail[i] != sep);
        }
        lemma_split_append(s, init, sep);
        assert(tail.last() == tail[tail.len() - 1]);
        assert(whole.drop_last() =~= s.push(sep) + init);
        assert(init.push(tail.last()) =~= tail);
        assert(split(s, sep).push(init).drop_last() =~= split(s, sep));
    }
}

/// The texts of a list of strings.
pub open spec fn texts(v: Seq<String>) -> Seq<Seq<char>> {
    v.map_values(|s: String| s@)
}

/// The parts of `s` between the occurrences of `sep`.
pub fn split_on(s: &str, sep: char) -> (r: Vec<String>)
    ensures
        texts(r@) == split(s@, sep),
        r@.len() > 0,
{
    let v = chars_of(s);
    let mut parts: Vec<String> = Vec::new();
    let mut cur = String::new();
    assert(s@.take(0) =~= Seq::<char>::empty());
    assert(texts(parts@).push(cur@) =~= split(s@.take(0), sep));
    for i in 0..v.len()
        invariant
            v@ == s@,
            texts(parts@).push(cur@) == split(s@.take(i as int), sep),
    {
        let c = v[i];
        proof {
            assert(s@.take(i + 1).drop_last() =~= s@.take(i as int));
        }
        let ghost before = texts(parts@).push(cur@);
        if c == sep {
            let mut done = String::new();
            std::mem::swap(&mut done, &mut cur);
            parts.push(done);
            assert(texts(parts@) =~= before);
        } else {
            cur.push(c);
            assert(before.drop_last() =~= texts(parts@));
        }
    }
    assert(s@.take(v@.len() as int) =~= s@);
    let ghost all = texts(parts@).push(cur@);
    parts.push(cur);
    assert(texts(parts@) =~= all);
    parts
}

/// `s` without the white space it starts with.
pub open spec fn trimmed_start(s: Seq<char>) -> Seq<char>
    decreases s.len(),
{
    if s.len() > 0 && white_space(s[0]) {
        trimmed_start(s.skip(1))
    } else {
        s
    }
}

/// `s` without the white space it ends with.
pub open spec fn trimmed_end(s: Seq<char>) -> Seq<char>
    decreases s.len(),
{
    if s.len() > 0 && white_space(s.last()) {
        trimmed_end(s.drop_last())
    } else {
        s
    }
}

/// `s` without the white space at both ends.
pub open spec fn trimmed(s: Seq<char>) -> Seq<char> {
    trimmed_end(trimmed_start(s))
}

/// `s` without the white space at both ends.
pub fn trim(s: &str) -> (r: String)
    ensures
        r@ == trimmed(s@),
{
    let v = chars_of(s);
    let mut from: usize = 0;
    assert(s@.skip(0) =~= s@);
    while from < v.len() && v[from].is_whitespace()
        invariant
            v@ == s@,
            from <= v@.len(),
            trimmed_start(s@) == trimmed_start(s@.skip(from as int)),
        decreases v@.len() - from,
    {
        assert(s@.skip(from as int).skip(1) =~= s@.skip(from + 1));
        from = from + 1;
    }
    let ghost mid = s@.skip(from as int);
    assert(trimmed_start(s@) == mid);
    let mut to: usize = v.len();
    assert(s@.subrange(from as int, to as int) =~= mid);
    while to > from && v[to - 1].is_whitespace()
        invariant
            v@ == s@,
            from <= to <= v@.len(),
            trimmed_end(mid) == trimmed_end(s@.subrange(from as int, to as int)),
        decreases to,
    {
        assert(s@.subrange(from as int, to as int).drop_last() =~= s@.subrange(
            from as int,
            to - 1,
        ));
        to = to - 1;
    }
    string_of(&v, from, to)
}

/// `s` without the occurrences of `c` that it ends with.
pub open spec fn without_tail(s: Seq<char>, c: char) -> Seq<char>
    decreases s.len(),
{
    if s.len() > 0 && s.last() == c {
        without_tail(s.drop_last(), c)
    } else {
        s
    }
}

/// `s` without the occurrences of `c` that it ends with.
pub fn trim_tail(s: &str, c: char) -> (r: String)
    ensures
        r@ == without_tail(s@, c),
{
    let v = chars_of(s);
    let mut to: usize = v.len();
    assert(s@.take(to as int) =~= s@);
    while to > 0 && v[to - 1] == c
        invariant
            v@ == s@,
            to <= v@.len(),
            without_tail(s@, c) == without_tail(s@.take(to as int), c),
        decreases to,
    {
        assert(s@.take(to as int).drop_last() =~= s@.take(to - 1));
        to = to - 1;
    }
    let r = string_of(&v, 0, to);
    assert(r@ =~= s@.take(to as int));
    r
}

/// The ASCII digits of `s`, in order.
pub open spec fn digits(s: Seq<char>) -> Seq<char> {
    s.filter(|c: char| '0' <= c <= '9')
}

/// The ASCII digits of `s`, in order.
pub fn digits_of(s: &str) -> (r: String)
    ensures
        r@ == digits(s@),
{
    let v = chars_of(s);
    let mut out = String::new();
    let ghost is_digit = |c: char| '0' <= c <= '9';
    assert(s@.take(0).filter(is_digit) =~= Seq::<char>::empty()) by {
        reveal(Seq::filter);
    }
    for i in 0..v.len()
        invariant
            v@ == s@,
            is_digit == (|c: char| '0' <= c <= '9'),
            out@ == s@.take(i as int).filter(is_digit),
    {
        let c = v[i];
        proof {
            reveal(Seq::filter);
            assert(s@.take(i + 1).drop_last() =~= s@.take(i as int));
        }
        if '0' <= c && c <= '9' {
            out.push(c);
        }
    }
    assert(s@.take(v@.len() as int) =~= s@);
    out
}

/// The decimal digit of a number below ten.
pub open spec fn digit(d: int) -> char {
    seq!['0', '1', '2', '3', '4', '5', '6', '7', '8', '9'][d]
}

/// A number in decimal notation.
pub open spec fn decimal(n: nat) -> Seq<char>
    decreases n,
{
    if n < 10 {
        seq![digit(n as int)]
    } else {
        decimal(n / 10).push(digit((n % 10) as int))
    }
}

/// An integer in decimal notation, with a leading minus sign where it is negative.
pub open spec fn decimal_int(n: int) -> Seq<char> {
    if n < 0 {
        seq!['-'] + decimal((-n) as nat)
    } else {
        decimal(n as nat)
    }
}

fn digit_char(d: u64) -> (r: char)
    requires
        d < 10,
    ensures
        r == digit(d as int),
{
    match d {
        0 => '0',
        1 => '1',
        2 => '2',
        3 => '3',
        4 => '4',
        5 => '5',
        6 => '6',
        7 => '7',
        8 => '8',
        _ => '9',
    }
}

/// `n` in decimal notation.
pub fn decimal_text(n: u64) -> (r: String)
    ensures
        r@ == decimal(n as nat),
    decreases n,
{
    let mut s = if n < 10 {
        String::new()
    } else {
        decimal_text(n / 10)
    };
    s.push(digit_char(n % 10));
    assert(s@ =~= decimal(n as nat));
    s
}

/// `n` in decimal notation, with a leading minus sign where it is negative.
pub fn decimal_int_text(n: i64) -> (r: String)
    ensures
        r@ == decimal_int(n as int),
{
    if n < 0 {
        let magnitude: u64 = if n == i64::MIN {
            9223372036854775808
        } else {
            (-n) as u64
        };
        let tail = decimal_text(magnitude);
        let mut s = String::new();
        s.push('-');
        s.append(tail.as_str());
        assert(s@ =~= decimal_int(n as int));
        s
    } else {
        decimal_text(n as u64)
    }
}

/// The position of the first line feed in `s`, or the length of `s` where there is none.
pub open spec fn line_end(s: Seq<char>) -> nat
    decreases s.len(),
{
    if s.len() == 0 || s[0] == '\n' {
        0
    } else {
        1 + line_end(s.skip(1))
    }
}

/// The first line of a text: what stands before the first line feed, without the carriage
/// return right before that line feed. An empty text has no line.
pub open spec fn first_line(s: Seq<char>) -> Option<Seq<char>> {
    let n = line_end(s) as int;
    if s.len() == 0 {
        None
    } else if 0 < n < s.len() && s[n - 1] == '\r' {
        Some(s.take(n - 1))
    } else {
        Some(s.take(n))
    }
}

/// The first line of a text.
pub fn first_line_of(s: &str) -> (r: Option<String>)
    ensures
        opt_view(r) == first_line(s@),
{
    let v = chars_of(s);
    if v.len() == 0 {
        return None;
    }
    let mut n: usize = 0;
    assert(s@.skip(0) =~= s@);
    while n < v.len() && v[n] != '\n'
        invariant
            v@ == s@,
            n <= v@.len(),
            line_end(s@) == n + line_end(s@.skip(n as int)),
        decreases v@.len() - n,
    {
        assert(s@.skip(n as int).skip(1) =~= s@.skip(n + 1));
        n = n + 1;
    }
    assert(line_end(s@) == n);
    if 0 < n && n < v.len() && v[n - 1] == '\r' {
        let r = string_of(&v, 0, n - 1);
        assert(r@ =~= s@.take(n - 1));
        Some(r)
    } else {
        let r = string_of(&v, 0, n);
        assert(r@ =~= s@.take(n as int));
        Some(r)
    }
}

/// The parts with the separator between them.
pub open spec fn joined(parts: Seq<Seq<char>>, sep: char) -> Seq<char>
    decreases parts.len(),
{
    if parts.len() == 0 {
        Seq::empty()
    } else if parts.len() == 1 {
        parts[0]
    } else {
        joined(parts.drop_last(), sep).push(sep) + parts.last()
    }
}

/// The parts of a text hold no separator, and with separators between them they are the text.
pub proof fn law_split_parts_make_the_text(s: Seq<char>, sep: char)
    ensures
        split(s, sep).len() > 0,
        joined(split(s, sep), sep) == s,
        forall|i: int| 0 <= i < split(s, sep).len() ==> !(#[trigger] split(s, sep)[i]).contains(sep),
    decreases s.len(),
{
    if s.len() > 0 {
        let init = s.drop_last();
        let parts = split(init, sep);
        law_split_parts_make_the_text(init, sep);
        let all = split(s, sep);
        assert(init.push(s.last()) =~= s);
        if s.last() == sep {
            assert(all.drop_last() =~= parts);
            assert(joined(all, sep) =~= s);
        } else {
            assert(all.drop_last() =~= parts.drop_last());
            if all.len() > 1 {
                assert(joined(parts, sep) == joined(parts.drop_last(), sep).push(sep)
                    + parts.last());
            }
            assert(joined(all, sep) =~= s);
            assert forall|i: int| 0 <= i < all.len() implies !(#[trigger] all[i]).contains(sep) by {
                if i < parts.len() - 1 {
                    assert(all[i] == parts[i]);
                } else {
                    let last = parts.last();
                    assert(!parts[parts.len() - 1].contains(sep));
                    assert forall|k: int| 0 <= k < all[i].len() implies all[i][k] != sep by {
                        if k < last.len() {
                            assert(last[k] == all[i][k]);
                            assert(last.contains(last[k]));
                        }
                    }
                }
            }
        }
    } else {
        assert(s =~= Seq::empty());
    }
}

/// The first part of a text reaches to the first separator, or to the end where there is none.
pub proof fn law_first_part_ends_at_the_separator(s: Seq<char>, sep: char)
    ensures
        ({
            let first = split(s, sep)[0];
            &&& first.is_prefix_of(s)
            &&& !first.contains(sep)
            &&& first.len() < s.len() ==> s[first.len() as int] == sep
        }),
    decreases s.len(),
{
    law_split_parts_make_the_text(s, sep);
    if s.len() > 0 {
        let init = s.drop_last();
        let parts = split(init, sep);
        law_split_parts_make_the_text(init, sep);
        law_first_part_ends_at_the_separator(init, sep);
        if parts.len() == 1 {
            assert(parts.drop_last() =~= Seq::empty());
            assert(joined(parts, sep) == parts[0]);
            assert(init.push(s.last()) =~= s);
            if s.last() != sep {
                assert(split(s, sep)[0] =~= s);
            }
        } else {
            assert(split(s, sep)[0] == parts[0]);
            lemma_more_parts(init, sep);
        }
        assert(init.is_prefix_of(s));
    } else {
        assert(s =~= Seq::empty());
    }
}

proof fn lemma_more_parts(s: Seq<char>, sep: char)
    requires
        split(s, sep).len() > 1,
    ensures
        split(s, sep)[0].len() < s.len(),
    decreases s.len(),
{
    let init = s.drop_last();
    lemma_split_nonempty(init, sep);
    if split(init, sep).len() > 1 {
        lemma_more_parts(init, sep);
    } else {
        law_split_parts_make_the_text(init, sep);
        assert(joined(split(init, sep), sep) == split(init, sep)[0]);
    }
}

/// A trimmed text is what is left of the text between white space: it neither starts nor ends with
/// any, and all that was cut off is white space.
pub proof fn law_trimming_cuts_white_space(s: Seq<char>)
    ensures
        exists|i: int, j: int| #[trigger] trimmed_to(s, i, j) && trimmed(s) == s.subrange(i, j),
{
    lemma_trimmed_start(s);
    let i = choose|i: int|
        0 <= i <= s.len() && trimmed_start(s) == #[trigger] s.skip(i) && blank(s.take(i)) && (i
            < s.len() ==> !white_space(s[i]));
    let mid = s.skip(i);
    lemma_trimmed_end(mid);
    let k = choose|k: int|
        0 <= k <= mid.len() && trimmed_end(mid) == #[trigger] mid.take(k) && blank(mid.skip(k)) && (
        k > 0 ==> !white_space(mid[k - 1]));
    let j = i + k;
    assert(mid.take(k) =~= s.subrange(i, j));
    assert(s.skip(j) =~= mid.skip(k));
    if i < j {
        assert(mid[k - 1] == s[j - 1]);
    } else if i < s.len() {
        assert(blank(mid));
        assert(mid.skip(0) =~= mid);
        assert(white_space(mid[0]));
    }
    assert(trimmed_to(s, i, j));
}

/// All characters are white space.
pub open spec fn blank(s: Seq<char>) -> bool {
    forall|i: int| 0 <= i < s.len() ==> white_space(#[trigger] s[i])
}

/// What stands outside of `s[i..j]` is white space, and `s[i..j]` neither starts nor ends with any.
pub open spec fn trimmed_to(s: Seq<char>, i: int, j: int) -> bool {
    &&& 0 <= i <= j <= s.len()
    &&& blank(s.take(i))
    &&& blank(s.skip(j))
    &&& i < j ==> !white_space(s[i]) && !white_space(s[j - 1])
}

proof fn lemma_trimmed_start(s: Seq<char>)
    ensures
        exists|i: int|
            0 <= i <= s.len() && trimmed_start(s) == #[trigger] s.skip(i) && blank(s.take(i)) && (i
                < s.len() ==> !white_space(s[i])),
    decreases s.len(),
{
    if s.len() > 0 && white_space(s[0]) {
        let rest = s.skip(1);
        lemma_trimmed_start(rest);
        let k = choose|k: int|
            0 <= k <= rest.len() && trimmed_start(rest) == #[trigger] rest.skip(k) && blank(
                rest.take(k),
            ) && (k < rest.len() ==> !white_space(rest[k]));
        assert(rest.skip(k) =~= s.skip(k + 1));
        assert forall|j: int| 0 <= j < s.take(k + 1).len() implies white_space(
            #[trigger] s.take(k + 1)[j],
        ) by {
            if j > 0 {
                assert(rest.take(k)[j - 1] == s[j]);
            }
        }
        assert(blank(s.take(k + 1)));
    } else {
        assert(s.skip(0) =~= s);
        assert(blank(s.take(0)));
    }
}

proof fn lemma_trimmed_end(s: Seq<char>)
    ensures
        exists|k: int|
            0 <= k <= s.len() && trimmed_end(s) == #[trigger] s.take(k) && blank(s.skip(k)) && (k > 0
                ==> !white_space(s[k - 1])),
    decreases s.len(),
{
    if s.len() > 0 && white_space(s.last()) {
        let init = s.drop_last();
        lemma_trimmed_end(init);
        let k = choose|k: int|
            0 <= k <= init.len() && trimmed_end(init) == #[trigger] init.take(k) && blank(
                init.skip(k),
            ) && (k > 0 ==> !white_space(init[k - 1]));
        assert(init.take(k) =~= s.take(k));
        assert forall|j: int| 0 <= j < s.skip(k).len() implies white_space(#[trigger] s.skip(k)[j]) by {
            if k + j < init.len() {
                assert(init.skip(k)[j] == s[k + j]);
            }
        }
        assert(blank(s.skip(k)));
    } else {
        assert(s.take(s.len() as int) =~= s);
        assert(blank(s.skip(s.len() as int)));
    }
}

/// What is left of a text without its tail does not end with the character, and all that was cut
/// off is that character.
pub proof fn law_tails_are_cut(s: Seq<char>, c: char)
    ensures
        without_tail(s, c).is_prefix_of(s),
        without_tail(s, c).len() > 0 ==> without_tail(s, c).last() != c,
        forall|i: int| without_tail(s, c).len() <= i < s.len() ==> #[trigger] s[i] == c,
    decreases s.len(),
{
    if s.len() > 0 && s.last() == c {
        let init = s.drop_last();
        law_tails_are_cut(init, c);
        assert(without_tail(s, c) == without_tail(init, c));
        assert(init.is_prefix_of(s));
        assert forall|i: int| without_tail(s, c).len() <= i < s.len() implies #[trigger] s[i] == c by {
            if i < init.len() {
                assert(init[i] == s[i]);
            }
        }
        assert(without_tail(init, c) =~= s.subrange(0, without_tail(init, c).len() as int));
    } else {
        assert(s =~= s.subrange(0, s.len() as int));
    }
}

/// A text begins with a prefix exactly where it is the prefix and what follows it.
pub proof fn law_prefixes_are_followed(s: Seq<char>, prefix: Seq<char>, rest: Seq<char>)
    ensures
        after_prefix(s, prefix) == Some(rest) <==> s == prefix + rest,
{
    if after_prefix(s, prefix) == Some(rest) {
        assert(s =~= prefix + rest);
    }
    if s == prefix + rest {
        assert(prefix =~= s.subrange(0, prefix.len() as int));
        assert(s.skip(prefix.len() as int) =~= rest);
    }
}

/// A text holds whatever it is made of.
pub proof fn law_texts_hold_their_parts(a: Seq<char>, pat: Seq<char>, b: Seq<char>)
    ensures
        holds(a + pat + b, pat),
{
    let s = a + pat + b;
    assert(s.subrange(a.len() as int, (a.len() + pat.len()) as int) =~= pat);
    assert(stands_at(s, pat, a.len() as int));
}

/// What a text holds is a part of it.
pub proof fn law_what_is_held_is_a_part(s: Seq<char>, pat: Seq<char>)
    requires
        holds(s, pat),
    ensures
        exists|i: int|
            0 <= i && i + pat.len() <= s.len() && s == #[trigger] s.take(i) + pat + s.skip(
                i + pat.len(),
            ),
{
    let i = choose|i: int| #[trigger] stands_at(s, pat, i);
    assert(s =~= s.take(i) + pat + s.skip(i + pat.len()));
}

/// The number that decimal digits denote.
pub open spec fn value_of(digits: Seq<char>) -> int
    decreases digits.len(),
{
    if digits.len() == 0 {
        0
    } else {
        value_of(digits.drop_last()) * 10 + (digits.last() as int - '0' as int)
    }
}

/// The decimal notation of a number is made of digits that denote the number, without leading
/// zeros.
pub proof fn law_decimals_denote_their_number(n: nat)
    ensures
        value_of(decimal(n)) == n,
        decimal(n).len() > 0,
        decimal(n).len() > 1 ==> decimal(n)[0] != '0',
        forall|i: int| 0 <= i < decimal(n).len() ==> '0' <= #[trigger] decimal(n)[i] <= '9',
    decreases n,
{
    if n < 10 {
        assert(decimal(n).drop_last() =~= Seq::empty());
        assert(value_of(Seq::empty()) == 0);
    } else {
        let q = n / 10;
        law_decimals_denote_their_number(q);
        assert(decimal(n).drop_last() =~= decimal(q));
        assert(decimal(n)[0] == decimal(q)[0]);
        if q < 10 {
            assert(q == 1 || q == 2 || q == 3 || q == 4 || q == 5 || q == 6 || q == 7 || q == 8
                || q == 9);
        } else {
            law_decimals_denote_their_number(q / 10);
        }
    }
}

/// A negative number is written as its absolute value after a minus sign.
pub proof fn law_integers_have_a_sign(n: int)
    ensures
        n >= 0 ==> decimal_int(n) == decimal(n as nat),
        n < 0 ==> decimal_int(n).len() > 1 && decimal_int(n)[0] == '-' && decimal_int(n).skip(1)
            == decimal((-n) as nat),
{
    law_decimals_denote_their_number((-n) as nat);
    if n < 0 {
        assert(decimal_int(n).skip(1) =~= decimal((-n) as nat));
    }
}

/// The digits of a text are those of its characters that are digits, in their order.
pub proof fn law_digits_are_kept_in_order(s: Seq<char>, c: char)
    ensures
        digits(Seq::empty()) == Seq::<char>::empty(),
        digits(s.push(c)) == (if '0' <= c <= '9' {
            digits(s).push(c)
        } else {
            digits(s)
        }),
{
    reveal(Seq::filter);
    assert(s.push(c).drop_last() =~= s);
}

/// The first line of a text holds no line feed and begins the text; what follows it, if anything
/// does, is the end of the line.
pub proof fn law_first_lines_end_at_the_line_feed(s: Seq<char>)
    ensures
        first_line(s) is None <==> s.len() == 0,
        first_line(s) matches Some(line) ==> {
            &&& line.is_prefix_of(s)
            &&& !line.contains('\n')
            &&& line.len() < s.len() ==> {
                ||| s[line.len() as int] == '\n'
                ||| s[line.len() as int] == '\r' && line.len() + 1 < s.len() && s[line.len() as int + 1]
                    == '\n'
            }
            &&& line.len() > 0 && line.last() == '\r' ==> {
                ||| line.len() == s.len()
                ||| s[line.len() as int] == '\r'
            }
        },
{
    lemma_line_end(s);
    let n = line_end(s) as int;
    if s.len() > 0 {
        assert(s.take(n) =~= s.subrange(0, n));
        if n > 0 {
            assert(s.take(n - 1) =~= s.subrange(0, n - 1));
        }
    }
}

proof fn lemma_line_end(s: Seq<char>)
    ensures
        line_end(s) <= s.len(),
        line_end(s) < s.len() ==> s[line_end(s) as int] == '\n',
        forall|i: int| 0 <= i < line_end(s) ==> #[trigger] s[i] != '\n',
    decreases s.len(),
{
    if s.len() > 0 && s[0] != '\n' {
        let rest = s.skip(1);
        lemma_line_end(rest);
        assert forall|i: int| 0 <= i < line_end(s) implies #[trigger] s[i] != '\n' by {
            if i > 0 {
                assert(rest[i - 1] == s[i]);
            }
        }
    }
}

/// Of two texts in ASCII, the one in lower case holds the other in lower case exactly where the
/// text holds the other in any case of its letters.
pub proof fn law_lower_case_tells_any_case(s: Seq<char>, pat: Seq<char>)
    requires
        vstd::utf8::is_ascii_chars(s),
        vstd::utf8::is_ascii_chars(pat),
    ensures
        holds(lowered(s), lowered(pat)) <==> holds_any_case(s, pat),
{
    if holds(lowered(s), lowered(pat)) {
        let i = choose|i: int| #[trigger] stands_at(lowered(s), lowered(pat), i);
        let start = s.skip(i).take(pat.len() as int);
        assert forall|k: int| 0 <= k < start.len() implies ascii_lower(#[trigger] start[k])
            == ascii_lower(pat[k]) by {
            assert(lowered(s).subrange(i, i + pat.len())[k] == lowered(pat)[k]);
        }
        assert(starts_but_case(s.skip(i), pat));
    }
    if holds_any_case(s, pat) {
        let i = choose|i: int| 0 <= i <= s.len() && #[trigger] starts_but_case(s.skip(i), pat);
        let start = s.skip(i).take(pat.len() as int);
        assert forall|k: int| 0 <= k < pat.len() implies lowered(s).subrange(i, i + pat.len())[k]
            == lowered(pat)[k] by {
            assert(ascii_lower(start[k]) == ascii_lower(pat[k]));
        }
        assert(lowered(s).subrange(i, i + pat.len()) =~= lowered(pat));
        assert(stands_at(lowered(s), lowered(pat), i));
    }
}

/// Lower case changes the letters `A` to `Z` alone, each into the letter that is as far after `a`
/// as it is after `A`.
pub proof fn law_lower_case_of_a_letter(c: char)
    ensures
        'A' <= c <= 'Z' ==> ascii_lower(c) as int - 'a' as int == c as int - 'A' as int,
        !('A' <= c <= 'Z') ==> ascii_lower(c) == c,
{
}

/// An optional text is seen as the text that it is, and a copy of it is the same.
pub proof fn law_optional_texts_are_seen(
    s: Option<String>,
    slice: Option<&str>,
    copy: Option<String>,
    borrowed: Option<&str>,
    owned: Option<String>,
)
    requires
        call_ensures(copy_opt, (&s,), copy),
        call_ensures(opt_str, (&s,), borrowed),
        call_ensures(own_opt, (slice,), owned),
    ensures
        match s {
            Some(t) => {
                &&& opt_view(s) == Some(t@)
                &&& copy matches Some(c) && c@ == t@
                &&& borrowed matches Some(b) && b@ == t@
            },
            None => opt_view(s) is None && copy is None && borrowed is None,
        },
        match slice {
            Some(t) => opt_str_view(slice) == Some(t@) && owned is Some && owned->0@ == t@,
            None => opt_str_view(slice) is None && owned is None,
        },
{
}

/// The first pattern that stands in a text is removed, and what stands before it is kept.
pub proof fn law_patterns_are_removed_anywhere(
    before: Seq<char>,
    word: Seq<char>,
    rest: Seq<char>,
    pat: Seq<char>,
)
    requires
        pat.len() > 0,
        same_but_case(word, pat),
        forall|i: int|
            0 <= i < before.len() ==> !starts_but_case(
                #[trigger] (before + word + rest).skip(i),
                pat,
            ),
    ensures
        without_any_case(before + word + rest, pat) == before + without_any_case(rest, pat),
    decreases before.len(),
{
    let s = before + word + rest;
    if before.len() == 0 {
        assert(s =~= word + rest);
        law_leading_pattern_is_removed(word, rest, pat);
        assert(before + without_any_case(rest, pat) =~= without_any_case(rest, pat));
    } else {
        let tail = before.skip(1);
        assert(s.skip(0) =~= s);
        assert(!starts_but_case(s.skip(0), pat));
        assert(s.skip(1) =~= tail + word + rest);
        assert forall|i: int| 0 <= i < tail.len() implies !starts_but_case(
            #[trigger] (tail + word + rest).skip(i),
            pat,
        ) by {
            assert((tail + word + rest).skip(i) =~= s.skip(i + 1));
            assert(!starts_but_case(s.skip(i + 1), pat));
        }
        law_patterns_are_removed_anywhere(tail, word, rest, pat);
        assert(seq![before[0]] + (tail + without_any_case(rest, pat)) =~= before
            + without_any_case(rest, pat));
    }
}

/// The functions on texts do what is told of them here.
pub proof fn law_texts_are_taken_apart(
    s: &str,
    other: &str,
    c: char,
    equal: bool,
    starts: bool,
    follows: Option<String>,
    inside: bool,
    without: String,
    parts: Vec<String>,
    middle: String,
    head: String,
    numbers: String,
    line: Option<String>,
)
    requires
        call_ensures(same, (s, other), equal),
        call_ensures(starts_with, (s, other), starts),
        call_ensures(strip_prefix, (s, other), follows),
        call_ensures(contains, (s, other), inside),
        call_ensures(remove_any_case, (s, other), without),
        call_ensures(split_on, (s, c), parts),
        call_ensures(trim, (s,), middle),
        call_ensures(trim_tail, (s, c), head),
        call_ensures(digits_of, (s,), numbers),
        call_ensures(first_line_of, (s,), line),
    ensures
        equal <==> s@ == other@,
        starts <==> other@.is_prefix_of(s@),
        follows is Some <==> starts,
        follows matches Some(rest) ==> s@ == other@ + rest@,
        inside <==> holds(s@, other@),
        without@ == without_any_case(s@, other@),
        parts@.len() == split(s@, c).len(),
        forall|i: int| 0 <= i < parts@.len() ==> (#[trigger] parts@[i])@ == split(s@, c)[i],
        middle@ == trimmed(s@),
        head@ == without_tail(s@, c),
        numbers@ == digits(s@),
        opt_view(line) == first_line(s@),
{
    if let Some(rest) = follows {
        law_prefixes_are_followed(s@, other@, rest@);
    }
    assert(texts(parts@).len() == parts@.len());
    assert forall|i: int| 0 <= i < parts@.len() implies (#[trigger] parts@[i])@ == split(
        s@,
        c,
    )[i] by {
        assert(texts(parts@)[i] == parts@[i]@);
    }
}

/// Numbers are written in decimal notation.
pub proof fn law_numbers_are_written(n: u64, text: String, m: i64, signed: String)
    requires
        call_ensures(decimal_text, (n,), text),
        call_ensures(decimal_int_text, (m,), signed),
    ensures
        text@ == decimal(n as nat),
        signed@ == decimal_int(m as int),
{
}

} // verus!
