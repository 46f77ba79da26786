use vstd::prelude::*;

verus! {

/// Characters with the Unicode `White_Space` property.
pub open spec fn spec_is_whitespace(c: char) -> bool {
    let v = c as u32;
    (0x09 <= v && v <= 0x0D) || v == 0x20 || v == 0x85 || v == 0xA0 || v == 0x1680 || (0x2000
        <= v && v <= 0x200A) || v == 0x2028 || v == 0x2029 || v == 0x202F || v == 0x205F || v
        == 0x3000
}

/// Whether `c` has the Unicode `White_Space` property.
pub fn is_whitespace(c: char) -> (r: bool)
    ensures
        r == spec_is_whitespace(c),
{
    let v = c as u32;
    (0x09 <= v && v <= 0x0D) || v == 0x20 || v == 0x85 || v == 0xA0 || v == 0x1680 || (0x2000
        <= v && v <= 0x200A) || v == 0x2028 || v == 0x2029 || v == 0x202F || v == 0x205F || v
        == 0x3000
}

/// `s` without its leading whitespace.
pub open spec fn spec_trim_start(s: Seq<char>) -> Seq<char>
    decreases s.len(),
{
    if s.len() > 0 && spec_is_whitespace(s[0]) {
        spec_trim_start(s.drop_first())
    } else {
        s
    }
}

/// `s` without its trailing whitespace.
pub open spec fn spec_trim_end(s: Seq<char>) -> Seq<char>
    decreases s.len(),
{
    if s.len() > 0 && spec_is_whitespace(s.last()) {
        spec_trim_end(s.drop_last())
    } else {
        s
    }
}

/// `s` without leading and trailing whitespace.
pub open spec fn spec_trim(s: Seq<char>) -> Seq<char> {
    spec_trim_end(spec_trim_start(s))
}

/// Cutting at the first non-whitespace character `a` is trimming the start.
proof fn lemma_trim_start_at(s: Seq<char>, a: int)
    requires
        0 <= a <= s.len(),
        forall|j: int| 0 <= j < a ==> spec_is_whitespace(#[trigger] s[j]),
        a == s.len() || !spec_is_whitespace(s[a]),
    ensures
        spec_trim_start(s) == s.skip(a),
    decreases a,
{
    if a > 0 {
        assert(spec_is_whitespace(s[0]));
        let t = s.drop_first();
        assert forall|j: int| 0 <= j < a - 1 implies spec_is_whitespace(#[trigger] t[j]) by {
            assert(t[j] == s[j + 1]);
        }
        lemma_trim_start_at(t, a - 1);
        assert(t.skip(a - 1) == s.skip(a));
    } else {
        assert(s.skip(0) == s);
    }
}

/// Cutting after the last non-whitespace character `b` is trimming the end.
proof fn lemma_trim_end_at(s: Seq<char>, b: int)
    requires
        0 <= b <= s.len(),
        forall|j: int| b <= j < s.len() ==> spec_is_whitespace(#[trigger] s[j]),
        b == 0 || !spec_is_whitespace(s[b - 1]),
    ensures
        spec_trim_end(s) == s.take(b),
    decreases s.len() - b,
{
    if b < s.len() {
        assert(spec_is_whitespace(s.last()));
        let t = s.drop_last();
        assert forall|j: int| b <= j < t.len() implies spec_is_whitespace(#[trigger] t[j]) by {
            assert(t[j] == s[j]);
        }
        lemma_trim_end_at(t, b);
        assert(t.take(b) == s.take(b));
    } else {
        assert(s.take(b) == s);
    }
}

/// The pieces of `s` between `'.'` characters (one piece more than there
/// are dots).
pub open spec fn spec_split_dots(s: Seq<char>) -> Seq<Seq<char>>
    decreases s.len(),
{
    if s.len() == 0 {
        seq![Seq::empty()]
    } else {
        let p = spec_split_dots(s.drop_last());
        if s.last() == '.' {
            p.push(Seq::empty())
        } else {
            p.update(p.len() - 1, p.last().push(s.last()))
        }
    }
}

/// There is always at least one piece.
proof fn lemma_split_dots_nonempty(s: Seq<char>)
    ensures
        spec_split_dots(s).len() >= 1,
    decreases s.len(),
{
    if s.len() > 0 {
        lemma_split_dots_nonempty(s.drop_last());
    }
}

/// The pieces of `s` between `'.'` characters, without a last piece that is
/// empty.
pub open spec fn spec_split_terminator(s: Seq<char>) -> Seq<Seq<char>> {
    let p = spec_split_dots(s);
    if p.last().len() == 0 {
        p.drop_last()
    } else {
        p
    }
}

/// The value of a decimal digit character.
pub open spec fn spec_digit(c: char) -> int {
    (c as u32) - ('0' as u32)
}

/// A decimal digit character.
pub open spec fn spec_is_digit(c: char) -> bool {
    '0' <= c && c <= '9'
}

/// The value of a string of decimal digits.
pub open spec fn spec_digits_value(d: Seq<char>) -> int
    decreases d.len(),
{
    if d.len() == 0 {
        0
    } else {
        spec_digits_value(d.drop_last()) * 10 + spec_digit(d.last())
    }
}

/// The digits of an unsigned decimal number: the text after an optional `+`.
pub open spec fn spec_unsigned_digits(s: Seq<char>) -> Seq<char> {
    if s.len() > 0 && s[0] == '+' {
        s.drop_first()
    } else {
        s
    }
}

/// The `u64` that `s` spells in decimal: an optional `+`, then at least one
/// digit and nothing else, of a value that fits; `None` otherwise.
pub open spec fn spec_parse_u64(s: Seq<char>) -> Option<u64> {
    let d = spec_unsigned_digits(s);
    if d.len() > 0 && (forall|i: int| 0 <= i < d.len() ==> spec_is_digit(#[trigger] d[i]))
        && spec_digits_value(d) <= u64::MAX {
        Some(spec_digits_value(d) as u64)
    } else {
        None
    }
}

/// A longer run of digits is worth at least as much as its prefix.
proof fn lemma_digits_value_grows(d: Seq<char>, i: int)
    requires
        0 <= i <= d.len(),
        forall|k: int| 0 <= k < d.len() ==> spec_is_digit(#[trigger] d[k]),
    ensures
        spec_digits_value(d.take(i)) <= spec_digits_value(d),
        spec_digits_value(d) >= 0,
    decreases d.len(),
{
    if d.len() > 0 {
        let t = d.drop_last();
        assert forall|k: int| 0 <= k < t.len() implies spec_is_digit(#[trigger] t[k]) by {
            assert(t[k] == d[k]);
        }
        assert(spec_is_digit(d[d.len() - 1]));
        if i < d.len() {
            lemma_digits_value_grows(t, i);
            assert(t.take(i) == d.take(i));
        } else {
            lemma_digits_value_grows(t, 0);
            assert(d.take(i) == d);
        }
    } else {
        assert(d.take(i) == d);
    }
}

/// The `u64` that the characters `s[start..end]` spell in decimal, or `None`
/// where they do not spell one that fits.
pub fn parse_u64(s: &Vec<char>, start: usize, end: usize) -> (r: Option<u64>)
    requires
        start <= end <= s.len(),
    ensures
        r == spec_parse_u64(s@.subrange(start as int, end as int)),
{
    let ghost text = s@.subrange(start as int, end as int);
    let mut i = start;
    if i < end && s[i] == '+' {
        i = i + 1;
    }
    let ghost d = spec_unsigned_digits(text);
    proof {
        assert(d == s@.subrange(i as int, end as int));
    }
    if i == end {
        return None;
    }
    let first = i;
    let mut acc: u64 = 0;
    while i < end
        invariant
            first <= i <= end <= s.len(),
            first < end,
            d == s@.subrange(first as int, end as int),
            d == spec_unsigned_digits(s@.subrange(start as int, end as int)),
            forall|k: int| 0 <= k < i - first ==> spec_is_digit(#[trigger] d[k]),
            acc == spec_digits_value(d.take(i - first)),
        decreases end - i,
    {
        let c = s[i];
        if !('0' <= c && c <= '9') {
            proof {
                assert(d[i - first] == c);
                assert(!spec_is_digit(d[i - first]));
            }
            return None;
        }
        let digit = (c as u32 - '0' as u32) as u64;
        proof {
            assert(d[i - first] == c);
            let p = d.take(i - first + 1);
            assert(p.drop_last() == d.take(i - first));
            assert(p.last() == c);
        }
        if acc > (u64::MAX - digit) / 10 {
            proof {
                let p = d.take(i - first + 1);
                assert(spec_digits_value(p) > u64::MAX) by (nonlinear_arith)
                    requires
                        spec_digits_value(p) == acc * 10 + digit,
                        acc > (u64::MAX - digit) / 10,
                        digit <= 9,
                ;
                if forall|k: int| 0 <= k < d.len() ==> spec_is_digit(#[trigger] d[k]) {
                    lemma_digits_value_grows(d, i - first + 1);
                }
            }
            return None;
        }
        proof {
            assert(acc * 10 + digit <= u64::MAX) by (nonlinear_arith)
                requires
                    acc <= (u64::MAX - digit) / 10,
                    digit <= 9,
            ;
        }
        acc = acc * 10 + digit;
        i = i + 1;
    }
    proof {
        assert(d.take(i - first) == d);
    }
    Some(acc)
}

/// The characters of `s`, in order.
pub fn chars_of(s: &str) -> (r: Vec<char>)
    ensures
        r@ == s@,
{
    let mut out: Vec<char> = Vec::new();
    let ghost text = s@;
    proof {
        broadcast use vstd::string::axiom_spec_iter;
    }
    for c in it: s.chars()
        invariant
            it.seq() == text,
            out@ == text.take(it.index() as int),
    {
        out.push(c);
        proof {
            assert(text.take(it.index() + 1) == text.take(it.index() as int).push(c));
        }
    }
    proof {
        assert(text.take(text.len() as int) == text);
    }
    out
}

/// The bounds `(a, b)` of `s` without leading and trailing whitespace:
/// `spec_trim(s) == s[a..b]`.
pub fn trim_bounds(s: &Vec<char>) -> (r: (usize, usize))
    ensures
        r.0 <= r.1 <= s.len(),
        spec_trim(s@) == s@.subrange(r.0 as int, r.1 as int),
{
    let mut a: usize = 0;
    while a < s.len() && is_whitespace(s[a])
        invariant
            a <= s.len(),
            forall|j: int| 0 <= j < a ==> spec_is_whitespace(#[trigger] s@[j]),
        decreases s.len() - a,
    {
        a = a + 1;
    }
    let mut b: usize = s.len();
    while b > a && is_whitespace(s[b - 1])
        invariant
            a <= b <= s.len(),
            forall|j: int| b <= j < s.len() ==> spec_is_whitespace(#[trigger] s@[j]),
        decreases b - a,
    {
        b = b - 1;
    }
    proof {
        lemma_trim_start_at(s@, a as int);
        let t = s@.skip(a as int);
        assert forall|j: int| b - a <= j < t.len() implies spec_is_whitespace(#[trigger] t[j]) by {
            assert(t[j] == s@[j + a]);
        }
        if b > a {
            assert(t[b - a - 1] == s@[b - 1]);
        }
        lemma_trim_end_at(t, b - a);
        assert(t.take(b - a) == s@.subrange(a as int, b as int));
    }
    (a, b)
}

/// `pieces` are the bounds, within `s`, of the pieces of `s[a..b]` between
/// `'.'` characters, without a last piece that is empty.
pub open spec fn spec_pieces_at(s: Seq<char>, a: int, b: int, pieces: Seq<(usize, usize)>) -> bool {
    let p = spec_split_terminator(s.subrange(a, b));
    &&& pieces.len() == p.len()
    &&& forall|k: int|
        0 <= k < pieces.len() ==> {
            &&& a <= (#[trigger] pieces[k]).0 <= pieces[k].1 <= b
            &&& s.subrange(pieces[k].0 as int, pieces[k].1 as int) == p[k]
        }
}

/// The bounds of the pieces of `s[a..b]` between `'.'` characters, where a
/// last piece that is empty is left out.
pub fn split_terminator_dots(s: &Vec<char>, a: usize, b: usize) -> (r: Vec<(usize, usize)>)
    requires
        a <= b <= s.len(),
    ensures
        spec_pieces_at(s@, a as int, b as int, r@),
{
    let mut pieces: Vec<(usize, usize)> = Vec::new();
    let mut cur: usize = a;
    let mut i: usize = a;
    proof {
        assert(s@.subrange(a as int, a as int) =~= Seq::<char>::empty());
    }
    while i < b
        invariant
            a <= cur <= i <= b <= s.len(),
            pieces.len() + 1 == spec_split_dots(s@.subrange(a as int, i as int)).len(),
            forall|k: int|
                0 <= k < pieces.len() ==> {
                    &&& a <= (#[trigger] pieces@[k]).0 <= pieces@[k].1 <= i
                    &&& s@.subrange(pieces@[k].0 as int, pieces@[k].1 as int) == spec_split_dots(
                        s@.subrange(a as int, i as int),
                    )[k]
                },
            s@.subrange(cur as int, i as int) == spec_split_dots(
                s@.subrange(a as int, i as int),
            ).last(),
        decreases b - i,
    {
        let ghost prefix = s@.subrange(a as int, i as int);
        let ghost next = s@.subrange(a as int, i + 1);
        let ghost old_pieces = pieces@;
        proof {
            assert(next.drop_last() == prefix);
            assert(next.last() == s@[i as int]);
            lemma_split_dots_nonempty(prefix);
        }
        if s[i] == '.' {
            pieces.push((cur, i));
            cur = i + 1;
            proof {
                assert(s@.subrange(cur as int, (i + 1) as int) =~= Seq::<char>::empty());
                assert forall|k: int| 0 <= k < pieces.len() implies {
                    &&& a <= (#[trigger] pieces@[k]).0 <= pieces@[k].1 <= i + 1
                    &&& s@.subrange(pieces@[k].0 as int, pieces@[k].1 as int)
                        == spec_split_dots(next)[k]
                } by {
                    if k < old_pieces.len() {
                        assert(pieces@[k] == old_pieces[k]);
                    }
                }
            }
        } else {
            proof {
                assert(s@.subrange(cur as int, (i + 1) as int) == s@.subrange(
                    cur as int,
                    i as int,
                ).push(s@[i as int]));
                assert forall|k: int| 0 <= k < pieces.len() implies {
                    &&& a <= (#[trigger] pieces@[k]).0 <= pieces@[k].1 <= i + 1
                    &&& s@.subrange(pieces@[k].0 as int, pieces@[k].1 as int)
                        == spec_split_dots(next)[k]
                } by {
                    assert(spec_split_dots(next)[k] == spec_split_dots(prefix)[k]);
                }
            }
        }
        i = i + 1;
    }
    let ghost all = spec_split_dots(s@.subrange(a as int, b as int));
    proof {
        lemma_split_dots_nonempty(s@.subrange(a as int, b as int));
    }
    if cur < b {
        let ghost old_pieces = pieces@;
        pieces.push((cur, b));
        proof {
            assert forall|k: int| 0 <= k < pieces.len() implies {
                &&& a <= (#[trigger] pieces@[k]).0 <= pieces@[k].1 <= b
                &&& s@.subrange(pieces@[k].0 as int, pieces@[k].1 as int) == all[k]
            } by {
                if k < old_pieces.len() {
                    assert(pieces@[k] == old_pieces[k]);
                }
            }
        }
    }
    pieces
}

/// The version of an operating system: major, minor and patch numbers.
#[derive(Clone, Copy, Debug, PartialEq, Eq, Structural)]
pub struct OsVersion {
    pub major: u64,
    pub minor: u64,
    pub patch: u64,
}

/// The version that a version string spells: after trimming whitespace, the
/// pieces between dots (a trailing empty piece left out) give the major,
/// minor and patch numbers, a missing minor or patch number counting as 0
/// and pieces after the third being ignored. `None` where there is no first
/// piece or where one of the first three pieces is not a `u64` in decimal.
pub open spec fn spec_parse_os_version(s: Seq<char>) -> Option<OsVersion> {
    let p = spec_split_terminator(spec_trim(s));
    if p.len() == 0 {
        None
    } else {
        let major = spec_parse_u64(p[0]);
        let minor = if p.len() >= 2 {
            spec_parse_u64(p[1])
        } else {
            Some(0u64)
        };
        let patch = if p.len() >= 3 {
            spec_parse_u64(p[2])
        } else {
            Some(0u64)
        };
        if major is Some && minor is Some && patch is Some {
            Some(OsVersion { major: major->0, minor: minor->0, patch: patch->0 })
        } else {
            None
        }
    }
}

/// The version that a version string such as `"6.1.7601"` spells, or `None`
/// where it spells none (see [`spec_parse_os_version`]).
pub fn parse_os_version(version: &str) -> (r: Option<OsVersion>)
    ensures
        r == spec_parse_os_version(version@),
{
    let chars = chars_of(version);
    let (a, b) = trim_bounds(&chars);
    let pieces = split_terminator_dots(&chars, a, b);
    let ghost p = spec_split_terminator(spec_trim(version@));
    proof {
        assert(p == spec_split_terminator(chars@.subrange(a as int, b as int)));
    }
    if pieces.len() == 0 {
        return None;
    }
    let (s0, e0) = pieces[0];
    let major = match parse_u64(&chars, s0, e0) {
        Some(v) => v,
        None => return None,
    };
    let minor = if pieces.len() >= 2 {
        let (s1, e1) = pieces[1];
        match parse_u64(&chars, s1, e1) {
            Some(v) => v,
            None => return None,
        }
    } else {
        0
    };
    let patch = if pieces.len() >= 3 {
        let (s2, e2) = pieces[2];
        match parse_u64(&chars, s2, e2) {
            Some(v) => v,
            None => return None,
        }
    } else {
        0
    };
    Some(OsVersion { major, minor, patch })
}

/// Windows 7 (version 6.1), where the desktop has no separate worker window
/// behind its icons.
pub open spec fn spec_is_legacy_desktop(v: OsVersion) -> bool {
    v.major == 6 && v.minor == 1
}

/// Whether the desktop of the system of version `v` is laid out as on
/// Windows 7 (version 6.1).
pub fn is_legacy_desktop(v: OsVersion) -> (r: bool)
    ensures
        r == spec_is_legacy_desktop(v),
{
    v.major == 6 && v.minor == 1
}

/// The version of the running operating system as `os_info` reports it
/// (`os_info::get().version()`, in its display form such as `"6.1.7601"` or
/// `"Unknown"`). The text depends on the machine; nothing is claimed of it.
#[verifier::external_body]
fn os_version_text() -> String {
    os_info::get().version().to_string()
}

/// The running system's version text, and the version that it spells.
pub fn detect_os_version() -> (r: (String, Option<OsVersion>))
    ensures
        r.1 == spec_parse_os_version(r.0@),
{
    let text = os_version_text();
    let version = parse_os_version(text.as_str());
    (text, version)
}

/// Appending a character to a string appends it to the string's trimmed
/// start, unless the whole string is whitespace.
proof fn lemma_trim_start_push(s: Seq<char>, c: char)
    ensures
        spec_trim_start(s.push(c)) == (if spec_trim_start(s).len() == 0 {
            if spec_is_whitespace(c) {
                Seq::<char>::empty()
            } else {
                seq![c]
            }
        } else {
            spec_trim_start(s).push(c)
        }),
    decreases s.len(),
{
    if s.len() == 0 {
        assert(s.push(c) == seq![c]);
        assert(spec_trim_start(s) == s);
        if spec_is_whitespace(c) {
            assert(seq![c].drop_first() == Seq::<char>::empty());
            assert(spec_trim_start(Seq::<char>::empty()) == Seq::<char>::empty());
        }
    } else if spec_is_whitespace(s[0]) {
        assert(s.push(c).drop_first() == s.drop_first().push(c));
        lemma_trim_start_push(s.drop_first(), c);
    } else {
        assert(s.push(c)[0] == s[0]);
    }
}

/// Whitespace around a version string does not change the version it spells.
pub proof fn law_parse_ignores_surrounding_whitespace(s: Seq<char>, c: char)
    requires
        spec_is_whitespace(c),
    ensures
        spec_parse_os_version(seq![c] + s) == spec_parse_os_version(s),
        spec_parse_os_version(s.push(c)) == spec_parse_os_version(s),
{
    let front = seq![c] + s;
    assert(front.drop_first() == s);
    assert(front[0] == c);
    assert(spec_trim_start(front) == spec_trim_start(s));
    lemma_trim_start_push(s, c);
    let t = spec_trim_start(s);
    if t.len() == 0 {
        assert(spec_trim(s.push(c)) == spec_trim(s));
    } else {
        assert(t.push(c).drop_last() == t);
        assert(spec_trim_end(t.push(c)) == spec_trim_end(t));
    }
}

} // verus!
