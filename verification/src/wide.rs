use vstd::prelude::*;

verus! {

/// The UTF-16 code units of one character: itself below `0x10000`, else its
/// surrogate pair.
pub open spec fn spec_utf16_char(c: char) -> Seq<u16> {
    let v = c as u32;
    if v < 0x10000 {
        seq![v as u16]
    } else {
        let u = (v - 0x10000) as u32;
        seq![(0xD800 + (u >> 10u32)) as u16, (0xDC00 + (u & 0x3FFu32)) as u16]
    }
}

/// The UTF-16 encoding of a string.
pub open spec fn spec_utf16(s: Seq<char>) -> Seq<u16>
    decreases s.len(),
{
    if s.len() == 0 {
        Seq::empty()
    } else {
        spec_utf16(s.drop_last()) + spec_utf16_char(s.last())
    }
}

/// Appends the UTF-16 code units of `c` to `out`.
fn push_utf16_char(out: &mut Vec<u16>, c: char)
    ensures
        final(out)@ == old(out)@ + spec_utf16_char(c),
{
    let v = c as u32;
    if v < 0x10000 {
        out.push(v as u16);
    } else {
        let u = v - 0x10000;
        assert(u >> 10u32 <= 0x3FF) by (bit_vector)
            requires
                u <= 0x10FFFF - 0x10000,
        ;
        assert(u & 0x3FFu32 <= 0x3FF) by (bit_vector);
        out.push((0xD800 + (u >> 10)) as u16);
        out.push((0xDC00 + (u & 0x3FF)) as u16);
    }
}

/// The UTF-16 encoding of `s` followed by a NUL unit: the wide,
/// NUL-terminated form that the system's text parameters take.
pub fn encode_wide(s: &str) -> (r: Vec<u16>)
    ensures
        r@ == spec_utf16(s@).push(0),
{
    let mut out: Vec<u16> = Vec::new();
    let ghost text = s@;
    proof {
        broadcast use vstd::string::axiom_spec_iter;
    }
    for c in it: s.chars()
        invariant
            it.seq() == text,
            out@ == spec_utf16(text.take(it.index() as int)),
    {
        let ghost before = text.take(it.index() as int);
        push_utf16_char(&mut out, c);
        proof {
            let after = text.take(it.index() + 1);
            assert(after.drop_last() == before);
            assert(after.last() == c);
        }
    }
    proof {
        assert(text.take(text.len() as int) == text);
    }
    out.push(0);
    out
}

/// `prefix` is `wide` cut before its first NUL unit (all of it where it
/// holds none).
pub open spec fn spec_until_nul(wide: Seq<u16>, prefix: Seq<u16>) -> bool {
    &&& prefix.len() <= wide.len()
    &&& prefix == wide.take(prefix.len() as int)
    &&& forall|i: int| 0 <= i < prefix.len() ==> prefix[i] != 0
    &&& prefix.len() == wide.len() || wide[prefix.len() as int] == 0
}

/// The code units of a NUL-terminated wide string: `wide` up to its first
/// NUL unit, or all of it where it holds none.
pub fn decode_wide(wide: &[u16]) -> (r: Vec<u16>)
    ensures
        spec_until_nul(wide@, r@),
{
    let mut out: Vec<u16> = Vec::new();
    let mut i: usize = 0;
    while i < wide.len()
        invariant
            i <= wide.len(),
            out@ == wide@.take(i as int),
            forall|j: int| 0 <= j < i ==> wide@[j] != 0,
        decreases wide.len() - i,
    {
        if wide[i] == 0 {
            return out;
        }
        out.push(wide[i]);
        i = i + 1;
        assert(out@ == wide@.take(i as int));
    }
    assert(wide@.take(i as int) == wide@);
    out
}

/// A string without NUL characters encodes to code units without NUL units.
proof fn lemma_utf16_has_no_nul(s: Seq<char>)
    requires
        forall|i: int| 0 <= i < s.len() ==> (#[trigger] s[i]) as u32 != 0,
    ensures
        forall|i: int| 0 <= i < spec_utf16(s).len() ==> #[trigger] spec_utf16(s)[i] != 0,
    decreases s.len(),
{
    if s.len() > 0 {
        let t = s.drop_last();
        assert forall|i: int| 0 <= i < t.len() implies (#[trigger] t[i]) as u32 != 0 by {
            assert(t[i] == s[i]);
        }
        lemma_utf16_has_no_nul(t);
        let c = s.last();
        assert(c as u32 != 0);
        let u = spec_utf16_char(c);
        let v = c as u32;
        vstd::utf8::char_is_scalar(c);
        if v >= 0x10000 {
            let w = (v - 0x10000) as u32;
            assert(0xD800 + (w >> 10u32) <= 0xFFFF) by (bit_vector)
                requires
                    w <= 0x10FFFF - 0x10000,
            ;
            assert(0xDC00 + (w & 0x3FFu32) <= 0xFFFF) by (bit_vector);
        }
        if v < 0x10000 {
            assert((v as u16) == v);
        }
        assert forall|i: int| 0 <= i < u.len() implies #[trigger] u[i] != 0 by {}
        let all = spec_utf16(s);
        assert(all == spec_utf16(t) + u);
        assert forall|i: int| 0 <= i < all.len() implies #[trigger] all[i] != 0 by {
            if i < spec_utf16(t).len() {
                assert(all[i] == spec_utf16(t)[i]);
            } else {
                assert(all[i] == u[i - spec_utf16(t).len()]);
            }
        }
    }
}

/// Decoding what [`encode_wide`] made of a string without NUL characters
/// gives back the string's UTF-16 code units, without the terminator.
pub proof fn law_decode_after_encode(s: Seq<char>, decoded: Seq<u16>)
    requires
        forall|i: int| 0 <= i < s.len() ==> (#[trigger] s[i]) as u32 != 0,
        spec_until_nul(spec_utf16(s).push(0), decoded),
    ensures
        decoded == spec_utf16(s),
{
    lemma_utf16_has_no_nul(s);
    let u = spec_utf16(s);
    let w = u.push(0);
    if decoded.len() < u.len() {
        assert(w[decoded.len() as int] == u[decoded.len() as int]);
    } else if decoded.len() == w.len() {
        assert(decoded[u.len() as int] == w[u.len() as int]);
    }
    assert(decoded.len() == u.len());
    assert(decoded == w.take(u.len() as int));
    assert(w.take(u.len() as int) == u);
}

} // verus!
