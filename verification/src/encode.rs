//! Encoding of text into fixed-capacity, zero-padded buffers of 16-bit code
//! units, and the matching decoding.
//!
//! The descriptor's text fields hold UTF-16 code units. Input longer than a
//! field's capacity is silently truncated to the first `capacity` units;
//! shorter input is padded with zero units, which double as the terminator.

use vstd::prelude::*;
use vstd::string::StrSliceExecFns;

verus! {

/// The UTF-16 code units of a single character: one unit for code points
/// below 0x10000, otherwise a high/low surrogate pair.
pub open spec fn char_utf16(c: char) -> Seq<u16> {
    let v = c as u32;
    if v < 0x10000 {
        seq![v as u16]
    } else {
        seq![(0xD800 + (v - 0x10000) / 0x400) as u16, (0xDC00 + (v - 0x10000) % 0x400) as u16]
    }
}

/// The UTF-16 encoding of a sequence of characters.
pub open spec fn utf16_units(s: Seq<char>) -> Seq<u16>
    decreases s.len(),
{
    if s.len() == 0 {
        Seq::empty()
    } else {
        char_utf16(s[0]) + utf16_units(s.skip(1))
    }
}

/// Text encoded into a buffer of exactly `cap` code units: the UTF-16
/// encoding of the text, truncated to its first `cap` units when longer,
/// zero-padded up to `cap` units when shorter.
pub open spec fn encoded_wide(s: Seq<char>, cap: nat) -> Seq<u16> {
    let u = utf16_units(s);
    if u.len() >= cap {
        u.take(cap as int)
    } else {
        u + Seq::new((cap - u.len()) as nat, |i: int| 0u16)
    }
}

/// A high surrogate: the first unit of a two-unit encoding.
pub open spec fn is_high_surrogate(u: u16) -> bool {
    0xD800 <= u < 0xDC00
}

/// A low surrogate: the second unit of a two-unit encoding.
pub open spec fn is_low_surrogate(u: u16) -> bool {
    0xDC00 <= u < 0xE000
}

/// The code point a surrogate pair stands for.
pub open spec fn surrogate_pair_scalar(h: u16, l: u16) -> u32 {
    (0x10000 + (h - 0xD800) * 0x400 + (l - 0xDC00)) as u32
}

/// The character a surrogate pair stands for.
pub open spec fn surrogate_pair_char(h: u16, l: u16) -> char {
    surrogate_pair_scalar(h, l) as char
}

/// Decoding of a sequence of UTF-16 code units; an unpaired surrogate
/// decodes to the replacement character U+FFFD.
pub open spec fn utf16_decode(u: Seq<u16>) -> Seq<char>
    decreases u.len(),
{
    if u.len() == 0 {
        Seq::empty()
    } else if is_high_surrogate(u[0]) {
        if u.len() >= 2 && is_low_surrogate(u[1]) {
            seq![surrogate_pair_char(u[0], u[1])] + utf16_decode(u.skip(2))
        } else {
            seq!['\u{FFFD}'] + utf16_decode(u.skip(1))
        }
    } else if is_low_surrogate(u[0]) {
        seq!['\u{FFFD}'] + utf16_decode(u.skip(1))
    } else {
        seq![(u[0] as u32) as char] + utf16_decode(u.skip(1))
    }
}

/// `u` with its trailing zero code units removed.
pub open spec fn trim_trailing_zeros(u: Seq<u16>) -> Seq<u16>
    decreases u.len(),
{
    if u.len() == 0 {
        u
    } else if u.last() == 0 {
        trim_trailing_zeros(u.drop_last())
    } else {
        u
    }
}

/// Relies on char::from_u32: `Some` exactly on Unicode scalar values (code
/// points at most 0x10FFFF and outside the surrogate range 0xD800..=0xDFFF),
/// returning the character with that code point.
pub assume_specification[ char::from_u32 ](v: u32) -> (r: Option<char>)
    ensures
        (r matches Some(c) ==> c as u32 == v),
        (v < 0xD800 || (0xE000 <= v && v <= 0x10FFFF)) <==> r is Some,
;

/// Relies on String::push: appends one character at the end of the string.
#[verifier::external_body]
fn string_push(s: &mut String, c: char)
    ensures
        final(s)@ == old(s)@.push(c),
{
    s.push(c);
}

/// Appends the UTF-16 code units of `c` to `out`.
fn push_char_utf16(out: &mut Vec<u16>, c: char)
    ensures
        final(out)@ == old(out)@ + char_utf16(c),
{
    let n: u32 = c as u32;
    if n < 0x10000 {
        out.push(n as u16);
        assert(out@ =~= old(out)@ + char_utf16(c));
    } else {
        let m: u32 = n - 0x10000;
        assert(m / 0x400 <= 0x3FF && m % 0x400 < 0x400) by (nonlinear_arith)
            requires
                m <= 0xFFFFF,
        ;
        out.push(0xD800 + (m / 0x400) as u16);
        out.push(0xDC00 + (m % 0x400) as u16);
        assert(out@ =~= old(out)@ + char_utf16(c));
    }
}

/// The UTF-16 code units of `text`, in order.
fn utf16_of_str(text: &str) -> (r: Vec<u16>)
    ensures
        r@ == utf16_units(text@),
{
    let len: usize = text.unicode_len();
    let mut out: Vec<u16> = Vec::new();
    let mut i: usize = 0;
    while i < len
        invariant
            i <= len,
            len == text@.len(),
            out@ == utf16_units(text@.take(i as int)),
        decreases len - i,
    {
        let c = text.get_char(i);
        proof {
            lemma_utf16_units_push(text@.take(i as int), text@[i as int]);
            assert(text@.take(i as int).push(text@[i as int]) =~= text@.take(i as int + 1));
        }
        push_char_utf16(&mut out, c);
        i = i + 1;
    }
    proof {
        assert(text@.take(len as int) =~= text@);
    }
    out
}

/// Encodes `text` into a buffer of exactly `capacity` 16-bit code units:
/// the UTF-16 code units of the text, truncated to the first `capacity`
/// units when the text encodes to more, zero-padded otherwise. Truncation
/// is silent: callers are expected to keep text within capacity.
pub fn encode_string_wide(text: &str, capacity: usize) -> (r: Vec<u16>)
    ensures
        r@ == encoded_wide(text@, capacity as nat),
        r@.len() == capacity,
{
    let units = utf16_of_str(text);
    let ghost full = utf16_units(text@);
    if units.len() >= capacity {
        let mut out: Vec<u16> = Vec::new();
        let mut i: usize = 0;
        while i < capacity
            invariant
                i <= capacity,
                capacity <= units@.len(),
                units@ == full,
                out@ == full.take(i as int),
            decreases capacity - i,
        {
            let u = units[i];
            out.push(u);
            proof {
                assert(full.take(i as int).push(full[i as int]) =~= full.take(i as int + 1));
            }
            i = i + 1;
        }
        out
    } else {
        let mut out = units;
        while out.len() < capacity
            invariant
                full.len() < capacity,
                full.len() <= out@.len() <= capacity,
                out@.take(full.len() as int) == full,
                forall|j: int| full.len() <= j < out@.len() ==> out@[j] == 0u16,
            decreases capacity - out.len(),
        {
            out.push(0u16);
            proof {
                assert(out@.take(full.len() as int) =~= full);
            }
        }
        proof {
            assert(out@ =~= encoded_wide(text@, capacity as nat));
        }
        out
    }
}

/// Decodes a descriptor buffer back to text: the trailing zero padding is
/// dropped, then the remaining UTF-16 code units are decoded, an unpaired
/// surrogate becoming the replacement character U+FFFD.
pub fn decode_wide(units: &Vec<u16>) -> (r: String)
    ensures
        r@ == utf16_decode(trim_trailing_zeros(units@)),
{
    let mut end: usize = units.len();
    proof {
        assert(units@.take(end as int) =~= units@);
    }
    while end > 0 && units[end - 1] == 0
        invariant
            end <= units@.len(),
            trim_trailing_zeros(units@) == trim_trailing_zeros(units@.take(end as int)),
        decreases end,
    {
        proof {
            assert(units@.take(end as int).drop_last() =~= units@.take(end as int - 1));
        }
        end = end - 1;
    }
    let ghost t = units@.take(end as int);
    proof {
        assert(trim_trailing_zeros(units@) == t);
    }
    let mut out = String::new();
    let mut i: usize = 0;
    proof {
        assert(t.skip(0) =~= t);
        assert(out@ + utf16_decode(t.skip(0)) =~= utf16_decode(t));
    }
    while i < end
        invariant
            i <= end,
            end <= units@.len(),
            t == units@.take(end as int),
            out@ + utf16_decode(t.skip(i as int)) == utf16_decode(t),
        decreases end - i,
    {
        let ghost rest = t.skip(i as int);
        let u0 = units[i];
        proof {
            assert(rest[0] == t[i as int] == units@[i as int]);
        }
        if 0xD800 <= u0 && u0 < 0xDC00 {
            let mut paired = false;
            if i + 1 < end {
                let u1 = units[i + 1];
                if 0xDC00 <= u1 && u1 < 0xE000 {
                    paired = true;
                    proof {
                        assert(rest[1] == t[i as int + 1] == units@[i as int + 1]);
                        assert(rest.skip(2) =~= t.skip(i as int + 2));
                    }
                    let v: u32 = 0x10000 + (u0 as u32 - 0xD800) * 0x400 + (u1 as u32 - 0xDC00);
                    match char::from_u32(v) {
                        Some(c) => {
                            proof {
                                vstd::utf8::char_u32_cast(c, v);
                                assert(v == surrogate_pair_scalar(u0, u1));
                                assert(c == surrogate_pair_char(u0, u1));
                                assert(out@.push(c) + utf16_decode(t.skip(i as int + 2))
                                    =~= out@ + (seq![c] + utf16_decode(rest.skip(2))));
                            }
                            string_push(&mut out, c);
                        },
                        None => {
                            assert(false);
                        },
                    }
                    i = i + 2;
                }
            }
            if !paired {
                proof {
                    assert(rest.skip(1) =~= t.skip(i as int + 1));
                    assert(out@.push('\u{FFFD}') + utf16_decode(t.skip(i as int + 1))
                        =~= out@ + (seq!['\u{FFFD}'] + utf16_decode(rest.skip(1))));
                }
                string_push(&mut out, '\u{FFFD}');
                i = i + 1;
            }
        } else if 0xDC00 <= u0 && u0 < 0xE000 {
            proof {
                assert(rest.skip(1) =~= t.skip(i as int + 1));
                assert(out@.push('\u{FFFD}') + utf16_decode(t.skip(i as int + 1))
                    =~= out@ + (seq!['\u{FFFD}'] + utf16_decode(rest.skip(1))));
            }
            string_push(&mut out, '\u{FFFD}');
            i = i + 1;
        } else {
            match char::from_u32(u0 as u32) {
                Some(c) => {
                    proof {
                        vstd::utf8::char_u32_cast(c, u0 as u32);
                        assert(c == (rest[0] as u32) as char);
                        assert(rest.skip(1) =~= t.skip(i as int + 1));
                        assert(out@.push(c) + utf16_decode(t.skip(i as int + 1))
                            =~= out@ + (seq![c] + utf16_decode(rest.skip(1))));
                    }
                    string_push(&mut out, c);
                },
                None => {
                    assert(false);
                },
            }
            i = i + 1;
        }
    }
    proof {
        assert(t.skip(end as int) =~= Seq::<u16>::empty());
        assert(out@ =~= utf16_decode(t));
    }
    out
}

/// Law: an encoded buffer always holds exactly `cap` code units, whatever
/// the text.
pub proof fn lemma_encoded_wide_len(s: Seq<char>, cap: nat)
    ensures
        encoded_wide(s, cap).len() == cap,
{
}

/// Law: when the text's UTF-16 encoding is longer than the capacity, the
/// encoded buffer is exactly the first `cap` code units of that encoding;
/// nothing signals the truncation.
pub proof fn lemma_encode_truncates(s: Seq<char>, cap: nat)
    requires
        utf16_units(s).len() > cap,
    ensures
        encoded_wide(s, cap) == utf16_units(s).take(cap as int),
{
}

/// Law: encoding the empty text yields a buffer of `cap` zero code units.
pub proof fn lemma_encode_empty(cap: nat)
    ensures
        encoded_wide(Seq::<char>::empty(), cap).len() == cap,
        forall|i: int| 0 <= i < cap ==> encoded_wide(Seq::<char>::empty(), cap)[i] == 0u16,
{
    assert(utf16_units(Seq::<char>::empty()) == Seq::<u16>::empty());
}

/// Law: round trip. Encoding a text whose UTF-16 form fits within the
/// capacity and which does not end in a NUL character, then trimming the
/// zero padding and decoding, yields the text back exactly.
pub proof fn lemma_encode_decode_round_trip(s: Seq<char>, cap: nat)
    requires
        utf16_units(s).len() <= cap,
        s.len() > 0 ==> s.last() != '\0',
    ensures
        utf16_decode(trim_trailing_zeros(encoded_wide(s, cap))) == s,
{
    let u = utf16_units(s);
    if u.len() >= cap {
        assert(u.take(cap as int) =~= u);
    } else {
        lemma_trim_zeros_append(u, (cap - u.len()) as nat);
    }
    if s.len() > 0 {
        lemma_units_last_nonzero(s);
    }
    assert(trim_trailing_zeros(u) == u);
    lemma_decode_units(s);
}

/// Appending zero code units does not change the trimmed sequence.
proof fn lemma_trim_zeros_append(u: Seq<u16>, n: nat)
    ensures
        trim_trailing_zeros(u + Seq::new(n, |i: int| 0u16)) == trim_trailing_zeros(u),
    decreases n,
{
    if n == 0 {
        assert(u + Seq::new(0, |i: int| 0u16) =~= u);
    } else {
        let w = u + Seq::new(n, |i: int| 0u16);
        assert(w.len() > 0 && w.last() == 0);
        assert(w.drop_last() =~= u + Seq::new((n - 1) as nat, |i: int| 0u16));
        lemma_trim_zeros_append(u, (n - 1) as nat);
    }
}

/// The encoding of a text that does not end in a NUL character does not end
/// in a zero code unit.
proof fn lemma_units_last_nonzero(s: Seq<char>)
    requires
        s.len() > 0,
        s.last() != '\0',
    ensures
        utf16_units(s).len() > 0,
        utf16_units(s).last() != 0,
    decreases s.len(),
{
    let c = s[0];
    if s.len() == 1 {
        assert(s.skip(1) =~= Seq::<char>::empty());
        assert(utf16_units(s.skip(1)) == Seq::<u16>::empty());
        assert(utf16_units(s) =~= char_utf16(c));
        assert(c == s.last());
        let v = c as u32;
        if v < 0x10000 {
            assert(('\0' as u32) == 0);
            if v == 0 {
                vstd::utf8::char_u32_cast(c, v);
                vstd::utf8::char_u32_cast('\0', 0);
                assert(false);
            }
            assert((v as u16) != 0);
        } else {
            let m = v - 0x10000;
            assert(0 <= m % 0x400 < 0x400) by (nonlinear_arith)
                requires
                    0 <= m,
            ;
            assert(char_utf16(c).last() != 0);
        }
    } else {
        lemma_units_last_nonzero(s.skip(1));
        assert(s.skip(1).last() == s.last());
        assert(utf16_units(s).last() == utf16_units(s.skip(1)).last());
    }
}

/// Decoding the UTF-16 encoding of a text yields the text back.
proof fn lemma_decode_units(s: Seq<char>)
    ensures
        utf16_decode(utf16_units(s)) == s,
    decreases s.len(),
{
    if s.len() == 0 {
        assert(utf16_units(s) == Seq::<u16>::empty());
    } else {
        let c = s[0];
        let u = utf16_units(s);
        let restu = utf16_units(s.skip(1));
        let v = c as u32;
        vstd::utf8::char_is_scalar(c);
        vstd::utf8::char_u32_cast(c, v);
        lemma_decode_units(s.skip(1));
        if v < 0x10000 {
            let w = v as u16;
            assert(u == seq![w] + restu);
            assert(u[0] == w);
            assert((w as u32) == v);
            assert(!is_high_surrogate(w) && !is_low_surrogate(w));
            assert(u.skip(1) =~= restu);
            assert(((w as u32) as char) == c);
            assert(utf16_decode(u) == seq![c] + s.skip(1));
            assert(seq![c] + s.skip(1) =~= s);
        } else {
            let m = v - 0x10000;
            assert(0 <= m <= 0xFFFFF);
            assert(m / 0x400 <= 0x3FF && 0 <= m % 0x400 < 0x400 && m == (m / 0x400) * 0x400 + m
                % 0x400) by (nonlinear_arith)
                requires
                    0 <= m <= 0xFFFFF,
            ;
            let h = (0xD800 + m / 0x400) as u16;
            let l = (0xDC00 + m % 0x400) as u16;
            assert(u == seq![h, l] + restu);
            assert(u[0] == h && u[1] == l);
            assert(is_high_surrogate(h) && is_low_surrogate(l));
            assert(u.skip(2) =~= restu);
            assert(surrogate_pair_scalar(h, l) == v);
            assert(surrogate_pair_char(h, l) == c);
            assert(utf16_decode(u) == seq![c] + s.skip(1));
            assert(seq![c] + s.skip(1) =~= s);
        }
    }
}

/// The encoding of a sequence extended by one character is the encoding of
/// the sequence followed by that character's code units.
proof fn lemma_utf16_units_push(s: Seq<char>, c: char)
    ensures
        utf16_units(s.push(c)) == utf16_units(s) + char_utf16(c),
    decreases s.len(),
{
    let p = s.push(c);
    if s.len() == 0 {
        assert(p[0] == c);
        assert(p.skip(1) =~= Seq::<char>::empty());
        assert(utf16_units(p.skip(1)) == Seq::<u16>::empty());
        assert(utf16_units(s) == Seq::<u16>::empty());
        assert(utf16_units(p) == char_utf16(c) + Seq::<u16>::empty());
        assert(char_utf16(c) + Seq::<u16>::empty() =~= Seq::<u16>::empty() + char_utf16(c));
    } else {
        assert(p[0] == s[0]);
        assert(p.skip(1) =~= s.skip(1).push(c));
        lemma_utf16_units_push(s.skip(1), c);
        assert(utf16_units(p) == char_utf16(s[0]) + (utf16_units(s.skip(1)) + char_utf16(c)));
        assert(char_utf16(s[0]) + (utf16_units(s.skip(1)) + char_utf16(c)) =~= (char_utf16(
            s[0],
        ) + utf16_units(s.skip(1))) + char_utf16(c));
    }
}

} // verus!
