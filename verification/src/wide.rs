//! UTF-16 text for Windows APIs: NUL-terminated wide strings, the
//! little-endian bytes of a `REG_SZ` value, and fixed-size tip buffers.
use vstd::prelude::*;
use crate::text::chars_of;
use crate::vcam_register::{before_nul, decode_registry_utf16, utf16_units};

verus! {

/// UTF-16 code units of one character.
pub open spec fn char_units(c: char) -> Seq<u16> {
    let v = c as u32;
    if v < 0x10000 {
        seq![v as u16]
    } else {
        let u = (v - 0x10000) as u32;
        seq![(0xD800 + u / 0x400) as u16, (0xDC00 + u % 0x400) as u16]
    }
}

/// UTF-16 code units of a text (`str::encode_utf16`).
pub open spec fn utf16_of(s: Seq<char>) -> Seq<u16>
    decreases s.len(),
{
    if s.len() == 0 {
        Seq::empty()
    } else {
        utf16_of(s.drop_last()) + char_units(s.last())
    }
}

fn push_char_units(out: &mut Vec<u16>, c: char)
    ensures
        final(out)@ == old(out)@ + char_units(c),
{
    let v = c as u32;
    if v < 0x10000 {
        out.push(v as u16);
        assert(out@ =~= old(out)@ + char_units(c));
    } else {
        let u = v - 0x10000;
        assert(u <= 0xFFFFF) by {
            assert(v <= 0x10FFFF);
        }
        out.push((0xD800 + u / 0x400) as u16);
        out.push((0xDC00 + u % 0x400) as u16);
        assert(out@ =~= old(out)@ + char_units(c));
    }
}

/// The UTF-16 code units of `s`.
pub fn encode_utf16(s: &str) -> (r: Vec<u16>)
    ensures
        r@ == utf16_of(s@),
{
    let cs = chars_of(s);
    let mut out: Vec<u16> = Vec::new();
    let mut i: usize = 0;
    assert(cs@.take(0) =~= Seq::<char>::empty());
    while i < cs.len()
        invariant
            cs@ == s@,
            i <= cs@.len(),
            out@ == utf16_of(cs@.take(i as int)),
        decreases cs@.len() - i,
    {
        push_char_units(&mut out, cs[i]);
        assert(cs@.take(i + 1).drop_last() =~= cs@.take(i as int));
        i = i + 1;
    }
    assert(cs@.take(cs@.len() as int) =~= cs@);
    out
}

/// `s` as a NUL-terminated wide string.
pub fn wide(s: &str) -> (r: Vec<u16>)
    ensures
        r@ == utf16_of(s@).push(0),
{
    let mut units = encode_utf16(s);
    units.push(0);
    units
}

/// Little-endian bytes of UTF-16 units.
pub open spec fn le_bytes(units: Seq<u16>) -> Seq<u8> {
    Seq::new(2 * units.len(), |i: int| if i % 2 == 0 { (units[i / 2] % 256) as u8 } else { (units[i / 2] / 256) as u8 })
}

/// The bytes written for a `REG_SZ` value: the wide string with its NUL, in
/// little-endian order.
pub fn registry_value_bytes(value: &str) -> (r: Vec<u8>)
    ensures
        r@ == le_bytes(utf16_of(value@).push(0)),
{
    let units = wide(value);
    let mut out: Vec<u8> = Vec::new();
    let mut i: usize = 0;
    while i < units.len()
        invariant
            i <= units@.len(),
            out@.len() == 2 * i,
            forall|k: int| 0 <= k < 2 * i ==> #[trigger] out@[k] == le_bytes(units@)[k],
        decreases units@.len() - i,
    {
        let u = units[i];
        out.push((u % 256) as u8);
        out.push((u / 256) as u8);
        i = i + 1;
    }
    assert(out@ =~= le_bytes(units@));
    out
}


proof fn lemma_char_units_nonzero(c: char)
    requires
        c != '\0',
    ensures
        forall|k: int| 0 <= k < char_units(c).len() ==> char_units(c)[k] != 0,
{
    let v = c as u32;
    assert(('\0' as u32) == 0u32);
    assert(v != 0);
    assert(v <= 0x10FFFF);
    if v >= 0x10000 {
        let u = (v - 0x10000) as u32;
        assert(u / 0x400 <= 0x3FF);
        assert(u % 0x400 <= 0x3FF);
        assert((0xD800 + u / 0x400) as u16 == 0xD800 + u / 0x400);
        assert((0xDC00 + u % 0x400) as u16 == 0xDC00 + u % 0x400);
    }
}

proof fn lemma_units_nonzero(s: Seq<char>)
    requires
        forall|i: int| 0 <= i < s.len() ==> s[i] != '\0',
    ensures
        forall|k: int| 0 <= k < utf16_of(s).len() ==> utf16_of(s)[k] != 0,
    decreases s.len(),
{
    if s.len() > 0 {
        let init = s.drop_last();
        assert forall|i: int| 0 <= i < init.len() implies init[i] != '\0' by {
            assert(init[i] == s[i]);
        }
        lemma_units_nonzero(init);
        let c = s.last();
        lemma_char_units_nonzero(c);
        let prev = utf16_of(init);
        let all = utf16_of(s);
        assert(all == prev + char_units(c));
        assert forall|k: int| 0 <= k < all.len() implies all[k] != 0 by {
            if k >= prev.len() {
                assert(all[k] == char_units(c)[k - prev.len()]);
            } else {
                assert(all[k] == prev[k]);
            }
        }
    }
}

proof fn lemma_le_bytes_units(us: Seq<u16>)
    ensures
        utf16_units(le_bytes(us)) == us,
{
    let b = le_bytes(us);
    assert(b.len() / 2 == us.len());
    assert forall|i: int| 0 <= i < us.len() implies #[trigger] utf16_units(b)[i] == us[i] by {
        assert((2 * i) % 2 == 0 && (2 * i) / 2 == i);
        assert((2 * i + 1) % 2 == 1 && (2 * i + 1) / 2 == i);
        assert(b[2 * i] == (us[i] % 256) as u8);
        assert(b[2 * i + 1] == (us[i] / 256) as u8);
        assert((us[i] % 256) + 256 * (us[i] / 256) == us[i]);
    }
    assert(utf16_units(b) =~= us);
}

/// Reading back a `REG_SZ` value written from a text without NUL characters
/// gives that text's UTF-16 units: they are exactly the units before the
/// first NUL of the stored bytes.
pub proof fn lemma_registry_string_roundtrip(s: Seq<char>, n: int)
    requires
        forall|i: int| 0 <= i < s.len() ==> s[i] != '\0',
        before_nul(utf16_units(le_bytes(utf16_of(s).push(0))), n),
    ensures
        n == utf16_of(s).len(),
        utf16_units(le_bytes(utf16_of(s).push(0))).take(n) == utf16_of(s),
{
    let us = utf16_of(s);
    lemma_units_nonzero(s);
    lemma_le_bytes_units(us.push(0));
    let units = utf16_units(le_bytes(us.push(0)));
    assert(units == us.push(0));
    if n < us.len() {
        assert(units[n] == us[n]);
        assert(us[n] != 0);
    }
    if n > us.len() {
        assert(units[us.len() as int] == 0);
    }
    assert(n == us.len());
    assert(units.take(n) =~= us);
}

/// A value read from the registry after writing `value`: the text's units
/// when it is not empty, and nothing for an empty text.
pub fn read_back_registry_value(value: &str) -> (r: Option<Vec<u16>>)
    requires
        forall|i: int| 0 <= i < value@.len() ==> value@[i] != '\0',
    ensures
        value@.len() > 0 ==> (r matches Some(u) && u@ == utf16_of(value@)),
        value@.len() == 0 ==> r is None,
{
    let bytes = registry_value_bytes(value);
    let r = decode_registry_utf16(bytes.as_slice());
    proof {
        lemma_units_nonzero(value@);
        if r is Some {
            lemma_registry_string_roundtrip(value@, r->0@.len() as int);
        } else {
            lemma_registry_string_roundtrip(value@, 0);
        }
        if value@.len() > 0 {
            assert(utf16_of(value@).len() > 0) by {
                assert(utf16_of(value@) == utf16_of(value@.drop_last()) + char_units(value@.last()));
            }
        } else {
            assert(utf16_of(value@) =~= Seq::<u16>::empty());
        }
    }
    r
}

/// A tooltip buffer of `N` units: at most `N - 1` units of the text, then
/// zeros.
pub open spec fn tip_buffer(s: Seq<char>, n: nat) -> Seq<u16> {
    let us = utf16_of(s);
    let kept = if us.len() < n - 1 { us } else { us.take(n - 1) };
    kept + Seq::new((n - kept.len()) as nat, |i: int| 0u16)
}

/// The `szTip` buffer of a notify icon: the first 127 UTF-16 units of the
/// tip, zero-padded to 128.
pub fn notify_icon_tip_units(tip: &str) -> (r: Vec<u16>)
    ensures
        r@ == tip_buffer(tip@, 128),
        r@.len() == 128,
{
    let units = encode_utf16(tip);
    let keep: usize = if units.len() < 127 { units.len() } else { 127 };
    let mut out: Vec<u16> = Vec::new();
    let mut i: usize = 0;
    while i < 128
        invariant
            units@ == utf16_of(tip@),
            keep == (if units@.len() < 127 { units@.len() } else { 127 }),
            i <= 128,
            out@.len() == i,
            forall|k: int| 0 <= k < i ==> #[trigger] out@[k] == (if k < keep { units@[k] } else { 0u16 }),
        decreases 128 - i,
    {
        if i < keep {
            out.push(units[i]);
        } else {
            out.push(0);
        }
        i = i + 1;
    }
    assert(out@ =~= tip_buffer(tip@, 128));
    out
}

/// A message for a Windows message box: at most `max_units` UTF-16 units of
/// the text, NUL-terminated.
pub fn truncated_wide(message: &str, max_units: usize) -> (r: Vec<u16>)
    ensures
        r@ == (if utf16_of(message@).len() <= max_units {
            utf16_of(message@)
        } else {
            utf16_of(message@).take(max_units as int)
        }).push(0),
{
    let mut units = encode_utf16(message);
    if units.len() > max_units {
        units.truncate(max_units);
    }
    units.push(0);
    units
}
} // verus!
