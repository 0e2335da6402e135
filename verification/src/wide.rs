//! UTF-16 encoding of the names handed to the platform registrar: the
//! window-class name and the singleton identifier travel as nul-terminated
//! wide strings.

use vstd::prelude::*;
use vstd::string::StrSliceExecFns;

verus! {

/// The UTF-16 code units of one character: scalar values below `0x10000`
/// are one unit; the rest are a surrogate pair.
pub open spec fn utf16_units(c: char) -> Seq<u16> {
    if (c as u32) < 0x10000 {
        seq![c as u16]
    } else {
        let v = ((c as u32) - 0x10000) as u32;
        seq![(0xD800 + (v >> 10)) as u16, (0xDC00 + (v & 0x3FF)) as u16]
    }
}

/// The UTF-16 code units of the first `n` characters of `s`, in order.
pub open spec fn utf16_prefix(s: Seq<char>, n: int) -> Seq<u16>
    recommends
        0 <= n <= s.len(),
    decreases n,
{
    if n <= 0 {
        Seq::<u16>::empty()
    } else {
        utf16_prefix(s, n - 1) + utf16_units(s[n - 1])
    }
}

/// The UTF-16 encoding of a whole character sequence.
pub open spec fn utf16_encode(s: Seq<char>) -> Seq<u16> {
    utf16_prefix(s, s.len() as int)
}

/// Appends the code units of `c` to `out`.
fn push_units(out: &mut Vec<u16>, c: char)
    ensures
        final(out)@ == old(out)@ + utf16_units(c),
{
    let u = c as u32;
    if u < 0x10000 {
        out.push(u as u16);
        proof {
            assert(out@ =~= old(out)@ + utf16_units(c));
        }
    } else {
        let v = u - 0x10000;
        assert(v >> 10 < 0x400 && (v & 0x3FF) < 0x400) by (bit_vector)
            requires
                v < 0x100000u32,
        ;
        let high = 0xD800 + (v >> 10);
        let low = 0xDC00 + (v & 0x3FF);
        out.push(high as u16);
        out.push(low as u16);
        proof {
            assert(out@ =~= old(out)@ + utf16_units(c));
        }
    }
}

/// Encodes `s` as UTF-16 and terminates it with a nul unit, the shape the
/// platform's wide-string parameters expect.
pub fn wide_string(s: &str) -> (r: Vec<u16>)
    ensures
        r@ == utf16_encode(s@) + seq![0u16],
{
    let len = s.unicode_len();
    let mut out: Vec<u16> = Vec::new();
    let mut i: usize = 0;
    while i < len
        invariant
            0 <= i <= len,
            len == s@.len(),
            out@ == utf16_prefix(s@, i as int),
        decreases len - i,
    {
        let c = s.get_char(i);
        push_units(&mut out, c);
        i = i + 1;
    }
    out.push(0u16);
    proof {
        assert(out@ =~= utf16_encode(s@) + seq![0u16]);
    }
    out
}

} // verus!
