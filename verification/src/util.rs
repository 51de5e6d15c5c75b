//! UTF-16 marshaling helpers.
//!
//! Native process creation consumes NUL-terminated UTF-16 buffers for the
//! executable path, command line, working directory, and environment block.
//! The encoder here is verified against a functional specification of UTF-16:
//! one code unit per scalar below `0x10000`, and a surrogate pair for the
//! rest.

use vstd::prelude::*;

verus! {

/// The UTF-16 code units of one character, as unbounded integers.
pub open spec fn units_of_char(c: char) -> Seq<int> {
    let v = c as int;
    if v < 0x10000 {
        seq![v]
    } else {
        seq![0xD800 + ((v - 0x10000) / 0x400), 0xDC00 + ((v - 0x10000) % 0x400)]
    }
}

/// The UTF-16 encoding of a character sequence, as unbounded integers.
pub open spec fn utf16_vals(s: Seq<char>) -> Seq<int>
    decreases s.len(),
{
    if s.len() == 0 {
        Seq::empty()
    } else {
        utf16_vals(s.drop_last()) + units_of_char(s.last())
    }
}

/// The code-unit buffer `r` spells out exactly the integer values `vals`.
pub open spec fn encodes(r: Seq<u16>, vals: Seq<int>) -> bool {
    &&& r.len() == vals.len()
    &&& forall|i: int| 0 <= i < r.len() ==> #[trigger] r[i] as int == vals[i]
}

/// Converts a string into a NUL-terminated UTF-16 buffer.
pub fn to_utf16(s: &str) -> (r: Vec<u16>)
    ensures
        encodes(r@, utf16_vals(s@) + seq![0int]),
        r@.len() >= 1,
        r@[r@.len() - 1] == 0,
{
    let mut out = utf16_units(s);
    out.push(0);
    out
}

/// Converts a string into its UTF-16 code units, with no terminator.
pub fn utf16_units(s: &str) -> (r: Vec<u16>)
    ensures
        encodes(r@, utf16_vals(s@)),
{
    let n = s.unicode_len();
    let mut out: Vec<u16> = Vec::new();
    let mut k: usize = 0;
    while k < n
        invariant
            n == s@.len(),
            k <= n,
            encodes(out@, utf16_vals(s@.take(k as int))),
        decreases n - k,
    {
        let c = s.get_char(k);
        proof {
            vstd::utf8::char_is_scalar(c);
        }
        let v = c as u32;
        if v < 0x10000 {
            let unit = v as u16;
            proof {
                assert(v < 0x10000 ==> v as u16 as u32 == v) by (bit_vector);
            }
            out.push(unit);
        } else {
            let off = v - 0x10000;
            proof {
                assert(off < 0x100000 ==> off / 0x400 < 0x400) by (nonlinear_arith);
            }
            let hi = 0xD800 + (off / 0x400);
            let lo = 0xDC00 + (off % 0x400);
            let hi16 = hi as u16;
            let lo16 = lo as u16;
            proof {
                assert(hi < 0x10000 ==> hi as u16 as u32 == hi) by (bit_vector);
                assert(lo < 0x10000 ==> lo as u16 as u32 == lo) by (bit_vector);
            }
            out.push(hi16);
            out.push(lo16);
        }
        proof {
            assert(s@.take(k + 1).drop_last() =~= s@.take(k as int));
            assert(s@.take(k + 1).last() == s@[k as int]);
        }
        k = k + 1;
    }
    proof {
        assert(s@.take(n as int) =~= s@);
    }
    out
}

} // verus!
