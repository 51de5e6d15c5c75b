//! Environment blocks for native process creation.
//!
//! A native environment block is one UTF-16 buffer holding `key=value`
//! entries, each NUL-terminated, sorted case-insensitively by key, with one
//! extra NUL closing the whole block. [`make_wide_block`] builds that buffer
//! from plain key/value pairs; its contract fixes the exact layout: the
//! encoded entries of some key-sorted permutation of the input, then the
//! final NUL.

use vstd::multiset::Multiset;
use vstd::prelude::*;

use crate::util::{encodes, utf16_vals};

verus! {

/// The code point of a character, lowered through the ASCII uppercase range.
pub open spec fn lower_cp(c: char) -> int {
    let v = c as int;
    if 65 <= v && v <= 90 {
        v + 32
    } else {
        v
    }
}

/// Case-insensitive lexicographic "less or equal" on keys.
pub open spec fn key_le(a: Seq<char>, b: Seq<char>) -> bool
    decreases a.len(),
{
    if a.len() == 0 {
        true
    } else if b.len() == 0 {
        false
    } else if lower_cp(a[0]) < lower_cp(b[0]) {
        true
    } else if lower_cp(a[0]) > lower_cp(b[0]) {
        false
    } else {
        key_le(a.drop_first(), b.drop_first())
    }
}

/// `key_le` is reflexive.
pub proof fn lemma_key_le_refl(a: Seq<char>)
    ensures
        key_le(a, a),
    decreases a.len(),
{
    if a.len() > 0 {
        lemma_key_le_refl(a.drop_first());
    }
}

/// `key_le` is total.
pub proof fn lemma_key_le_total(a: Seq<char>, b: Seq<char>)
    ensures
        key_le(a, b) || key_le(b, a),
    decreases a.len(),
{
    if a.len() > 0 && b.len() > 0 && lower_cp(a[0]) == lower_cp(b[0]) {
        lemma_key_le_total(a.drop_first(), b.drop_first());
    }
}

/// `key_le` is transitive.
pub proof fn lemma_key_le_trans(a: Seq<char>, b: Seq<char>, c: Seq<char>)
    requires
        key_le(a, b),
        key_le(b, c),
    ensures
        key_le(a, c),
    decreases a.len(),
{
    if a.len() > 0 && b.len() > 0 && c.len() > 0 && lower_cp(a[0]) == lower_cp(b[0]) && lower_cp(
        b[0],
    ) == lower_cp(c[0]) {
        lemma_key_le_trans(a.drop_first(), b.drop_first(), c.drop_first());
    }
}

/// Compares two keys case-insensitively.
pub fn key_le_exec(a: &str, b: &str) -> (r: bool)
    ensures
        r == key_le(a@, b@),
    decreases a@.len(),
{
    let n = a.unicode_len();
    let m = b.unicode_len();
    let mut i: usize = 0;
    proof {
        assert(a@.skip(0) =~= a@);
        assert(b@.skip(0) =~= b@);
    }
    loop
        invariant
            n == a@.len(),
            m == b@.len(),
            i <= n,
            i <= m,
            key_le(a@, b@) == key_le(a@.skip(i as int), b@.skip(i as int)),
        decreases n - i,
    {
        if i == n {
            proof {
                assert(a@.skip(i as int).len() == 0);
            }
            return true;
        }
        if i == m {
            proof {
                assert(b@.skip(i as int).len() == 0);
                assert(a@.skip(i as int).len() > 0);
            }
            return false;
        }
        let ca = a.get_char(i);
        let cb = b.get_char(i);
        let la = lower_char(ca);
        let lb = lower_char(cb);
        proof {
            assert(a@.skip(i as int)[0] == a@[i as int]);
            assert(b@.skip(i as int)[0] == b@[i as int]);
            assert(a@.skip(i as int).drop_first() =~= a@.skip(i + 1));
            assert(b@.skip(i as int).drop_first() =~= b@.skip(i + 1));
        }
        if la < lb {
            return true;
        }
        if la > lb {
            return false;
        }
        i = i + 1;
    }
}

/// The ASCII-lowered code point of a character.
fn lower_char(c: char) -> (r: u32)
    ensures
        r as int == lower_cp(c),
{
    proof {
        vstd::utf8::char_is_scalar(c);
    }
    let v = c as u32;
    if v >= 65 && v <= 90 {
        v + 32
    } else {
        v
    }
}

/// Every key in `entries` is `key_le`-sorted.
pub open spec fn keys_sorted(entries: Seq<(String, String)>) -> bool {
    forall|i: int, j: int|
        0 <= i < j < entries.len() ==> key_le(
            (#[trigger] entries[i]).0@,
            (#[trigger] entries[j]).0@,
        )
}

/// The UTF-16 values of one `key=value` entry, NUL-terminated.
pub open spec fn entry_vals(k: Seq<char>, v: Seq<char>) -> Seq<int> {
    utf16_vals(k) + seq![61int] + utf16_vals(v) + seq![0int]
}

/// The UTF-16 values of all entries, in order.
pub open spec fn block_vals(entries: Seq<(String, String)>) -> Seq<int>
    decreases entries.len(),
{
    if entries.len() == 0 {
        Seq::empty()
    } else {
        block_vals(entries.drop_last()) + entry_vals(entries.last().0@, entries.last().1@)
    }
}

/// `buf` is a well-formed environment block for `entries`: the encoded
/// entries of some key-sorted permutation of `entries`, closed by one extra
/// NUL.
pub open spec fn env_block_ok(entries: Seq<(String, String)>, buf: Seq<u16>) -> bool {
    exists|p: Seq<(String, String)>|
        {
            &&& (#[trigger] p.to_multiset()) == entries.to_multiset()
            &&& keys_sorted(p)
            &&& encodes(buf, block_vals(p) + seq![0int])
        }
}

/// Owned UTF-16 environment block terminated with a double NUL.
#[derive(Debug)]
pub struct WideBlock {
    buf: Vec<u16>,
}

impl View for WideBlock {
    type V = Seq<u16>;

    closed spec fn view(&self) -> Seq<u16> {
        self.buf@
    }
}

impl WideBlock {
    /// Wraps an already-encoded buffer.
    pub fn new(buf: Vec<u16>) -> (r: Self)
        ensures
            r@ == buf@,
    {
        WideBlock { buf }
    }

    /// The code units of the block.
    pub fn as_slice(&self) -> (r: &[u16])
        ensures
            r@ == self@,
    {
        self.buf.as_slice()
    }

    /// How many code units the block holds.
    pub fn len(&self) -> (r: usize)
        ensures
            r == self@.len(),
    {
        self.buf.len()
    }

    /// Whether the block holds no code units at all.
    pub fn is_empty(&self) -> (r: bool)
        ensures
            r == (self@.len() == 0),
    {
        self.buf.is_empty()
    }
}

/// Index of the first `key_le`-minimal key in a nonempty list.
fn min_key_index(v: &Vec<(String, String)>) -> (r: usize)
    requires
        v@.len() > 0,
    ensures
        0 <= r < v@.len(),
        forall|i: int| 0 <= i < v@.len() ==> key_le(v@[r as int].0@, (#[trigger] v@[i]).0@),
    decreases v@.len(),
{
    let mut best: usize = 0;
    let mut i: usize = 1;
    proof {
        lemma_key_le_refl(v@[0].0@);
    }
    while i < v.len()
        invariant
            v@.len() > 0,
            best < i,
            i <= v@.len(),
            forall|j: int| 0 <= j < i ==> key_le(v@[best as int].0@, (#[trigger] v@[j]).0@),
        decreases v@.len() - i,
    {
        if !key_le_exec(v[best].0.as_str(), v[i].0.as_str()) {
            proof {
                lemma_key_le_total(v@[best as int].0@, v@[i as int].0@);
                assert forall|j: int| 0 <= j < i + 1 implies key_le(
                    v@[i as int].0@,
                    (#[trigger] v@[j]).0@,
                ) by {
                    if j < i {
                        lemma_key_le_trans(v@[i as int].0@, v@[best as int].0@, v@[j].0@);
                    } else {
                        lemma_key_le_refl(v@[i as int].0@);
                    }
                }
            }
            best = i;
        } else {
            proof {
                assert(key_le(v@[best as int].0@, v@[i as int].0@));
            }
        }
        i = i + 1;
    }
    best
}

/// Builds a native environment block from key/value pairs: entries sorted
/// case-insensitively by key, each NUL-terminated, the whole block closed by
/// one extra NUL.
pub fn make_wide_block(entries: &[(String, String)]) -> (r: WideBlock)
    ensures
        env_block_ok(entries@, r@),
{
    let mut pending: Vec<(String, String)> = Vec::new();
    let mut k: usize = 0;
    while k < entries.len()
        invariant
            k <= entries@.len(),
            pending@ == entries@.take(k as int),
        decreases entries@.len() - k,
    {
        let e = &entries[k];
        pending.push((e.0.clone(), e.1.clone()));
        proof {
            assert(pending@ =~= entries@.take(k + 1));
        }
        k = k + 1;
    }
    proof {
        assert(entries@.take(entries@.len() as int) =~= entries@);
    }
    let mut sorted: Vec<(String, String)> = Vec::new();
    proof {
        broadcast use vstd::seq_lib::group_to_multiset_ensures;

        assert(sorted@.to_multiset() =~= Multiset::empty());
        assert(sorted@.to_multiset().add(pending@.to_multiset()) =~= pending@.to_multiset());
    }
    loop
        invariant_except_break
            sorted@.to_multiset().add(pending@.to_multiset()) == entries@.to_multiset(),
            keys_sorted(sorted@),
            forall|i: int, j: int|
                0 <= i < sorted@.len() && 0 <= j < pending@.len() ==> key_le(
                    (#[trigger] sorted@[i]).0@,
                    (#[trigger] pending@[j]).0@,
                ),
        ensures
            sorted@.to_multiset() == entries@.to_multiset(),
            keys_sorted(sorted@),
        decreases pending@.len(),
    {
        broadcast use vstd::seq_lib::group_to_multiset_ensures;

        if pending.len() == 0 {
            proof {
                assert(pending@.to_multiset() =~= Multiset::empty());
                assert(sorted@.to_multiset().add(Multiset::empty()) =~= sorted@.to_multiset());
            }
            break ;
        }
        let m = min_key_index(&pending);
        let ghost pre_sorted = sorted@;
        let ghost pre_pending = pending@;
        let p = pending.remove(m);
        sorted.push(p);
        proof {
            let ghost pg = pre_pending[m as int];
            assert(sorted@ == pre_sorted.push(pg));
            assert(pending@.to_multiset() =~= pre_pending.to_multiset().remove(pg));
            assert(sorted@.to_multiset() =~= pre_sorted.to_multiset().insert(pg));
            assert(sorted@.to_multiset().add(pending@.to_multiset()) =~= pre_sorted.to_multiset().add(
                pre_pending.to_multiset(),
            ));
            assert forall|i: int, j: int|
                0 <= i < j < sorted@.len() implies key_le(
                (#[trigger] sorted@[i]).0@,
                (#[trigger] sorted@[j]).0@,
            ) by {
                if j < sorted@.len() - 1 {
                    assert(key_le(pre_sorted[i].0@, pre_sorted[j].0@));
                } else {
                    assert(sorted@[i] == pre_sorted[i]);
                }
            }
            assert forall|i: int, j: int|
                0 <= i < sorted@.len() && 0 <= j < pending@.len() implies key_le(
                (#[trigger] sorted@[i]).0@,
                (#[trigger] pending@[j]).0@,
            ) by {
                if j < m {
                    assert(pending@[j] == pre_pending[j]);
                } else {
                    assert(pending@[j] == pre_pending[j + 1]);
                }
                if i < sorted@.len() - 1 {
                    assert(sorted@[i] == pre_sorted[i]);
                } else {
                    assert(sorted@[i] == pg);
                }
            }
        }
    }
    let mut buf: Vec<u16> = Vec::new();
    let mut k2: usize = 0;
    while k2 < sorted.len()
        invariant
            k2 <= sorted@.len(),
            encodes(buf@, block_vals(sorted@.take(k2 as int))),
        decreases sorted@.len() - k2,
    {
        let kw = crate::util::utf16_units(sorted[k2].0.as_str());
        append_units(&mut buf, &kw);
        buf.push(61);
        let vw = crate::util::utf16_units(sorted[k2].1.as_str());
        append_units(&mut buf, &vw);
        buf.push(0);
        proof {
            let s = sorted@;
            assert(s.take(k2 + 1).drop_last() =~= s.take(k2 as int));
            assert(s.take(k2 + 1).last() == s[k2 as int]);
            assert(block_vals(s.take(k2 + 1)) == block_vals(s.take(k2 as int)) + entry_vals(
                s[k2 as int].0@,
                s[k2 as int].1@,
            ));
            assert(entry_vals(s[k2 as int].0@, s[k2 as int].1@) =~= ((utf16_vals(s[k2 as int].0@)
                + seq![61int]) + utf16_vals(s[k2 as int].1@)) + seq![0int]);
            assert(encodes(buf@, block_vals(s.take(k2 + 1))));
        }
        k2 = k2 + 1;
    }
    proof {
        assert(sorted@.take(sorted@.len() as int) =~= sorted@);
    }
    buf.push(0);
    proof {
        assert(encodes(buf@, block_vals(sorted@) + seq![0int]));
        assert(env_block_ok(entries@, buf@));
    }
    WideBlock { buf }
}

/// Appends every unit of `units` to `buf`.
fn append_units(buf: &mut Vec<u16>, units: &Vec<u16>)
    ensures
        final(buf)@ == old(buf)@ + units@,
{
    let mut k: usize = 0;
    while k < units.len()
        invariant
            k <= units@.len(),
            buf@ == old(buf)@ + units@.take(k as int),
        decreases units@.len() - k,
    {
        buf.push(units[k]);
        proof {
            assert(old(buf)@ + units@.take(k + 1) =~= (old(buf)@ + units@.take(k as int)).push(
                units@[k as int],
            ));
        }
        k = k + 1;
    }
    proof {
        assert(units@.take(units@.len() as int) =~= units@);
    }
}

} // verus!
