//! SID string handling: the SDDL grammar, package identities, and validated
//! owned SIDs.
//!
//! A security identifier travels through this crate in its SDDL string form
//! `S-1-<authority>(-<subauthority>)*`. The grammar accepted here is the
//! numeric SID form: revision `1`, a decimal identifier authority below
//! `2^48`, and up to fifteen decimal sub-authorities, each below `2^32`.
//! Every SID-consuming path validates against this grammar before any native
//! conversion is attempted, so a malformed string is rejected with
//! [`AcError::InvalidSid`] and never reaches a native call.

use vstd::prelude::*;

use crate::error::AcError;

verus! {

/// Highest number of sub-authorities a SID may carry.
pub const MAX_SUB_AUTHORITIES: u32 = 15;

/// Exclusive upper bound of a SID identifier authority (a 48-bit value).
pub const IDENTIFIER_AUTHORITY_BOUND: u64 = 0x1_0000_0000_0000;

/// Exclusive upper bound of a SID sub-authority (a 32-bit value).
pub const SUB_AUTHORITY_BOUND: u64 = 0x1_0000_0000;

/// One character is a decimal digit.
pub open spec fn is_dec_digit(c: char) -> bool {
    '0' <= c && c <= '9'
}

/// Numeric value of the decimal digit `c`.
pub open spec fn digit_val(c: char) -> nat {
    ((c as int) - ('0' as int)) as nat
}

/// First index at or after `i` holding no decimal digit.
pub open spec fn digit_run_end(s: Seq<char>, i: int) -> int
    decreases s.len() - i,
        when 0 <= i <= s.len()
{
    if i < s.len() && is_dec_digit(s[i]) {
        digit_run_end(s, i + 1)
    } else {
        i
    }
}

/// Value of the decimal digits `s[i..j)`.
pub open spec fn dec_value(s: Seq<char>, i: int, j: int) -> nat
    decreases j - i,
        when i <= j
{
    if i < j {
        dec_value(s, i, j - 1) * 10 + digit_val(s[j - 1])
    } else {
        0
    }
}

/// `digit_run_end` stays within `[i, s.len()]` and delimits a digit run.
pub proof fn lemma_digit_run_end(s: Seq<char>, i: int)
    requires
        0 <= i <= s.len(),
    ensures
        i <= digit_run_end(s, i) <= s.len(),
        forall|k: int| i <= k < digit_run_end(s, i) ==> is_dec_digit(#[trigger] s[k]),
        digit_run_end(s, i) < s.len() ==> !is_dec_digit(s[digit_run_end(s, i)]),
    decreases s.len() - i,
{
    if i < s.len() && is_dec_digit(s[i]) {
        lemma_digit_run_end(s, i + 1);
    }
}

/// `s[i..]` is a chain of `-<subauthority>` groups, `count` of them already
/// seen before `i`.
pub open spec fn valid_sub_chain(s: Seq<char>, i: int, count: int) -> bool
    decreases s.len() - i,
        when 0 <= i <= s.len()
        via valid_sub_chain_decreases
{
    if i == s.len() {
        true
    } else if s[i] == '-' && count < MAX_SUB_AUTHORITIES {
        let j = digit_run_end(s, i + 1);
        j > i + 1 && dec_value(s, i + 1, j) < SUB_AUTHORITY_BOUND && valid_sub_chain(
            s,
            j,
            count + 1,
        )
    } else {
        false
    }
}

#[via_fn]
proof fn valid_sub_chain_decreases(s: Seq<char>, i: int, count: int) {
    if i < s.len() {
        lemma_digit_run_end(s, i + 1);
    }
}

/// The SDDL numeric SID grammar: `S-1-<authority>(-<subauthority>)*`.
pub open spec fn valid_sddl(s: Seq<char>) -> bool {
    &&& s.len() >= 4
    &&& (s[0] == 'S' || s[0] == 's')
    &&& s[1] == '-'
    &&& s[2] == '1'
    &&& s[3] == '-'
    &&& digit_run_end(s, 4) > 4
    &&& dec_value(s, 4, digit_run_end(s, 4)) < IDENTIFIER_AUTHORITY_BOUND
    &&& valid_sub_chain(s, digit_run_end(s, 4), 0)
}

/// Appending one more digit keeps an out-of-bound value out of bound.
proof fn lemma_dec_value_monotone(s: Seq<char>, i: int, j: int, bound: nat)
    requires
        i <= j,
        dec_value(s, i, j) >= bound,
    ensures
        dec_value(s, i, j + 1) >= bound,
{
    assert(dec_value(s, i, j + 1) == dec_value(s, i, j) * 10 + digit_val(s[j]));
    assert(dec_value(s, i, j) * 10 >= dec_value(s, i, j)) by (nonlinear_arith);
}

/// Scans the digit run starting at `i`; reports where it ends and whether its
/// value stays below `bound`.
fn scan_number(s: &str, n: usize, i: usize, bound: u64) -> (res: (usize, bool))
    requires
        n == s@.len(),
        i <= n,
        0 < bound <= IDENTIFIER_AUTHORITY_BOUND,
    ensures
        res.0 == digit_run_end(s@, i as int),
        i <= res.0 <= n,
        res.1 == (dec_value(s@, i as int, res.0 as int) < bound),
{
    proof {
        lemma_digit_run_end(s@, i as int);
    }
    let ghost end = digit_run_end(s@, i as int);
    let mut k: usize = i;
    let mut acc: u64 = 0;
    let mut over: bool = false;
    loop
        invariant
            n == s@.len(),
            i <= k <= n,
            end == digit_run_end(s@, i as int),
            digit_run_end(s@, k as int) == end,
            k <= end <= n,
            forall|t: int| i <= t < end ==> is_dec_digit(#[trigger] s@[t]),
            end < n ==> !is_dec_digit(s@[end as int]),
            over == (dec_value(s@, i as int, k as int) >= bound),
            !over ==> acc == dec_value(s@, i as int, k as int),
            0 < bound <= IDENTIFIER_AUTHORITY_BOUND,
            !over ==> acc < bound,
        decreases n - k,
    {
        if k == n {
            return (k, !over);
        }
        let c = s.get_char(k);
        if !(c >= '0' && c <= '9') {
            assert(k == end);
            return (k, !over);
        }
        assert(k < end);
        if !over {
            let d: u32 = (c as u32) - ('0' as u32);
            assert(d == digit_val(s@[k as int])) by {
                vstd::utf8::char_is_scalar(c);
            }
            assert(d <= 9);
            acc = acc * 10 + (d as u64);
            if acc >= bound {
                over = true;
            }
            assert(dec_value(s@, i as int, k + 1 as int) == dec_value(s@, i as int, k as int) * 10
                + digit_val(s@[k as int]));
        } else {
            proof {
                lemma_dec_value_monotone(s@, i as int, k as int, bound as nat);
            }
        }
        k = k + 1;
    }
}

/// Checks the `-<subauthority>` chain of `s` starting at `i`, with `count`
/// sub-authorities already consumed.
fn check_sub_chain(s: &str, n: usize, i: usize, count: u32) -> (r: bool)
    requires
        n == s@.len(),
        i <= n,
    ensures
        r == valid_sub_chain(s@, i as int, count as int),
    decreases n - i,
{
    if i == n {
        return true;
    }
    let c = s.get_char(i);
    if !(c == '-' && count < MAX_SUB_AUTHORITIES) {
        return false;
    }
    let (j, small) = scan_number(s, n, i + 1, SUB_AUTHORITY_BOUND);
    if j > i + 1 && small {
        check_sub_chain(s, n, j, count + 1)
    } else {
        false
    }
}

/// Checks a string against the SDDL numeric SID grammar.
pub fn is_valid_sddl_str(s: &str) -> (r: bool)
    ensures
        r == valid_sddl(s@),
{
    let n = s.unicode_len();
    if n < 4 {
        return false;
    }
    let c0 = s.get_char(0);
    let c1 = s.get_char(1);
    let c2 = s.get_char(2);
    let c3 = s.get_char(3);
    if !((c0 == 'S' || c0 == 's') && c1 == '-' && c2 == '1' && c3 == '-') {
        return false;
    }
    let (j, small) = scan_number(s, n, 4, IDENTIFIER_AUTHORITY_BOUND);
    if !(j > 4 && small) {
        return false;
    }
    check_sub_chain(s, n, j, 0)
}

/// An AppContainer package identity in SDDL string form.
///
/// Construction does not validate: the string is carried as given, and every
/// SID-consuming path validates it against the SDDL grammar before use.
#[derive(Debug, PartialEq, Eq, Hash)]
pub struct AppContainerSid {
    sddl: String,
}

impl Clone for AppContainerSid {
    fn clone(&self) -> (r: Self)
        ensures
            r == *self,
    {
        AppContainerSid { sddl: self.sddl.clone() }
    }
}

impl View for AppContainerSid {
    type V = Seq<char>;

    closed spec fn view(&self) -> Seq<char> {
        self.sddl@
    }
}

impl AppContainerSid {
    /// Wraps an SDDL string as a package identity.
    pub fn from_sddl(s: &str) -> (r: Self)
        ensures
            r@ == s@,
    {
        AppContainerSid { sddl: s.to_owned() }
    }

    /// The SDDL string of this identity.
    pub fn as_string(&self) -> (r: &str)
        ensures
            r@ == self@,
    {
        self.sddl.as_str()
    }
}

/// A capability or package SID paired with its attribute flags.
#[derive(Debug, PartialEq, Eq, Hash)]
pub struct SidAndAttributes {
    pub sid_sddl: String,
    pub attributes: u32,
}

impl Clone for SidAndAttributes {
    fn clone(&self) -> (r: Self)
        ensures
            r == *self,
    {
        SidAndAttributes { sid_sddl: self.sid_sddl.clone(), attributes: self.attributes }
    }
}

/// A SID string that has been checked against the SDDL grammar.
#[derive(Debug, PartialEq, Eq)]
pub struct AppSid {
    sddl: String,
}

impl Clone for AppSid {
    fn clone(&self) -> (r: Self)
        ensures
            r == *self,
    {
        AppSid { sddl: self.sddl.clone() }
    }
}

impl View for AppSid {
    type V = Seq<char>;

    closed spec fn view(&self) -> Seq<char> {
        self.sddl@
    }
}

impl AppSid {
    /// Every `AppSid` holds a grammatical SDDL string.
    pub open spec fn wf(&self) -> bool {
        valid_sddl(self@)
    }

    /// Validates a package identity and takes it over as an owned SID.
    pub fn from_app_container(sid: &AppContainerSid) -> (r: Result<AppSid, AcError>)
        ensures
            r is Ok <==> valid_sddl(sid@),
            r matches Ok(a) ==> a@ == sid@ && a.wf(),
            r matches Err(e) ==> e matches AcError::InvalidSid(d) && d@ == sid@,
    {
        Self::from_sddl(sid.as_string())
    }

    /// Validates an SDDL string and takes it over as an owned SID.
    pub fn from_sddl(sddl: &str) -> (r: Result<AppSid, AcError>)
        ensures
            r is Ok <==> valid_sddl(sddl@),
            r matches Ok(a) ==> a@ == sddl@ && a.wf(),
            r matches Err(e) ==> e matches AcError::InvalidSid(d) && d@ == sddl@,
    {
        if is_valid_sddl_str(sddl) {
            Ok(AppSid { sddl: sddl.to_owned() })
        } else {
            Err(AcError::InvalidSid(sddl.to_owned()))
        }
    }
}

} // verus!
