//! Base62 track identifiers.
//!
//! A track is addressed by a 22-character base62 string that denotes a
//! 128-bit number. `play` must reject a malformed identifier instead of
//! aborting, so parsing is total: it either yields a well-formed [`TrackId`]
//! or the `InvalidIdentifier` error.

use vstd::prelude::*;

verus! {

use crate::errors::SpotifyError;

/// Length of a canonical base62 track identifier.
pub const TRACK_ID_LEN: usize = 22;

/// The digit value of `c` in the base62 alphabet `0-9 a-z A-Z`, or 62 when
/// `c` is not a base62 digit.
pub open spec fn b62_digit(c: char) -> int {
    if '0' as u32 <= c as u32 && c as u32 <= '9' as u32 {
        c as u32 - '0' as u32
    } else if 'a' as u32 <= c as u32 && c as u32 <= 'z' as u32 {
        10 + c as u32 - 'a' as u32
    } else if 'A' as u32 <= c as u32 && c as u32 <= 'Z' as u32 {
        36 + c as u32 - 'A' as u32
    } else {
        62
    }
}

/// Is `c` one of the 62 digits?
pub open spec fn is_b62_char(c: char) -> bool {
    b62_digit(c) < 62
}

/// Every character of `s` is a base62 digit.
pub open spec fn all_b62(s: Seq<char>) -> bool {
    forall|i: int| 0 <= i < s.len() ==> is_b62_char(#[trigger] s[i])
}

/// The number denoted by `s` read as big-endian base62 digits.
pub open spec fn b62_val(s: Seq<char>) -> int
    decreases s.len(),
{
    if s.len() == 0 {
        0
    } else {
        b62_val(s.drop_last()) * 62 + b62_digit(s.last())
    }
}

/// `s` is a canonical track identifier: 22 base62 digits denoting a number
/// that fits in 128 bits.
pub open spec fn valid_track_text(s: Seq<char>) -> bool {
    &&& s.len() == TRACK_ID_LEN
    &&& all_b62(s)
    &&& b62_val(s) <= u128::MAX
}

proof fn lemma_b62_digit_nonneg(c: char)
    ensures
        b62_digit(c) >= 0,
{
}

proof fn lemma_b62_val_nonneg(s: Seq<char>)
    ensures
        b62_val(s) >= 0,
    decreases s.len(),
{
    if s.len() > 0 {
        lemma_b62_val_nonneg(s.drop_last());
        let v = b62_val(s.drop_last());
        assert(v * 62 >= 0) by (nonlinear_arith)
            requires
                v >= 0,
        ;
        lemma_b62_digit_nonneg(s.last());
    }
}

proof fn lemma_b62_val_step(s: Seq<char>, i: int)
    requires
        0 <= i < s.len(),
    ensures
        b62_val(s.subrange(0, i + 1)) == b62_val(s.subrange(0, i)) * 62 + b62_digit(s[i]),
{
    let p = s.subrange(0, i + 1);
    assert(p.drop_last() =~= s.subrange(0, i));
    assert(p.last() == s[i]);
}

/// The denoted number never shrinks as digits are appended.
proof fn lemma_b62_val_prefix_le(s: Seq<char>, i: int)
    requires
        0 <= i <= s.len(),
    ensures
        b62_val(s.subrange(0, i)) <= b62_val(s),
    decreases s.len() - i,
{
    if i == s.len() {
        assert(s.subrange(0, i) =~= s);
    } else {
        let v = b62_val(s.subrange(0, i));
        lemma_b62_val_nonneg(s.subrange(0, i));
        assert(v * 62 >= v) by (nonlinear_arith)
            requires
                v >= 0,
        ;
        lemma_b62_digit_nonneg(s[i]);
        lemma_b62_val_step(s, i);
        lemma_b62_val_prefix_le(s, i + 1);
    }
}

proof fn lemma_b62_digit_injective(c1: char, c2: char)
    requires
        is_b62_char(c1),
        is_b62_char(c2),
        b62_digit(c1) == b62_digit(c2),
    ensures
        c1 == c2,
{
    assert(c1 as u32 == c2 as u32);
}

proof fn lemma_b62_val_injective(s1: Seq<char>, s2: Seq<char>)
    requires
        s1.len() == s2.len(),
        all_b62(s1),
        all_b62(s2),
        b62_val(s1) == b62_val(s2),
    ensures
        s1 == s2,
    decreases s1.len(),
{
    if s1.len() == 0 {
        assert(s1 =~= s2);
    } else {
        let v = b62_val(s1);
        let n = s1.len() as int;
        let p1 = b62_val(s1.drop_last());
        let d1 = b62_digit(s1.last());
        let p2 = b62_val(s2.drop_last());
        let d2 = b62_digit(s2.last());
        lemma_b62_val_nonneg(s1.drop_last());
        lemma_b62_val_nonneg(s2.drop_last());
        assert(is_b62_char(s1[n - 1]));
        assert(is_b62_char(s2[n - 1]));
        vstd::arithmetic::div_mod::lemma_fundamental_div_mod_converse(v, 62, p1, d1);
        vstd::arithmetic::div_mod::lemma_fundamental_div_mod_converse(v, 62, p2, d2);
        lemma_b62_digit_injective(s1.last(), s2.last());
        assert(forall|i: int| 0 <= i < n - 1 ==> s1.drop_last()[i] == #[trigger] s1[i]);
        assert(forall|i: int| 0 <= i < n - 1 ==> s2.drop_last()[i] == #[trigger] s2[i]);
        lemma_b62_val_injective(s1.drop_last(), s2.drop_last());
        assert(s1 =~= s1.drop_last().push(s1.last()));
        assert(s2 =~= s2.drop_last().push(s2.last()));
    }
}

/// Valid identifier texts are canonical: the denoted number determines the
/// text, so two valid texts with one value are one text.
pub proof fn lemma_track_text_canonical(s1: Seq<char>, s2: Seq<char>)
    requires
        valid_track_text(s1),
        valid_track_text(s2),
        b62_val(s1) == b62_val(s2),
    ensures
        s1 == s2,
{
    lemma_b62_val_injective(s1, s2);
}

/// A parsed track identifier: the 128-bit number and the canonical base62
/// text that denotes it.
#[derive(Clone, Debug, PartialEq, Eq)]
pub struct TrackId {
    pub id: u128,
    pub text: String,
}

impl TrackId {
    /// The identifier is canonical: the text is valid and denotes the number.
    pub open spec fn wf(self) -> bool {
        &&& valid_track_text(self.text@)
        &&& self.id == b62_val(self.text@)
    }

    /// Parse a base62 identifier. Succeeds exactly on canonical 22-digit
    /// base62 text whose value fits in 128 bits; every other input is
    /// reported as `InvalidIdentifier`.
    pub fn from_base62(s: &str) -> (r: Result<TrackId, SpotifyError>)
        ensures
            r is Ok <==> valid_track_text(s@),
            r matches Ok(t) ==> t.wf() && t.text@ == s@ && t.id == b62_val(s@),
            r is Err ==> r == Err::<TrackId, SpotifyError>(SpotifyError::InvalidIdentifier),
    {
        let len = s.unicode_len();
        if len != TRACK_ID_LEN {
            return Err(SpotifyError::InvalidIdentifier);
        }
        let mut acc: u128 = 0;
        let mut i: usize = 0;
        while i < len
            invariant
                i <= len,
                len == s@.len(),
                len == TRACK_ID_LEN,
                all_b62(s@.subrange(0, i as int)),
                acc == b62_val(s@.subrange(0, i as int)),
            decreases len - i,
        {
            let c = s.get_char(i);
            let d = b62_digit_of(c);
            if d >= 62 {
                assert(!is_b62_char(s@[i as int]));
                return Err(SpotifyError::InvalidIdentifier);
            }
            proof {
                lemma_b62_val_step(s@, i as int);
            }
            let shifted = match acc.checked_mul(62) {
                Some(m) => m,
                None => {
                    proof {
                        lemma_b62_digit_nonneg(s@[i as int]);
                        lemma_b62_val_prefix_le(s@, i as int + 1);
                    }
                    return Err(SpotifyError::InvalidIdentifier);
                },
            };
            acc = match shifted.checked_add(d as u128) {
                Some(n) => n,
                None => {
                    proof {
                        lemma_b62_val_prefix_le(s@, i as int + 1);
                    }
                    return Err(SpotifyError::InvalidIdentifier);
                },
            };
            i += 1;
        }
        proof {
            assert(s@.subrange(0, len as int) =~= s@);
        }
        Ok(TrackId { id: acc, text: String::from_str(s) })
    }

    /// The canonical base62 text of this identifier.
    pub fn to_base62(&self) -> (r: String)
        requires
            self.wf(),
        ensures
            r@ == self.text@,
            valid_track_text(r@),
    {
        String::from_str(self.text.as_str())
    }

    /// The 128-bit value of this identifier.
    pub fn value(&self) -> (r: u128)
        ensures
            r == self.id,
    {
        self.id
    }
}

/// Well-formed identifiers are canonical: equal values mean equal text.
pub proof fn lemma_track_id_canonical(t1: TrackId, t2: TrackId)
    requires
        t1.wf(),
        t2.wf(),
        t1.id == t2.id,
    ensures
        t1.text@ == t2.text@,
{
    lemma_track_text_canonical(t1.text@, t2.text@);
}

/// The digit value of `c`, or 62 when `c` is not in the alphabet.
fn b62_digit_of(c: char) -> (d: u32)
    ensures
        d == b62_digit(c),
{
    let code = c as u32;
    if '0' as u32 <= code && code <= '9' as u32 {
        code - '0' as u32
    } else if 'a' as u32 <= code && code <= 'z' as u32 {
        10 + code - 'a' as u32
    } else if 'A' as u32 <= code && code <= 'Z' as u32 {
        36 + code - 'A' as u32
    } else {
        62
    }
}

} // verus!
