//! Byte-level building blocks shared by the wire formats: decimal rendering
//! of counters, buffer concatenation, and the maximum-length policy.

use vstd::prelude::*;

verus! {

/// The decimal digit characters of `n`, most significant first, as ASCII bytes.
pub open spec fn dec_digits(n: nat) -> Seq<u8>
    decreases n,
{
    if n < 10 {
        seq![(48 + n) as u8]
    } else {
        dec_digits(n / 10) + seq![(48 + n % 10) as u8]
    }
}

/// The number denoted by a sequence of ASCII digit bytes, most significant first.
pub open spec fn dec_value(s: Seq<u8>) -> nat
    decreases s.len(),
{
    if s.len() == 0 {
        0
    } else {
        (10 * dec_value(s.drop_last()) + (s.last() - 48)) as nat
    }
}

/// A decimal rendering is nonempty and consists of ASCII digits only.
pub proof fn lemma_dec_digits_are_digits(n: nat)
    ensures
        dec_digits(n).len() >= 1,
        forall|i: int| 0 <= i < dec_digits(n).len() ==> 48 <= #[trigger] dec_digits(n)[i] <= 57,
    decreases n,
{
    if n >= 10 {
        lemma_dec_digits_are_digits(n / 10);
        assert forall|i: int| 0 <= i < dec_digits(n).len() implies 48 <= #[trigger] dec_digits(
            n,
        )[i] <= 57 by {
            if i < dec_digits(n / 10).len() {
                assert(dec_digits(n)[i] == dec_digits(n / 10)[i]);
            } else {
                assert(dec_digits(n)[i] == (48 + n % 10) as u8);
            }
        }
    }
}

/// Reading the decimal rendering of `n` back as a number yields `n`.
pub proof fn lemma_dec_value_of_digits(n: nat)
    ensures
        dec_value(dec_digits(n)) == n,
    decreases n,
{
    if n < 10 {
        let s = dec_digits(n);
        assert(s.last() == (48 + n) as u8);
        assert(s.drop_last() =~= Seq::<u8>::empty());
        assert(s.last() - 48 == n);
        assert(dec_value(s) == (10 * dec_value(s.drop_last()) + (s.last() - 48)) as nat);
    } else {
        lemma_dec_value_of_digits(n / 10);
        let s = dec_digits(n);
        assert(0 <= n % 10 < 10 && n / 10 >= 1);
        assert(s.drop_last() =~= dec_digits(n / 10));
        assert(s.last() == (48 + n % 10) as u8);
        assert(s.last() - 48 == n % 10);
        assert(dec_value(s) == (10 * dec_value(s.drop_last()) + (s.last() - 48)) as nat);
        assert(10 * (n / 10) + n % 10 == n);
    }
}

/// Renders `n` in decimal, most significant digit first.
pub fn dec_u64(n: u64) -> (r: Vec<u8>)
    ensures
        r@ == dec_digits(n as nat),
{
    let mut m: u64 = n;
    let mut tail: Vec<u8> = Vec::new();
    while m >= 10
        invariant
            dec_digits(n as nat) == dec_digits(m as nat) + tail@,
        decreases m,
    {
        let ghost prev = m as nat;
        let ghost prev_tail = tail@;
        let d: u8 = (m % 10) as u8;
        tail.insert(0, 48 + d);
        m = m / 10;
        proof {
            assert(tail@ =~= seq![(48 + prev % 10) as u8] + prev_tail);
            assert(dec_digits(prev) + prev_tail =~= dec_digits(m as nat) + tail@);
        }
    }
    let mut r: Vec<u8> = Vec::new();
    r.push(48 + (m as u8));
    r.append(&mut tail);
    proof {
        assert(r@ =~= dec_digits(n as nat));
    }
    r
}

/// Appends all bytes of `src` onto `dst`.
pub fn push_all(dst: &mut Vec<u8>, src: &[u8])
    ensures
        final(dst)@ == old(dst)@ + src@,
{
    let mut i: usize = 0;
    while i < src.len()
        invariant
            i <= src@.len(),
            dst@ == old(dst)@ + src@.take(i as int),
        decreases src@.len() - i,
    {
        let ghost prev = dst@;
        dst.push(src[i]);
        i = i + 1;
        proof {
            assert(src@.take(i as int) =~= src@.take(i - 1) + seq![src@[i - 1]]);
            assert(prev.push(src@[i - 1]) =~= old(dst)@ + src@.take(i as int));
        }
    }
    proof {
        assert(src@.take(src@.len() as int) =~= src@);
    }
}

/// What remains of a payload after the maximum-length policy is applied.
pub open spec fn truncated(payload: Seq<u8>, max_len: nat) -> Seq<u8> {
    if payload.len() <= max_len {
        payload
    } else {
        payload.take(max_len as int)
    }
}

/// Applies the maximum-length policy: a payload longer than `max_len` is cut
/// to exactly `max_len` bytes, counted on raw bytes. The cut point does not
/// respect multi-byte character boundaries; receivers of an over-length
/// message may discard the tail, so this mirrors the syslog convention.
pub fn truncate_payload(payload: Vec<u8>, max_len: usize) -> (r: Vec<u8>)
    ensures
        r@ == truncated(payload@, max_len as nat),
        r@.len() <= max_len || r@.len() == payload@.len(),
{
    let mut p = payload;
    if p.len() > max_len {
        p.truncate(max_len);
    }
    p
}

} // verus!
