//! Small helpers for assembling the ASCII byte strings that the console and
//! the serial side-channel carry.

use vstd::prelude::*;

verus! {

/// Appends a byte slice to a byte vector.
pub fn push_bytes(dst: &mut Vec<u8>, src: &[u8])
    ensures
        final(dst)@ == old(dst)@ + src@,
{
    let mut k: usize = 0;
    while k < src.len()
        invariant
            k <= src@.len(),
            dst@ == old(dst)@ + src@.take(k as int),
        decreases src@.len() - k,
    {
        let b = src[k];
        dst.push(b);
        proof {
            assert(old(dst)@ + src@.take(k + 1) =~= (old(dst)@ + src@.take(k as int)).push(
                src@[k as int],
            ));
        }
        k += 1;
    }
    proof {
        assert(old(dst)@ + src@.take(k as int) =~= old(dst)@ + src@);
    }
}

/// The decimal digits of `n`, most significant first.
pub open spec fn spec_decimal(n: nat) -> Seq<u8>
    decreases n,
{
    if n < 10 {
        seq![(0x30 + n) as u8]
    } else {
        spec_decimal(n / 10).push((0x30 + n % 10) as u8)
    }
}

/// Renders a number in decimal ASCII.
pub fn decimal_bytes(n: u64) -> (r: Vec<u8>)
    ensures
        r@ == spec_decimal(n as nat),
    decreases n,
{
    if n < 10 {
        let mut r: Vec<u8> = Vec::new();
        r.push(0x30 + (n as u8));
        proof {
            assert(r@ =~= spec_decimal(n as nat));
        }
        r
    } else {
        let mut r = decimal_bytes(n / 10);
        r.push(0x30 + ((n % 10) as u8));
        r
    }
}

} // verus!
