use crate::error::Error;
use vstd::prelude::*;

verus! {

/// Value and byte count that the lacing encoding yields at the front of `s`:
/// one byte at a time is read and added to a running total, and the run ends
/// with the first byte below 255. `None` when the buffer ends before a
/// terminating byte.
pub open spec fn lacing_decode(s: Seq<u8>) -> Option<(nat, nat)>
    decreases s.len(),
{
    if s.len() == 0 {
        None
    } else if s[0] < 255 {
        Some((s[0] as nat, 1nat))
    } else {
        match lacing_decode(s.drop_first()) {
            Some(p) => Some(((p.0 + 255) as nat, (p.1 + 1) as nat)),
            None => None,
        }
    }
}

/// The canonical lacing encoding of `v`: `v / 255` bytes of 255 followed by
/// one byte holding `v % 255`.
pub open spec fn lacing_encode(v: nat) -> Seq<u8>
    decreases v,
{
    if v < 255 {
        seq![v as u8]
    } else {
        seq![255u8].add(lacing_encode((v - 255) as nat))
    }
}

/// The canonical encoding of `v` is one byte longer than `v / 255`.
pub proof fn lemma_lacing_encode_len(v: nat)
    ensures
        lacing_encode(v).len() == v / 255 + 1,
    decreases v,
{
    if v >= 255 {
        lemma_lacing_encode_len((v - 255) as nat);
    }
}

/// Round trip: the canonical encoding of any value, followed by any further
/// bytes, decodes back to exactly that value, consuming exactly the encoding.
pub proof fn lemma_lacing_round_trip(v: nat, rest: Seq<u8>)
    ensures
        lacing_decode(lacing_encode(v).add(rest)) == Some((v, lacing_encode(v).len())),
    decreases v,
{
    let s = lacing_encode(v).add(rest);
    if v < 255 {
        assert(s[0] == v as u8);
    } else {
        assert(s[0] == 255);
        lemma_lacing_round_trip((v - 255) as nat, rest);
        assert(s.drop_first() =~= lacing_encode((v - 255) as nat).add(rest));
    }
}

/// A buffer that ends in the middle of a run of 255 bytes has no decoding.
pub proof fn lemma_lacing_truncated(s: Seq<u8>)
    requires
        forall|j: int| 0 <= j < s.len() ==> s[j] == 255,
    ensures
        lacing_decode(s) is None,
    decreases s.len(),
{
    if s.len() > 0 {
        lemma_lacing_truncated(s.drop_first());
    }
}

/// Reads one lacing-encoded length from `arr` starting at `pos`. On success
/// the result carries the decoded value and the position just past the bytes
/// consumed. Values within 255 of the `u64` maximum are rejected like
/// malformed input, since the running total is kept in a `u64`.
pub fn read_xiph_lacing(arr: &[u8], pos: usize) -> (r: Result<(u64, usize), Error>)
    requires
        pos <= arr@.len(),
    ensures
        (r matches Ok(p) ==> {
            &&& lacing_decode(arr@.skip(pos as int)) == Some((p.0 as nat, (p.1 - pos) as nat))
            &&& pos < p.1 <= arr@.len()
            &&& p.0 <= u64::MAX - 255
        }),
        r is Err ==> r == Err::<(u64, usize), Error>(Error::InvalidData),
        r is Ok <==> (match lacing_decode(arr@.skip(pos as int)) {
            Some(q) => q.0 <= u64::MAX - 255,
            None => false,
        }),
{
    let mut i: usize = pos;
    let mut r: u64 = 0;
    loop
        invariant
            pos <= i <= arr@.len(),
            r == 255 * (i - pos),
            (match lacing_decode(arr@.skip(i as int)) {
                Some(q) => lacing_decode(arr@.skip(pos as int)) == Some(
                    ((q.0 + r) as nat, (q.1 + (i - pos)) as nat),
                ),
                None => lacing_decode(arr@.skip(pos as int)) is None,
            }),
        decreases arr@.len() - i,
    {
        if i >= arr.len() {
            return Err(Error::InvalidData);
        }
        let v = arr[i];
        if r > u64::MAX - 255 {
            return Err(Error::InvalidData);
        }
        proof {
            assert(arr@.skip(i as int)[0] == arr@[i as int]);
            assert(arr@.skip(i as int).drop_first() =~= arr@.skip(i + 1));
        }
        r = r + (v as u64);
        i = i + 1;
        if v < 255 {
            if r > u64::MAX - 255 {
                return Err(Error::InvalidData);
            }
            return Ok((r, i));
        }
    }
}

} // verus!
