use vstd::prelude::*;

verus! {

/// Timing attached to a packet and copied onto the frame it decodes to.
#[derive(Clone, Copy, Debug, PartialEq, Eq)]
pub struct TimeInfo {
    /// Presentation timestamp.
    pub pts: Option<i64>,
    /// Decoding timestamp.
    pub dts: Option<i64>,
    /// Duration in timebase units.
    pub duration: Option<u64>,
    /// Timebase as a numerator and denominator pair.
    pub timebase: Option<(i64, i64)>,
}

impl TimeInfo {
    /// A timestamp with every field unset.
    pub fn empty() -> (t: TimeInfo)
        ensures
            t.pts is None,
            t.dts is None,
            t.duration is None,
            t.timebase is None,
    {
        TimeInfo { pts: None, dts: None, duration: None, timebase: None }
    }
}

/// Stream parameters carried by the decoder and stamped onto each frame.
/// The sample format is fixed to 16-bit signed integers, which is why frame
/// buffers hold `i16` and no format field is needed.
#[derive(Clone, Copy, Debug)]
pub struct AudioInfo {
    /// Total interleaved sample count of one frame; 0 on the stream info
    /// itself until a packet is decoded.
    pub samples: usize,
    /// Sample rate in Hz.
    pub sample_rate: usize,
    /// Number of audio channels; interleaving uses exactly this count.
    pub channels: usize,
    /// Block length hint; never set by this adapter.
    pub block_len: Option<usize>,
}

/// One compressed packet handed to the decoder: an opaque payload in the
/// engine's compressed format, plus the timing to propagate.
#[derive(Clone, Debug)]
pub struct Packet {
    /// Compressed payload bytes.
    pub data: Vec<u8>,
    /// Timing of this packet.
    pub t: TimeInfo,
}

/// One decoded audio frame: interleaved 16-bit samples with the stream info
/// and the timing of the packet it came from.
#[derive(Clone, Debug)]
pub struct Frame {
    /// Stream info snapshot at decode time; `info.samples` equals `buf.len()`.
    pub info: AudioInfo,
    /// Timing copied from the source packet.
    pub t: Option<TimeInfo>,
    /// Interleaved samples: entry `i * channels + cn` holds channel `cn`'s
    /// sample at index `i`.
    pub buf: Vec<i16>,
}

/// Repacks per-channel sample buffers into one interleaved buffer of
/// `m * chans.len()` entries: slot `i * chans.len() + cn` receives channel
/// `cn`'s sample at index `i`. When the channels hold fewer than `m` samples
/// each, the remaining slots are zero.
pub fn interleave_channels(chans: &Vec<Vec<i16>>, m: usize) -> (out: Vec<i16>)
    requires
        chans@.len() >= 1,
        forall|k: int| 0 <= k < chans@.len() ==> #[trigger] chans@[k]@.len() == chans@[0]@.len(),
        chans@[0]@.len() <= m,
        m * chans@.len() <= usize::MAX,
    ensures
        out@.len() == m * chans@.len(),
        forall|i: int, cn: int|
            0 <= i < chans@[0]@.len() && 0 <= cn < chans@.len() ==> #[trigger] out@[i
                * chans@.len() + cn] == chans@[cn]@[i],
        forall|i: int, cn: int|
            chans@[0]@.len() <= i < m && 0 <= cn < chans@.len() ==> #[trigger] out@[i
                * chans@.len() + cn] == 0,
{
    let c = chans.len();
    let n = chans[0].len();
    let mut out: Vec<i16> = Vec::new();
    let mut i: usize = 0;
    while i < m
        invariant
            0 <= i <= m,
            1 <= c,
            c == chans@.len(),
            n == chans@[0]@.len(),
            n <= m,
            m * c <= usize::MAX,
            forall|k: int| 0 <= k < c ==> #[trigger] chans@[k]@.len() == n,
            out@.len() == i * c,
            forall|a: int, b: int|
                0 <= a < i && 0 <= b < c && a < n ==> #[trigger] out@[a * c + b] == chans@[b]@[a],
            forall|a: int, b: int|
                n <= a < i && 0 <= b < c ==> #[trigger] out@[a * c + b] == 0,
        decreases m - i,
    {
        let mut cn: usize = 0;
        proof {
            assert((i + 1) * c == i * c + c) by (nonlinear_arith);
            assert(i * c + c <= m * c) by (nonlinear_arith)
                requires
                    i + 1 <= m,
                    c >= 1,
            ;
        }
        while cn < c
            invariant
                0 <= cn <= c,
                0 <= i < m,
                c == chans@.len(),
                n == chans@[0]@.len(),
                n <= m,
                i * c + c <= m * c <= usize::MAX,
                forall|k: int| 0 <= k < c ==> #[trigger] chans@[k]@.len() == n,
                out@.len() == i * c + cn,
                forall|a: int, b: int|
                    0 <= a < i && 0 <= b < c && a < n ==> #[trigger] out@[a * c + b] == chans@[b]@[a],
                forall|a: int, b: int|
                    n <= a < i && 0 <= b < c ==> #[trigger] out@[a * c + b] == 0,
                forall|b: int|
                    0 <= b < cn && i < n ==> #[trigger] out@[i * c + b] == chans@[b]@[i as int],
                forall|b: int| 0 <= b < cn && i >= n ==> #[trigger] out@[i * c + b] == 0,
            decreases c - cn,
        {
            proof {
                assert forall|a: int, b: int| 0 <= a < i && 0 <= b < c implies #[trigger] (a * c
                    + b) < i * c by {
                    assert(a * c + b < i * c) by (nonlinear_arith)
                        requires
                            0 <= a < i,
                            0 <= b < c,
                    ;
                }
            }
            if i < n {
                out.push(chans[cn][i]);
            } else {
                out.push(0i16);
            }
            cn = cn + 1;
        }
        i = i + 1;
    }
    proof {
        assert(out@.len() == m * c);
    }
    out
}

} // verus!
