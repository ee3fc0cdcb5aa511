use crate::engine::{
    comment_parses, decode_packet, ident_blocksize_0, ident_blocksize_1, ident_channel_count,
    ident_declared_blocksizes, ident_declared_channels, ident_parses, ident_sample_rate,
    packet_decodes, packet_sample_count, parse_comment, parse_ident, parse_setup, pwr_compatible,
    pwr_is_fresh, pwr_new, setup_built_channels, setup_parses,
};
use crate::error::Error;
use crate::frame::{interleave_channels, AudioInfo, Frame, Packet};
use crate::lacing::{lacing_decode, read_xiph_lacing};
use std::collections::VecDeque;
use vstd::prelude::*;
use vstd::slice::{slice_subrange, slice_to_vec};

verus! {

/// Registration record handed to a codec registry: identifier, display
/// name, description, and MIME type.
pub struct Descr {
    /// Codec identifier that streams are tagged with.
    pub codec: &'static str,
    /// Display name of the adapter.
    pub name: &'static str,
    /// Human-readable description.
    pub desc: &'static str,
    /// MIME type of the coded data.
    pub mime: &'static str,
}

/// Descriptor: the stateless registration record plus the factory that
/// builds fresh decoder instances.
pub struct Des {
    /// The registration record returned by `describe`.
    pub descr: Descr,
}

/// The three per-stream headers parsed once from extradata and reused for
/// every packet, together with the channel count the identification header
/// declared.
pub struct HeaderSet {
    /// Identification header.
    pub ident: lewton::header::IdentHeader,
    /// Comment header.
    pub comment: lewton::header::CommentHeader,
    /// Setup/codebook header.
    pub setup: lewton::header::SetupHeader,
    /// Channel count declared by the identification header; always at least 1.
    pub channels: u8,
}

/// The stateful decoder instance.
pub struct Dec {
    extradata: Option<Vec<u8>>,
    headers: Option<HeaderSet>,
    pwr: lewton::audio::PreviousWindowRight,
    pending: VecDeque<Frame>,
    info: AudioInfo,
}

/// The three byte ranges a well-formed extradata buffer carries, in order:
/// identification header bytes, comment header bytes, and the remaining
/// setup header bytes. `None` when the marker byte is not 2, a lacing run is
/// truncated, a laced length does not fit the buffer, or a laced length is
/// within 255 of the `u64` maximum (such a length could never fit a real
/// buffer and the reader rejects it).
pub open spec fn ed_parts(ed: Seq<u8>) -> Option<(Seq<u8>, Seq<u8>, Seq<u8>)> {
    if ed.len() == 0 || ed[0] != 2 {
        None
    } else {
        match lacing_decode(ed.skip(1)) {
            None => None,
            Some(l1) => match lacing_decode(ed.skip(1 + l1.1 as int)) {
                None => None,
                Some(l2) => {
                    let p = 1 + l1.1 + l2.1;
                    if l1.0 <= u64::MAX - 255 && l2.0 <= u64::MAX - 255 && p + l1.0 + l2.0
                        <= ed.len() {
                        Some(
                            (
                                ed.subrange(p as int, (p + l1.0) as int),
                                ed.subrange((p + l1.0) as int, (p + l1.0 + l2.0) as int),
                                ed.skip((p + l1.0 + l2.0) as int),
                            ),
                        )
                    } else {
                        None
                    }
                },
            },
        }
    }
}

/// Whether `ed` is extradata that configuration accepts: the framing marker
/// and lacing structure are well formed and the engine parses all three
/// header ranges.
pub open spec fn extradata_configures(ed: Seq<u8>) -> bool {
    match ed_parts(ed) {
        Some(parts) => ident_parses(parts.0) && comment_parses(parts.1) && setup_parses(
            parts.2,
            ident_channel_count(parts.0),
            ident_blocksize_0(parts.0),
            ident_blocksize_1(parts.0),
        ),
        None => false,
    }
}

/// The identification header bytes of `ed`, when `ed` splits.
pub open spec fn ed_ident_bytes(ed: Seq<u8>) -> Seq<u8> {
    match ed_parts(ed) {
        Some(parts) => parts.0,
        None => Seq::empty(),
    }
}

impl Dec {
    /// The continuity state is only ever fed to the engine together with the
    /// header pair it came from; a cached header set always declares at
    /// least one channel, its two headers were parsed for that same channel
    /// count, its blocksize exponents lie in the engine's accepted range,
    /// and the stream info carries the same channel count.
    #[verifier::type_invariant]
    spec fn wf(self) -> bool {
        match self.headers {
            Some(hs) => pwr_compatible(self.pwr, hs.ident, hs.setup) && hs.channels >= 1
                && self.info.channels == hs.channels as usize && ident_declared_channels(
                hs.ident,
            ) == hs.channels && setup_built_channels(hs.setup) == hs.channels && 6
                <= ident_declared_blocksizes(hs.ident).0 && ident_declared_blocksizes(hs.ident).0
                <= ident_declared_blocksizes(hs.ident).1 && ident_declared_blocksizes(hs.ident).1
                <= 13,
            None => true,
        }
    }

    /// The stored extradata bytes, if any were supplied.
    pub closed spec fn spec_extradata(self) -> Option<Seq<u8>> {
        match self.extradata {
            Some(v) => Some(v@),
            None => None,
        }
    }

    /// The cached header set; `None` until configuration succeeds.
    pub closed spec fn spec_header_set(self) -> Option<HeaderSet> {
        self.headers
    }

    /// The current stream info.
    pub closed spec fn spec_info(self) -> AudioInfo {
        self.info
    }

    /// The queue of decoded frames awaiting delivery, oldest first.
    pub closed spec fn spec_pending(self) -> Seq<Frame> {
        self.pending@
    }

    /// The continuity state itself, as an opaque engine value; contracts
    /// use it to say that an operation leaves it alone.
    pub closed spec fn spec_continuity(self) -> lewton::audio::PreviousWindowRight {
        self.pwr
    }

    /// Whether the continuity state is fresh, as right after creation, a
    /// successful configuration, or a flush: no window remainder of an
    /// earlier packet can influence the next decode.
    pub closed spec fn spec_continuity_fresh(self) -> bool {
        pwr_is_fresh(self.pwr)
    }

    /// A decoder in its initial state: no extradata, no header set, fresh
    /// continuity state, empty pending queue, and placeholder stream info.
    fn new() -> (d: Dec)
        ensures
            d.spec_extradata() is None,
            d.spec_header_set() is None,
            d.spec_pending() == Seq::<Frame>::empty(),
            d.spec_continuity_fresh(),
            d.spec_info().samples == 0,
            d.spec_info().sample_rate == 48000,
            d.spec_info().channels == 0,
            d.spec_info().block_len is None,
    {
        Dec {
            extradata: None,
            headers: None,
            pwr: pwr_new(),
            pending: VecDeque::with_capacity(1),
            info: AudioInfo { samples: 0, sample_rate: 48000, channels: 0, block_len: None },
        }
    }

    /// Stores the extradata to be consumed by `configure`; nothing else
    /// changes.
    pub fn set_extradata(&mut self, extra: &[u8])
        ensures
            final(self).spec_extradata() == Some(extra@),
            final(self).spec_header_set() == old(self).spec_header_set(),
            final(self).spec_pending() == old(self).spec_pending(),
            final(self).spec_info() == old(self).spec_info(),
            final(self).spec_continuity() == old(self).spec_continuity(),
    {
        proof {
            use_type_invariant(&*self);
        }
        self.extradata = Some(slice_to_vec(extra));
    }

    /// Parses the stored extradata into the header set and updates the
    /// stream info from the identification header. Succeeds exactly on
    /// well-formed extradata; fails with `ConfigurationIncomplete` when no
    /// extradata was stored and with `InvalidData` on malformed bytes, in
    /// both cases leaving the decoder unchanged. Reconfiguration replaces
    /// the cached header set and starts the continuity state afresh.
    pub fn configure(&mut self) -> (r: Result<(), Error>)
        ensures
            r is Ok <==> (match old(self).spec_extradata() {
                Some(ed) => extradata_configures(ed),
                None => false,
            }),
            old(self).spec_extradata() is None ==> r == Err::<(), Error>(
                Error::ConfigurationIncomplete,
            ),
            r is Err ==> *final(self) == *old(self),
            (r is Err && old(self).spec_extradata() is Some) ==> r == Err::<(), Error>(
                Error::InvalidData,
            ),
            r is Ok ==> ({
                let ib = ed_ident_bytes(old(self).spec_extradata()->0);
                &&& final(self).spec_header_set() matches Some(hs) && hs.channels
                    == ident_channel_count(ib)
                &&& final(self).spec_info().channels == ident_channel_count(ib) as usize
                &&& final(self).spec_info().sample_rate == ident_sample_rate(ib) as usize
                &&& final(self).spec_info().samples == old(self).spec_info().samples
                &&& final(self).spec_info().block_len == old(self).spec_info().block_len
                &&& final(self).spec_extradata() == old(self).spec_extradata()
                &&& final(self).spec_pending() == old(self).spec_pending()
                &&& final(self).spec_continuity_fresh()
            }),
    {
        proof {
            use_type_invariant(&*self);
        }
        let ed: &Vec<u8> = match &self.extradata {
            Some(e) => e,
            None => {
                return Err(Error::ConfigurationIncomplete);
            },
        };
        if ed.len() == 0 || ed[0] != 2 {
            return Err(Error::InvalidData);
        }
        let (ident_len, p1) = match read_xiph_lacing(ed.as_slice(), 1) {
            Ok(p) => p,
            Err(e) => {
                return Err(e);
            },
        };
        let (comment_len, p2) = match read_xiph_lacing(ed.as_slice(), p1) {
            Ok(p) => p,
            Err(e) => {
                return Err(e);
            },
        };
        let rem: usize = ed.len() - p2;
        if ident_len > rem as u64 {
            return Err(Error::InvalidData);
        }
        let il: usize = ident_len as usize;
        if comment_len > (rem - il) as u64 {
            return Err(Error::InvalidData);
        }
        let cl: usize = comment_len as usize;
        let ident_bytes = slice_subrange(ed.as_slice(), p2, p2 + il);
        let comment_bytes = slice_subrange(ed.as_slice(), p2 + il, p2 + il + cl);
        let setup_bytes = slice_subrange(ed.as_slice(), p2 + il + cl, ed.len());
        proof {
            let s = ed@;
            assert(s.skip((p2 + il + cl) as int) =~= s.subrange(
                (p2 + il + cl) as int,
                s.len() as int,
            ));
            assert(ed_parts(s) == Some((ident_bytes@, comment_bytes@, setup_bytes@)));
        }
        let (ident, channels, rate, bs0, bs1) = match parse_ident(ident_bytes) {
            Ok(t) => t,
            Err(e) => {
                return Err(e);
            },
        };
        let comment = match parse_comment(comment_bytes) {
            Ok(h) => h,
            Err(e) => {
                return Err(e);
            },
        };
        let setup = match parse_setup(setup_bytes, channels, bs0, bs1) {
            Ok(h) => h,
            Err(e) => {
                return Err(e);
            },
        };
        self.headers = None;
        self.pwr = pwr_new();
        self.info.sample_rate = rate as usize;
        self.info.channels = channels as usize;
        self.headers = Some(HeaderSet { ident, comment, setup, channels });
        Ok(())
    }

    /// Feeds one compressed packet to the engine. Succeeds exactly when a
    /// header set is cached and the engine accepts the packet; it then
    /// appends one decoded frame to the pending queue, whose buffer holds
    /// the engine's per-channel output interleaved over the stream's
    /// channel count, sized to the per-channel sample count times that
    /// count, with stream info and the packet's timestamp attached.
    /// Submission before a successful configuration fails cleanly with
    /// `ConfigurationIncomplete`; a packet the engine rejects fails with
    /// `InvalidData` and leaves the pending queue unchanged, the continuity
    /// state standing as the engine left it.
    #[verifier::loop_isolation(false)]
    pub fn send_packet(&mut self, pkt: &Packet) -> (r: Result<(), Error>)
        ensures
            r is Ok <==> (match old(self).spec_header_set() {
                Some(hs) => packet_decodes(
                    hs.ident,
                    hs.setup,
                    pkt.data@,
                    old(self).spec_continuity(),
                ),
                None => false,
            }),
            old(self).spec_header_set() is None ==> r == Err::<(), Error>(
                Error::ConfigurationIncomplete,
            ) && *final(self) == *old(self),
            (r is Err && old(self).spec_header_set() is Some) ==> r == Err::<(), Error>(
                Error::InvalidData,
            ),
            final(self).spec_header_set() == old(self).spec_header_set(),
            final(self).spec_info() == old(self).spec_info(),
            final(self).spec_extradata() == old(self).spec_extradata(),
            r is Err ==> final(self).spec_pending() == old(self).spec_pending(),
            r is Ok ==> ({
                let q0 = old(self).spec_pending();
                let q1 = final(self).spec_pending();
                let c = old(self).spec_info().channels;
                let hs = old(self).spec_header_set()->0;
                &&& q1 == q0.push(q1.last())
                &&& q1.last().t == Some(pkt.t)
                &&& q1.last().info.sample_rate == old(self).spec_info().sample_rate
                &&& q1.last().info.channels == c
                &&& q1.last().info.block_len == old(self).spec_info().block_len
                &&& q1.last().info.samples == q1.last().buf@.len()
                &&& q1.last().buf@.len() == packet_sample_count(hs.ident, hs.setup, pkt.data@)
                    * c
            }),
    {
        proof {
            use_type_invariant(&*self);
        }
        let mut hso: Option<HeaderSet> = None;
        core::mem::swap(&mut hso, &mut self.headers);
        let (dec_res, channel_count) = match &hso {
            Some(hs) => {
                let c: usize = hs.channels as usize;
                let mut pwr = pwr_new();
                core::mem::swap(&mut pwr, &mut self.pwr);
                let res = decode_packet(&hs.ident, &hs.setup, pkt.data.as_slice(), &mut pwr);
                self.pwr = pwr;
                (res, c)
            },
            None => {
                return Err(Error::ConfigurationIncomplete);
            },
        };
        self.headers = hso;
        let (samples, spc) = match dec_res {
            Ok(t) => t,
            Err(_) => {
                return Err(Error::InvalidData);
            },
        };
        proof {
            assert(spc * channel_count <= usize::MAX) by (nonlinear_arith)
                requires
                    spc <= 8192,
                    1 <= channel_count <= 255,
            ;
        }
        let total = spc * channel_count;
        let buf = interleave_channels(&samples, spc);
        let mut info = self.info;
        info.samples = total;
        let f = Frame { info, t: Some(pkt.t), buf };
        let mut q: VecDeque<Frame> = VecDeque::new();
        core::mem::swap(&mut q, &mut self.pending);
        q.push_back(f);
        self.pending = q;
        Ok(())
    }

    /// Pops and returns the oldest pending frame; signals `MoreDataNeeded`
    /// when the queue is empty, telling the caller to submit another packet
    /// before retrying.
    pub fn receive_frame(&mut self) -> (r: Result<Frame, Error>)
        ensures
            old(self).spec_pending().len() == 0 ==> r == Err::<Frame, Error>(
                Error::MoreDataNeeded,
            ) && final(self).spec_pending() == old(self).spec_pending(),
            old(self).spec_pending().len() > 0 ==> (r matches Ok(f) && f == old(
                self,
            ).spec_pending()[0] && final(self).spec_pending() == old(
                self,
            ).spec_pending().drop_first()),
            final(self).spec_header_set() == old(self).spec_header_set(),
            final(self).spec_info() == old(self).spec_info(),
            final(self).spec_extradata() == old(self).spec_extradata(),
            final(self).spec_continuity() == old(self).spec_continuity(),
    {
        proof {
            use_type_invariant(&*self);
        }
        let mut q: VecDeque<Frame> = VecDeque::new();
        core::mem::swap(&mut q, &mut self.pending);
        let popped = q.pop_front();
        self.pending = q;
        match popped {
            Some(f) => Ok(f),
            None => Err(Error::MoreDataNeeded),
        }
    }

    /// Resets the continuity state to a fresh empty value, as after a seek;
    /// the header set, stream info, stored extradata, and pending queue are
    /// untouched. Always succeeds.
    pub fn flush(&mut self) -> (r: Result<(), Error>)
        ensures
            r == Ok::<(), Error>(()),
            final(self).spec_continuity_fresh(),
            final(self).spec_header_set() == old(self).spec_header_set(),
            final(self).spec_info() == old(self).spec_info(),
            final(self).spec_pending() == old(self).spec_pending(),
            final(self).spec_extradata() == old(self).spec_extradata(),
    {
        proof {
            use_type_invariant(&*self);
        }
        self.pwr = pwr_new();
        Ok(())
    }
}

impl Des {
    /// Returns the registration record.
    pub fn describe(&self) -> (r: &Descr)
        ensures
            *r == self.descr,
    {
        &self.descr
    }

    /// Builds a fresh decoder instance; no side effects beyond allocation.
    pub fn create(&self) -> (d: Dec)
        ensures
            d.spec_extradata() is None,
            d.spec_header_set() is None,
            d.spec_pending() == Seq::<Frame>::empty(),
            d.spec_continuity_fresh(),
            d.spec_info().samples == 0,
            d.spec_info().sample_rate == 48000,
            d.spec_info().channels == 0,
            d.spec_info().block_len is None,
    {
        Dec::new()
    }
}

/// The descriptor under which this adapter registers: codec tag "vorbis",
/// MIME type "audio/VORBIS".
pub fn vorbis_descr() -> (d: Des)
    ensures
        d.descr.codec@ == "vorbis"@,
        d.descr.name@ == "lewton"@,
        d.descr.desc@ == "lewton vorbis decoder"@,
        d.descr.mime@ == "audio/VORBIS"@,
{
    Des {
        descr: Descr {
            codec: "vorbis",
            name: "lewton",
            desc: "lewton vorbis decoder",
            mime: "audio/VORBIS",
        },
    }
}

/// A byte buffer that is empty or whose first byte is not the framing
/// marker 2 is never accepted as extradata, whatever the engine would make
/// of the bytes behind it.
pub proof fn lemma_bad_marker_rejected(ed: Seq<u8>)
    requires
        ed.len() == 0 || ed[0] != 2,
    ensures
        !extradata_configures(ed),
{
}

/// After one frame lands in an empty queue, exactly one retrieval succeeds:
/// it yields that frame, and the queue it leaves behind is empty again.
pub proof fn lemma_single_frame_handshake(q: Seq<Frame>, f: Frame)
    requires
        q.len() == 0,
    ensures
        q.push(f).len() == 1,
        q.push(f)[0] == f,
        q.push(f).drop_first().len() == 0,
{
}

} // verus!
