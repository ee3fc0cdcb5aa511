//! The trusted boundary to the external decoding engine. Everything here is
//! either a declaration of one of the engine's opaque types, a name for what
//! one of its pure functions returns, or a thin wrapper whose contract states
//! what the engine's source shows.

use crate::error::Error;
use vstd::prelude::*;

verus! {

#[verifier::external_type_specification]
#[verifier::external_body]
pub struct ExIdentHeader(lewton::header::IdentHeader);

#[verifier::external_type_specification]
#[verifier::external_body]
pub struct ExCommentHeader(lewton::header::CommentHeader);

#[verifier::external_type_specification]
#[verifier::external_body]
pub struct ExSetupHeader(lewton::header::SetupHeader);

#[verifier::external_type_specification]
#[verifier::external_body]
pub struct ExPreviousWindowRight(lewton::audio::PreviousWindowRight);

/// Whether the engine parses `b` as an identification header.
pub uninterp spec fn ident_parses(b: Seq<u8>) -> bool;

/// The channel count an identification header parsed from `b` declares.
pub uninterp spec fn ident_channel_count(b: Seq<u8>) -> u8;

/// The sample rate an identification header parsed from `b` declares.
pub uninterp spec fn ident_sample_rate(b: Seq<u8>) -> u32;

/// The first blocksize exponent an identification header parsed from `b` declares.
pub uninterp spec fn ident_blocksize_0(b: Seq<u8>) -> u8;

/// The second blocksize exponent an identification header parsed from `b` declares.
pub uninterp spec fn ident_blocksize_1(b: Seq<u8>) -> u8;

/// Whether the engine parses `b` as a comment header.
pub uninterp spec fn comment_parses(b: Seq<u8>) -> bool;

/// Whether the engine parses `b` as a setup header for the given channel
/// count and blocksize exponents.
pub uninterp spec fn setup_parses(b: Seq<u8>, channels: u8, bs0: u8, bs1: u8) -> bool;

/// The channel count an identification header value declares: its channel
/// field. Every such value outside the engine comes from read_header_ident,
/// since the type has a crate-private field.
pub uninterp spec fn ident_declared_channels(h: lewton::header::IdentHeader) -> u8;

/// The blocksize exponent pair an identification header value declares.
pub uninterp spec fn ident_declared_blocksizes(h: lewton::header::IdentHeader) -> (u8, u8);

/// The channel count a setup header value was built with: the length of
/// each of its mappings' channel multiplex tables. Every such value outside
/// the engine comes from read_header_setup, since all its fields are
/// crate-private.
pub uninterp spec fn setup_built_channels(s: lewton::header::SetupHeader) -> u8;

/// Whether the engine decodes this packet, given the header pair and the
/// incoming continuity state. Every accept-or-reject decision in the
/// engine's decode path is integer and bit-level logic, so acceptance is a
/// function of these values alone.
pub uninterp spec fn packet_decodes(
    ident: lewton::header::IdentHeader,
    setup: lewton::header::SetupHeader,
    packet: Seq<u8>,
    pwr: lewton::audio::PreviousWindowRight,
) -> bool;

/// The per-channel sample count the engine derives for a packet from the
/// header pair and the packet bytes alone, without decoding it.
pub uninterp spec fn packet_sample_count(
    ident: lewton::header::IdentHeader,
    setup: lewton::header::SetupHeader,
    packet: Seq<u8>,
) -> usize;

/// Whether a continuity state may be fed to the engine together with this
/// header pair: it is fresh, or it was left behind by a decode that used the
/// same pair. The engine panics on a mismatched state instead of erring.
pub uninterp spec fn pwr_compatible(
    pwr: lewton::audio::PreviousWindowRight,
    ident: lewton::header::IdentHeader,
    setup: lewton::header::SetupHeader,
) -> bool;

/// Whether a continuity state is fresh: it stores no window remainder from
/// any earlier packet.
pub uninterp spec fn pwr_is_fresh(pwr: lewton::audio::PreviousWindowRight) -> bool;

/// Relies on lewton's read_header_ident: a pure parse of the identification
/// header bytes. Its source accepts a header only when the declared channel
/// count and sample rate are nonzero and the blocksize exponents lie between
/// 6 and 13 in nondecreasing order, which the contract restates.
#[verifier::external_body]
pub(crate) fn parse_ident(b: &[u8]) -> (r: Result<
    (lewton::header::IdentHeader, u8, u32, u8, u8),
    Error,
>)
    ensures
        r is Ok <==> ident_parses(b@),
        (r matches Ok(t) ==> {
            &&& t.1 == ident_channel_count(b@)
            &&& t.2 == ident_sample_rate(b@)
            &&& t.3 == ident_blocksize_0(b@)
            &&& t.4 == ident_blocksize_1(b@)
            &&& t.1 >= 1
            &&& t.2 >= 1
            &&& 6 <= t.3 && t.3 <= t.4 && t.4 <= 13
            &&& ident_declared_channels(t.0) == t.1
            &&& ident_declared_blocksizes(t.0) == (t.3, t.4)
        }),
        r matches Err(e) ==> e == Error::InvalidData,
{
    match lewton::header::read_header_ident(b) {
        Ok(h) => {
            let ch = h.audio_channels;
            let rate = h.audio_sample_rate;
            let b0 = h.blocksize_0;
            let b1 = h.blocksize_1;
            Ok((h, ch, rate, b0, b1))
        },
        Err(_) => Err(Error::InvalidData),
    }
}

/// Relies on lewton's read_header_comment: a pure parse of the comment
/// header bytes.
#[verifier::external_body]
pub(crate) fn parse_comment(b: &[u8]) -> (r: Result<lewton::header::CommentHeader, Error>)
    ensures
        r is Ok <==> comment_parses(b@),
        r matches Err(e) ==> e == Error::InvalidData,
{
    match lewton::header::read_header_comment(b) {
        Ok(h) => Ok(h),
        Err(_) => Err(Error::InvalidData),
    }
}

/// Relies on lewton's read_header_setup: a pure parse of the setup header
/// bytes, parametrized by the channel count and blocksize exponents of the
/// identification header. A zero channel count is excluded because the
/// engine's source subtracts one from it before taking a logarithm, and
/// the blocksize exponents are held to the 6..=13 range the identification
/// parse guarantees, because a type-0 floor shifts 1 by one less than the
/// first exponent. Even so, in builds with overflow checks the parse can
/// panic on crafted bytes: an ordered codebook can step its 8-bit codeword
/// length once per iteration past its maximum. That depends on the bytes
/// alone, so no requirement can exclude it, and this wrapper claims no
/// freedom from unwinding.
#[verifier::external_body]
pub(crate) fn parse_setup(b: &[u8], channels: u8, bs0: u8, bs1: u8) -> (r: Result<
    lewton::header::SetupHeader,
    Error,
>)
    requires
        channels >= 1,
        6 <= bs0,
        bs0 <= bs1,
        bs1 <= 13,
    ensures
        r is Ok <==> setup_parses(b@, channels, bs0, bs1),
        r matches Ok(h) ==> setup_built_channels(h) == channels,
        r matches Err(e) ==> e == Error::InvalidData,
{
    match lewton::header::read_header_setup(b, channels, (bs0, bs1)) {
        Ok(h) => Ok(h),
        Err(_) => Err(Error::InvalidData),
    }
}

/// Relies on PreviousWindowRight::new: a fresh continuity state stores no
/// window data, and the engine's decode accepts such a state with any
/// header pair.
#[verifier::external_body]
pub(crate) fn pwr_new() -> (r: lewton::audio::PreviousWindowRight)
    ensures
        pwr_is_fresh(r),
        forall|i: lewton::header::IdentHeader, s: lewton::header::SetupHeader|
            #[trigger] pwr_compatible(r, i, s),
{
    lewton::audio::PreviousWindowRight::new()
}

/// Relies on lewton's read_audio_packet and get_decoded_sample_count.
/// read_audio_packet decodes one compressed packet into one sample buffer
/// per channel and updates the continuity state in place. It panics when
/// the setup header was built for another channel count than the
/// identification header declares (it walks the mapping's channel tables
/// once per declared channel), or when the continuity state came from a
/// different header pair; the two requirements exclude both. It can also
/// panic on adversarial setup data the engine's own parser accepts: the
/// parse is off by one when it validates a type-0 floor's book list, an
/// entry equal to the codebook count passes and is indexed unchecked when
/// a packet selects it, and in builds with overflow checks a high channel
/// count overflows a 16-bit product in the residue deinterleave. No
/// requirement can exclude such headers, so this wrapper claims no freedom
/// from unwinding. The engine's accept-or-reject decisions are integer and
/// bit-level only, so acceptance is named as a function of the arguments. On success it returns exactly
/// the declared channel count of buffers, all cut to one window span, so
/// their lengths are equal and at most the sample count; that count, the
/// window span, is below the largest block length, 1 shifted by a blocksize
/// exponent of at most 13. get_decoded_sample_count reads the packet's mode
/// number and window flags to give the per-channel sample count without
/// decoding; its source indexes the mode table unchecked, so it runs only
/// after the full decode succeeded, which shows that index is in range and
/// the count call returns without error.
#[verifier::external_body]
pub(crate) fn decode_packet(
    ident: &lewton::header::IdentHeader,
    setup: &lewton::header::SetupHeader,
    packet: &[u8],
    pwr: &mut lewton::audio::PreviousWindowRight,
) -> (r: Result<(Vec<Vec<i16>>, usize), Error>)
    requires
        pwr_compatible(*old(pwr), *ident, *setup),
        setup_built_channels(*setup) == ident_declared_channels(*ident),
        ident_declared_channels(*ident) >= 1,
        6 <= ident_declared_blocksizes(*ident).0,
        ident_declared_blocksizes(*ident).0 <= ident_declared_blocksizes(*ident).1,
        ident_declared_blocksizes(*ident).1 <= 13,
    ensures
        pwr_compatible(*final(pwr), *ident, *setup),
        r is Ok <==> packet_decodes(*ident, *setup, packet@, *old(pwr)),
        (r matches Ok(t) ==> {
            &&& t.0@.len() == ident_declared_channels(*ident) as int
            &&& (forall|k: int|
                0 <= k < t.0@.len() ==> #[trigger] t.0@[k]@.len() == t.0@[0]@.len())
            &&& t.0@[0]@.len() <= t.1
            &&& t.1 == packet_sample_count(*ident, *setup, packet@)
            &&& t.1 <= 8192
        }),
        r matches Err(e) ==> e == Error::InvalidData,
{
    let samples = match lewton::audio::read_audio_packet(ident, setup, packet, pwr) {
        Ok(s) => s,
        Err(_) => return Err(Error::InvalidData),
    };
    let count = match lewton::audio::get_decoded_sample_count(ident, setup, packet) {
        Ok(c) => c,
        Err(_) => return Err(Error::InvalidData),
    };
    Ok((samples, count))
}

} // verus!
