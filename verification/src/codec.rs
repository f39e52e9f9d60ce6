//! The door to symphonia, which probes containers, reads packets and decodes
//! them. Nothing in this file is proved: each item states what this library
//! takes on trust from symphonia, and the rest of the library is verified
//! against these statements.
//!
//! A reader and a decoder are opaque here: nothing is said of what is inside
//! them. They read from memory only, so what a call returns and how it
//! leaves the reader or the decoder depends on what it is given and on
//! nothing else. Each such result has a name, and the session's contracts
//! are stated over these names.
//!
//! Of symphonia's readers and decoders this library enables the WAV reader
//! and the PCM decoder, and so plays WAV files with plain, floating-point,
//! A-law and mu-law samples. symphonia reports most malformed input as an
//! error value, and not all of it: its ID3v2 tag reader, its WAV reader and
//! its ADPCM decoder panic on some input, as do readers and decoders of
//! other formats. So the ADPCM decoder and the other formats are left out,
//! and `open_reader` requires bytes that pass `screen`, which keeps the
//! tag reader from running and refuses what the WAV reader panics on; the
//! head of `screen` lists it. The list comes from reading the probe, the
//! WAV reader and the PCM decoder, arithmetic that can overflow included.
//! Nothing proved here shows that the list is complete.

use vstd::prelude::*;
use crate::screen::screen_spec;
use crate::source::TrackFacts;
use crate::time::NANOS_PER_SEC;

verus! {

/// symphonia's `ProbeResult`: the reader that a successful probe returns.
#[verifier::external_type_specification]
#[verifier::external_body]
pub struct ExProbeResult(symphonia::core::probe::ProbeResult);

/// symphonia's `CodecParameters`: what a container says of one track.
#[verifier::external_type_specification]
#[verifier::external_body]
pub struct ExCodecParameters(symphonia::core::codecs::CodecParameters);

/// symphonia's `Packet`: one piece of encoded audio.
#[verifier::external_type_specification]
#[verifier::external_body]
pub struct ExPacket(symphonia::core::formats::Packet);

/// symphonia's `Error`.
#[verifier::external_type_specification]
#[verifier::external_body]
pub struct ExError(symphonia::core::errors::Error);

/// A decoder made by symphonia's codec registry. The registry hands out a
/// boxed trait object, which cannot be declared as a type of its own, so it
/// is kept in this closed box.
#[verifier::external_body]
pub struct Codec {
    inner: Box<dyn symphonia::core::codecs::Decoder>,
}

/// The reader that `Probe::format` of symphonia's default probe gives for a
/// stream over `bytes`, or `None` where it gives an error.
pub uninterp spec fn probe_of(bytes: Seq<u8>) -> Option<symphonia::core::probe::ProbeResult>;

/// The codec parameters of the track that `FormatReader::default_track`
/// gives for `reader`, or `None` where it gives none.
pub uninterp spec fn default_params_of(
    reader: symphonia::core::probe::ProbeResult,
) -> Option<symphonia::core::codecs::CodecParameters>;

/// What `params` hold of the facts that the engine reads.
pub uninterp spec fn facts_of(params: symphonia::core::codecs::CodecParameters) -> TrackFacts;

/// The decoder that `CodecRegistry::make` of symphonia's default registry
/// gives for `params`, or `None` where it gives an error.
pub uninterp spec fn decoder_of(params: symphonia::core::codecs::CodecParameters) -> Option<Codec>;

/// What `FormatReader::next_packet` gives for `reader`, or `None` where it
/// gives an error, and the reader as the call leaves it.
pub uninterp spec fn packet_of(reader: symphonia::core::probe::ProbeResult) -> (
    Option<symphonia::core::formats::Packet>,
    symphonia::core::probe::ProbeResult,
);

/// The timestamp of `packet`, in ticks of its track's time base.
pub uninterp spec fn packet_ts(packet: symphonia::core::formats::Packet) -> u64;

/// The samples that `Decoder::decode` gives for `packet`, interleaved and
/// converted to signed 32-bit numbers, or `None` where it gives an error,
/// and the decoder as the call leaves it.
pub uninterp spec fn decoded_of(codec: Codec, packet: symphonia::core::formats::Packet) -> (
    Option<Seq<i32>>,
    Codec,
);

/// Whether `FormatReader::seek` accepts a coarse seek of `reader` to `secs`
/// seconds and `nanos` nanoseconds, and the reader as the call leaves it.
pub uninterp spec fn sought_of(
    reader: symphonia::core::probe::ProbeResult,
    secs: u64,
    nanos: u32,
) -> (bool, symphonia::core::probe::ProbeResult);

/// The whole seconds in `ts` ticks of `numer / denom` seconds each, wrapped
/// to 64 bits.
pub open spec fn tick_secs(numer: u32, denom: u32, ts: u64) -> int {
    ((ts as int * numer as int) / (denom as int)) % 0x1_0000_0000_0000_0000
}

/// The nanoseconds beyond the whole seconds that `TimeBase::calc_time` gives
/// for `ts` ticks of `numer / denom` seconds each, once its fraction of a
/// second is taken to nanoseconds. symphonia computes the fraction in
/// floating point, so this library gives the number a name and does not say
/// how it is rounded.
pub uninterp spec fn calc_time_subsec(numer: u32, denom: u32, ts: u64) -> u32;

/// `Probe::format` of symphonia's default probe, on a stream over `bytes`
/// with default options. The stream reads from memory, so the outcome is a
/// matter of the bytes alone: it is named, not stated. The bytes must have
/// passed the screen: symphonia panics on some that do not.
#[verifier::external_body]
pub(crate) fn open_reader(bytes: Vec<u8>) -> (r: Result<
    symphonia::core::probe::ProbeResult,
    symphonia::core::errors::Error,
>)
    requires
        screen_spec(bytes@).is_none(),
    ensures
        match r {
            Ok(reader) => probe_of(bytes@) == Some(reader),
            Err(_) => probe_of(bytes@).is_none(),
        },
{
    let stream = symphonia::core::io::MediaSourceStream::new(
        Box::new(std::io::Cursor::new(bytes)),
        Default::default(),
    );
    symphonia::default::get_probe().format(
        &Default::default(),
        stream,
        &Default::default(),
        &Default::default(),
    )
}

/// `FormatReader::default_track` of the probed reader: the codec parameters
/// of the default track, or `None` where the container has no track. The
/// outcome is a matter of the reader alone: it is named, not stated.
#[verifier::external_body]
pub(crate) fn default_track_params(reader: &symphonia::core::probe::ProbeResult) -> (r: Option<
    symphonia::core::codecs::CodecParameters,
>)
    ensures
        r == default_params_of(*reader),
{
    reader.format.default_track().map(|track| track.codec_params.clone())
}

/// The four fields of `CodecParameters` that the engine reads: the time
/// base, the frame count, the channel mask as the number of channels in it
/// (`Channels::count`), and the sample rate. The values are named, not
/// stated.
#[verifier::external_body]
pub(crate) fn track_facts(params: &symphonia::core::codecs::CodecParameters) -> (r: TrackFacts)
    ensures
        r == facts_of(*params),
{
    TrackFacts {
        time_base: params.time_base.map(|tb| (tb.numer, tb.denom)),
        n_frames: params.n_frames,
        channels: params.channels.map(|channels| channels.count()),
        sample_rate: params.sample_rate,
    }
}

/// `CodecRegistry::make` of symphonia's default registry, with default
/// options. The outcome is a matter of the parameters alone: it is named,
/// not stated.
#[verifier::external_body]
pub(crate) fn make_decoder(params: &symphonia::core::codecs::CodecParameters) -> (r: Result<
    Codec,
    symphonia::core::errors::Error,
>)
    ensures
        match r {
            Ok(codec) => decoder_of(*params) == Some(codec),
            Err(_) => decoder_of(*params).is_none(),
        },
{
    symphonia::default::get_codecs().make(params, &Default::default()).map(|inner| Codec { inner })
}

/// `TimeBase::calc_time`, taken to seconds and nanoseconds by symphonia's
/// own conversion to `std::time::Duration`. symphonia asserts that neither
/// part of the time base is 0. The whole seconds are exact and wrap to 64
/// bits: where the product of ticks and numerator is below 2^52, symphonia
/// divides in 64-bit floating point, in which both operands are exact and
/// the quotient cannot round up to the next whole number; from 2^52 on it
/// divides in integers. The nanoseconds come from a floating-point fraction
/// below one second, so they are below a billion; they are named, not
/// stated, but for ticks that come to whole seconds, where the fraction is
/// exactly 0.
#[verifier::external_body]
pub(crate) fn calc_time(numer: u32, denom: u32, ts: u64) -> (r: (u64, u32))
    requires
        numer > 0,
        denom > 0,
    ensures
        r.0 == tick_secs(numer, denom, ts),
        r.1 == calc_time_subsec(numer, denom, ts),
        r.1 < NANOS_PER_SEC,
        (ts as int * numer as int) % (denom as int) == 0 ==> r.1 == 0,
{
    let time = symphonia::core::units::TimeBase::new(numer, denom).calc_time(ts);
    let span = std::time::Duration::from(time);
    (span.as_secs(), span.subsec_nanos())
}

/// `FormatReader::next_packet` of the probed reader. The packet, and the
/// reader afterwards, are a matter of the reader alone: they are named, not
/// stated.
#[verifier::external_body]
pub(crate) fn next_packet(reader: &mut symphonia::core::probe::ProbeResult) -> (r: Result<
    symphonia::core::formats::Packet,
    symphonia::core::errors::Error,
>)
    ensures
        match r {
            Ok(packet) => packet_of(*old(reader)).0 == Some(packet),
            Err(_) => packet_of(*old(reader)).0.is_none(),
        },
        *final(reader) == packet_of(*old(reader)).1,
{
    reader.format.next_packet()
}

/// `Packet::ts`: the packet's timestamp in ticks of the track's time base.
/// The value is named, not stated.
#[verifier::external_body]
pub(crate) fn packet_ticks(packet: &symphonia::core::formats::Packet) -> (ts: u64)
    ensures
        ts == packet_ts(*packet),
{
    packet.ts()
}

/// `Decoder::decode`, and the decoded audio copied out as interleaved signed
/// 32-bit samples through symphonia's `SampleBuffer`. The samples, and the
/// decoder afterwards, are a matter of the decoder and the packet alone:
/// they are named, not stated.
#[verifier::external_body]
pub(crate) fn decode(codec: &mut Codec, packet: &symphonia::core::formats::Packet) -> (r: Result<
    Vec<i32>,
    symphonia::core::errors::Error,
>)
    ensures
        match r {
            Ok(samples) => decoded_of(*old(codec), *packet).0 == Some(samples@),
            Err(_) => decoded_of(*old(codec), *packet).0.is_none(),
        },
        *final(codec) == decoded_of(*old(codec), *packet).1,
{
    let decoded = codec.inner.decode(packet)?;
    let mut buffer = symphonia::core::audio::SampleBuffer::<i32>::new(
        decoded.capacity() as u64,
        *decoded.spec(),
    );
    buffer.copy_interleaved_ref(decoded);
    Ok(buffer.samples().to_vec())
}

/// `FormatReader::seek` of the probed reader, coarse, on the default track,
/// to `secs` seconds and `nanos` nanoseconds. symphonia asserts that the
/// fraction of a second is below one. Whether the seek is accepted, and the
/// reader afterwards, are a matter of the reader and the place alone: they
/// are named, not stated.
#[verifier::external_body]
pub(crate) fn seek_coarse(
    reader: &mut symphonia::core::probe::ProbeResult,
    secs: u64,
    nanos: u32,
) -> (r: Result<(), symphonia::core::errors::Error>)
    requires
        nanos < NANOS_PER_SEC,
    ensures
        r.is_ok() == sought_of(*old(reader), secs, nanos).0,
        *final(reader) == sought_of(*old(reader), secs, nanos).1,
{
    let time = symphonia::core::units::Time::from(std::time::Duration::new(secs, nanos));
    let to = symphonia::core::formats::SeekTo::Time { time, track_id: None };
    reader.format.seek(symphonia::core::formats::SeekMode::Coarse, to).map(|_| ())
}

} // verus!
