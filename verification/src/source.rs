//! The decode session: one open audio file, read packet by packet and
//! decoded into interleaved samples on demand.
//!
//! A sample is a signed 32-bit number, as symphonia's sample buffer converts
//! decoded audio; silence is 0.
//!
//! What the session reads and decodes is a matter of the file's bytes alone,
//! so every contract here says exactly what is returned and what state is
//! left, over the names that `codec` gives to symphonia's results.

use vstd::prelude::*;
use crate::codec::{
    decode, decoded_of, decoder_of, default_params_of, default_track_params, facts_of,
    make_decoder, next_packet, open_reader, packet_of, packet_ticks, packet_ts, probe_of,
    seek_coarse, sought_of, track_facts, Codec,
};
use crate::screen::{screen, screen_spec};
use crate::time::{ticks_nanos, Span, TickRate, NANOS_PER_MILLI, NANOS_PER_SEC};
use crate::transport::{Fetched, FetchedView, Transport, TransportView};

verus! {

/// Why a file could not be opened as a session.
#[derive(Debug, Clone, Copy, PartialEq, Eq)]
pub enum OpenError {
    /// The file could not be read.
    Unreadable,
    /// The bytes do not begin as a WAV file does, are too many for one or
    /// hold a list longer than the file, or no container was recognised in
    /// them.
    Unrecognized,
    /// The container has no track.
    NoTrack,
    /// No decoder could be made for the track, or the file declares a
    /// format that none is made for.
    NoDecoder,
    /// The track has no time base, or one with a zero in it, or the file
    /// declares a sample rate of 0.
    NoTimeBase,
    /// The track does not say how many frames it has.
    NoFrameCount,
    /// The track does not say which channels it has.
    NoChannels,
    /// The track does not say its sample rate.
    NoSampleRate,
}

/// What the engine reads of a track: the time base as numerator and
/// denominator, the number of frames, the number of channels and the sample
/// rate. Each is absent where the container does not say.
#[derive(Debug, Clone, Copy, PartialEq, Eq)]
pub struct TrackFacts {
    pub time_base: Option<(u32, u32)>,
    pub n_frames: Option<u64>,
    pub channels: Option<usize>,
    pub sample_rate: Option<u32>,
}

/// What a session keeps of its track once every fact was found present.
#[derive(Debug, Clone, Copy, PartialEq, Eq)]
pub struct Layout {
    pub numer: u32,
    pub denom: u32,
    pub frames: u64,
    pub channels: u8,
    pub sample_rate: u32,
}

impl TrackFacts {
    /// The layout that these facts give, or the first of time base, frame
    /// count, channels and sample rate that is missing. The channel count is
    /// kept modulo 256.
    pub open spec fn layout_spec(self) -> Result<Layout, OpenError> {
        match self.time_base {
            None => Err(OpenError::NoTimeBase),
            Some((numer, denom)) => if numer == 0 || denom == 0 {
                Err(OpenError::NoTimeBase)
            } else {
                match self.n_frames {
                    None => Err(OpenError::NoFrameCount),
                    Some(frames) => match self.channels {
                        None => Err(OpenError::NoChannels),
                        Some(count) => match self.sample_rate {
                            None => Err(OpenError::NoSampleRate),
                            Some(sample_rate) => Ok(
                                Layout {
                                    numer,
                                    denom,
                                    frames,
                                    channels: (count % 256) as u8,
                                    sample_rate,
                                },
                            ),
                        },
                    },
                }
            },
        }
    }

    /// Checks that every fact a session needs is present.
    pub fn layout(&self) -> (r: Result<Layout, OpenError>)
        ensures
            r == self.layout_spec(),
    {
        let (numer, denom) = match self.time_base {
            Some(tb) => tb,
            None => {
                return Err(OpenError::NoTimeBase);
            },
        };
        if numer == 0 || denom == 0 {
            return Err(OpenError::NoTimeBase);
        }
        let frames = match self.n_frames {
            Some(frames) => frames,
            None => {
                return Err(OpenError::NoFrameCount);
            },
        };
        let count = match self.channels {
            Some(count) => count,
            None => {
                return Err(OpenError::NoChannels);
            },
        };
        let sample_rate = match self.sample_rate {
            Some(rate) => rate,
            None => {
                return Err(OpenError::NoSampleRate);
            },
        };
        Ok(Layout { numer, denom, frames, channels: (count % 256) as u8, sample_rate })
    }
}

/// What probing a file came to: how far it got, and what was found of the
/// default track where it got to one.
#[derive(Debug, Clone, Copy, PartialEq, Eq)]
pub enum Probed {
    /// The bytes did not pass the screen and were not handed to the decoder
    /// library; the error is the screen's.
    Refused(OpenError),
    /// No container format was recognised.
    Unrecognized,
    /// A container was recognised, and it has no track.
    NoTrack,
    /// The default track was found, and no decoder could be made for it.
    NoDecoder,
    /// The default track was found and a decoder was made for it.
    Track(TrackFacts),
}

impl Probed {
    /// The layout of the session that this outcome gives, or the error that
    /// opening ends in.
    pub open spec fn verdict_spec(self) -> Result<Layout, OpenError> {
        match self {
            Probed::Refused(error) => Err(error),
            Probed::Unrecognized => Err(OpenError::Unrecognized),
            Probed::NoTrack => Err(OpenError::NoTrack),
            Probed::NoDecoder => Err(OpenError::NoDecoder),
            Probed::Track(facts) => facts.layout_spec(),
        }
    }

    /// The layout of the session that this outcome gives, or the error that
    /// opening ends in.
    pub fn verdict(&self) -> (r: Result<Layout, OpenError>)
        ensures
            r == self.verdict_spec(),
    {
        match self {
            Probed::Refused(error) => Err(*error),
            Probed::Unrecognized => Err(OpenError::Unrecognized),
            Probed::NoTrack => Err(OpenError::NoTrack),
            Probed::NoDecoder => Err(OpenError::NoDecoder),
            Probed::Track(facts) => facts.layout(),
        }
    }
}

/// What probing the file whose content is `bytes` comes to.
pub open spec fn probed_of(bytes: Seq<u8>) -> Probed {
    match screen_spec(bytes) {
        Some(error) => Probed::Refused(error),
        None => match probe_of(bytes) {
            None => Probed::Unrecognized,
            Some(reader) => match default_params_of(reader) {
                None => Probed::NoTrack,
                Some(params) => match decoder_of(params) {
                    None => Probed::NoDecoder,
                    Some(_) => Probed::Track(facts_of(params)),
                },
            },
        },
    }
}

/// What asking `reader` for its next packet and `decoder` for the packet's
/// samples gives, and the reader and the decoder as that leaves them. The
/// decoder is asked only where there is a packet.
pub open spec fn fetch_spec(reader: symphonia::core::probe::ProbeResult, decoder: Codec) -> (
    FetchedView,
    symphonia::core::probe::ProbeResult,
    Codec,
) {
    let (read, reader_after) = packet_of(reader);
    match read {
        None => (FetchedView::End, reader_after, decoder),
        Some(packet) => {
            let (decoded, decoder_after) = decoded_of(decoder, packet);
            match decoded {
                Some(samples) => (
                    FetchedView::Packet { ts: packet_ts(packet), samples },
                    reader_after,
                    decoder_after,
                ),
                None => (
                    FetchedView::Corrupt { ts: packet_ts(packet) },
                    reader_after,
                    decoder_after,
                ),
            }
        },
    }
}

/// The shortest time that a seek asks the reader for, in nanoseconds.
pub open spec fn seek_floor() -> nat {
    100 * (NANOS_PER_MILLI as nat)
}

/// The place that a seek to `target` in a file of length `duration` asks the
/// reader for, all in nanoseconds: the target, cut to the length of the file
/// and to whole milliseconds, and no less than a tenth of a second.
pub open spec fn seek_point_spec(target: nat, duration: nat) -> nat {
    let clamped = if target <= duration {
        target
    } else {
        duration
    };
    let millis = clamped / (NANOS_PER_MILLI as nat);
    if millis < 100 {
        seek_floor()
    } else {
        millis * (NANOS_PER_MILLI as nat)
    }
}

/// The place that a seek to `target` in a file of length `duration` asks the
/// reader for.
pub fn seek_point(target: Span, duration: Span) -> (point: Span)
    ensures
        point@ == seek_point_spec(target@, duration@),
{
    let clamped = target.min(duration);
    let secs: u64 = clamped.secs();
    let millis: u32 = clamped.subsec_nanos() / NANOS_PER_MILLI;
    if secs == 0 && millis < 100 {
        Span::new(0, 100 * NANOS_PER_MILLI)
    } else {
        Span::new(secs, millis * NANOS_PER_MILLI)
    }
}

/// A seek asks for a place that is at most the target cut to the file, or
/// the floor of a tenth of a second; from that floor on it is less than one
/// millisecond before the target cut to the file.
pub proof fn lemma_seek_point_is_near(target: nat, duration: nat)
    ensures
        ({
            let clamped = if target <= duration { target } else { duration };
            let point = seek_point_spec(target, duration);
            &&& point >= seek_floor()
            &&& clamped >= seek_floor() ==> point <= clamped < point + NANOS_PER_MILLI
            &&& clamped < seek_floor() ==> point == seek_floor()
        }),
{
}

/// A session as a mathematical value: the track's layout, the reader and the
/// decoder as they stand, and the playhead.
#[verifier::ext_equal]
pub struct SourceView {
    pub channels: u8,
    pub sample_rate: u32,
    pub numer: u32,
    pub denom: u32,
    pub frames: u64,
    pub duration: nat,
    pub reader: symphonia::core::probe::ProbeResult,
    pub decoder: Codec,
    pub transport: TransportView,
}

impl SourceView {
    /// Whether the length of the file is the time that its frames come to.
    pub open spec fn measured(self) -> bool {
        self.duration == ticks_nanos(self.numer, self.denom, self.frames)
    }

    /// The time of the packet read last; that of tick 0, which is no time at
    /// all, before the first.
    pub open spec fn position(self) -> nat {
        ticks_nanos(self.numer, self.denom, self.transport.ts)
    }

    /// Whether `other` is a state of the same session: the layout is the
    /// same.
    pub open spec fn same_track(self, other: SourceView) -> bool {
        &&& self.channels == other.channels
        &&& self.sample_rate == other.sample_rate
        &&& self.numer == other.numer
        &&& self.denom == other.denom
        &&& self.frames == other.frames
        &&& self.duration == other.duration
    }

    /// Whether this is a session just opened on a track of `layout`: it has
    /// that layout, its length is the time that its frames come to, and it
    /// plays from the start with nothing decoded.
    pub open spec fn opened_on(self, layout: Layout) -> bool {
        &&& self.channels == layout.channels
        &&& self.sample_rate == layout.sample_rate
        &&& self.numer == layout.numer
        &&& self.denom == layout.denom
        &&& self.frames == layout.frames
        &&& self.numer > 0
        &&& self.denom > 0
        &&& self.measured()
        &&& self.transport == TransportView::fresh()
    }

    /// Whether the reader and the decoder are those that the file whose
    /// content is `bytes` gives, untouched.
    pub open spec fn reads(self, bytes: Seq<u8>) -> bool {
        &&& probe_of(bytes) == Some(self.reader)
        &&& default_params_of(self.reader) matches Some(params)
        &&& decoder_of(params) == Some(self.decoder)
    }

    /// What the session's next packet decodes to.
    pub open spec fn fetched(self) -> FetchedView {
        fetch_spec(self.reader, self.decoder).0
    }

    /// The session after its next packet was read and decoded. The playhead
    /// is as it was.
    pub open spec fn after_fetch(self) -> SourceView {
        SourceView {
            reader: fetch_spec(self.reader, self.decoder).1,
            decoder: fetch_spec(self.reader, self.decoder).2,
            ..self
        }
    }

    /// The session as the next slot is about to be filled: a starved one has
    /// read and decoded its next packet and taken it in; any other is as it
    /// was.
    pub open spec fn refilled(self) -> SourceView {
        if self.transport.starved() {
            SourceView { transport: self.transport.load(self.fetched()), ..self.after_fetch() }
        } else {
            self
        }
    }

    /// The sample that the next slot gets.
    pub open spec fn slot_sample(self) -> i32 {
        self.refilled().transport.sample()
    }

    /// The session after the next slot was filled.
    pub open spec fn slot(self) -> SourceView {
        SourceView { transport: self.refilled().transport.advance(), ..self.refilled() }
    }

    /// The session after `n` slots were filled.
    pub open spec fn streamed(self, n: nat) -> SourceView
        decreases n,
    {
        if n == 0 {
            self
        } else {
            self.streamed((n - 1) as nat).slot()
        }
    }

    /// The samples that filling `n` slots writes.
    pub open spec fn output(self, n: nat) -> Seq<i32>
        decreases n,
    {
        if n == 0 {
            Seq::empty()
        } else {
            self.output((n - 1) as nat).push(self.streamed((n - 1) as nat).slot_sample())
        }
    }

    /// The session after a seek to `target`, in nanoseconds: the backlog is
    /// dropped and the reader is asked for `seek_point_spec(target,
    /// duration)`. Where it accepts, the packet found there is read, decoded
    /// and taken in; where it refuses, the session ends with a fault.
    pub open spec fn sought(self, target: nat) -> SourceView {
        let point = seek_point_spec(target, self.duration);
        let secs = (point / (NANOS_PER_SEC as nat)) as u64;
        let nanos = (point % (NANOS_PER_SEC as nat)) as u32;
        let moved = SourceView {
            reader: sought_of(self.reader, secs, nanos).1,
            transport: self.transport.cleared(),
            ..self
        };
        if sought_of(self.reader, secs, nanos).0 {
            SourceView { transport: moved.transport.load(moved.fetched()), ..moved.after_fetch() }
        } else {
            SourceView { transport: moved.transport.failed(), ..moved }
        }
    }
}

/// Whether `opened` is what opening a file gives when probing it comes to
/// `probed`: a session on the layout that the outcome gives, or the error
/// that it ends in.
pub open spec fn opens(probed: Probed, opened: Result<Source, OpenError>) -> bool {
    match probed.verdict_spec() {
        Ok(layout) => opened matches Ok(session) && session@.opened_on(layout),
        Err(error) => opened matches Err(e) && e == error,
    }
}

/// A decode session.
pub struct Source {
    reader: symphonia::core::probe::ProbeResult,
    decoder: Codec,
    channels: u8,
    sample_rate: u32,
    rate: TickRate,
    frames: u64,
    dur: Span,
    transport: Transport,
}

impl View for Source {
    type V = SourceView;

    closed spec fn view(&self) -> SourceView {
        SourceView {
            channels: self.channels,
            sample_rate: self.sample_rate,
            numer: self.rate.numer(),
            denom: self.rate.denom(),
            frames: self.frames,
            duration: self.dur@,
            reader: self.reader,
            decoder: self.decoder,
            transport: self.transport@,
        }
    }
}

impl Source {
    /// Opens the audio file whose content is `bytes`. Bytes that do not pass
    /// the screen are refused. The others are probed for a container; its
    /// default track is taken, a decoder is made for it and the track's
    /// layout is read. The result is what `Probed::verdict` gives for what
    /// probing these bytes comes to. A session that comes back holds the
    /// reader and the decoder of these bytes and plays from the start, with
    /// nothing decoded yet; its time base has no zero in it, and its length
    /// is the time that its frames come to.
    pub fn new(bytes: Vec<u8>) -> (r: Result<Source, OpenError>)
        ensures
            opens(probed_of(bytes@), r),
            r matches Ok(s) ==> s@.reads(bytes@),
    {
        match screen(&bytes) {
            Some(error) => {
                return Err(error);
            },
            None => {},
        }
        let reader = match open_reader(bytes) {
            Ok(reader) => reader,
            Err(_) => {
                return Err(OpenError::Unrecognized);
            },
        };
        let params = match default_track_params(&reader) {
            Some(params) => params,
            None => {
                return Err(OpenError::NoTrack);
            },
        };
        let decoder = match make_decoder(&params) {
            Ok(decoder) => decoder,
            Err(_) => {
                return Err(OpenError::NoDecoder);
            },
        };
        let layout = match track_facts(&params).layout() {
            Ok(layout) => layout,
            Err(e) => {
                return Err(e);
            },
        };
        let rate = match TickRate::new(layout.numer, layout.denom) {
            Some(rate) => rate,
            None => {
                return Err(OpenError::NoTimeBase);
            },
        };
        let dur = rate.span(layout.frames);
        Ok(
            Source {
                reader,
                decoder,
                channels: layout.channels,
                sample_rate: layout.sample_rate,
                rate,
                frames: layout.frames,
                dur,
                transport: Transport::new(),
            },
        )
    }

    /// Opens an audio file from what reading it gave: its content, or `None`
    /// where it could not be read, which is the error `Unreadable`. A file
    /// that was read is opened as `new` opens it.
    pub fn open(read: Option<Vec<u8>>) -> (r: Result<Source, OpenError>)
        ensures
            match read {
                Some(bytes) => opens(probed_of(bytes@), r) && (r matches Ok(s) ==> s@.reads(bytes@)),
                None => r matches Err(e) && e == OpenError::Unreadable,
            },
    {
        match read {
            Some(bytes) => Source::new(bytes),
            None => Err(OpenError::Unreadable),
        }
    }

    /// The number of channels.
    pub fn channels(&self) -> (n: u8)
        ensures
            n == self@.channels,
    {
        self.channels
    }

    /// The sample rate in Hz.
    pub fn sample_rate(&self) -> (n: u32)
        ensures
            n == self@.sample_rate,
    {
        self.sample_rate
    }

    /// The length of the file, as computed when it was opened.
    pub fn duration(&self) -> (d: Span)
        ensures
            d@ == self@.duration,
    {
        self.dur
    }

    /// The time of the packet read last; no time at all before the first
    /// packet.
    pub fn position(&self) -> (p: Span)
        ensures
            p@ == self@.position(),
            self@.transport.ts == 0 ==> p@ == 0,
    {
        self.rate.span(self.transport.ts())
    }

    /// Whether the session has ended: the decoder was asked for a packet
    /// and had none, or it gave one that could not be decoded, or a seek was
    /// refused. The last two are faults.
    pub fn ended(&self) -> (b: bool)
        ensures
            b == self@.transport.ended,
    {
        self.transport.ended()
    }

    /// Whether the session is paused.
    pub fn paused(&self) -> (b: bool)
        ensures
            b == self@.transport.paused,
    {
        self.transport.paused()
    }

    /// Whether the session ended on a fault: a packet that could not be
    /// decoded, or a seek that the reader refused.
    pub fn faulted(&self) -> (b: bool)
        ensures
            b == self@.transport.faulted,
    {
        self.transport.faulted()
    }

    /// Sets the pause flag. Nothing else changes.
    pub fn set_pause(&mut self, pause: bool)
        ensures
            final(self)@ == (SourceView {
                transport: old(self)@.transport.with_pause(pause),
                ..old(self)@
            }),
    {
        self.transport.set_pause(pause);
    }

    /// Asks the reader for the next packet and the decoder for its samples:
    /// the result is what the packet decodes to, the end of the stream where
    /// there is no packet, or a corrupt packet where the decoder refuses it.
    /// The reader and the decoder move on; the playhead is not touched.
    fn fetch(&mut self) -> (fetched: Fetched)
        ensures
            fetched@ == old(self)@.fetched(),
            final(self)@ == old(self)@.after_fetch(),
    {
        match next_packet(&mut self.reader) {
            Err(_) => Fetched::End,
            Ok(packet) => {
                let ts = packet_ticks(&packet);
                match decode(&mut self.decoder, &packet) {
                    Ok(samples) => Fetched::Packet { ts, samples },
                    Err(_) => Fetched::Corrupt { ts },
                }
            },
        }
    }

    /// Moves the session to `pos`: drops the backlog, asks the reader to seek
    /// to `seek_point(pos, duration)`, and takes in the first packet found
    /// there, so that `position` tells the new place at once. A seek that
    /// the reader refuses ends the session with a fault. The pause flag and
    /// an end reached earlier stay. The result is the place that the reader
    /// was asked for.
    pub fn set_position(&mut self, pos: Span) -> (asked: Span)
        ensures
            asked@ == seek_point_spec(pos@, old(self)@.duration),
            final(self)@ == old(self)@.sought(pos@),
    {
        self.transport.clear();
        let point = seek_point(pos, self.dur);
        match seek_coarse(&mut self.reader, point.secs(), point.subsec_nanos()) {
            Ok(_) => {
                let fetched = self.fetch();
                self.transport.load(fetched);
            },
            Err(_) => {
                self.transport.fail();
            },
        }
        point
    }

    /// Fills every slot of `data`. A paused or ended session writes silence
    /// and does not change. A playing one hands out its backlog sample by
    /// sample; each time the backlog is empty it reads and decodes one more
    /// packet, and writes silence from the slot on at which none remains or
    /// one cannot be decoded.
    pub fn stream(&mut self, data: &mut [i32])
        ensures
            final(data)@.len() == old(data)@.len(),
            final(self)@ == old(self)@.streamed(old(data)@.len()),
            final(data)@ == old(self)@.output(old(data)@.len()),
            old(self)@.transport.paused || old(self)@.transport.ended ==> {
                &&& final(self)@ == old(self)@
                &&& forall|i: int| 0 <= i < final(data)@.len() ==> final(data)@[i] == 0
            },
    {
        let ghost before = self@;
        let n = data.len();
        let mut i: usize = 0;
        while i < n
            invariant
                i <= n,
                data@.len() == n,
                self@ == before.streamed(i as nat),
                data@.subrange(0, i as int) == before.output(i as nat),
            decreases n - i,
        {
            if self.transport.starved() {
                let fetched = self.fetch();
                self.transport.load(fetched);
            }
            let sample = self.transport.emit();
            data[i] = sample;
            proof {
                assert(data@.subrange(0, i + 1) == data@.subrange(0, i as int).push(sample));
            }
            i += 1;
        }
        proof {
            assert(data@.subrange(0, n as int) == data@);
            if before.transport.paused || before.transport.ended {
                lemma_idle_stream(before, n as nat);
            }
        }
    }
}

/// A paused or ended session stays as it is however many slots are filled:
/// no packet is read, and every slot gets silence.
pub proof fn lemma_idle_stream(s: SourceView, n: nat)
    requires
        s.transport.paused || s.transport.ended,
    ensures
        s.streamed(n) == s,
        s.output(n).len() == n,
        forall|i: int| 0 <= i < n ==> s.output(n)[i] == 0,
    decreases n,
{
    if n > 0 {
        lemma_idle_stream(s, (n - 1) as nat);
    }
}

/// While a session is paused, filling slots never moves its position, however
/// often it is done: the session after any number of slots is the session
/// before.
pub proof fn lemma_paused_stream_holds_position(s: SourceView, n: nat)
    requires
        s.transport.paused,
    ensures
        s.streamed(n) == s,
        s.streamed(n).position() == s.position(),
        s.streamed(n).transport.paused,
{
    lemma_idle_stream(s, n);
}

/// Filling slots writes one sample per slot and keeps the track's layout and
/// the pause flag; it never takes back the end of the session or a fault.
pub proof fn lemma_stream_keeps_track(s: SourceView, n: nat)
    ensures
        s.output(n).len() == n,
        s.streamed(n).same_track(s),
        s.streamed(n).transport.paused == s.transport.paused,
        s.transport.ended ==> s.streamed(n).transport.ended,
        s.transport.faulted ==> s.streamed(n).transport.faulted,
    decreases n,
{
    if n > 0 {
        lemma_stream_keeps_track(s, (n - 1) as nat);
    }
}

/// Once the session has ended, every further slot is silent and nothing
/// changes any more: a call that meets the end of the stream part way writes
/// silence from there on.
pub proof fn lemma_silence_after_the_end(s: SourceView, first: nat, second: nat)
    requires
        s.streamed(first).transport.ended,
    ensures
        s.streamed(first + second) == s.streamed(first),
        ({
            let out = s.output(first + second);
            &&& out.len() == first + second
            &&& forall|i: int| first <= i < first + second ==> out[i] == 0
        }),
{
    lemma_stream_in_rounds(s, first, second);
    lemma_idle_stream(s.streamed(first), second);
    lemma_stream_keeps_track(s, first);
    let out = s.output(first + second);
    assert forall|i: int| first <= i < first + second implies out[i] == 0 by {
        assert(out[i] == s.streamed(first).output(second)[i - first]);
    }
}

/// Filling slots in two calls is the same as filling them in one.
pub proof fn lemma_stream_in_rounds(s: SourceView, first: nat, second: nat)
    ensures
        s.streamed(first + second) == s.streamed(first).streamed(second),
        s.output(first + second) == s.output(first) + s.streamed(first).output(second),
    decreases second,
{
    if second > 0 {
        lemma_stream_in_rounds(s, first, (second - 1) as nat);
        assert(s.output(first + second) == (s.output(first) + s.streamed(first).output(
            (second - 1) as nat,
        )).push(s.streamed(first).streamed((second - 1) as nat).slot_sample()));
    }
}

/// After a seek to a target that, cut to the length of the file, is at least
/// a tenth of a second: if the reader lands on the packet that holds the
/// place asked for, so that the position afterwards is at or before that
/// place and less than `packet_len` before it, then the position is at or
/// before the target cut to the file, and less than `packet_len` and one
/// millisecond before it.
pub proof fn lemma_seek_round_trip(s: SourceView, target: nat, packet_len: nat)
    requires
        ({
            let clamped = if target <= s.duration { target } else { s.duration };
            let point = seek_point_spec(target, s.duration);
            &&& clamped >= seek_floor()
            &&& s.sought(target).position() <= point < s.sought(target).position() + packet_len
        }),
    ensures
        ({
            let clamped = if target <= s.duration { target } else { s.duration };
            let position = s.sought(target).position();
            position <= clamped < position + packet_len + NANOS_PER_MILLI
        }),
{
    lemma_seek_point_is_near(target, s.duration);
}

/// A seek keeps the track's layout and the pause flag, and a seek beyond the
/// length of the file is the seek to its length.
pub proof fn lemma_seek_is_clamped(s: SourceView, target: nat)
    ensures
        s.sought(target).same_track(s),
        s.sought(target).transport.paused == s.transport.paused,
        target >= s.duration ==> s.sought(target) == s.sought(s.duration),
{
}

} // verus!
