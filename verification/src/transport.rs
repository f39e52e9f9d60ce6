//! The playhead of a decode session: pause and end flags, the timestamp of
//! the packet read last, and the backlog of decoded samples that have not
//! been played yet.
//!
//! Nothing here touches a file or a decoder. Whoever owns the playhead asks
//! it whether it needs a packet, hands it what the decoder gave, and takes
//! samples out one at a time.

use vstd::prelude::*;

verus! {

/// What came back when the session asked its decoder for another packet.
#[derive(Debug, Clone, PartialEq, Eq)]
pub enum Fetched {
    /// A packet with its timestamp in ticks and its samples, interleaved.
    Packet { ts: u64, samples: Vec<i32> },
    /// No packet remains.
    End,
    /// A packet was read at `ts` and could not be decoded.
    Corrupt { ts: u64 },
}

/// What came back from the decoder, as a mathematical value.
pub enum FetchedView {
    Packet { ts: u64, samples: Seq<i32> },
    End,
    Corrupt { ts: u64 },
}

impl View for Fetched {
    type V = FetchedView;

    open spec fn view(&self) -> FetchedView {
        match *self {
            Fetched::Packet { ts, samples } => FetchedView::Packet { ts, samples: samples@ },
            Fetched::End => FetchedView::End,
            Fetched::Corrupt { ts } => FetchedView::Corrupt { ts },
        }
    }
}

/// The playhead as a mathematical value.
#[verifier::ext_equal]
pub struct TransportView {
    pub paused: bool,
    pub ended: bool,
    pub faulted: bool,
    pub ts: u64,
    pub backlog: Seq<i32>,
}

impl TransportView {
    /// The playhead of a session that was just opened.
    pub open spec fn fresh() -> TransportView {
        TransportView { paused: false, ended: false, faulted: false, ts: 0, backlog: Seq::empty() }
    }

    /// Whether the next sample can only come from a packet that has not been
    /// read yet.
    pub open spec fn starved(self) -> bool {
        !self.paused && !self.ended && self.backlog.len() == 0
    }

    /// Whether the next slot gets silence.
    pub open spec fn silent(self) -> bool {
        self.paused || self.ended || self.backlog.len() == 0
    }

    /// The same playhead with the pause flag set to `paused`.
    pub open spec fn with_pause(self, paused: bool) -> TransportView {
        TransportView { paused, ..self }
    }

    /// The same playhead without its backlog.
    pub open spec fn cleared(self) -> TransportView {
        TransportView { backlog: Seq::empty(), ..self }
    }

    /// The same playhead, ended by a fault.
    pub open spec fn failed(self) -> TransportView {
        TransportView { ended: true, faulted: true, ..self }
    }

    /// The playhead after it was handed `fetched`: a packet moves the
    /// timestamp and lengthens the backlog, the end of the stream ends the
    /// session, and a corrupt packet moves the timestamp and ends the session
    /// with a fault.
    pub open spec fn load(self, fetched: FetchedView) -> TransportView {
        match fetched {
            FetchedView::Packet { ts, samples } => TransportView {
                ts,
                backlog: self.backlog + samples,
                ..self
            },
            FetchedView::End => TransportView { ended: true, ..self },
            FetchedView::Corrupt { ts } => TransportView { ts, ended: true, faulted: true, ..self },
        }
    }

    /// The sample for the next slot: the first of the backlog, or silence.
    pub open spec fn sample(self) -> i32 {
        if self.silent() {
            0
        } else {
            self.backlog[0]
        }
    }

    /// The playhead after the next slot was filled.
    pub open spec fn advance(self) -> TransportView {
        if self.silent() {
            self
        } else {
            TransportView { backlog: self.backlog.drop_first(), ..self }
        }
    }
}

/// The playhead.
#[derive(Debug)]
pub struct Transport {
    pause: bool,
    end: bool,
    fault: bool,
    ts: u64,
    buf: Vec<i32>,
}

impl View for Transport {
    type V = TransportView;

    closed spec fn view(&self) -> TransportView {
        TransportView {
            paused: self.pause,
            ended: self.end,
            faulted: self.fault,
            ts: self.ts,
            backlog: self.buf@,
        }
    }
}

impl Transport {
    /// The playhead of a session that was just opened: playing, not ended,
    /// at tick 0, with nothing decoded.
    pub fn new() -> (t: Transport)
        ensures
            t@ == TransportView::fresh(),
    {
        Transport { pause: false, end: false, fault: false, ts: 0, buf: Vec::new() }
    }

    /// Whether the session is paused.
    pub fn paused(&self) -> (b: bool)
        ensures
            b == self@.paused,
    {
        self.pause
    }

    /// Whether the session has ended: the decoder was asked for a packet
    /// and had none, or it gave one that could not be decoded, or a seek was
    /// refused. The last two are faults.
    pub fn ended(&self) -> (b: bool)
        ensures
            b == self@.ended,
    {
        self.end
    }

    /// Whether the session ended on a fault: a packet that could not be
    /// decoded, or a seek that was refused.
    pub fn faulted(&self) -> (b: bool)
        ensures
            b == self@.faulted,
    {
        self.fault
    }

    /// The timestamp, in ticks, of the packet read last; 0 before the first.
    pub fn ts(&self) -> (ts: u64)
        ensures
            ts == self@.ts,
    {
        self.ts
    }

    /// How many decoded samples wait to be played.
    pub fn backlog_len(&self) -> (n: usize)
        ensures
            n == self@.backlog.len(),
    {
        self.buf.len()
    }

    /// Sets the pause flag. Nothing else changes.
    pub fn set_pause(&mut self, pause: bool)
        ensures
            final(self)@ == old(self)@.with_pause(pause),
    {
        self.pause = pause;
    }

    /// Drops the backlog. Nothing else changes.
    pub fn clear(&mut self)
        ensures
            final(self)@ == old(self)@.cleared(),
    {
        self.buf.clear();
    }

    /// Ends the session with a fault.
    pub fn fail(&mut self)
        ensures
            final(self)@ == old(self)@.failed(),
    {
        self.end = true;
        self.fault = true;
    }

    /// Whether the next sample can only come from a packet that has not been
    /// read yet: the session plays, has not ended, and the backlog is empty.
    pub fn starved(&self) -> (b: bool)
        ensures
            b == self@.starved(),
    {
        !self.pause && !self.end && self.buf.len() == 0
    }

    /// Takes in what the decoder gave.
    pub fn load(&mut self, fetched: Fetched)
        ensures
            final(self)@ == old(self)@.load(fetched@),
    {
        match fetched {
            Fetched::Packet { ts, samples } => {
                let mut samples = samples;
                self.ts = ts;
                self.buf.append(&mut samples);
            },
            Fetched::End => {
                self.end = true;
            },
            Fetched::Corrupt { ts } => {
                self.ts = ts;
                self.end = true;
                self.fault = true;
            },
        }
    }

    /// The sample for the next slot. Paused, ended or with an empty backlog
    /// that is silence and nothing changes; else it is the first sample of
    /// the backlog, which leaves the backlog.
    pub fn emit(&mut self) -> (sample: i32)
        ensures
            sample == old(self)@.sample(),
            final(self)@ == old(self)@.advance(),
    {
        if self.pause || self.end || self.buf.len() == 0 {
            0
        } else {
            self.buf.remove(0)
        }
    }
}

} // verus!
