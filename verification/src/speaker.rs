//! The output endpoint as the device callback sees it: the format that the
//! device stream is bound to, the one-shot end-of-track notification, and
//! the slot through which the actor hands over the next session.
//!
//! The device stream itself belongs to the program. On every callback it
//! empties the slot, calls `accept` with what was in it, and then calls
//! `render` with the session it holds.

use vstd::prelude::*;
use crate::source::Source;

verus! {

/// A slot for one item. What is put in replaces what was there: whoever
/// takes from the slot gets the item put in last, once.
pub struct Handoff<T> {
    slot: Option<T>,
}

impl<T> View for Handoff<T> {
    type V = Option<T>;

    closed spec fn view(&self) -> Option<T> {
        self.slot
    }
}

impl<T> Handoff<T> {
    /// An empty slot.
    pub fn new() -> (h: Handoff<T>)
        ensures
            h@.is_none(),
    {
        Handoff { slot: None }
    }

    /// Puts `item` into the slot, in place of whatever was there.
    pub fn publish(&mut self, item: T)
        ensures
            final(self)@ == Some(item),
    {
        self.slot = Some(item);
    }

    /// Empties the slot and returns what was in it.
    pub fn take(&mut self) -> (item: Option<T>)
        ensures
            item == old(self)@,
            final(self)@.is_none(),
    {
        self.slot.take()
    }
}

/// The endpoint as a mathematical value.
pub struct SpeakerView {
    pub channels: u8,
    pub sample_rate: u32,
    pub armed: bool,
}

impl SpeakerView {
    /// The endpoint after it adopted a session: the notification is armed.
    pub open spec fn adopt(self) -> SpeakerView {
        SpeakerView { armed: true, ..self }
    }

    /// Whether a callback that leaves its session with `ended` notifies the
    /// actor of the end of the track.
    pub open spec fn fires(self, ended: bool) -> bool {
        self.armed && ended
    }

    /// The endpoint after a callback that left its session with `ended`: a
    /// notification that fired is disarmed.
    pub open spec fn settle(self, ended: bool) -> SpeakerView {
        SpeakerView { armed: self.armed && !ended, ..self }
    }
}

/// The callback's side of an output endpoint.
#[derive(Debug)]
pub struct Speaker {
    channels: u8,
    sample_rate: u32,
    armed: bool,
}

impl View for Speaker {
    type V = SpeakerView;

    closed spec fn view(&self) -> SpeakerView {
        SpeakerView { channels: self.channels, sample_rate: self.sample_rate, armed: self.armed }
    }
}

impl Speaker {
    /// An endpoint bound to `channels` channels at `sample_rate` Hz, with no
    /// session and the notification disarmed.
    pub fn new(channels: u8, sample_rate: u32) -> (s: Speaker)
        ensures
            s@ == (SpeakerView { channels, sample_rate, armed: false }),
    {
        Speaker { channels, sample_rate, armed: false }
    }

    /// The number of channels that the endpoint is bound to.
    pub fn channels(&self) -> (n: u8)
        ensures
            n == self@.channels,
    {
        self.channels
    }

    /// The sample rate that the endpoint is bound to.
    pub fn sample_rate(&self) -> (n: u32)
        ensures
            n == self@.sample_rate,
    {
        self.sample_rate
    }

    /// Whether the end of the track has still to be notified.
    pub fn armed(&self) -> (b: bool)
        ensures
            b == self@.armed,
    {
        self.armed
    }

    /// Notes that the callback adopted the session that was handed over:
    /// the notification is armed again.
    pub fn adopt(&mut self)
        ensures
            final(self)@ == old(self)@.adopt(),
    {
        self.armed = false;
        self.armed = true;
    }

    /// The start of a device callback: what was taken from the handoff slot
    /// is `pending`. A session that was handed over becomes the active one,
    /// in place of the one before, and the notification is armed again.
    /// With nothing handed over, nothing changes.
    pub fn accept<T>(&mut self, active: &mut Option<T>, pending: Option<T>)
        ensures
            pending.is_some() ==> *final(active) == pending && final(self)@ == old(self)@.adopt(),
            pending.is_none() ==> *final(active) == *old(active) && final(self)@ == old(self)@,
    {
        if pending.is_some() {
            *active = pending;
            self.adopt();
        }
    }

    /// One device callback. With a session, the session fills `data` as
    /// `Source::stream` does; if the
    /// notification is armed and the session has ended, the callback fires
    /// it, once: the result is `true` and the notification is disarmed.
    /// Without a session every slot gets silence and nothing fires.
    pub fn render(&mut self, session: Option<&mut Source>, data: &mut [i32]) -> (fire: bool)
        ensures
            final(data)@.len() == old(data)@.len(),
            final(self)@.channels == old(self)@.channels,
            final(self)@.sample_rate == old(self)@.sample_rate,
            match session {
                Some(s) => {
                    &&& final(s)@ == s@.streamed(old(data)@.len())
                    &&& final(data)@ == s@.output(old(data)@.len())
                    &&& s@.transport.paused || s@.transport.ended ==> {
                        &&& final(s)@ == s@
                        &&& forall|i: int| 0 <= i < final(data)@.len() ==> final(data)@[i] == 0
                    }
                    &&& fire == old(self)@.fires(final(s)@.transport.ended)
                    &&& final(self)@ == old(self)@.settle(final(s)@.transport.ended)
                },
                None => {
                    &&& forall|i: int| 0 <= i < final(data)@.len() ==> final(data)@[i] == 0
                    &&& !fire
                    &&& final(self)@ == old(self)@
                },
            },
    {
        match session {
            Some(s) => {
                s.stream(data);
                if self.armed && s.ended() {
                    self.armed = false;
                    true
                } else {
                    false
                }
            },
            None => {
                silence(data);
                false
            },
        }
    }
}

/// Fills every slot of `data` with silence.
pub fn silence(data: &mut [i32])
    ensures
        final(data)@.len() == old(data)@.len(),
        forall|i: int| 0 <= i < final(data)@.len() ==> final(data)@[i] == 0,
{
    let n = data.len();
    let mut i: usize = 0;
    while i < n
        invariant
            i <= n,
            data@.len() == n,
            forall|j: int| 0 <= j < i ==> data@[j] == 0,
        decreases n - i,
    {
        data[i] = 0;
        i += 1;
    }
}

/// A notification fires once for each session that was adopted: after it has
/// fired, no callback fires it again until another session is adopted,
/// whether the session in place has ended or not.
pub proof fn lemma_notification_fires_once(s: SpeakerView, first: bool, later: bool)
    requires
        s.fires(first),
    ensures
        !s.settle(first).fires(later),
        !s.settle(first).settle(later).armed,
        s.settle(first).adopt().fires(later) == later,
{
}

/// A notification that did not fire stays as it was: an armed endpoint whose
/// session has not ended stays armed.
pub proof fn lemma_notification_waits(s: SpeakerView, ended: bool)
    requires
        !s.fires(ended),
    ensures
        s.settle(ended) == s,
{
}

} // verus!
