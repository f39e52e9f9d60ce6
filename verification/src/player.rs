//! The playback actor's decisions.
//!
//! The actor owns the queue and knows which format its output endpoint is
//! bound to and whether a session is current. It takes one command at a time
//! and answers with the one thing the program has to do for it: open a file,
//! silence the endpoint, pass something on to the current session, send a
//! reply, or stop. The program runs the loop, the device and the session's
//! lock; it decides nothing.

use vstd::prelude::*;
use crate::queue::{Queue, QueueView};
use crate::song::Song;
use crate::source::{OpenError, Source, SourceView};
use crate::time::Span;

verus! {

/// The channel count of the endpoint that the actor starts with.
pub const DEFAULT_CHANNELS: u8 = 2;

/// The sample rate, in Hz, of the endpoint that the actor starts with.
pub const DEFAULT_SAMPLE_RATE: u32 = 48_000;

/// A command to the actor. `Pause`, `Duration`, `Position`, `Queue` and `Now`
/// are queries: each is answered with one reply.
#[derive(Debug, Clone, PartialEq, Eq)]
pub enum Cmd {
    Play,
    Push(Song),
    Next,
    Prev,
    Index(usize),
    Delete(usize),
    Pause,
    SetPause(bool),
    Duration,
    Position,
    SetPosition(Span),
    Queue,
    Ended,
    Now,
    Die,
}

/// A reply to a query.
#[derive(Debug, Clone, PartialEq, Eq)]
pub enum Rpl {
    Is(bool),
    Time(Span),
    Queue(Queue),
    Now(Option<(u32, String)>),
}

/// A reply as a mathematical value; a time is in nanoseconds.
pub enum RplView {
    Is(bool),
    Time(nat),
    Queue(QueueView),
    Now(Option<(u32, String)>),
}

impl View for Rpl {
    type V = RplView;

    open spec fn view(&self) -> RplView {
        match *self {
            Rpl::Is(b) => RplView::Is(b),
            Rpl::Time(t) => RplView::Time(t@),
            Rpl::Queue(q) => RplView::Queue(q@),
            Rpl::Now(now) => RplView::Now(now),
        }
    }
}

/// What the program has to do after a command.
#[derive(Debug, Clone, PartialEq, Eq)]
pub enum Act {
    /// Nothing.
    Rest,
    /// Open the file at this path as a session, report the outcome with
    /// `Player::adopt`, and take the steps that `Player::steps` lists.
    Open(String),
    /// Replace the endpoint by a fresh one with nothing installed: take the
    /// steps that `Player::silence` lists.
    Silence,
    /// Set the current session's pause flag.
    SetPause(bool),
    /// Move the current session to this position.
    Seek(Span),
    /// Reply whether the current session is paused.
    AskPaused,
    /// Reply with the current session's duration.
    AskDuration,
    /// Reply with the current session's position.
    AskPosition,
    /// Send this reply.
    Reply(Rpl),
    /// Leave the loop.
    Stop,
}

/// An action as a mathematical value; a time is in nanoseconds.
pub enum ActView {
    Rest,
    Open(String),
    Silence,
    SetPause(bool),
    Seek(nat),
    AskPaused,
    AskDuration,
    AskPosition,
    Reply(RplView),
    Stop,
}

impl View for Act {
    type V = ActView;

    open spec fn view(&self) -> ActView {
        match *self {
            Act::Rest => ActView::Rest,
            Act::Open(path) => ActView::Open(path),
            Act::Silence => ActView::Silence,
            Act::SetPause(b) => ActView::SetPause(b),
            Act::Seek(t) => ActView::Seek(t@),
            Act::AskPaused => ActView::AskPaused,
            Act::AskDuration => ActView::AskDuration,
            Act::AskPosition => ActView::AskPosition,
            Act::Reply(r) => ActView::Reply(r@),
            Act::Stop => ActView::Stop,
        }
    }
}

/// What the program does with an opened session.
#[derive(Debug, Clone, Copy, PartialEq, Eq)]
pub enum Install {
    /// The file could not be opened: nothing changes, and whatever plays
    /// goes on playing.
    Keep,
    /// Install the session into the endpoint as it is.
    Same,
    /// Stop the endpoint, start one bound to the session's format, and
    /// install the session into that.
    Rebuild,
}

/// One thing to do to the output device.
#[derive(Debug, Clone, Copy, PartialEq, Eq)]
pub enum Step {
    /// Stop the device stream of the endpoint in place and drop the endpoint.
    Stop,
    /// Start an endpoint bound to this format, with nothing installed.
    Start { channels: u8, sample_rate: u32 },
    /// Hand the session that was opened to the endpoint in place.
    Install,
}

/// The number of device streams that run after `step`, if `live` ran before.
pub open spec fn live_after_step(live: int, step: Step) -> int {
    match step {
        Step::Stop => if live > 0 {
            live - 1
        } else {
            0
        },
        Step::Start { .. } => live + 1,
        Step::Install => live,
    }
}

/// The number of device streams that run after `steps`, if `live` ran before.
pub open spec fn live_after(live: int, steps: Seq<Step>) -> int
    decreases steps.len(),
{
    if steps.len() == 0 {
        live
    } else {
        live_after(live_after_step(live, steps[0]), steps.drop_first())
    }
}

/// The largest number of device streams that run at any one time while
/// `steps` are taken, if `live` ran before.
pub open spec fn live_peak(live: int, steps: Seq<Step>) -> int
    decreases steps.len(),
{
    if steps.len() == 0 {
        live
    } else {
        let later = live_peak(live_after_step(live, steps[0]), steps.drop_first());
        if live >= later {
            live
        } else {
            later
        }
    }
}

/// Whether every `Install` among `steps` finds a device stream running, if
/// `live` ran before.
pub open spec fn installs_find_stream(live: int, steps: Seq<Step>) -> bool
    decreases steps.len(),
{
    steps.len() == 0 || ((steps[0] == Step::Install ==> live >= 1) && installs_find_stream(
        live_after_step(live, steps[0]),
        steps.drop_first(),
    ))
}

/// The actor as a mathematical value.
#[verifier::ext_equal]
pub struct PlayerView {
    pub queue: QueueView,
    pub channels: u8,
    pub sample_rate: u32,
    pub session: bool,
    pub alive: bool,
}

impl PlayerView {
    /// The actor at its start: an empty queue, the default endpoint, no
    /// session.
    pub open spec fn start() -> PlayerView {
        PlayerView {
            queue: QueueView::empty(),
            channels: DEFAULT_CHANNELS,
            sample_rate: DEFAULT_SAMPLE_RATE,
            session: false,
            alive: true,
        }
    }

    /// The same actor with another queue.
    pub open spec fn with_queue(self, queue: QueueView) -> PlayerView {
        PlayerView { queue, ..self }
    }

    /// What `Play` asks for: the current item's file, or silence where no
    /// item is current.
    pub open spec fn resolve(self) -> ActView {
        match self.queue.now() {
            Some(item) => ActView::Open(item.1),
            None => ActView::Silence,
        }
    }

    /// What is passed on to the current session; nothing without one.
    pub open spec fn forward(self, act: ActView) -> ActView {
        if self.session {
            act
        } else {
            ActView::Rest
        }
    }

    /// What answers a query about the current session: the question passed
    /// on, or `fallback` at once where there is no session.
    pub open spec fn ask(self, question: ActView, fallback: RplView) -> ActView {
        if self.session {
            question
        } else {
            ActView::Reply(fallback)
        }
    }

    /// The actor after `cmd`.
    pub open spec fn step(self, cmd: Cmd) -> PlayerView {
        if !self.alive {
            self
        } else {
            match cmd {
                Cmd::Push(song) => self.with_queue(self.queue.push((song.song_id, song.file))),
                Cmd::Next => self.with_queue(self.queue.next()),
                Cmd::Prev => self.with_queue(self.queue.prev()),
                Cmd::Index(index) => self.with_queue(self.queue.set_index(index)),
                Cmd::Delete(index) => self.with_queue(self.queue.delete(index)),
                Cmd::Ended => self.with_queue(self.queue.remove()),
                Cmd::Die => PlayerView { alive: false, ..self },
                _ => self,
            }
        }
    }

    /// What the program has to do after `cmd`.
    pub open spec fn act(self, cmd: Cmd) -> ActView {
        if !self.alive {
            ActView::Stop
        } else {
            match cmd {
                Cmd::Play => self.resolve(),
                Cmd::Push(_) => ActView::Rest,
                Cmd::Next => self.step(cmd).resolve(),
                Cmd::Prev => self.step(cmd).resolve(),
                Cmd::Index(_) => ActView::Rest,
                Cmd::Delete(index) => if index == self.queue.index {
                    self.step(cmd).resolve()
                } else {
                    ActView::Rest
                },
                Cmd::Pause => self.ask(ActView::AskPaused, RplView::Is(false)),
                Cmd::SetPause(pause) => self.forward(ActView::SetPause(pause)),
                Cmd::Duration => self.ask(ActView::AskDuration, RplView::Time(0)),
                Cmd::Position => self.ask(ActView::AskPosition, RplView::Time(0)),
                Cmd::SetPosition(pos) => self.forward(ActView::Seek(pos@)),
                Cmd::Queue => ActView::Reply(RplView::Queue(self.queue)),
                Cmd::Ended => self.step(cmd).resolve(),
                Cmd::Now => ActView::Reply(RplView::Now(self.queue.now())),
                Cmd::Die => ActView::Stop,
            }
        }
    }

    /// What the program does with a file that was opened with the given
    /// format, or not at all.
    pub open spec fn install(self, opened: Option<(u8, u32)>) -> Install {
        match opened {
            None => Install::Keep,
            Some((channels, sample_rate)) => if channels != self.channels || sample_rate
                != self.sample_rate {
                Install::Rebuild
            } else {
                Install::Same
            },
        }
    }

    /// What is done to the device for `install`, in order, by an actor that
    /// has adopted the session: nothing for a file that did not open; else
    /// the session is installed, into a new endpoint if the old one has
    /// another format, and then the old one is stopped first.
    pub open spec fn install_steps(self, install: Install) -> Seq<Step> {
        match install {
            Install::Keep => Seq::empty(),
            Install::Same => seq![Step::Install],
            Install::Rebuild => seq![
                Step::Stop,
                Step::Start { channels: self.channels, sample_rate: self.sample_rate },
                Step::Install,
            ],
        }
    }

    /// What is done to the device for silence, in order: the endpoint is
    /// stopped, then a fresh one of the same format is started.
    pub open spec fn silence_steps(self) -> Seq<Step> {
        seq![Step::Stop, Step::Start { channels: self.channels, sample_rate: self.sample_rate }]
    }

    /// The actor after a file was opened with the given format, or not at
    /// all.
    pub open spec fn adopt(self, opened: Option<(u8, u32)>) -> PlayerView {
        match opened {
            None => self,
            Some((channels, sample_rate)) => PlayerView {
                channels,
                sample_rate,
                session: true,
                ..self
            },
        }
    }
}

/// The format of a session that was opened, as `PlayerView::adopt` takes it.
pub open spec fn opened_format(opened: Result<Source, OpenError>) -> Option<(u8, u32)> {
    match opened {
        Ok(session) => Some((session@.channels, session@.sample_rate)),
        Err(_) => None,
    }
}

/// The playback actor.
#[derive(Debug)]
pub struct Player {
    queue: Queue,
    channels: u8,
    sample_rate: u32,
    session: bool,
    alive: bool,
}

impl View for Player {
    type V = PlayerView;

    closed spec fn view(&self) -> PlayerView {
        PlayerView {
            queue: self.queue@,
            channels: self.channels,
            sample_rate: self.sample_rate,
            session: self.session,
            alive: self.alive,
        }
    }
}

impl Player {
    /// The actor at its start.
    pub fn new() -> (p: Player)
        ensures
            p@ == PlayerView::start(),
    {
        Player {
            queue: Queue::new(),
            channels: DEFAULT_CHANNELS,
            sample_rate: DEFAULT_SAMPLE_RATE,
            session: false,
            alive: true,
        }
    }

    /// The channel count of the current endpoint.
    pub fn channels(&self) -> (n: u8)
        ensures
            n == self@.channels,
    {
        self.channels
    }

    /// The sample rate of the current endpoint.
    pub fn sample_rate(&self) -> (n: u32)
        ensures
            n == self@.sample_rate,
    {
        self.sample_rate
    }

    /// `Play`: asks for the current item's file to be opened, or for silence
    /// where no item is current.
    pub fn play(&self) -> (act: Act)
        ensures
            act@ == self@.resolve(),
    {
        match self.queue.now() {
            Some(item) => Act::Open(item.1),
            None => Act::Silence,
        }
    }

    /// `Push`: appends the song to the queue. Playback is not touched.
    pub fn push(&mut self, song: Song)
        ensures
            final(self)@ == old(self)@.with_queue(old(self)@.queue.push((song.song_id, song.file))),
    {
        self.queue.push(song);
    }

    /// `SetIndex`: puts the cursor at `index`. Playback is not touched.
    pub fn index(&mut self, index: usize)
        ensures
            final(self)@ == old(self)@.with_queue(old(self)@.queue.set_index(index)),
    {
        self.queue.index(index);
    }

    /// `Next`: moves the cursor on, then plays.
    pub fn next(&mut self) -> (act: Act)
        ensures
            final(self)@ == old(self)@.with_queue(old(self)@.queue.next()),
            act@ == final(self)@.resolve(),
    {
        self.queue.next();
        self.play()
    }

    /// `Prev`: moves the cursor back, then plays.
    pub fn prev(&mut self) -> (act: Act)
        ensures
            final(self)@ == old(self)@.with_queue(old(self)@.queue.prev()),
            act@ == final(self)@.resolve(),
    {
        self.queue.prev();
        self.play()
    }

    /// `Delete`: removes the item at `index`. If that was the cursor's
    /// index, the playing item is gone and the actor plays what is current
    /// now; else playback is not touched.
    pub fn delete(&mut self, index: usize) -> (act: Act)
        ensures
            final(self)@ == old(self)@.with_queue(old(self)@.queue.delete(index)),
            act@ == if index == old(self)@.queue.index {
                final(self)@.resolve()
            } else {
                ActView::Rest
            },
    {
        let is_now = index == self.queue.index;
        self.queue.delete(index);
        if is_now {
            self.play()
        } else {
            Act::Rest
        }
    }

    /// `Ended`: removes the item that finished, so that its successor is
    /// current, then plays.
    pub fn ended(&mut self) -> (act: Act)
        ensures
            final(self)@ == old(self)@.with_queue(old(self)@.queue.remove()),
            act@ == final(self)@.resolve(),
    {
        self.queue.remove();
        self.play()
    }

    /// `SetPause`: passed on to the current session; nothing without one.
    pub fn set_pause(&self, pause: bool) -> (act: Act)
        ensures
            act@ == self@.forward(ActView::SetPause(pause)),
    {
        if self.session {
            Act::SetPause(pause)
        } else {
            Act::Rest
        }
    }

    /// `SetPosition`: passed on to the current session; nothing without one.
    pub fn set_position(&self, pos: Span) -> (act: Act)
        ensures
            act@ == self@.forward(ActView::Seek(pos@)),
    {
        if self.session {
            Act::Seek(pos)
        } else {
            Act::Rest
        }
    }

    /// The position query: asked of the current session; no time at all
    /// without one.
    pub fn position(&self) -> (act: Act)
        ensures
            act@ == self@.ask(ActView::AskPosition, RplView::Time(0)),
    {
        if self.session {
            Act::AskPosition
        } else {
            Act::Reply(Rpl::Time(Span::zero()))
        }
    }

    /// The duration query: asked of the current session; no time at all
    /// without one.
    pub fn duration(&self) -> (act: Act)
        ensures
            act@ == self@.ask(ActView::AskDuration, RplView::Time(0)),
    {
        if self.session {
            Act::AskDuration
        } else {
            Act::Reply(Rpl::Time(Span::zero()))
        }
    }

    /// The pause query: asked of the current session; not paused without
    /// one.
    pub fn is_paused(&self) -> (act: Act)
        ensures
            act@ == self@.ask(ActView::AskPaused, RplView::Is(false)),
    {
        if self.session {
            Act::AskPaused
        } else {
            Act::Reply(Rpl::Is(false))
        }
    }

    /// The queue query: a copy of the queue.
    pub fn queue(&self) -> (q: Queue)
        ensures
            q@ == self@.queue,
    {
        self.queue.snapshot()
    }

    /// The now query: the current item, or `None` where nothing is current.
    pub fn now(&self) -> (item: Option<(u32, String)>)
        ensures
            item == self@.queue.now(),
    {
        self.queue.now()
    }

    /// Whether `Die` has not been handled yet.
    pub fn alive(&self) -> (b: bool)
        ensures
            b == self@.alive,
    {
        self.alive
    }

    /// Whether a session is current.
    pub fn has_session(&self) -> (b: bool)
        ensures
            b == self@.session,
    {
        self.session
    }

    /// Takes the outcome of opening the file that `Play` asked for. A file
    /// that could not be opened changes nothing. A session becomes the
    /// current one; if its channel count or sample rate differs from the
    /// endpoint's, the endpoint is to be replaced by one bound to the
    /// session's format, and the actor records that format.
    pub fn adopt(&mut self, opened: &Result<Source, OpenError>) -> (install: Install)
        ensures
            install == old(self)@.install(opened_format(*opened)),
            final(self)@ == old(self)@.adopt(opened_format(*opened)),
    {
        match opened {
            Err(_) => Install::Keep,
            Ok(session) => {
                let channels = session.channels();
                let sample_rate = session.sample_rate();
                let differs = channels != self.channels || sample_rate != self.sample_rate;
                self.channels = channels;
                self.sample_rate = sample_rate;
                self.session = true;
                if differs {
                    Install::Rebuild
                } else {
                    Install::Same
                }
            },
        }
    }

    /// What the program does to the device, in order, after `adopt` gave
    /// `install`.
    pub fn steps(&self, install: Install) -> (steps: Vec<Step>)
        ensures
            steps@ == self@.install_steps(install),
    {
        let mut steps: Vec<Step> = Vec::new();
        match install {
            Install::Keep => {},
            Install::Same => {
                steps.push(Step::Install);
            },
            Install::Rebuild => {
                steps.push(Step::Stop);
                steps.push(Step::Start { channels: self.channels, sample_rate: self.sample_rate });
                steps.push(Step::Install);
            },
        }
        steps
    }

    /// What the program does to the device, in order, when the actor asks
    /// for silence.
    pub fn silence(&self) -> (steps: Vec<Step>)
        ensures
            steps@ == self@.silence_steps(),
    {
        let mut steps: Vec<Step> = Vec::new();
        steps.push(Step::Stop);
        steps.push(Step::Start { channels: self.channels, sample_rate: self.sample_rate });
        steps
    }

    /// Handles one command. After `Die` every command is answered with
    /// `Stop` and changes nothing.
    pub fn handle(&mut self, cmd: Cmd) -> (act: Act)
        ensures
            final(self)@ == old(self)@.step(cmd),
            act@ == old(self)@.act(cmd),
    {
        if !self.alive {
            return Act::Stop;
        }
        match cmd {
            Cmd::Play => self.play(),
            Cmd::Push(song) => {
                self.push(song);
                Act::Rest
            },
            Cmd::Next => self.next(),
            Cmd::Prev => self.prev(),
            Cmd::Index(index) => {
                self.index(index);
                Act::Rest
            },
            Cmd::Delete(index) => self.delete(index),
            Cmd::Pause => self.is_paused(),
            Cmd::SetPause(pause) => self.set_pause(pause),
            Cmd::Duration => self.duration(),
            Cmd::Position => self.position(),
            Cmd::SetPosition(pos) => self.set_position(pos),
            Cmd::Queue => Act::Reply(Rpl::Queue(self.queue())),
            Cmd::Ended => self.ended(),
            Cmd::Now => Act::Reply(Rpl::Now(self.now())),
            Cmd::Die => {
                self.alive = false;
                Act::Stop
            },
        }
    }
}

impl Act {
    /// Carries out an action that concerns the current session, on that
    /// session: sets its pause flag, moves it, or reads the answer to a
    /// query from it. The result is the reply to send, if the action was a
    /// query. Any other action leaves the session as it is and gives no
    /// reply.
    pub fn perform(&self, session: &mut Source) -> (reply: Option<Rpl>)
        ensures
            match self@ {
                ActView::SetPause(pause) => {
                    &&& reply.is_none()
                    &&& final(session)@ == (SourceView {
                        transport: old(session)@.transport.with_pause(pause),
                        ..old(session)@
                    })
                },
                ActView::Seek(pos) => {
                    &&& reply.is_none()
                    &&& final(session)@ == old(session)@.sought(pos)
                },
                ActView::AskPaused => {
                    &&& reply matches Some(r)
                    &&& r@ == RplView::Is(old(session)@.transport.paused)
                    &&& final(session)@ == old(session)@
                },
                ActView::AskDuration => {
                    &&& reply matches Some(r)
                    &&& r@ == RplView::Time(old(session)@.duration)
                    &&& final(session)@ == old(session)@
                },
                ActView::AskPosition => {
                    &&& reply matches Some(r)
                    &&& r@ == RplView::Time(old(session)@.position())
                    &&& final(session)@ == old(session)@
                },
                _ => reply.is_none() && final(session)@ == old(session)@,
            },
    {
        match self {
            Act::SetPause(pause) => {
                session.set_pause(*pause);
                None
            },
            Act::Seek(pos) => {
                let _ = session.set_position(*pos);
                None
            },
            Act::AskPaused => Some(Rpl::Is(session.paused())),
            Act::AskDuration => Some(Rpl::Time(session.duration())),
            Act::AskPosition => Some(Rpl::Time(session.position())),
            _ => None,
        }
    }
}

/// Deleting the item under the cursor makes the actor play what is current
/// afterwards. Deleting any other item asks nothing of the program, and
/// leaves the endpoint's format and the current session as they were: what
/// plays goes on playing.
pub proof fn lemma_delete_replays_only_the_current(p: PlayerView, index: usize)
    requires
        p.alive,
    ensures
        index == p.queue.index ==> p.act(Cmd::Delete(index)) == p.step(Cmd::Delete(index)).resolve(),
        index != p.queue.index ==> p.act(Cmd::Delete(index)) == ActView::Rest,
        p.step(Cmd::Delete(index)).channels == p.channels,
        p.step(Cmd::Delete(index)).sample_rate == p.sample_rate,
        p.step(Cmd::Delete(index)).session == p.session,
        p.step(Cmd::Delete(index)).queue == p.queue.delete(index),
{
}

/// A session whose channel count or sample rate differs from the endpoint's
/// has the endpoint replaced, and one whose format is the endpoint's has it
/// kept; either way the actor then records the session's format, so that the
/// endpoint and the current session agree.
pub proof fn lemma_install_rebuilds_on_new_format(p: PlayerView, channels: u8, sample_rate: u32)
    ensures
        (channels != p.channels || sample_rate != p.sample_rate) <==> p.install(
            Some((channels, sample_rate)),
        ) == Install::Rebuild,
        (channels == p.channels && sample_rate == p.sample_rate) <==> p.install(
            Some((channels, sample_rate)),
        ) == Install::Same,
        p.adopt(Some((channels, sample_rate))).channels == channels,
        p.adopt(Some((channels, sample_rate))).sample_rate == sample_rate,
        p.adopt(Some((channels, sample_rate))).session,
        p.adopt(Some((channels, sample_rate))).install(Some((channels, sample_rate)))
            == Install::Same,
{
}

/// While a session is installed there are never two device streams at one
/// time: where the endpoint is replaced, the old stream is stopped before the
/// new one is started. One stream runs before and one runs after, and the
/// session is handed over while a stream runs. A new stream has the format
/// that the actor recorded.
pub proof fn lemma_one_stream_at_a_time(p: PlayerView, install: Install)
    ensures
        live_peak(1, p.install_steps(install)) == 1,
        live_after(1, p.install_steps(install)) == 1,
        installs_find_stream(1, p.install_steps(install)),
        forall|k: int|
            0 <= k < p.install_steps(install).len() ==> (#[trigger] p.install_steps(install)[k]
                matches Step::Start { channels, sample_rate } ==> channels == p.channels
                && sample_rate == p.sample_rate),
{
    let steps = p.install_steps(install);
    reveal_with_fuel(live_peak, 4);
    reveal_with_fuel(live_after, 4);
    reveal_with_fuel(installs_find_stream, 4);
    match install {
        Install::Keep => {},
        Install::Same => {},
        Install::Rebuild => {
            let tail = steps.drop_first();
            let last = tail.drop_first();
            assert(tail.len() == 2 && tail[0] == steps[1] && tail[1] == steps[2]);
            assert(last.len() == 1 && last[0] == steps[2]);
        },
    }
}

/// Silencing the endpoint never runs two device streams at one time either:
/// the stream is stopped, then a fresh one of the same format is started.
pub proof fn lemma_silence_restarts_the_stream(p: PlayerView)
    ensures
        live_peak(1, p.silence_steps()) == 1,
        live_after(1, p.silence_steps()) == 1,
        live_after(1, p.silence_steps().subrange(0, 1)) == 0,
{
    let steps = p.silence_steps();
    reveal_with_fuel(live_peak, 4);
    reveal_with_fuel(live_after, 4);
    let tail = steps.drop_first();
    assert(tail.len() == 1 && tail[0] == steps[1]);
    let head = steps.subrange(0, 1);
    assert(head.len() == 1 && head[0] == steps[0]);
}

/// A file that cannot be opened changes nothing.
pub proof fn lemma_failed_open_changes_nothing(p: PlayerView)
    ensures
        p.install(None) == Install::Keep,
        p.adopt(None) == p,
{
}

/// With an empty queue `Play` asks for silence, and the now query finds
/// nothing playing. The same holds whenever the cursor is outside the queue.
pub proof fn lemma_play_without_current_is_silence(p: PlayerView)
    requires
        p.alive,
        p.queue.index >= p.queue.songs.len(),
    ensures
        p.act(Cmd::Play) == ActView::Silence,
        p.step(Cmd::Play) == p,
        p.act(Cmd::Now) == ActView::Reply(RplView::Now(None)),
{
}

/// When the current track ends, it leaves the queue and the actor plays the
/// item that stood behind it; if there was none, the actor asks for silence.
pub proof fn lemma_ended_advances(p: PlayerView)
    requires
        p.alive,
        p.queue.index < p.queue.songs.len(),
    ensures
        p.step(Cmd::Ended).queue.songs.len() == p.queue.songs.len() - 1,
        p.queue.index + 1 < p.queue.songs.len() ==> {
            &&& p.act(Cmd::Ended) == ActView::Open(p.queue.songs[p.queue.index + 1].1)
            &&& p.step(Cmd::Ended).queue.now() == Some(p.queue.songs[p.queue.index + 1])
        },
        p.queue.index + 1 == p.queue.songs.len() ==> p.act(Cmd::Ended) == ActView::Silence,
{
}

/// Whether a command is a query, which the caller waits on for a reply.
pub open spec fn is_query(cmd: Cmd) -> bool {
    cmd is Pause || cmd is Duration || cmd is Position || cmd is Queue || cmd is Now
}

/// Whether an action ends in a reply: one that the actor has ready, or one
/// read from the current session.
pub open spec fn answers(act: ActView) -> bool {
    act is Reply || act is AskPaused || act is AskDuration || act is AskPosition
}

/// Every query is answered with one reply, and no other command is answered
/// with one. A reply is asked of the session only where there is a session.
pub proof fn lemma_one_reply_per_query(p: PlayerView, cmd: Cmd)
    requires
        p.alive,
    ensures
        is_query(cmd) <==> answers(p.act(cmd)),
        is_query(cmd) ==> p.step(cmd) == p,
        p.act(cmd) is AskPaused || p.act(cmd) is AskDuration || p.act(cmd) is AskPosition
            ==> p.session,
        p.act(cmd) is SetPause || p.act(cmd) is Seek ==> p.session,
{
}

/// `Die` is final: afterwards every command is answered with `Stop` and
/// changes nothing.
pub proof fn lemma_die_is_final(p: PlayerView, cmd: Cmd)
    ensures
        p.act(Cmd::Die) == ActView::Stop,
        !p.step(Cmd::Die).alive,
        p.step(Cmd::Die).act(cmd) == ActView::Stop,
        p.step(Cmd::Die).step(cmd) == p.step(Cmd::Die),
{
}

/// Commands that only edit the queue ask nothing of the program and leave
/// the endpoint's format and the current session as they were.
pub proof fn lemma_queue_edits_do_not_touch_playback(p: PlayerView, song: Song, index: usize)
    requires
        p.alive,
    ensures
        p.act(Cmd::Push(song)) == ActView::Rest,
        p.act(Cmd::Index(index)) == ActView::Rest,
        p.step(Cmd::Push(song)) == p.with_queue(p.queue.push((song.song_id, song.file))),
        p.step(Cmd::Index(index)) == p.with_queue(p.queue.set_index(index)),
{
}

} // verus!
