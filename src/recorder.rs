use vstd::prelude::*;
use crate::action::{Action, ActionKind, InputEvent};
use crate::playback::{Player, PlayerView};

verus! {

/// The abstract state of a recorder: the action log, the two flags, the last
/// pointer position seen, and the position at which the current recording
/// session began.
pub struct RecorderView<P> {
    pub log: Seq<Action<P>>,
    pub recording: bool,
    pub playing: bool,
    pub last_pos: P,
    pub session_pos: P,
}

/// The position the pointer held just before entry `i` of a session's log:
/// that of the latest move before `i`, or the session's starting position.
pub open spec fn pos_before<P>(log: Seq<Action<P>>, i: int, start: P) -> P
    decreases i,
{
    if i <= 0 {
        start
    } else if log[i - 1].kind == ActionKind::Move {
        log[i - 1].pos
    } else {
        pos_before(log, i - 1, start)
    }
}

/// The offset that an event observed `elapsed_ms` after the session start
/// receives: the elapsed time, held at the last offset of the log should the
/// clock reading ever go back.
pub open spec fn next_offset<P>(log: Seq<Action<P>>, elapsed_ms: u64) -> u64 {
    if log.len() == 0 || elapsed_ms >= log.last().offset_ms {
        elapsed_ms
    } else {
        log.last().offset_ms
    }
}

/// Offsets never decrease along the log.
pub open spec fn offsets_sorted<P>(log: Seq<Action<P>>) -> bool {
    forall|i: int, j: int| 0 <= i <= j < log.len() ==> log[i].offset_ms <= log[j].offset_ms
}

/// Every click carries the pointer position that preceded it.
pub open spec fn clicks_at_pointer<P>(log: Seq<Action<P>>, start: P) -> bool {
    forall|i: int|
        0 <= i < log.len() && #[trigger] log[i].kind == ActionKind::Click ==> log[i].pos
            == pos_before(log, i, start)
}

impl<P> RecorderView<P> {
    /// The invariant that every reachable state of a recorder keeps.
    pub open spec fn wf(self) -> bool {
        &&& offsets_sorted(self.log)
        &&& clicks_at_pointer(self.log, self.session_pos)
        &&& self.last_pos == pos_before(self.log, self.log.len() as int, self.session_pos)
    }

    /// The state after the recording flag is cleared.
    pub open spec fn recording_stopped(self) -> RecorderView<P> {
        RecorderView { recording: false, ..self }
    }

    /// The state after the playback flag is cleared.
    pub open spec fn playing_stopped(self) -> RecorderView<P> {
        RecorderView { playing: false, ..self }
    }

    /// The state after a new recording session begins.
    pub open spec fn recording_started(self) -> RecorderView<P> {
        RecorderView { log: Seq::empty(), recording: true, session_pos: self.last_pos, ..self }
    }

    /// The state after one input event is observed `elapsed_ms` after the
    /// start of the session.
    pub open spec fn after_event(self, ev: InputEvent<P>, elapsed_ms: u64) -> RecorderView<P> {
        if !self.recording {
            self
        } else {
            match ev {
                InputEvent::MouseMove(p) => RecorderView {
                    log: self.log.push(
                        Action { pos: p, offset_ms: next_offset(self.log, elapsed_ms), kind: ActionKind::Move },
                    ),
                    last_pos: p,
                    ..self
                },
                InputEvent::LeftPress => RecorderView {
                    log: self.log.push(
                        Action {
                            pos: self.last_pos,
                            offset_ms: next_offset(self.log, elapsed_ms),
                            kind: ActionKind::Click,
                        },
                    ),
                    ..self
                },
                InputEvent::Other => self,
            }
        }
    }
}

/// Appending an entry leaves the pointer history of the earlier entries as it was.
proof fn lemma_pos_before_push<P>(log: Seq<Action<P>>, a: Action<P>, i: int, start: P)
    requires
        0 <= i <= log.len(),
    ensures
        pos_before(log.push(a), i, start) == pos_before(log, i, start),
    decreases i,
{
    if i > 0 {
        lemma_pos_before_push(log, a, i - 1, start);
    }
}

/// Observing an event keeps a well-formed state well-formed.
proof fn lemma_after_event_wf<P>(v: RecorderView<P>, ev: InputEvent<P>, elapsed_ms: u64)
    requires
        v.wf(),
    ensures
        v.after_event(ev, elapsed_ms).wf(),
{
    let w = v.after_event(ev, elapsed_ms);
    if v.recording && !(ev is Other) {
        let n = v.log.len() as int;
        assert forall|i: int| 0 <= i <= n implies pos_before(w.log, i, v.session_pos) == pos_before(
            v.log,
            i,
            v.session_pos,
        ) by {
            lemma_pos_before_push(v.log, w.log[n], i, v.session_pos);
        }
        assert(w.log.len() == n + 1);
        assert(w.log.subrange(0, n) =~= v.log);
        assert forall|i: int, j: int| 0 <= i <= j < w.log.len() implies w.log[i].offset_ms
            <= w.log[j].offset_ms by {
            if j == n && i < n {
                assert(v.log[i].offset_ms <= v.log[n - 1].offset_ms);
            }
        }
        assert forall|i: int|
            0 <= i < w.log.len() && #[trigger] w.log[i].kind == ActionKind::Click implies w.log[i].pos
                == pos_before(w.log, i, w.session_pos) by {
            if i < n {
                assert(w.log[i] == v.log[i]);
            }
        }
    }
}

impl<P> RecorderView<P> {
    /// The state after the events of `evs` are observed in order, each with
    /// its elapsed time.
    pub open spec fn after_events(self, evs: Seq<(InputEvent<P>, u64)>) -> RecorderView<P>
        decreases evs.len(),
    {
        if evs.len() == 0 {
            self
        } else {
            self.after_events(evs.drop_last()).after_event(evs.last().0, evs.last().1)
        }
    }
}

/// Any run of events keeps a well-formed state well-formed.
proof fn lemma_after_events_wf<P>(v: RecorderView<P>, evs: Seq<(InputEvent<P>, u64)>)
    requires
        v.wf(),
    ensures
        v.after_events(evs).wf(),
    decreases evs.len(),
{
    if evs.len() > 0 {
        lemma_after_events_wf(v, evs.drop_last());
        lemma_after_event_wf(v.after_events(evs.drop_last()), evs.last().0, evs.last().1);
    }
}

/// Whatever events a recorder observes, the offsets of its log never
/// decrease in list order.
pub proof fn lemma_recorded_offsets_sorted<P>(v: RecorderView<P>, evs: Seq<(InputEvent<P>, u64)>)
    requires
        v.wf(),
    ensures
        offsets_sorted(v.after_events(evs).log),
{
    lemma_after_events_wf(v, evs);
}

/// Whatever events a recorder observes, every click in its log lies at the
/// position of the latest move before it in the session, or at the position
/// the session began with where no move came before.
pub proof fn lemma_recorded_clicks_at_last_move<P>(v: RecorderView<P>, evs: Seq<(InputEvent<P>, u64)>)
    requires
        v.wf(),
    ensures
        clicks_at_pointer(v.after_events(evs).log, v.after_events(evs).session_pos),
{
    lemma_after_events_wf(v, evs);
}

/// Stopping the recording or the playback a second time changes nothing,
/// and leaves the flag down.
pub proof fn lemma_stop_idempotent<P>(v: RecorderView<P>)
    ensures
        !v.recording_stopped().recording,
        v.recording_stopped().recording_stopped() == v.recording_stopped(),
        !v.playing_stopped().playing,
        v.playing_stopped().playing_stopped() == v.playing_stopped(),
{
}

/// The recording and playback state shared between the command surface,
/// the input listener and the playback task.
pub struct Recorder<P> {
    log: Vec<Action<P>>,
    recording: bool,
    playing: bool,
    last_pos: P,
    session_pos: Ghost<P>,
}

/// Why playback could not begin.
#[derive(Clone, Copy, Debug, PartialEq, Eq, Structural)]
pub enum PlaybackError {
    /// There is no recorded action to play.
    EmptyRecording,
}

impl<P> View for Recorder<P> {
    type V = RecorderView<P>;

    closed spec fn view(&self) -> RecorderView<P> {
        RecorderView {
            log: self.log@,
            recording: self.recording,
            playing: self.playing,
            last_pos: self.last_pos,
            session_pos: self.session_pos@,
        }
    }
}

impl<P: Copy> Recorder<P> {
    /// A recorder with an empty log, both flags down, and the pointer at `pos`.
    pub fn new(pos: P) -> (r: Self)
        ensures
            r@ == (RecorderView {
                log: Seq::<Action<P>>::empty(),
                recording: false,
                playing: false,
                last_pos: pos,
                session_pos: pos,
            }),
            r@.wf(),
    {
        Recorder { log: Vec::new(), recording: false, playing: false, last_pos: pos, session_pos: Ghost(pos) }
    }

    /// Clears the log and raises the recording flag: a new session begins at
    /// the current pointer position.
    pub fn start_recording(&mut self)
        requires
            old(self)@.wf(),
        ensures
            final(self)@ == old(self)@.recording_started(),
            final(self)@.wf(),
    {
        self.log.clear();
        self.recording = true;
        self.session_pos = Ghost(self.last_pos);
    }

    /// Lowers the recording flag; the log is kept as it is.
    pub fn stop_recording(&mut self)
        requires
            old(self)@.wf(),
        ensures
            final(self)@ == old(self)@.recording_stopped(),
            final(self)@.wf(),
    {
        self.recording = false;
    }

    /// Lowers the playback flag, so that a running playback ends at its
    /// next action boundary.
    pub fn stop_playing(&mut self)
        requires
            old(self)@.wf(),
        ensures
            final(self)@ == old(self)@.playing_stopped(),
            final(self)@.wf(),
    {
        self.playing = false;
    }

    /// Whether a recording session is active.
    pub fn is_recording(&self) -> (r: bool)
        ensures
            r == self@.recording,
    {
        self.recording
    }

    /// Whether playback may go on.
    pub fn is_playing(&self) -> (r: bool)
        ensures
            r == self@.playing,
    {
        self.playing
    }

    /// Handles one input event observed `elapsed_ms` after the session start.
    /// While the recording flag is down nothing changes. A move updates the
    /// pointer position and is appended; a left press is appended as a click
    /// at the current pointer position; other events are ignored.
    pub fn record_event(&mut self, ev: InputEvent<P>, elapsed_ms: u64)
        requires
            old(self)@.wf(),
        ensures
            final(self)@ == old(self)@.after_event(ev, elapsed_ms),
            final(self)@.wf(),
    {
        proof {
            lemma_after_event_wf(self@, ev, elapsed_ms);
        }
        if !self.recording {
            return;
        }
        let offset_ms: u64 = if self.log.len() == 0 || elapsed_ms >= self.log[self.log.len() - 1].offset_ms {
            elapsed_ms
        } else {
            self.log[self.log.len() - 1].offset_ms
        };
        match ev {
            InputEvent::MouseMove(p) => {
                self.last_pos = p;
                self.log.push(Action { pos: p, offset_ms, kind: ActionKind::Move });
            },
            InputEvent::LeftPress => {
                let p = self.last_pos;
                self.log.push(Action { pos: p, offset_ms, kind: ActionKind::Click });
            },
            InputEvent::Other => {},
        }
    }

    /// A copy of the log as it stands.
    pub fn get_recorded_actions(&self) -> (r: Vec<Action<P>>)
        ensures
            r@ == self@.log,
    {
        let mut out: Vec<Action<P>> = Vec::new();
        let mut i: usize = 0;
        while i < self.log.len()
            invariant
                i <= self.log@.len(),
                out@ == self.log@.subrange(0, i as int),
            decreases self.log@.len() - i,
        {
            let a = self.log[i];
            out.push(a);
            i = i + 1;
            proof {
                assert(out@ =~= self.log@.subrange(0, i as int));
            }
        }
        proof {
            assert(out@ =~= self.log@);
        }
        out
    }

    /// Takes a snapshot of the log and, unless it is empty, raises the
    /// playback flag and returns a player for it that makes `repeat` passes
    /// with every gap shortened by `speed_ms`. On an empty log nothing changes.
    pub fn play_recording(&mut self, repeat: u32, speed_ms: u64) -> (r: Result<Player<P>, PlaybackError>)
        requires
            old(self)@.wf(),
        ensures
            final(self)@.wf(),
            r is Err <==> old(self)@.log.len() == 0,
            r is Err ==> r == Err::<Player<P>, PlaybackError>(PlaybackError::EmptyRecording)
                && final(self)@ == old(self)@,
            r is Ok ==> final(self)@ == (RecorderView { playing: true, ..old(self)@ })
                && r->Ok_0@ == PlayerView::start(old(self)@.log, repeat as nat, speed_ms),
    {
        let snapshot = self.get_recorded_actions();
        if snapshot.len() == 0 {
            return Err(PlaybackError::EmptyRecording);
        }
        self.playing = true;
        Ok(Player::new(snapshot, repeat, speed_ms))
    }
}

} // verus!
