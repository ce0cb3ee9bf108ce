use vstd::prelude::*;
use crate::action::{Action, ActionKind, Synthetic};

verus! {

/// How long a replayed click holds the button down.
pub const CLICK_HOLD_MS: u64 = 50;

/// How long each click of a burst holds the button down.
pub const BURST_HOLD_MS: u64 = 30;

/// `a - b`, or zero where `b` is the larger.
pub open spec fn sat_sub(a: u64, b: u64) -> u64 {
    if a >= b { (a - b) as u64 } else { 0 }
}

/// The pause before an action at `offset_ms`, when the previous action of the
/// same pass stood at `last_ms` (zero for the first one): the gap between the
/// two, shortened by `speed_ms`, and never below zero.
pub open spec fn wait_spec(offset_ms: u64, last_ms: u64, speed_ms: u64) -> u64 {
    sat_sub(sat_sub(offset_ms, last_ms), speed_ms)
}

/// Computes `wait_spec`.
pub fn wait_before(offset_ms: u64, last_ms: u64, speed_ms: u64) -> (r: u64)
    ensures
        r == wait_spec(offset_ms, last_ms, speed_ms),
{
    offset_ms.saturating_sub(last_ms).saturating_sub(speed_ms)
}

/// The offset of the action before entry `i` of a pass, zero for the first.
pub open spec fn prev_offset<P>(actions: Seq<Action<P>>, i: int) -> u64 {
    if i <= 0 { 0 } else { actions[i - 1].offset_ms }
}

/// The operations that replay one action: a move to its position, and for a
/// click a press held for `CLICK_HOLD_MS` and then released.
pub open spec fn action_events<P>(a: Action<P>) -> Seq<Synthetic<P>> {
    match a.kind {
        ActionKind::Move => seq![Synthetic::MoveTo(a.pos)],
        ActionKind::Click => seq![
            Synthetic::MoveTo(a.pos),
            Synthetic::Press,
            Synthetic::Pause(CLICK_HOLD_MS),
            Synthetic::Release,
        ],
    }
}

/// The operations of step `i` of a pass: the pause before the action, then
/// the action itself.
pub open spec fn step_events<P>(actions: Seq<Action<P>>, i: int, speed_ms: u64) -> Seq<Synthetic<P>> {
    seq![Synthetic::Pause(wait_spec(actions[i].offset_ms, prev_offset(actions, i), speed_ms))]
        + action_events(actions[i])
}

/// One click of a burst: move, press, hold, release, pause.
pub open spec fn burst_click<P>(pos: P, delay_ms: u64) -> Seq<Synthetic<P>> {
    seq![
        Synthetic::MoveTo(pos),
        Synthetic::Press,
        Synthetic::Pause(BURST_HOLD_MS),
        Synthetic::Release,
        Synthetic::Pause(delay_ms),
    ]
}

/// `n` clicks of a burst, one after the other.
pub open spec fn burst_spec<P>(pos: P, n: nat, delay_ms: u64) -> Seq<Synthetic<P>>
    decreases n,
{
    if n == 0 {
        Seq::empty()
    } else {
        burst_spec(pos, (n - 1) as nat, delay_ms) + burst_click(pos, delay_ms)
    }
}

/// The abstract state of a playback: the snapshot, the number of passes and
/// the speed-up, how far it has come, and whether it was cut short.
pub struct PlayerView<P> {
    pub actions: Seq<Action<P>>,
    pub repeat: nat,
    pub speed_ms: u64,
    pub pass: nat,
    pub index: nat,
    pub done: bool,
}

impl<P> PlayerView<P> {
    /// A playback about to begin its first pass.
    pub open spec fn start(actions: Seq<Action<P>>, repeat: nat, speed_ms: u64) -> PlayerView<P> {
        PlayerView { actions, repeat, speed_ms, pass: 0, index: 0, done: false }
    }

    /// The snapshot is not empty and the position lies inside it.
    pub open spec fn wf(self) -> bool {
        &&& self.actions.len() > 0
        &&& self.index < self.actions.len()
    }

    /// Nothing is left to replay.
    pub open spec fn finished(self) -> bool {
        self.done || self.pass >= self.repeat
    }

    /// The next step, given what the playback flag reads: once finished, or
    /// once the flag is down, there is none and the playback is over; else
    /// the step of the current action, and the position moves past it.
    pub open spec fn step(self, playing: bool) -> (PlayerView<P>, Option<Seq<Synthetic<P>>>) {
        if self.finished() || !playing {
            (PlayerView { done: true, ..self }, None)
        } else if self.index + 1 < self.actions.len() {
            (
                PlayerView { index: self.index + 1, ..self },
                Some(step_events(self.actions, self.index as int, self.speed_ms)),
            )
        } else {
            (
                PlayerView { pass: self.pass + 1, index: 0, ..self },
                Some(step_events(self.actions, self.index as int, self.speed_ms)),
            )
        }
    }
}

/// Cancellation holds: with the flag down no step is produced and the
/// playback is over, and a playback that is over produces no step again,
/// whatever the flag reads later.
pub proof fn lemma_cancellation_is_final<P>(v: PlayerView<P>, playing: bool)
    ensures
        v.step(false).1 is None,
        v.step(false).0.finished(),
        v.finished() ==> v.step(playing).1 is None && v.step(playing).0.finished(),
{
}

/// Replays a snapshot of the log, one action per call of `next`.
pub struct Player<P> {
    actions: Vec<Action<P>>,
    repeat: u32,
    speed_ms: u64,
    pass: u32,
    index: usize,
    done: bool,
}

impl<P> View for Player<P> {
    type V = PlayerView<P>;

    closed spec fn view(&self) -> PlayerView<P> {
        PlayerView {
            actions: self.actions@,
            repeat: self.repeat as nat,
            speed_ms: self.speed_ms,
            pass: self.pass as nat,
            index: self.index as nat,
            done: self.done,
        }
    }
}

impl<P: Copy> Player<P> {
    /// A playback of `actions`, `repeat` passes, every gap shortened by `speed_ms`.
    pub fn new(actions: Vec<Action<P>>, repeat: u32, speed_ms: u64) -> (r: Self)
        requires
            actions@.len() > 0,
        ensures
            r@ == PlayerView::start(actions@, repeat as nat, speed_ms),
            r@.wf(),
    {
        Player { actions, repeat, speed_ms, pass: 0, index: 0, done: false }
    }

    /// Whether nothing is left to replay.
    pub fn is_finished(&self) -> (r: bool)
        ensures
            r == self@.finished(),
    {
        self.done || self.pass >= self.repeat
    }

    /// The operations of the next step, given what the playback flag reads
    /// at this action boundary; `None` when the playback is over.
    pub fn next(&mut self, playing: bool) -> (r: Option<Vec<Synthetic<P>>>)
        requires
            old(self)@.wf(),
        ensures
            final(self)@.wf(),
            final(self)@ == old(self)@.step(playing).0,
            r is None <==> old(self)@.step(playing).1 is None,
            r is Some ==> old(self)@.step(playing).1 == Some(r->Some_0@),
    {
        if self.is_finished() || !playing {
            self.done = true;
            return None;
        }
        let a = self.actions[self.index];
        let last_ms: u64 = if self.index == 0 {
            0
        } else {
            self.actions[self.index - 1].offset_ms
        };
        let mut out: Vec<Synthetic<P>> = Vec::new();
        out.push(Synthetic::Pause(wait_before(a.offset_ms, last_ms, self.speed_ms)));
        out.push(Synthetic::MoveTo(a.pos));
        match a.kind {
            ActionKind::Move => {},
            ActionKind::Click => {
                out.push(Synthetic::Press);
                out.push(Synthetic::Pause(CLICK_HOLD_MS));
                out.push(Synthetic::Release);
            },
        }
        proof {
            assert(out@ =~= step_events(self.actions@, self.index as int, self.speed_ms));
        }
        if self.index < self.actions.len() - 1 {
            self.index = self.index + 1;
        } else {
            self.index = 0;
            self.pass = self.pass + 1;
        }
        Some(out)
    }
}

/// The operations of `clicks` clicks at `pos`: each moves there, presses,
/// holds for `BURST_HOLD_MS`, releases, and pauses for `delay_ms`.
pub fn click_n_times<P: Copy>(pos: P, clicks: u32, delay_ms: u64) -> (r: Vec<Synthetic<P>>)
    ensures
        r@ == burst_spec(pos, clicks as nat, delay_ms),
{
    let mut out: Vec<Synthetic<P>> = Vec::new();
    let mut i: u32 = 0;
    while i < clicks
        invariant
            i <= clicks,
            out@ == burst_spec(pos, i as nat, delay_ms),
        decreases clicks - i,
    {
        out.push(Synthetic::MoveTo(pos));
        out.push(Synthetic::Press);
        out.push(Synthetic::Pause(BURST_HOLD_MS));
        out.push(Synthetic::Release);
        out.push(Synthetic::Pause(delay_ms));
        i = i + 1;
        proof {
            assert(out@ =~= burst_spec(pos, i as nat, delay_ms));
        }
    }
    out
}

} // verus!
