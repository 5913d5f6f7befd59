//! Application driver: the render/update loop.
//!
//! The driver owns the application state and runs the loop the whole
//! program hangs on: draw the current state, block for the next event,
//! dispatch it — a tick only redraws, a key goes to the application's
//! update, mouse and resize are accepted and currently ignored — and stop
//! once the application asks to quit or the event source dies. Whatever
//! ends the loop, the terminal session is torn down exactly once, so no
//! path leaves the terminal in raw or alternate-screen mode.
//!
//! [`run_model`] is the mathematical account of one whole run over a
//! scripted event sequence; [`run`] is the executable loop, proved to
//! follow it step for step.

use vstd::prelude::*;
use crate::event::{AppEvent, EventChannel, KeyInfo};
use crate::session::{exit_of, ModeFlags, Phase, TerminalSession};

verus! {

/// The application the driver runs: the external collaborator's contract.
/// It exposes a quit flag the driver reads after each dispatch, and an
/// update applied on each key press; `next_state` is the update's own
/// model of itself, whatever policy the implementor chooses.
pub trait Application: Sized {
    /// Whether the application has asked to quit.
    spec fn quit_flag(&self) -> bool;

    /// The state after one key press is applied.
    spec fn next_state(&self, key: KeyInfo) -> Self;

    /// Read the quit flag.
    fn should_quit(&self) -> (b: bool)
        ensures
            b == self.quit_flag(),
    ;

    /// Apply one key press to the state. The only mutation of the
    /// application the driver ever makes.
    fn on_key(&mut self, key: KeyInfo)
        ensures
            *final(self) == old(self).next_state(key),
    ;
}

/// What dispatching one event does to the application: a key goes to the
/// update; a tick changes nothing (it only forces the redraw at the top of
/// the next iteration); mouse and resize are currently ignored.
pub open spec fn dispatch_model<A: Application>(a: A, e: AppEvent) -> A {
    match e {
        AppEvent::Key(k) => a.next_state(k),
        _ => a,
    }
}

/// Dispatch one event to the application. The mouse and resize arms exist
/// so behaviour can be added without restructuring the loop.
pub fn dispatch_event<A: Application>(app: &mut A, e: AppEvent)
    ensures
        *final(app) == dispatch_model(*old(app), e),
{
    match e {
        AppEvent::Tick => {},
        AppEvent::Key(k) => app.on_key(k),
        AppEvent::Mouse(_) => {},
        AppEvent::Resize(_, _) => {},
    }
}

/// What one whole run of the driver loop does, given the application
/// state and the scripted events still pending: the final state, how many
/// events are consumed, and how many frames are drawn. Each iteration
/// draws once, then takes one event; a run ends on the quit flag, or with
/// one last draw when the source is exhausted (a dead source counts as a
/// quit).
pub open spec fn run_model<A: Application>(a: A, evs: Seq<AppEvent>) -> (A, nat, nat)
    decreases evs.len(),
{
    if a.quit_flag() {
        (a, 0nat, 0nat)
    } else if evs.len() == 0 {
        (a, 0nat, 1nat)
    } else {
        let rest = run_model(dispatch_model(a, evs[0]), evs.skip(1));
        (rest.0, (rest.1 + 1) as nat, (rest.2 + 1) as nat)
    }
}

/// What one run of the driver loop did.
#[derive(Clone, Copy, Debug, PartialEq, Eq, Structural)]
pub struct RunStats {
    /// Frames drawn: exactly one per loop iteration.
    pub draws: usize,
    /// Events consumed from the channel.
    pub consumed: usize,
}

/// The driver loop, against a scripted event channel. Per iteration: one
/// draw, one event taken, one dispatch; the loop ends when the
/// application asks to quit or the source disconnects (treated as a
/// quit). On every path the session is then ended exactly once, leaving
/// the terminal restored — no path out of this function leaves it in
/// raw or alternate-screen mode.
pub fn run<A: Application>(
    app: &mut A,
    source: &mut EventChannel,
    session: &mut TerminalSession,
) -> (stats: RunStats)
    requires
        old(session).phase == Phase::Active,
        old(source)@.len() < usize::MAX,
    ensures
        ({
            let end = run_model(*old(app), old(source)@);
            &&& *final(app) == end.0
            &&& stats.consumed == end.1
            &&& stats.draws == end.2
            &&& final(source)@ == old(source)@.skip(end.1 as int)
        }),
        final(session).modes == exit_of(old(session).modes),
        final(session).modes == ModeFlags::restored_spec(),
        final(session).phase == Phase::Done,
        final(source).status_spec() == old(source).status_spec(),
{
    let pending = source.len();
    let mut draws: usize = 0;
    let mut consumed: usize = 0;
    proof {
        assert(old(source)@.skip(0) =~= old(source)@);
    }
    loop
        invariant_except_break
            consumed <= pending,
            pending == old(source)@.len(),
            pending < usize::MAX,
            draws == consumed,
            source@ == old(source)@.skip(consumed as int),
            source.status_spec() == old(source).status_spec(),
            run_model(*old(app), old(source)@).0 == run_model(*app, source@).0,
            run_model(*old(app), old(source)@).1 == consumed + run_model(*app, source@).1,
            run_model(*old(app), old(source)@).2 == draws + run_model(*app, source@).2,
        ensures
            run_model(*old(app), old(source)@).0 == *app,
            run_model(*old(app), old(source)@).1 == consumed,
            run_model(*old(app), old(source)@).2 == draws,
            source@ == old(source)@.skip(consumed as int),
            source.status_spec() == old(source).status_spec(),
        decreases source@.len(),
    {
        let ghost a0 = *app;
        let ghost q0 = source@;
        let ghost done = consumed as int;
        if app.should_quit() {
            break;
        }
        draws = draws + 1;
        match source.next() {
            Ok(e) => {
                dispatch_event(app, e);
                consumed = consumed + 1;
                proof {
                    assert(run_model(a0, q0).0 == run_model(*app, source@).0);
                    assert(run_model(a0, q0).1 == 1 + run_model(*app, source@).1);
                    assert(run_model(a0, q0).2 == 1 + run_model(*app, source@).2);
                    assert(old(source)@.skip(done).skip(1) =~= old(source)@.skip(done + 1));
                }
            },
            Err(_) => {
                break;
            },
        }
    }
    session.exit();
    RunStats { draws, consumed }
}

/// Quit termination: if the application has not asked to quit and the
/// next scripted event is a key whose update sets the quit flag, the loop
/// draws exactly once more (in the iteration that consumes that key),
/// consumes exactly that one event, and stops — nothing after the quit
/// key is ever taken from the source.
pub proof fn lemma_quit_termination<A: Application>(a: A, evs: Seq<AppEvent>, key: KeyInfo)
    requires
        !a.quit_flag(),
        evs.len() > 0,
        evs[0] == AppEvent::Key(key),
        a.next_state(key).quit_flag(),
    ensures
        run_model(a, evs).0 == a.next_state(key),
        run_model(a, evs).1 == 1,
        run_model(a, evs).2 == 1,
{
    assert(dispatch_model(a, evs[0]) == a.next_state(key));
    assert(run_model(a.next_state(key), evs.skip(1)).0 == a.next_state(key));
    assert(run_model(a.next_state(key), evs.skip(1)).1 == 0);
    assert(run_model(a.next_state(key), evs.skip(1)).2 == 0);
}

/// The application state after the first `i` scripted events have been
/// dispatched, in order.
pub open spec fn state_after<A: Application>(a: A, evs: Seq<AppEvent>, i: int) -> A
    decreases i,
{
    if i <= 0 {
        a
    } else {
        dispatch_model(state_after(a, evs, i - 1), evs[i - 1])
    }
}

/// Dispatching the head event and then folding the tail is folding one
/// step further into the whole script.
proof fn lemma_state_after_shift<A: Application>(a: A, evs: Seq<AppEvent>, j: int)
    requires
        0 <= j,
        j + 1 <= evs.len(),
    ensures
        state_after(dispatch_model(a, evs[0]), evs.skip(1), j) == state_after(a, evs, j + 1),
    decreases j,
{
    let a1 = dispatch_model(a, evs[0]);
    let tail = evs.skip(1);
    if j == 0 {
        assert(state_after(a1, tail, 0) == a1);
        assert(state_after(a, evs, 0) == a);
        assert(state_after(a, evs, 1) == dispatch_model(state_after(a, evs, 0), evs[0]));
    } else {
        lemma_state_after_shift(a, evs, j - 1);
        assert(tail[j - 1] == evs[j]);
        assert(state_after(a1, tail, j) == dispatch_model(state_after(a1, tail, j - 1), tail[j - 1]));
        assert(state_after(a, evs, j + 1) == dispatch_model(state_after(a, evs, j), evs[j]));
    }
}

/// Quit termination, wherever in the script the quitting event falls: as
/// long as no dispatched event has set the quit flag the loop keeps
/// going, one draw per event; the moment one sets it, the loop stops with
/// that iteration — it has drawn exactly once per consumed event and
/// takes nothing further from the source.
pub proof fn lemma_quit_termination_general<A: Application>(a: A, evs: Seq<AppEvent>, i: int)
    requires
        0 <= i < evs.len(),
        forall|j: int| 0 <= j <= i ==> !(#[trigger] state_after(a, evs, j)).quit_flag(),
        state_after(a, evs, i + 1).quit_flag(),
    ensures
        run_model(a, evs).0 == state_after(a, evs, i + 1),
        run_model(a, evs).1 == i + 1,
        run_model(a, evs).2 == i + 1,
    decreases i,
{
    assert(state_after(a, evs, 0) == a);
    assert(!a.quit_flag());
    let a1 = dispatch_model(a, evs[0]);
    if i == 0 {
        assert(state_after(a, evs, 1) == a1);
        assert(run_model(a1, evs.skip(1)).0 == a1);
        assert(run_model(a1, evs.skip(1)).1 == 0);
        assert(run_model(a1, evs.skip(1)).2 == 0);
    } else {
        assert forall|j: int| 0 <= j <= i - 1 implies !(#[trigger] state_after(
            a1,
            evs.skip(1),
            j,
        )).quit_flag() by {
            lemma_state_after_shift(a, evs, j);
        }
        lemma_state_after_shift(a, evs, i);
        lemma_quit_termination_general(a1, evs.skip(1), i - 1);
    }
}

/// Key code of the designated quit key: the character `q`.
pub const QUIT_KEY: u32 = 113;

/// Key code that increments the counter: the character `j`.
pub const INCREMENT_KEY: u32 = 106;

/// Key code that decrements the counter: the character `k`.
pub const DECREMENT_KEY: u32 = 107;

/// A minimal application for the driver: a saturating counter that quits
/// on the designated key. The crate's own instance of the [`Application`]
/// contract, and the state a host renders.
#[derive(Clone, Copy, Debug, PartialEq, Eq, Structural)]
pub struct AppState {
    /// The value the application displays.
    pub counter: u64,
    /// Set by the update to end the driver loop.
    pub should_quit: bool,
}

impl AppState {
    /// A fresh application: counter at zero, not quitting.
    pub fn new() -> (a: AppState)
        ensures
            a.counter == 0,
            !a.should_quit,
    {
        AppState { counter: 0, should_quit: false }
    }
}

impl Application for AppState {
    open spec fn quit_flag(&self) -> bool {
        self.should_quit
    }

    open spec fn next_state(&self, key: KeyInfo) -> AppState {
        if key.code == QUIT_KEY {
            AppState { counter: self.counter, should_quit: true }
        } else if key.code == INCREMENT_KEY && self.counter < u64::MAX {
            AppState { counter: (self.counter + 1) as u64, should_quit: self.should_quit }
        } else if key.code == DECREMENT_KEY && self.counter > 0 {
            AppState { counter: (self.counter - 1) as u64, should_quit: self.should_quit }
        } else {
            *self
        }
    }

    fn should_quit(&self) -> bool {
        self.should_quit
    }

    fn on_key(&mut self, key: KeyInfo) {
        if key.code == QUIT_KEY {
            self.should_quit = true;
        } else if key.code == INCREMENT_KEY {
            if self.counter < u64::MAX {
                self.counter = self.counter + 1;
            }
        } else if key.code == DECREMENT_KEY {
            if self.counter > 0 {
                self.counter = self.counter - 1;
            }
        }
    }
}

} // verus!

