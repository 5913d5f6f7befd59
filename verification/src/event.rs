//! Event source: keyboard, mouse and resize input merged with a periodic
//! tick into one ordered stream.
//!
//! The producer polls the input device with a bounded timeout equal to the
//! tick interval; input that arrives is translated and queued immediately,
//! and an elapsed timeout queues exactly one `Tick` instead, so the
//! consumer receives at least one event per interval without input ever
//! waiting on the tick period. [`EventChannel`] is the ordered queue
//! between the two sides; its contracts pin down that delivery order is
//! exactly production order, with nothing lost, duplicated or coalesced.

use vstd::prelude::*;

verus! {

/// A key press, as plain values.
#[derive(Clone, Copy, Debug, PartialEq, Eq, Structural)]
pub struct KeyInfo {
    /// The key's code: for a character key, its scalar value.
    pub code: u32,
    /// Modifier keys held, as a bit set.
    pub modifiers: u8,
}

/// A mouse event, as plain values.
#[derive(Clone, Copy, Debug, PartialEq, Eq, Structural)]
pub struct MouseInfo {
    /// What happened: press, release, drag, movement, scroll.
    pub kind: u8,
    /// Column of the terminal cell the event is on.
    pub column: u16,
    /// Row of the terminal cell the event is on.
    pub row: u16,
}

/// One event of the merged stream the application driver consumes.
#[derive(Clone, Copy, Debug, PartialEq, Eq, Structural)]
pub enum AppEvent {
    /// The periodic heartbeat: no input arrived within one tick interval.
    Tick,
    /// A key press.
    Key(KeyInfo),
    /// A mouse event.
    Mouse(MouseInfo),
    /// The terminal was resized to the given width and height.
    Resize(u16, u16),
}

/// Why the consumer can get no further event.
#[derive(Clone, Copy, Debug, PartialEq, Eq, Structural)]
pub enum EventError {
    /// The producer side has terminated; no event will ever arrive again.
    /// Terminal for the whole application.
    SourceDisconnected,
}

/// Whether the producer side of the channel still runs.
#[derive(Clone, Copy, Debug, PartialEq, Eq, Structural)]
pub enum SourceStatus {
    /// The producer is alive and may still queue events.
    Running,
    /// The producer has shut down or failed; only already queued events
    /// remain.
    Stopped,
}

/// The ordered queue between the polling producer and the consuming
/// driver. Its view is the sequence of pending events, oldest first;
/// events leave in exactly the order they entered.
pub struct EventChannel {
    queue: Vec<AppEvent>,
    status: SourceStatus,
}

impl View for EventChannel {
    type V = Seq<AppEvent>;

    closed spec fn view(&self) -> Seq<AppEvent> {
        self.queue@
    }
}

impl EventChannel {
    /// Whether the producer side still runs.
    pub closed spec fn status_spec(&self) -> SourceStatus {
        self.status
    }

    /// An empty channel with a running producer.
    pub fn new() -> (c: EventChannel)
        ensures
            c@ == Seq::<AppEvent>::empty(),
            c.status_spec() == SourceStatus::Running,
    {
        EventChannel { queue: Vec::new(), status: SourceStatus::Running }
    }

    /// How many events are pending.
    pub fn len(&self) -> (n: usize)
        ensures
            n == self@.len(),
    {
        self.queue.len()
    }

    /// Whether the producer side still runs.
    pub fn status(&self) -> (s: SourceStatus)
        ensures
            s == self.status_spec(),
    {
        self.status
    }

    /// Producer side: append one event. Everything already queued stays,
    /// in place; the new event is delivered after all of it.
    pub fn push(&mut self, e: AppEvent)
        ensures
            final(self)@ == old(self)@.push(e),
            final(self).status_spec() == old(self).status_spec(),
    {
        self.queue.push(e);
    }

    /// Producer side: announce that no further event will come. Events
    /// already queued stay deliverable.
    pub fn stop(&mut self)
        ensures
            final(self)@ == old(self)@,
            final(self).status_spec() == SourceStatus::Stopped,
    {
        self.status = SourceStatus::Stopped;
    }

    /// Consumer side: the next event, in arrival order. With the script
    /// exhausted there is nothing left to wait for, and the consumer sees
    /// the producer as disconnected.
    pub fn next(&mut self) -> (r: Result<AppEvent, EventError>)
        ensures
            old(self)@.len() > 0 ==> {
                &&& r == Ok::<AppEvent, EventError>(old(self)@[0])
                &&& final(self)@ == old(self)@.skip(1)
            },
            old(self)@.len() == 0 ==> {
                &&& r == Err::<AppEvent, EventError>(EventError::SourceDisconnected)
                &&& final(self)@ == old(self)@
            },
            final(self).status_spec() == old(self).status_spec(),
    {
        if self.queue.len() > 0 {
            let e = self.queue.remove(0);
            proof {
                assert(self.queue@ =~= old(self)@.skip(1));
            }
            Ok(e)
        } else {
            Err(EventError::SourceDisconnected)
        }
    }

    /// Consumer side: every pending event at once. The result is exactly
    /// the produced sequence, in production order — the statement that the
    /// consumer observes events in the order the producer emitted them,
    /// with no reordering or coalescing across event kinds.
    pub fn drain(&mut self) -> (events: Vec<AppEvent>)
        ensures
            events@ == old(self)@,
            final(self)@ == Seq::<AppEvent>::empty(),
            final(self).status_spec() == old(self).status_spec(),
    {
        let mut events: Vec<AppEvent> = Vec::new();
        loop
            invariant
                events@.len() <= old(self)@.len(),
                events@ == old(self)@.take(events@.len() as int),
                self@ == old(self)@.skip(events@.len() as int),
                self.status_spec() == old(self).status_spec(),
            ensures
                self@.len() == 0,
                events@ == old(self)@.take(events@.len() as int),
                events@.len() == old(self)@.len(),
                self.status_spec() == old(self).status_spec(),
            decreases self@.len(),
        {
            let ghost taken = events@.len() as int;
            if self.queue.len() == 0 {
                break;
            }
            match self.next() {
                Ok(e) => {
                    events.push(e);
                    proof {
                        assert(events@ =~= old(self)@.take(taken + 1));
                        assert(self@ =~= old(self)@.skip(taken + 1));
                    }
                }
                Err(_) => {
                    break;
                }
            }
        }
        proof {
            assert(events@ =~= old(self)@);
            assert(self@ =~= Seq::<AppEvent>::empty());
        }
        events
    }
}

/// Input already translated to plain values, as the polling producer
/// reads it from the input device.
#[derive(Clone, Copy, Debug, PartialEq, Eq, Structural)]
pub enum RawInput {
    /// A key press.
    Key(KeyInfo),
    /// A mouse event.
    Mouse(MouseInfo),
    /// The terminal was resized to the given width and height.
    Resize(u16, u16),
}

/// What one bounded poll of the input device yielded: input, or an
/// elapsed timeout.
#[derive(Clone, Copy, Debug, PartialEq, Eq, Structural)]
pub enum PollOutcome {
    /// Input arrived within the tick interval.
    Input(RawInput),
    /// The tick interval elapsed with no input.
    TimedOut,
}

/// The event one poll cycle produces: arrived input keeps its kind and
/// payload; an elapsed timeout produces the heartbeat.
pub open spec fn event_for(p: PollOutcome) -> AppEvent {
    match p {
        PollOutcome::Input(RawInput::Key(k)) => AppEvent::Key(k),
        PollOutcome::Input(RawInput::Mouse(m)) => AppEvent::Mouse(m),
        PollOutcome::Input(RawInput::Resize(w, h)) => AppEvent::Resize(w, h),
        PollOutcome::TimedOut => AppEvent::Tick,
    }
}

/// Translate one poll outcome into the event it produces.
pub fn event_of_poll(p: PollOutcome) -> (e: AppEvent)
    ensures
        e == event_for(p),
{
    match p {
        PollOutcome::Input(RawInput::Key(k)) => AppEvent::Key(k),
        PollOutcome::Input(RawInput::Mouse(m)) => AppEvent::Mouse(m),
        PollOutcome::Input(RawInput::Resize(w, h)) => AppEvent::Resize(w, h),
        PollOutcome::TimedOut => AppEvent::Tick,
    }
}

/// One cycle of the producer: queue exactly one event for what the poll
/// yielded — the translated input, or one `Tick` on timeout.
pub fn producer_step(ch: &mut EventChannel, p: PollOutcome)
    ensures
        final(ch)@ == old(ch)@.push(event_for(p)),
        final(ch).status_spec() == old(ch).status_spec(),
{
    let e = event_of_poll(p);
    ch.push(e);
}

/// A run of producer cycles: each poll outcome contributes exactly one
/// event, in poll order, after everything already queued.
pub fn produce_all(ch: &mut EventChannel, polls: &Vec<PollOutcome>)
    ensures
        final(ch)@ == old(ch)@ + polls@.map_values(|p: PollOutcome| event_for(p)),
        final(ch).status_spec() == old(ch).status_spec(),
{
    let mut i: usize = 0;
    while i < polls.len()
        invariant
            i <= polls.len(),
            ch@ == old(ch)@ + polls@.take(i as int).map_values(|p: PollOutcome| event_for(p)),
            ch.status_spec() == old(ch).status_spec(),
        decreases polls.len() - i,
    {
        let ghost done = i as int;
        producer_step(ch, polls[i]);
        i = i + 1;
        proof {
            assert(polls@.take(done + 1).map_values(|p: PollOutcome| event_for(p)) =~= polls@.take(
                done,
            ).map_values(|p: PollOutcome| event_for(p)).push(event_for(polls@[done])));
            assert(ch@ =~= old(ch)@ + polls@.take(done + 1).map_values(
                |p: PollOutcome| event_for(p),
            ));
        }
    }
    proof {
        assert(polls@.take(polls@.len() as int) =~= polls@);
    }
}

/// Tick fallback: over any stretch of poll cycles in which no input
/// arrives, each cycle contributes exactly one `Tick` — as many ticks as
/// intervals, none missing and none duplicated.
pub proof fn lemma_tick_fallback(polls: Seq<PollOutcome>)
    requires
        forall|i: int| 0 <= i < polls.len() ==> polls[i] == PollOutcome::TimedOut,
    ensures
        polls.map_values(|p: PollOutcome| event_for(p)).len() == polls.len(),
        ({
            let ticks = polls.map_values(|p: PollOutcome| event_for(p));
            forall|i: int| 0 <= i < polls.len() ==> #[trigger] ticks[i] == AppEvent::Tick
        }),
{
}

} // verus!
