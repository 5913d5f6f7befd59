use tui_core::event::{
    produce_all, producer_step, AppEvent, EventChannel, EventError, KeyInfo, MouseInfo,
    PollOutcome, RawInput, SourceStatus,
};

fn key(code: u32) -> KeyInfo {
    KeyInfo { code, modifiers: 0 }
}

#[test]
fn event_ordering() {
    let a = AppEvent::Key(key('a' as u32));
    let b = AppEvent::Key(key('b' as u32));
    let c = AppEvent::Key(key('c' as u32));

    let mut channel = EventChannel::new();
    channel.push(a);
    channel.push(b);
    channel.push(AppEvent::Tick);
    channel.push(c);

    assert_eq!(channel.next(), Ok(a));
    assert_eq!(channel.next(), Ok(b));
    assert_eq!(channel.next(), Ok(AppEvent::Tick));
    assert_eq!(channel.next(), Ok(c));
    assert_eq!(channel.next(), Err(EventError::SourceDisconnected));
}

#[test]
fn drain_keeps_production_order() {
    let events = vec![
        AppEvent::Resize(80, 24),
        AppEvent::Key(key('x' as u32)),
        AppEvent::Tick,
        AppEvent::Mouse(MouseInfo { kind: 1, column: 3, row: 4 }),
    ];

    let mut channel = EventChannel::new();
    for e in &events {
        channel.push(*e);
    }

    assert_eq!(channel.drain(), events);
    assert_eq!(channel.len(), 0);
}

#[test]
fn next_on_empty_reports_disconnect() {
    let mut channel = EventChannel::new();
    assert_eq!(channel.next(), Err(EventError::SourceDisconnected));
}

#[test]
fn stop_is_a_reachable_transition() {
    let mut channel = EventChannel::new();
    assert_eq!(channel.status(), SourceStatus::Running);
    channel.push(AppEvent::Tick);

    channel.stop();
    assert_eq!(channel.status(), SourceStatus::Stopped);

    // Events queued before the stop stay deliverable, in order.
    assert_eq!(channel.next(), Ok(AppEvent::Tick));
    assert_eq!(channel.next(), Err(EventError::SourceDisconnected));
}

#[test]
fn producer_translates_each_input_kind() {
    let mut channel = EventChannel::new();
    let k = key('z' as u32);
    let m = MouseInfo { kind: 2, column: 10, row: 20 };

    producer_step(&mut channel, PollOutcome::Input(RawInput::Key(k)));
    producer_step(&mut channel, PollOutcome::Input(RawInput::Mouse(m)));
    producer_step(&mut channel, PollOutcome::Input(RawInput::Resize(132, 43)));
    producer_step(&mut channel, PollOutcome::TimedOut);

    assert_eq!(
        channel.drain(),
        vec![
            AppEvent::Key(k),
            AppEvent::Mouse(m),
            AppEvent::Resize(132, 43),
            AppEvent::Tick,
        ]
    );
}

#[test]
fn tick_fallback_over_ten_idle_intervals() {
    let polls = vec![PollOutcome::TimedOut; 10];
    let mut channel = EventChannel::new();
    produce_all(&mut channel, &polls);

    let delivered = channel.drain();
    assert_eq!(delivered.len(), 10);
    for e in delivered {
        assert_eq!(e, AppEvent::Tick);
    }
}

#[test]
fn input_interleaves_with_ticks_in_poll_order() {
    let k = key('p' as u32);
    let polls = vec![
        PollOutcome::TimedOut,
        PollOutcome::Input(RawInput::Key(k)),
        PollOutcome::TimedOut,
    ];
    let mut channel = EventChannel::new();
    produce_all(&mut channel, &polls);

    assert_eq!(
        channel.drain(),
        vec![AppEvent::Tick, AppEvent::Key(k), AppEvent::Tick]
    );
}
