use coil_engine::{EventQueue, InputStrategy, TimeSpan};
use crossterm::event::{Event, KeyCode, KeyEvent, KeyModifiers};

#[test]
fn test_input_handler_with_mock() {
    let mut queue: EventQueue<Event> = EventQueue::new();

    let drained: Vec<Event> = queue.drain();
    assert!(drained.is_empty());

    queue.push(Event::Key(KeyEvent::new(KeyCode::Char('a'), KeyModifiers::NONE)));
    queue.push(Event::Key(KeyEvent::new(KeyCode::Enter, KeyModifiers::NONE)));

    let drained: Vec<Event> = queue.drain();
    assert_eq!(drained.len(), 2);

    let drained_again: Vec<Event> = queue.drain();
    assert!(drained_again.is_empty());
}

#[test]
fn test_input_handler_timeout_duration() {
    let short_timeout = TimeSpan::from_millis(1);
    let long_timeout = TimeSpan::from_millis(100);

    assert!(short_timeout < long_timeout);
    assert_eq!(short_timeout.as_millis(), 1);
    assert_eq!(long_timeout.as_millis(), 100);
}

#[test]
fn drain_keeps_arrival_order() {
    let mut queue: EventQueue<char> = EventQueue::new();
    assert!(queue.is_empty());
    queue.push('a');
    queue.push('b');
    queue.push('c');
    assert_eq!(queue.len(), 3);
    assert_eq!(queue.drain(), vec!['a', 'b', 'c']);
    assert!(queue.is_empty());
    queue.push('d');
    assert_eq!(queue.drain(), vec!['d']);
}

#[test]
fn strategy_timeouts() {
    assert_eq!(InputStrategy::NonBlocking.timeout(), TimeSpan::from_millis(1));
    assert_eq!(InputStrategy::FrameBudgeted.timeout(), TimeSpan::from_millis(16));
    assert_eq!(InputStrategy::Timeout(TimeSpan::from_nanos(7)).timeout(), TimeSpan::from_nanos(7));
    assert_eq!(InputStrategy::default(), InputStrategy::NonBlocking);
}

#[test]
fn time_span_conversions() {
    assert_eq!(TimeSpan::from_millis(3).as_nanos(), 3_000_000);
    assert_eq!(TimeSpan::from_nanos(2_999_999).as_millis(), 2);
    assert!(TimeSpan::zero().is_zero());
    assert!(!TimeSpan::from_nanos(1).is_zero());
}
