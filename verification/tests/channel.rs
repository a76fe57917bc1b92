use stelarc::channel::EventChannel;
use stelarc::event::{CommandUpdate, Outcome, StreamOrigin};

fn queued_line(text: &str) -> CommandUpdate {
    CommandUpdate::LogLine { text: text.to_string(), origin: StreamOrigin::Stdout }
}

fn queued_done() -> CommandUpdate {
    CommandUpdate::Completed { outcome: Outcome::Success { message: "ok".to_string() } }
}

#[test]
fn new_channel_is_empty_and_open() {
    let mut channel = EventChannel::new();
    assert!(channel.is_empty());
    assert_eq!(channel.len(), 0);
    assert!(!channel.is_sealed());
    assert_eq!(channel.try_recv(), None);
    assert_eq!(channel.drain(), vec![]);
}

#[test]
fn events_leave_in_the_order_of_arrival() {
    let mut channel = EventChannel::new();
    assert!(channel.send(queued_line("a")));
    assert!(channel.send(queued_line("b")));
    assert!(channel.send(CommandUpdate::Progress { permille: 500 }));
    assert_eq!(channel.len(), 3);
    assert_eq!(channel.try_recv(), Some(queued_line("a")));
    assert_eq!(channel.try_recv(), Some(queued_line("b")));
    assert_eq!(channel.try_recv(), Some(CommandUpdate::Progress { permille: 500 }));
    assert_eq!(channel.try_recv(), None);
}

#[test]
fn terminal_event_seals_the_channel() {
    let mut channel = EventChannel::new();
    assert!(channel.send(queued_line("a")));
    assert!(channel.send(queued_done()));
    assert!(channel.is_sealed());
    assert!(!channel.send(queued_line("late")));
    assert!(!channel.send(queued_done()));
    assert_eq!(channel.drain(), vec![queued_line("a"), queued_done()]);
    assert!(channel.is_sealed());
    assert!(!channel.send(queued_line("later")));
    assert!(channel.is_empty());
}

#[test]
fn drain_takes_what_waits_and_no_more() {
    let mut channel = EventChannel::new();
    channel.send(queued_line("a"));
    channel.send(queued_line("b"));
    assert_eq!(channel.drain(), vec![queued_line("a"), queued_line("b")]);
    assert_eq!(channel.drain(), vec![]);
    channel.send(queued_line("c"));
    assert_eq!(channel.drain(), vec![queued_line("c")]);
}

#[test]
fn many_events_are_all_kept() {
    let mut channel = EventChannel::new();
    for i in 0..10_000 {
        assert!(channel.send(queued_line(&format!("line {}", i))));
    }
    assert_eq!(channel.len(), 10_000);
    let all = channel.drain();
    assert_eq!(all.len(), 10_000);
    assert_eq!(all[0], queued_line("line 0"));
    assert_eq!(all[9_999], queued_line("line 9999"));
}
