use yampd::transport::{Fetched, Transport};

#[test]
fn fresh_playhead_is_starved_and_plays() {
    let t = Transport::new();
    assert!(!t.paused());
    assert!(!t.ended());
    assert!(!t.faulted());
    assert_eq!(t.ts(), 0);
    assert_eq!(t.backlog_len(), 0);
    assert!(t.starved());
}

#[test]
fn starved_playhead_emits_silence_and_stays() {
    let mut t = Transport::new();
    assert_eq!(t.emit(), 0);
    assert!(t.starved());
    assert!(!t.ended());
}

#[test]
fn packet_moves_timestamp_and_fills_backlog() {
    let mut t = Transport::new();
    t.load(Fetched::Packet { ts: 1_152, samples: vec![3, -4, 5] });
    assert_eq!(t.ts(), 1_152);
    assert_eq!(t.backlog_len(), 3);
    assert!(!t.starved());
    assert!(!t.ended());
}

#[test]
fn samples_leave_in_order() {
    let mut t = Transport::new();
    t.load(Fetched::Packet { ts: 0, samples: vec![10, 20] });
    t.load(Fetched::Packet { ts: 2, samples: vec![30] });
    assert_eq!(t.emit(), 10);
    assert_eq!(t.emit(), 20);
    assert_eq!(t.emit(), 30);
    assert_eq!(t.backlog_len(), 0);
    assert_eq!(t.emit(), 0);
    assert_eq!(t.ts(), 2);
}

#[test]
fn empty_packet_moves_only_the_timestamp() {
    let mut t = Transport::new();
    t.load(Fetched::Packet { ts: 77, samples: vec![] });
    assert_eq!(t.ts(), 77);
    assert!(t.starved());
    assert_eq!(t.emit(), 0);
}

#[test]
fn end_of_stream_ends_the_session() {
    let mut t = Transport::new();
    t.load(Fetched::Packet { ts: 5, samples: vec![1] });
    assert_eq!(t.emit(), 1);
    t.load(Fetched::End);
    assert!(t.ended());
    assert!(!t.faulted());
    assert!(!t.starved());
    assert_eq!(t.ts(), 5);
    assert_eq!(t.emit(), 0);
}

#[test]
fn ended_playhead_keeps_its_backlog_and_is_silent() {
    let mut t = Transport::new();
    t.load(Fetched::End);
    t.load(Fetched::Packet { ts: 9, samples: vec![8, 8] });
    assert_eq!(t.emit(), 0);
    assert_eq!(t.backlog_len(), 2);
    assert!(t.ended());
}

#[test]
fn corrupt_packet_ends_with_a_fault() {
    let mut t = Transport::new();
    t.load(Fetched::Corrupt { ts: 42 });
    assert!(t.ended());
    assert!(t.faulted());
    assert_eq!(t.ts(), 42);
    assert_eq!(t.emit(), 0);
}

#[test]
fn paused_playhead_is_silent_and_keeps_its_backlog() {
    let mut t = Transport::new();
    t.load(Fetched::Packet { ts: 0, samples: vec![1, 2, 3] });
    t.set_pause(true);
    assert!(t.paused());
    assert!(!t.starved());
    for _ in 0..10 {
        assert_eq!(t.emit(), 0);
    }
    assert_eq!(t.backlog_len(), 3);
    t.set_pause(false);
    assert_eq!(t.emit(), 1);
}

#[test]
fn paused_and_empty_is_not_starved() {
    let mut t = Transport::new();
    t.set_pause(true);
    assert!(!t.starved());
}

#[test]
fn clear_drops_the_backlog_only() {
    let mut t = Transport::new();
    t.load(Fetched::Packet { ts: 11, samples: vec![1, 2, 3] });
    t.set_pause(true);
    t.clear();
    assert_eq!(t.backlog_len(), 0);
    assert_eq!(t.ts(), 11);
    assert!(t.paused());
    assert!(!t.ended());
}

#[test]
fn fail_ends_with_a_fault() {
    let mut t = Transport::new();
    t.load(Fetched::Packet { ts: 11, samples: vec![1] });
    t.fail();
    assert!(t.ended());
    assert!(t.faulted());
    assert_eq!(t.ts(), 11);
    assert_eq!(t.emit(), 0);
}
