use yampd::remote::{is_music, now_playing, seek_back, seek_forward, seek_to, Now};
use yampd::time::Span;

#[test]
fn nothing_current_is_not_playing() {
    assert_eq!(now_playing(None, Span::from_millis(5), Span::from_millis(9), true), None);
}

#[test]
fn report_is_in_whole_milliseconds() {
    let report = now_playing(
        Some((42, String::from("/music/a.flac"))),
        Span::new(1, 234_999_999),
        Span::from_secs(180),
        false,
    );
    assert_eq!(report, Some(Now { id: 42, pos: 1_234, dur: 180_000, pause: false }));
}

#[test]
fn report_carries_the_pause_flag() {
    let report = now_playing(Some((1, String::new())), Span::zero(), Span::zero(), true);
    assert_eq!(report, Some(Now { id: 1, pos: 0, dur: 0, pause: true }));
}

#[test]
fn absolute_seek_is_in_milliseconds() {
    assert_eq!(seek_to(0), Span::zero());
    assert_eq!(seek_to(61_500), Span::new(61, 500_000_000));
    assert_eq!(seek_to(u32::MAX).as_millis(), u32::MAX as u128);
}

#[test]
fn forward_seek_adds() {
    assert_eq!(seek_forward(Span::from_millis(900), 250), Span::from_millis(1_150));
    assert_eq!(seek_forward(Span::zero(), 0), Span::zero());
}

#[test]
fn forward_seek_stops_at_the_longest_span() {
    let longest = Span::new(u64::MAX, 999_999_999);
    assert_eq!(seek_forward(Span::new(u64::MAX, 999_000_000), 5), longest);
    assert_eq!(seek_forward(longest, 1), longest);
}

#[test]
fn backward_seek_subtracts() {
    assert_eq!(seek_back(Span::from_millis(900), 250), Span::from_millis(650));
    assert_eq!(seek_back(Span::from_millis(900), 900), Span::zero());
}

#[test]
fn backward_seek_stops_at_the_start() {
    assert_eq!(seek_back(Span::from_millis(100), 250), Span::zero());
    assert_eq!(seek_back(Span::zero(), 1), Span::zero());
}

#[test]
fn audio_files_are_told_by_their_ending() {
    assert!(is_music(b"/music/a.ogg"));
    assert!(is_music(b"/music/a.mp3"));
    assert!(is_music(b"/music/a.m4a"));
    assert!(is_music(b"/music/a.wav"));
    assert!(is_music(b"/music/a.flac"));
    assert!(is_music(b".ogg"));
    assert!(is_music(b".flac"));
}

#[test]
fn other_files_are_not_audio_files() {
    assert!(!is_music(b""));
    assert!(!is_music(b"ogg"));
    assert!(!is_music(b"flac"));
    assert!(!is_music(b"/music/cover.jpg"));
    assert!(!is_music(b"/music/a.OGG"));
    assert!(!is_music(b"/music/a.wav.txt"));
    assert!(!is_music(b"/music/a.fla"));
    assert!(!is_music(b"/music/aflac"));
    assert!(!is_music(b"/music/a.mp4"));
}
