use yampd::player::{
    Act, Cmd, Install, Player, Rpl, Step, DEFAULT_CHANNELS, DEFAULT_SAMPLE_RATE,
};
use yampd::queue::Queue;
use yampd::song::Song;
use yampd::source::{OpenError, Source};
use yampd::time::Span;

fn player_song(id: u32) -> Song {
    Song {
        song_id: id,
        artist_id: 10,
        album_id: 20,
        title: format!("song {id}"),
        artist: String::from("someone"),
        album: String::from("something"),
        ms: 1_000,
        file: format!("/music/{id}.wav"),
    }
}

fn player_wav(channels: u16, rate: u32, frames: usize) -> Vec<u8> {
    let count = frames * channels as usize;
    let data_len = (count * 2) as u32;
    let block_align = channels * 2;
    let mut bytes = Vec::new();
    bytes.extend_from_slice(b"RIFF");
    bytes.extend_from_slice(&(36 + data_len).to_le_bytes());
    bytes.extend_from_slice(b"WAVE");
    bytes.extend_from_slice(b"fmt ");
    bytes.extend_from_slice(&16u32.to_le_bytes());
    bytes.extend_from_slice(&1u16.to_le_bytes());
    bytes.extend_from_slice(&channels.to_le_bytes());
    bytes.extend_from_slice(&rate.to_le_bytes());
    bytes.extend_from_slice(&(rate * block_align as u32).to_le_bytes());
    bytes.extend_from_slice(&block_align.to_le_bytes());
    bytes.extend_from_slice(&16u16.to_le_bytes());
    bytes.extend_from_slice(b"data");
    bytes.extend_from_slice(&data_len.to_le_bytes());
    for k in 0..count {
        bytes.extend_from_slice(&(k as i16).to_le_bytes());
    }
    bytes
}

fn player_with(n: u32) -> Player {
    let mut p = Player::new();
    for id in 1..=n {
        assert_eq!(p.handle(Cmd::Push(player_song(id))), Act::Rest);
    }
    p
}

fn path(id: u32) -> String {
    format!("/music/{id}.wav")
}

#[test]
fn new_player_has_the_default_endpoint() {
    let p = Player::new();
    assert_eq!(p.channels(), DEFAULT_CHANNELS);
    assert_eq!(p.sample_rate(), DEFAULT_SAMPLE_RATE);
    assert_eq!(p.channels(), 2);
    assert_eq!(p.sample_rate(), 48_000);
    assert!(!p.has_session());
    assert!(p.alive());
    assert_eq!(p.queue(), Queue::new());
}

#[test]
fn play_on_empty_queue_is_silence() {
    let mut p = Player::new();
    assert_eq!(p.handle(Cmd::Play), Act::Silence);
    assert_eq!(p.handle(Cmd::Now), Act::Reply(Rpl::Now(None)));
    assert_eq!(p.now(), None);
    assert!(!p.has_session());
}

#[test]
fn play_opens_the_current_item() {
    let mut p = player_with(3);
    assert_eq!(p.handle(Cmd::Play), Act::Open(path(1)));
    assert_eq!(p.play(), Act::Open(path(1)));
}

#[test]
fn play_with_cursor_out_of_range_is_silence() {
    let mut p = player_with(3);
    p.index(3);
    assert_eq!(p.handle(Cmd::Play), Act::Silence);
}

#[test]
fn push_does_not_touch_playback() {
    let mut p = Player::new();
    assert_eq!(p.handle(Cmd::Push(player_song(5))), Act::Rest);
    assert_eq!(p.queue().songs, vec![(5u32, path(5))]);
    assert_eq!(p.queue().index, 0);
}

#[test]
fn set_index_moves_the_cursor_only() {
    let mut p = player_with(3);
    assert_eq!(p.handle(Cmd::Index(2)), Act::Rest);
    assert_eq!(p.queue().index, 2);
    assert_eq!(p.now(), Some((3, path(3))));
}

#[test]
fn next_moves_then_plays() {
    let mut p = player_with(3);
    assert_eq!(p.handle(Cmd::Next), Act::Open(path(2)));
    assert_eq!(p.handle(Cmd::Next), Act::Open(path(3)));
    assert_eq!(p.handle(Cmd::Next), Act::Open(path(3)));
    assert_eq!(p.queue().index, 2);
}

#[test]
fn prev_moves_then_plays() {
    let mut p = player_with(3);
    p.index(2);
    assert_eq!(p.handle(Cmd::Prev), Act::Open(path(2)));
    assert_eq!(p.handle(Cmd::Prev), Act::Open(path(1)));
    assert_eq!(p.handle(Cmd::Prev), Act::Open(path(1)));
    assert_eq!(p.queue().index, 0);
}

#[test]
fn next_on_empty_queue_is_silence() {
    let mut p = Player::new();
    assert_eq!(p.handle(Cmd::Next), Act::Silence);
    assert_eq!(p.handle(Cmd::Prev), Act::Silence);
}

#[test]
fn ended_advances_to_the_second_item() {
    let mut p = player_with(2);
    assert_eq!(p.handle(Cmd::Play), Act::Open(path(1)));
    let opened = Source::new(player_wav(2, 48_000, 64));
    assert_eq!(p.adopt(&opened), Install::Same);
    assert_eq!(p.handle(Cmd::Ended), Act::Open(path(2)));
    assert_eq!(p.handle(Cmd::Now), Act::Reply(Rpl::Now(Some((2, path(2))))));
    assert_eq!(p.queue().len(), 1);
    assert_eq!(p.queue().index, 0);
}

#[test]
fn ended_on_the_last_item_is_silence() {
    let mut p = player_with(1);
    assert_eq!(p.handle(Cmd::Ended), Act::Silence);
    assert_eq!(p.queue().len(), 0);
    assert_eq!(p.now(), None);
}

#[test]
fn delete_of_the_current_item_replays() {
    let mut p = player_with(3);
    p.index(1);
    assert_eq!(p.handle(Cmd::Delete(1)), Act::Open(path(3)));
    assert_eq!(p.queue().len(), 2);
    assert_eq!(p.queue().index, 1);
}

#[test]
fn delete_of_the_last_current_item_is_silence() {
    let mut p = player_with(3);
    p.index(2);
    assert_eq!(p.handle(Cmd::Delete(2)), Act::Silence);
}

#[test]
fn delete_of_another_item_does_not_touch_playback() {
    let mut p = player_with(3);
    let opened = Source::new(player_wav(1, 8_000, 64));
    assert_eq!(p.adopt(&opened), Install::Rebuild);
    p.index(1);
    assert_eq!(p.handle(Cmd::Delete(2)), Act::Rest);
    assert_eq!(p.handle(Cmd::Delete(0)), Act::Rest);
    assert_eq!(p.handle(Cmd::Delete(17)), Act::Rest);
    assert_eq!(p.channels(), 1);
    assert_eq!(p.sample_rate(), 8_000);
    assert!(p.has_session());
    assert_eq!(p.queue().songs, vec![(2u32, path(2))]);
    assert_eq!(p.queue().index, 1);
}

#[test]
fn delete_at_an_empty_cursor_replays_into_silence() {
    let mut p = Player::new();
    assert_eq!(p.handle(Cmd::Delete(0)), Act::Silence);
}

#[test]
fn session_with_another_format_rebuilds_the_endpoint() {
    let mut p = Player::new();
    let mono = Source::new(player_wav(1, 48_000, 64));
    assert_eq!(p.adopt(&mono), Install::Rebuild);
    assert_eq!((p.channels(), p.sample_rate()), (1, 48_000));
    let slow = Source::new(player_wav(1, 8_000, 64));
    assert_eq!(p.adopt(&slow), Install::Rebuild);
    assert_eq!((p.channels(), p.sample_rate()), (1, 8_000));
    let same = Source::new(player_wav(1, 8_000, 32));
    assert_eq!(p.adopt(&same), Install::Same);
    assert_eq!((p.channels(), p.sample_rate()), (1, 8_000));
}

#[test]
fn session_with_the_default_format_keeps_the_endpoint() {
    let mut p = Player::new();
    let opened = Source::new(player_wav(2, 48_000, 64));
    assert_eq!(p.adopt(&opened), Install::Same);
    assert!(p.has_session());
}

#[test]
fn failed_open_changes_nothing() {
    let mut p = player_with(1);
    let good = Source::new(player_wav(1, 8_000, 64));
    assert_eq!(p.adopt(&good), Install::Rebuild);
    let bad: Result<Source, OpenError> = Source::new(vec![1, 2, 3]);
    assert_eq!(p.adopt(&bad), Install::Keep);
    assert_eq!((p.channels(), p.sample_rate()), (1, 8_000));
    assert!(p.has_session());
    let unread = Source::open(None);
    assert_eq!(p.adopt(&unread), Install::Keep);
    let mut fresh = Player::new();
    assert_eq!(fresh.adopt(&bad), Install::Keep);
    assert!(!fresh.has_session());
}

#[test]
fn session_commands_without_session_do_nothing() {
    let mut p = Player::new();
    assert_eq!(p.handle(Cmd::SetPause(true)), Act::Rest);
    assert_eq!(p.handle(Cmd::SetPosition(Span::from_millis(5))), Act::Rest);
}

#[test]
fn queries_without_session_get_defaults() {
    let mut p = Player::new();
    assert_eq!(p.handle(Cmd::Pause), Act::Reply(Rpl::Is(false)));
    assert_eq!(p.handle(Cmd::Duration), Act::Reply(Rpl::Time(Span::zero())));
    assert_eq!(p.handle(Cmd::Position), Act::Reply(Rpl::Time(Span::zero())));
}

#[test]
fn session_commands_are_passed_on() {
    let mut p = Player::new();
    let opened = Source::new(player_wav(2, 48_000, 64));
    p.adopt(&opened);
    assert_eq!(p.handle(Cmd::SetPause(true)), Act::SetPause(true));
    assert_eq!(p.handle(Cmd::SetPause(false)), Act::SetPause(false));
    assert_eq!(p.handle(Cmd::SetPosition(Span::from_millis(5))), Act::Seek(Span::from_millis(5)));
    assert_eq!(p.handle(Cmd::Pause), Act::AskPaused);
    assert_eq!(p.handle(Cmd::Duration), Act::AskDuration);
    assert_eq!(p.handle(Cmd::Position), Act::AskPosition);
}

#[test]
fn queue_query_replies_with_a_copy() {
    let mut p = player_with(2);
    p.index(1);
    let mut want = Queue::new();
    want.push(player_song(1));
    want.push(player_song(2));
    want.index(1);
    assert_eq!(p.handle(Cmd::Queue), Act::Reply(Rpl::Queue(want)));
}

#[test]
fn silence_keeps_the_session_for_queries() {
    let mut p = Player::new();
    let opened = Source::new(player_wav(2, 48_000, 64));
    p.adopt(&opened);
    assert_eq!(p.handle(Cmd::Play), Act::Silence);
    assert_eq!(p.handle(Cmd::Pause), Act::AskPaused);
}

#[test]
fn die_is_final() {
    let mut p = player_with(2);
    assert_eq!(p.handle(Cmd::Die), Act::Stop);
    assert!(!p.alive());
    assert_eq!(p.handle(Cmd::Play), Act::Stop);
    assert_eq!(p.handle(Cmd::Push(player_song(9))), Act::Stop);
    assert_eq!(p.handle(Cmd::Next), Act::Stop);
    assert_eq!(p.handle(Cmd::Now), Act::Stop);
    assert_eq!(p.queue().len(), 2);
    assert_eq!(p.queue().index, 0);
}

#[test]
fn perform_sets_the_pause_flag() {
    let mut s = Source::new(player_wav(1, 8_000, 4_000)).unwrap();
    assert_eq!(Act::SetPause(true).perform(&mut s), None);
    assert!(s.paused());
    assert_eq!(Act::AskPaused.perform(&mut s), Some(Rpl::Is(true)));
    assert_eq!(Act::SetPause(false).perform(&mut s), None);
    assert_eq!(Act::AskPaused.perform(&mut s), Some(Rpl::Is(false)));
}

#[test]
fn perform_seeks_and_reports_times() {
    let mut s = Source::new(player_wav(1, 8_000, 4_000)).unwrap();
    assert_eq!(Act::AskDuration.perform(&mut s), Some(Rpl::Time(Span::from_millis(500))));
    assert_eq!(Act::AskPosition.perform(&mut s), Some(Rpl::Time(Span::zero())));
    assert_eq!(Act::Seek(Span::from_millis(300)).perform(&mut s), None);
    assert_eq!(Act::AskPosition.perform(&mut s), Some(Rpl::Time(Span::from_millis(288))));
}

#[test]
fn perform_leaves_other_actions_alone() {
    let mut s = Source::new(player_wav(1, 8_000, 4_000)).unwrap();
    for act in [
        Act::Rest,
        Act::Open(String::from("/x")),
        Act::Silence,
        Act::Reply(Rpl::Is(true)),
        Act::Stop,
    ] {
        assert_eq!(act.perform(&mut s), None);
    }
    assert!(!s.paused());
    assert_eq!(s.position(), Span::zero());
}

#[test]
fn failed_open_takes_no_step() {
    let p = Player::new();
    assert_eq!(p.steps(Install::Keep), vec![]);
}

#[test]
fn same_format_only_installs() {
    let p = Player::new();
    assert_eq!(p.steps(Install::Same), vec![Step::Install]);
}

#[test]
fn rebuild_stops_before_it_starts() {
    let mut p = Player::new();
    let opened = Source::new(player_wav(1, 8_000, 64));
    let install = p.adopt(&opened);
    assert_eq!(
        p.steps(install),
        vec![Step::Stop, Step::Start { channels: 1, sample_rate: 8_000 }, Step::Install]
    );
}

#[test]
fn silence_restarts_the_endpoint_in_its_format() {
    let mut p = Player::new();
    assert_eq!(p.silence(), vec![Step::Stop, Step::Start { channels: 2, sample_rate: 48_000 }]);
    let opened = Source::new(player_wav(1, 8_000, 64));
    p.adopt(&opened);
    assert_eq!(p.silence(), vec![Step::Stop, Step::Start { channels: 1, sample_rate: 8_000 }]);
}
