use yampd::queue::Queue;
use yampd::song::Song;

fn queue_song(id: u32, file: &str) -> Song {
    Song {
        song_id: id,
        artist_id: 1,
        album_id: 1,
        title: format!("title {id}"),
        artist: String::from("artist"),
        album: String::from("album"),
        ms: 0,
        file: String::from(file),
    }
}

fn queue_of(n: u32) -> Queue {
    let mut q = Queue::new();
    for id in 0..n {
        q.push(queue_song(id, &format!("/music/{id}.wav")));
    }
    q
}

#[test]
fn new_queue_is_empty() {
    let q = Queue::new();
    assert_eq!(q.index, 0);
    assert!(q.songs.is_empty());
    assert_eq!(q.len(), 0);
    assert_eq!(q.now(), None);
}

#[test]
fn pushes_keep_count_and_order() {
    let mut q = Queue::new();
    for id in 0..25u32 {
        q.push(queue_song(id * 3, &format!("/m/{id}.flac")));
        assert_eq!(q.len(), id as usize + 1);
        assert_eq!(q.index, 0);
    }
    for id in 0..25u32 {
        assert_eq!(q.songs[id as usize], (id * 3, format!("/m/{id}.flac")));
    }
}

#[test]
fn push_takes_id_and_file_only() {
    let mut q = Queue::new();
    q.push(queue_song(7, "/a/b.ogg"));
    assert_eq!(q.songs, vec![(7u32, String::from("/a/b.ogg"))]);
}

#[test]
fn push_does_not_move_cursor() {
    let mut q = queue_of(3);
    q.index(2);
    q.push(queue_song(9, "/x.wav"));
    assert_eq!(q.index, 2);
    assert_eq!(q.len(), 4);
}

#[test]
fn next_steps_forward() {
    let mut q = queue_of(3);
    q.next();
    assert_eq!(q.index, 1);
    q.next();
    assert_eq!(q.index, 2);
}

#[test]
fn next_at_last_index_is_a_no_op() {
    let mut q = queue_of(3);
    q.index(2);
    q.next();
    assert_eq!(q.index, 2);
    assert_eq!(q.len(), 3);
}

#[test]
fn next_on_empty_queue_is_a_no_op() {
    let mut q = Queue::new();
    q.next();
    assert_eq!(q.index, 0);
}

#[test]
fn next_past_the_end_is_a_no_op() {
    let mut q = queue_of(2);
    q.index(10);
    q.next();
    assert_eq!(q.index, 10);
}

#[test]
fn prev_steps_back() {
    let mut q = queue_of(3);
    q.index(2);
    q.prev();
    assert_eq!(q.index, 1);
}

#[test]
fn prev_at_zero_is_a_no_op() {
    let mut q = queue_of(3);
    q.prev();
    assert_eq!(q.index, 0);
    assert_eq!(q.len(), 3);
}

#[test]
fn prev_from_past_the_end_steps_back() {
    let mut q = queue_of(2);
    q.index(10);
    q.prev();
    assert_eq!(q.index, 9);
}

#[test]
fn set_index_is_unchecked() {
    let mut q = queue_of(2);
    q.index(usize::MAX);
    assert_eq!(q.index, usize::MAX);
    assert_eq!(q.now(), None);
    q.next();
    assert_eq!(q.index, usize::MAX);
}

#[test]
fn now_is_the_item_under_the_cursor() {
    let mut q = queue_of(3);
    assert_eq!(q.now(), Some((0, String::from("/music/0.wav"))));
    q.index(2);
    assert_eq!(q.now(), Some((2, String::from("/music/2.wav"))));
    q.index(3);
    assert_eq!(q.now(), None);
}

#[test]
fn delete_out_of_range_changes_nothing() {
    let mut q = queue_of(3);
    q.index(1);
    let before = q.clone();
    q.delete(3);
    assert_eq!(q, before);
    q.delete(usize::MAX);
    assert_eq!(q, before);
    let mut empty = Queue::new();
    empty.delete(0);
    assert_eq!(empty, Queue::new());
}

#[test]
fn delete_in_range_removes_that_item() {
    let mut q = queue_of(4);
    q.delete(1);
    assert_eq!(
        q.songs,
        vec![
            (0u32, String::from("/music/0.wav")),
            (2u32, String::from("/music/2.wav")),
            (3u32, String::from("/music/3.wav")),
        ]
    );
}

#[test]
fn delete_before_cursor_keeps_the_cursor_number() {
    // The cursor is not renumbered: it now points at the item that followed.
    let mut q = queue_of(4);
    q.index(2);
    q.delete(0);
    assert_eq!(q.index, 2);
    assert_eq!(q.now(), Some((3, String::from("/music/3.wav"))));
}

#[test]
fn remove_current_promotes_the_successor() {
    let mut q = queue_of(3);
    q.index(1);
    q.remove();
    assert_eq!(q.index, 1);
    assert_eq!(q.len(), 2);
    assert_eq!(q.now(), Some((2, String::from("/music/2.wav"))));
}

#[test]
fn remove_last_item_leaves_no_current() {
    let mut q = queue_of(3);
    q.index(2);
    q.remove();
    assert_eq!(q.len(), 2);
    assert_eq!(q.now(), None);
}

#[test]
fn remove_without_current_changes_nothing() {
    let mut q = queue_of(3);
    q.index(5);
    let before = q.clone();
    q.remove();
    assert_eq!(q, before);
}

#[test]
fn snapshot_is_an_equal_copy() {
    let mut q = queue_of(5);
    q.index(3);
    let copy = q.snapshot();
    assert_eq!(copy, q);
    q.delete(0);
    assert_eq!(copy.len(), 5);
}
