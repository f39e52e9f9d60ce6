//! The play queue: an ordered list of items and a cursor.
//!
//! The cursor is a plain number. Nothing keeps it inside the list: a cursor
//! that points past the end means that nothing is current.

use vstd::prelude::*;
use crate::song::Song;

verus! {

/// What a queue is, mathematically: the cursor and the items in order.
/// An item is a song id and the path of its file.
#[verifier::ext_equal]
pub struct QueueView {
    pub index: usize,
    pub songs: Seq<(u32, String)>,
}

impl QueueView {
    /// The empty queue with the cursor at the start.
    pub open spec fn empty() -> QueueView {
        QueueView { index: 0, songs: Seq::empty() }
    }

    /// The item under the cursor, if the cursor is inside the list.
    pub open spec fn now(self) -> Option<(u32, String)> {
        if self.index < self.songs.len() {
            Some(self.songs[self.index as int])
        } else {
            None
        }
    }

    /// `item` appended; the cursor stays.
    pub open spec fn push(self, item: (u32, String)) -> QueueView {
        QueueView { index: self.index, songs: self.songs.push(item) }
    }

    /// Every item of `items` appended, first to last.
    pub open spec fn push_all(self, items: Seq<(u32, String)>) -> QueueView
        decreases items.len(),
    {
        if items.len() == 0 {
            self
        } else {
            self.push_all(items.drop_last()).push(items.last())
        }
    }

    /// The item at `index` taken out if there is one; the cursor stays.
    pub open spec fn delete(self, index: usize) -> QueueView {
        if index < self.songs.len() {
            QueueView { index: self.index, songs: self.songs.remove(index as int) }
        } else {
            self
        }
    }

    /// The cursor put at `index`, wherever that is.
    pub open spec fn set_index(self, index: usize) -> QueueView {
        QueueView { index, songs: self.songs }
    }

    /// The cursor one step on, unless it is at the last item or beyond.
    pub open spec fn next(self) -> QueueView {
        if self.index + 1 < self.songs.len() {
            QueueView { index: (self.index + 1) as usize, songs: self.songs }
        } else {
            self
        }
    }

    /// The cursor one step back, unless it is at the start.
    pub open spec fn prev(self) -> QueueView {
        if self.index != 0 {
            QueueView { index: (self.index - 1) as usize, songs: self.songs }
        } else {
            self
        }
    }

    /// The current item taken out, so that its successor becomes current.
    pub open spec fn remove(self) -> QueueView {
        self.delete(self.index)
    }
}

/// The play queue.
#[derive(Debug, Clone, PartialEq, Eq)]
pub struct Queue {
    pub index: usize,
    pub songs: Vec<(u32, String)>,
}

impl View for Queue {
    type V = QueueView;

    open spec fn view(&self) -> QueueView {
        QueueView { index: self.index, songs: self.songs@ }
    }
}

impl Queue {
    /// An empty queue.
    pub fn new() -> (q: Queue)
        ensures
            q@ == QueueView::empty(),
    {
        Queue { index: 0, songs: Vec::new() }
    }

    /// Appends the song's id and file path. The cursor does not move.
    pub fn push(&mut self, song: Song)
        ensures
            final(self)@ == old(self)@.push((song.song_id, song.file)),
    {
        self.songs.push((song.song_id, song.file));
    }

    /// Removes the item at `index`. Out of range, nothing happens. The cursor
    /// keeps its number, so after a deletion before it the cursor points at
    /// the item that followed the one it pointed at.
    pub fn delete(&mut self, index: usize)
        ensures
            final(self)@ == old(self)@.delete(index),
    {
        if index < self.songs.len() {
            self.songs.remove(index);
        }
    }

    /// Puts the cursor at `index` without looking at the list.
    pub fn index(&mut self, index: usize)
        ensures
            final(self)@ == old(self)@.set_index(index),
    {
        self.index = index;
    }

    /// Moves the cursor to the following item. At the last item, past the
    /// end or on an empty queue the cursor stays.
    pub fn next(&mut self)
        ensures
            final(self)@ == old(self)@.next(),
    {
        let len = self.songs.len();
        if len > 0 && self.index < len - 1 {
            self.index += 1;
        }
    }

    /// Moves the cursor to the preceding item. At the start it stays.
    pub fn prev(&mut self)
        ensures
            final(self)@ == old(self)@.prev(),
    {
        if self.index != 0 {
            self.index -= 1;
        }
    }

    /// Removes the current item, if there is one. The cursor keeps its
    /// number, so the item that followed becomes current.
    pub fn remove(&mut self)
        ensures
            final(self)@ == old(self)@.remove(),
    {
        if self.index < self.songs.len() {
            self.songs.remove(self.index);
        }
    }

    /// The current item, or `None` when the cursor is outside the list.
    pub fn now(&self) -> (item: Option<(u32, String)>)
        ensures
            item == self@.now(),
    {
        if self.index < self.songs.len() {
            let entry = &self.songs[self.index];
            Some((entry.0, entry.1.clone()))
        } else {
            None
        }
    }

    /// The number of items.
    pub fn len(&self) -> (n: usize)
        ensures
            n == self@.songs.len(),
    {
        self.songs.len()
    }

    /// A copy of the queue: same cursor, same items in the same order.
    pub fn snapshot(&self) -> (copy: Queue)
        ensures
            copy@ == self@,
    {
        let mut songs: Vec<(u32, String)> = Vec::new();
        let mut i: usize = 0;
        while i < self.songs.len()
            invariant
                i <= self.songs.len(),
                songs@ == self.songs@.subrange(0, i as int),
            decreases self.songs.len() - i,
        {
            let entry = &self.songs[i];
            songs.push((entry.0, entry.1.clone()));
            i += 1;
        }
        Queue { index: self.index, songs }
    }
}

/// Pushing a run of items onto a queue appends exactly that run: the length
/// grows by the number of pushes, the order is the order of the pushes, what
/// was queued before stays in front, and the cursor does not move.
pub proof fn lemma_pushes_append_in_order(q: QueueView, items: Seq<(u32, String)>)
    ensures
        q.push_all(items).songs == q.songs + items,
        q.push_all(items).songs.len() == q.songs.len() + items.len(),
        q.push_all(items).index == q.index,
    decreases items.len(),
{
    if items.len() > 0 {
        lemma_pushes_append_in_order(q, items.drop_last());
    }
}

/// Pushing onto the empty queue gives a queue that holds the pushed items and
/// nothing else, as many as there were pushes and in their order.
pub proof fn lemma_pushes_from_empty(items: Seq<(u32, String)>)
    ensures
        QueueView::empty().push_all(items).songs == items,
        QueueView::empty().push_all(items).songs.len() == items.len(),
{
    lemma_pushes_append_in_order(QueueView::empty(), items);
}

/// At the last item `next` changes nothing, and at the first item `prev`
/// changes nothing.
pub proof fn lemma_navigation_stops_at_the_ends(q: QueueView)
    ensures
        q.index + 1 == q.songs.len() ==> q.next() == q,
        q.index == 0 ==> q.prev() == q,
        q.songs.len() == 0 ==> q.next() == q,
{
}

/// Navigation clamps: a cursor inside the list stays inside it, and `next`
/// and `prev` move it by one step at most and leave the items alone.
pub proof fn lemma_navigation_stays_in_range(q: QueueView)
    requires
        q.index < q.songs.len() <= usize::MAX,
    ensures
        q.next().index < q.songs.len(),
        q.prev().index < q.songs.len(),
        q.index <= q.next().index <= q.index + 1,
        q.prev().index <= q.index <= q.prev().index + 1,
        q.next().songs == q.songs,
        q.prev().songs == q.songs,
{
}

/// After the current item is removed, the current item is the one that stood
/// right behind it; if it was the last one, nothing is current.
pub proof fn lemma_remove_promotes_successor(q: QueueView)
    requires
        q.index < q.songs.len(),
    ensures
        q.index + 1 < q.songs.len() ==> q.remove().now() == Some(q.songs[q.index + 1]),
        q.index + 1 == q.songs.len() ==> q.remove().now().is_none(),
        q.remove().songs.len() == q.songs.len() - 1,
{
}

/// With no current item, `remove` changes nothing.
pub proof fn lemma_remove_without_current(q: QueueView)
    requires
        q.index >= q.songs.len(),
    ensures
        q.remove() == q,
{
}

/// Deleting at an index outside the list changes nothing.
pub proof fn lemma_delete_out_of_range(q: QueueView, index: usize)
    requires
        index >= q.songs.len(),
    ensures
        q.delete(index) == q,
{
}

/// Deleting inside the list takes out that one item and keeps the order of
/// the others; the cursor keeps its number.
pub proof fn lemma_delete_in_range(q: QueueView, index: usize)
    requires
        index < q.songs.len(),
    ensures
        q.delete(index).index == q.index,
        q.delete(index).songs.len() == q.songs.len() - 1,
        forall|i: int| 0 <= i < index ==> q.delete(index).songs[i] == q.songs[i],
        forall|i: int| index <= i < q.songs.len() - 1 ==> q.delete(index).songs[i] == q.songs[i + 1],
{
}

} // verus!
