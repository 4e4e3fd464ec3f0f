//! The queue of tracks that wait to be played: first in, first out.

use crate::play::{TrackData, TrackDataView};
use std::collections::VecDeque;
use vstd::prelude::*;

verus! {

/// The queue after `track` joins at the tail.
pub open spec fn pushed<T>(queue: Seq<T>, track: T) -> Seq<T> {
    queue.push(track)
}

/// The track at the head of the queue, if there is one.
pub open spec fn front<T>(queue: Seq<T>) -> Option<T> {
    if queue.len() == 0 {
        None
    } else {
        Some(queue[0])
    }
}

/// The queue after its head left. An empty queue stays empty.
pub open spec fn popped<T>(queue: Seq<T>) -> Seq<T> {
    if queue.len() == 0 {
        queue
    } else {
        queue.drop_first()
    }
}

/// The queue after each of `tracks` joined at the tail, in order.
pub open spec fn pushed_all<T>(queue: Seq<T>, tracks: Seq<T>) -> Seq<T>
    decreases tracks.len(),
{
    if tracks.len() == 0 {
        queue
    } else {
        pushed(pushed_all(queue, tracks.drop_last()), tracks.last())
    }
}

/// The queue after `n` tracks were taken from the head.
pub open spec fn popped_times<T>(queue: Seq<T>, n: nat) -> Seq<T>
    decreases n,
{
    if n == 0 {
        queue
    } else {
        popped(popped_times(queue, (n - 1) as nat))
    }
}

/// Pushing `tracks` one by one appends them.
pub proof fn lemma_pushed_all<T>(queue: Seq<T>, tracks: Seq<T>)
    ensures
        pushed_all(queue, tracks) == queue + tracks,
    decreases tracks.len(),
{
    if tracks.len() == 0 {
        assert(queue + tracks =~= queue);
    } else {
        lemma_pushed_all(queue, tracks.drop_last());
        assert((queue + tracks.drop_last()).push(tracks.last()) =~= queue + tracks);
    }
}

/// Taking `n` tracks from the head leaves what stands behind the first `n`,
/// and nothing where the queue is no longer than that.
pub proof fn lemma_popped_times<T>(queue: Seq<T>, n: nat)
    ensures
        n <= queue.len() ==> popped_times(queue, n) == queue.skip(n as int),
        n > queue.len() ==> popped_times(queue, n).len() == 0,
    decreases n,
{
    if n == 0 {
        assert(queue.skip(0) =~= queue);
    } else {
        lemma_popped_times(queue, (n - 1) as nat);
        if n <= queue.len() {
            assert(queue.skip(n - 1).drop_first() =~= queue.skip(n as int));
        }
    }
}

/// First in, first out: after `tracks` were pushed onto an empty queue one by
/// one, the pop number `i`, counted from 0, gives `tracks[i]`, and every pop
/// after the last track gives nothing.
pub proof fn lemma_fifo<T>(tracks: Seq<T>, i: nat)
    ensures
        i < tracks.len() ==> front(popped_times(pushed_all(Seq::empty(), tracks), i)) == Some(
            tracks[i as int],
        ),
        i >= tracks.len() ==> front(popped_times(pushed_all(Seq::empty(), tracks), i)) is None,
{
    lemma_pushed_all(Seq::<T>::empty(), tracks);
    assert(Seq::<T>::empty() + tracks =~= tracks);
    lemma_popped_times(tracks, i);
}

/// The view of a track that may be missing.
pub open spec fn optional_track_view(track: Option<TrackData>) -> Option<TrackDataView> {
    match track {
        Some(t) => Some(t@),
        None => None,
    }
}

/// The tracks that wait to be played, in the order in which they came.
pub struct TrackQueue {
    tracks: VecDeque<TrackData>,
}

impl View for TrackQueue {
    type V = Seq<TrackDataView>;

    closed spec fn view(&self) -> Seq<TrackDataView> {
        Seq::new(self.tracks@.len(), |i: int| self.tracks@[i]@)
    }
}

impl TrackQueue {
    /// An empty queue.
    pub fn new() -> (queue: TrackQueue)
        ensures
            queue@ == Seq::<TrackDataView>::empty(),
    {
        let queue = TrackQueue { tracks: VecDeque::new() };
        assert(queue@ =~= Seq::<TrackDataView>::empty());
        queue
    }

    /// The number of tracks that wait.
    pub fn len(&self) -> (n: usize)
        ensures
            n == self@.len(),
    {
        self.tracks.len()
    }

    /// Whether no track waits.
    pub fn is_empty(&self) -> (r: bool)
        ensures
            r == (self@.len() == 0),
    {
        self.tracks.len() == 0
    }

    /// Adds `track` at the tail.
    pub fn push_back(&mut self, track: TrackData)
        ensures
            final(self)@ == pushed(old(self)@, track@),
    {
        self.tracks.push_back(track);
        assert(self@ =~= pushed(old(self)@, track@));
    }

    /// Takes the track at the head: the one that has waited longest. An
    /// empty queue gives nothing and stays as it is.
    pub fn pop_front(&mut self) -> (track: Option<TrackData>)
        ensures
            optional_track_view(track) == front(old(self)@),
            final(self)@ == popped(old(self)@),
    {
        let track = self.tracks.pop_front();
        assert(self@ =~= popped(old(self)@));
        track
    }

    /// Drops every track that waits.
    pub fn clear(&mut self)
        ensures
            final(self)@ == Seq::<TrackDataView>::empty(),
    {
        self.tracks.clear();
        assert(self@ =~= Seq::<TrackDataView>::empty());
    }
}

} // verus!
