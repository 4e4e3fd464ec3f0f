use jukebox::play::TrackData;
use jukebox::queue::TrackQueue;
use jukebox::track::{SpotifyId, Track};

fn queued(n: u128, name: &str, artist: &str) -> TrackData {
    TrackData {
        track: Track {
            id: SpotifyId::track(n),
            name: name.to_string(),
            artists: vec![SpotifyId::track(n + 1000)],
        },
        artist: artist.to_string(),
    }
}

#[test]
fn queue_is_first_in_first_out() {
    let mut queue = TrackQueue::new();
    queue.push_back(queued(1, "One", "A"));
    queue.push_back(queued(2, "Two", "B"));
    queue.push_back(queued(3, "Three", "C"));
    assert_eq!(queue.len(), 3);
    assert_eq!(queue.pop_front(), Some(queued(1, "One", "A")));
    assert_eq!(queue.pop_front(), Some(queued(2, "Two", "B")));
    assert_eq!(queue.pop_front(), Some(queued(3, "Three", "C")));
    assert_eq!(queue.pop_front(), None);
    assert!(queue.is_empty());
}

#[test]
fn queue_of_many_tracks_keeps_their_order() {
    let mut queue = TrackQueue::new();
    for n in 0..200u128 {
        queue.push_back(queued(n, "t", "a"));
    }
    for n in 0..200u128 {
        assert_eq!(queue.pop_front(), Some(queued(n, "t", "a")));
    }
    assert_eq!(queue.pop_front(), None);
    assert_eq!(queue.pop_front(), None);
}

#[test]
fn new_queue_is_empty() {
    let mut queue = TrackQueue::new();
    assert!(queue.is_empty());
    assert_eq!(queue.len(), 0);
    assert_eq!(queue.pop_front(), None);
    assert!(queue.is_empty());
}

#[test]
fn clear_drops_every_waiting_track() {
    let mut queue = TrackQueue::new();
    queue.push_back(queued(1, "One", "A"));
    queue.push_back(queued(2, "Two", "B"));
    queue.clear();
    assert!(queue.is_empty());
    assert_eq!(queue.pop_front(), None);
    queue.clear();
    assert_eq!(queue.len(), 0);
}

#[test]
fn pushes_and_pops_interleave() {
    let mut queue = TrackQueue::new();
    queue.push_back(queued(1, "One", "A"));
    assert_eq!(queue.pop_front(), Some(queued(1, "One", "A")));
    queue.push_back(queued(2, "Two", "B"));
    queue.push_back(queued(3, "Three", "C"));
    assert_eq!(queue.pop_front(), Some(queued(2, "Two", "B")));
    queue.push_back(queued(4, "Four", "D"));
    assert_eq!(queue.len(), 2);
    assert_eq!(queue.pop_front(), Some(queued(3, "Three", "C")));
    assert_eq!(queue.pop_front(), Some(queued(4, "Four", "D")));
    assert!(queue.is_empty());
}

#[test]
fn a_track_may_wait_twice() {
    let mut queue = TrackQueue::new();
    queue.push_back(queued(7, "Same", "A"));
    queue.push_back(queued(7, "Same", "A"));
    assert_eq!(queue.len(), 2);
    assert_eq!(queue.pop_front(), Some(queued(7, "Same", "A")));
    assert_eq!(queue.len(), 1);
}
