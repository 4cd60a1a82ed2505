use tune::player::PlayQueue;
use tune::server::MusicEntry;

fn make_song(name: &str) -> MusicEntry {
    MusicEntry {
        absolute_path: format!("/music/{}.mp3", name),
        name: name.to_string(),
        artist: "test".to_string(),
        album: String::new(),
        duration: 200_000,
        server_id: "test-server".to_string(),
    }
}

#[test]
fn test_queue_new_is_empty() {
    let q = PlayQueue::new();
    assert!(q.is_empty());
    assert_eq!(q.len(), 0);
}

#[test]
fn test_push_back_and_pop_front() {
    let mut q = PlayQueue::new();
    q.push_back(make_song("A"));
    q.push_back(make_song("B"));
    assert_eq!(q.len(), 2);

    let a = q.pop_front().unwrap();
    assert_eq!(a.name, "A");
    assert_eq!(q.len(), 1);

    let b = q.pop_front().unwrap();
    assert_eq!(b.name, "B");
    assert!(q.is_empty());
}

#[test]
fn test_push_front_play_next() {
    let mut q = PlayQueue::new();
    q.push_back(make_song("A"));
    q.push_front(make_song("B"));
    // B should be first (play next)
    assert_eq!(q.pop_front().unwrap().name, "B");
    assert_eq!(q.pop_front().unwrap().name, "A");
}

#[test]
fn test_pop_front_empty_returns_none() {
    let mut q = PlayQueue::new();
    assert!(q.pop_front().is_none());
}

#[test]
fn test_remove_by_index() {
    let mut q = PlayQueue::new();
    q.push_back(make_song("A"));
    q.push_back(make_song("B"));
    q.push_back(make_song("C"));

    let b = q.remove(1).unwrap();
    assert_eq!(b.name, "B");
    assert_eq!(q.len(), 2);

    // Remaining: A, C
    assert_eq!(q.get(0).unwrap().name, "A");
    assert_eq!(q.get(1).unwrap().name, "C");
}

#[test]
fn test_remove_out_of_bounds_returns_none() {
    let mut q = PlayQueue::new();
    q.push_back(make_song("A"));
    assert!(q.remove(5).is_none());
    assert_eq!(q.len(), 1);
}

#[test]
fn test_move_up() {
    let mut q = PlayQueue::new();
    q.push_back(make_song("A"));
    q.push_back(make_song("B"));
    q.push_back(make_song("C"));

    q.move_up(2); // C → [A, C, B]
    assert_eq!(q.get(0).unwrap().name, "A");
    assert_eq!(q.get(1).unwrap().name, "C");
    assert_eq!(q.get(2).unwrap().name, "B");

    q.move_up(1); // C → [C, A, B]
    assert_eq!(q.get(0).unwrap().name, "C");
}

#[test]
fn test_move_up_first_element_does_nothing() {
    let mut q = PlayQueue::new();
    q.push_back(make_song("A"));
    q.push_back(make_song("B"));
    q.move_up(0); // A is already first
    assert_eq!(q.get(0).unwrap().name, "A");
    assert_eq!(q.get(1).unwrap().name, "B");
}

#[test]
fn test_move_down() {
    let mut q = PlayQueue::new();
    q.push_back(make_song("A"));
    q.push_back(make_song("B"));
    q.push_back(make_song("C"));

    q.move_down(0); // A → [B, A, C]
    assert_eq!(q.get(0).unwrap().name, "B");
    assert_eq!(q.get(1).unwrap().name, "A");
    assert_eq!(q.get(2).unwrap().name, "C");
}

#[test]
fn test_move_down_last_element_does_nothing() {
    let mut q = PlayQueue::new();
    q.push_back(make_song("A"));
    q.push_back(make_song("B"));
    q.move_down(1);
    assert_eq!(q.get(0).unwrap().name, "A");
    assert_eq!(q.get(1).unwrap().name, "B");
}

#[test]
fn test_clear() {
    let mut q = PlayQueue::new();
    q.push_back(make_song("A"));
    q.push_back(make_song("B"));
    q.clear();
    assert!(q.is_empty());
    assert_eq!(q.len(), 0);
}

#[test]
fn test_get_and_iter() {
    let mut q = PlayQueue::new();
    q.push_back(make_song("A"));
    q.push_back(make_song("B"));

    assert_eq!(q.get(0).unwrap().name, "A");
    assert_eq!(q.get(1).unwrap().name, "B");
    assert!(q.get(2).is_none());

    let names: Vec<&str> = q.iter().map(|s| s.name.as_str()).collect();
    assert_eq!(names, vec!["A", "B"]);
}

#[test]
fn test_fifo_order() {
    let mut q = PlayQueue::new();
    q.push_back(make_song("X"));
    q.push_back(make_song("Y"));
    q.push_back(make_song("Z"));

    assert_eq!(q.pop_front().unwrap().name, "X");
    assert_eq!(q.pop_front().unwrap().name, "Y");
    assert_eq!(q.pop_front().unwrap().name, "Z");
    assert!(q.is_empty());
}

#[test]
fn test_push_front_after_push_back() {
    let mut q = PlayQueue::new();
    q.push_back(make_song("A"));
    q.push_back(make_song("B"));
    q.push_front(make_song("C")); // C jumps ahead of A

    assert_eq!(q.pop_front().unwrap().name, "C");
    assert_eq!(q.pop_front().unwrap().name, "A");
    assert_eq!(q.pop_front().unwrap().name, "B");
}

#[test]
fn test_interleaved_add_remove() {
    let mut q = PlayQueue::new();
    q.push_back(make_song("A"));
    q.push_back(make_song("B"));
    q.pop_front(); // remove A
    q.push_back(make_song("C"));
    q.push_front(make_song("D")); // D jumps to front

    // Queue: D, B, C
    assert_eq!(q.pop_front().unwrap().name, "D");
    assert_eq!(q.pop_front().unwrap().name, "B");
    assert_eq!(q.pop_front().unwrap().name, "C");
    assert!(q.is_empty());
}
