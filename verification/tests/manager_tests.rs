use netstream::manager::StreamManager;
use netstream::stream::NetStream;

#[test]
fn new_manager_plays_nothing() {
    let manager = StreamManager::new();
    assert_eq!(manager.tick(), Vec::<u64>::new());
    assert!(!manager.is_playing(&NetStream::new(1)));
    let manager = StreamManager::default();
    assert_eq!(manager.tick(), Vec::<u64>::new());
}

#[test]
fn ensure_playing_adds_a_stream_once() {
    let mut manager = StreamManager::new();
    let stream = NetStream::new(5);
    StreamManager::ensure_playing(&mut manager, &stream);
    assert!(manager.is_playing(&stream));
    assert_eq!(manager.tick(), vec![5]);
    manager.ensure_playing(&stream);
    manager.ensure_playing(&stream);
    assert_eq!(manager.tick(), vec![5]);
}

#[test]
fn ensure_paused_removes_a_stream_and_only_it() {
    let mut manager = StreamManager::new();
    let first = NetStream::new(1);
    let second = NetStream::new(2);
    let third = NetStream::new(3);
    manager.ensure_playing(&first);
    manager.ensure_playing(&second);
    manager.ensure_playing(&third);
    manager.ensure_paused(&second);
    assert_eq!(manager.tick(), vec![1, 3]);
    assert!(!manager.is_playing(&second));
    manager.ensure_paused(&second);
    assert_eq!(manager.tick(), vec![1, 3]);
    manager.ensure_paused(&first);
    manager.ensure_paused(&third);
    assert_eq!(manager.tick(), Vec::<u64>::new());
}

#[test]
fn toggle_paused_flips_membership() {
    let mut manager = StreamManager::new();
    let stream = NetStream::new(9);
    manager.toggle_paused(&stream);
    assert!(manager.is_playing(&stream));
    manager.toggle_paused(&stream);
    assert!(!manager.is_playing(&stream));
    manager.toggle_paused(&stream);
    assert_eq!(manager.tick(), vec![9]);
}

#[test]
fn streams_play_in_the_order_in_which_they_began() {
    let mut manager = StreamManager::new();
    for id in [7u64, 3, 11, 3, 7, 2] {
        manager.ensure_playing(&NetStream::new(id));
    }
    assert_eq!(manager.tick(), vec![7, 3, 11, 2]);
    manager.toggle_paused(&NetStream::new(7));
    manager.toggle_paused(&NetStream::new(7));
    assert_eq!(manager.tick(), vec![3, 11, 2, 7]);
}

#[test]
fn snapshot_does_not_follow_later_changes() {
    let mut manager = StreamManager::new();
    let first = NetStream::new(1);
    let second = NetStream::new(2);
    manager.ensure_playing(&first);
    manager.ensure_playing(&second);
    let snapshot = manager.tick();
    for id in &snapshot {
        if *id == 1 {
            manager.ensure_paused(&second);
            manager.ensure_playing(&NetStream::new(3));
        }
    }
    assert_eq!(snapshot, vec![1, 2]);
    assert_eq!(manager.tick(), vec![1, 3]);
}

#[test]
fn play_pause_resume_and_toggle_go_through_the_manager() {
    let mut manager = StreamManager::new();
    let stream = NetStream::new(4);
    assert_eq!(stream.play(&mut manager, None), None);
    assert!(manager.is_playing(&stream));
    stream.pause(&mut manager);
    assert!(!manager.is_playing(&stream));
    stream.pause(&mut manager);
    assert!(!manager.is_playing(&stream));
    stream.resume(&mut manager);
    assert!(manager.is_playing(&stream));
    stream.resume(&mut manager);
    assert_eq!(manager.tick(), vec![4]);
    stream.toggle_paused(&mut manager);
    assert!(!manager.is_playing(&stream));
    stream.toggle_paused(&mut manager);
    assert!(manager.is_playing(&stream));
}

#[test]
fn play_with_a_name_asks_for_that_resource() {
    let mut manager = StreamManager::new();
    let stream = NetStream::new(4);
    let request = stream.play(&mut manager, Some(String::from("movie.flv")));
    assert_eq!(request, Some(String::from("movie.flv")));
    assert!(manager.is_playing(&stream));
}

#[test]
fn pausing_keeps_the_state_of_the_stream() {
    let mut manager = StreamManager::new();
    let mut stream = NetStream::new(4);
    stream.load_buffer(&mut vec![1, 2, 3, 4]);
    stream.play(&mut manager, None);
    stream.pause(&mut manager);
    assert_eq!(stream.bytes_loaded(), 4);
    assert_eq!(stream.buffer(), &vec![1, 2, 3, 4]);
    assert_eq!(stream.offset(), 0);
}
