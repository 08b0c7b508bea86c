use aleph_ordering::backup::BackupStore;
use aleph_ordering::data::SimpleDataProvider;
use aleph_ordering::finalizer::SimpleFinalizationHandler;

#[test]
fn feed_hands_out_items_in_order_with_owner_tag() {
    let mut feed = SimpleDataProvider::new(3, vec!["a".to_string(), "b".to_string()]);
    assert_eq!(feed.get_data(), Some((3, "a".to_string())));
    assert_eq!(feed.get_data(), Some((3, "b".to_string())));
}

#[test]
fn feed_exhaustion_is_terminal_and_stable() {
    let items = vec!["x".to_string(), "y".to_string(), "z".to_string()];
    let mut feed = SimpleDataProvider::new(0, items);
    for _ in 0..3 {
        assert!(feed.get_data().is_some());
    }
    for _ in 0..5 {
        assert_eq!(feed.get_data(), None);
    }
}

#[test]
fn empty_feed_is_exhausted_from_the_start() {
    let mut feed = SimpleDataProvider::new(1, Vec::new());
    assert_eq!(feed.get_data(), None);
    assert_eq!(feed.get_data(), None);
}

#[test]
fn sink_is_fifo() {
    let mut sink = SimpleFinalizationHandler::new();
    sink.data_finalized((0, "first".to_string()));
    sink.data_finalized((1, "second".to_string()));
    sink.data_finalized((0, "third".to_string()));
    assert_eq!(sink.next_finalized(), Some((0, "first".to_string())));
    assert_eq!(sink.next_finalized(), Some((1, "second".to_string())));
    assert_eq!(sink.next_finalized(), Some((0, "third".to_string())));
    assert_eq!(sink.next_finalized(), None);
}

#[test]
fn sink_consumer_sees_later_pushes_after_draining() {
    let mut sink = SimpleFinalizationHandler::new();
    sink.data_finalized((2, "r1".to_string()));
    assert_eq!(sink.next_finalized(), Some((2, "r1".to_string())));
    assert_eq!(sink.next_finalized(), None);
    sink.data_finalized((2, "r2".to_string()));
    assert_eq!(sink.next_finalized(), Some((2, "r2".to_string())));
}

#[test]
fn backup_replay_returns_bytes_of_earlier_session_in_order() {
    // First session: nothing durable yet; appends twice.
    let mut first = BackupStore::open(None);
    let replayed = first.replay();
    assert!(replayed.is_empty());
    first.append(b"alpha");
    first.append(b"beta");

    // A later session opens the store on what the first left durable.
    let durable: Vec<u8> = first.initial.iter().chain(first.appended.iter()).copied().collect();
    assert_eq!(durable, b"alphabeta".to_vec());
    let mut second = BackupStore::open(Some(durable));
    let replayed = second.replay();
    assert_eq!(replayed, b"alphabeta".to_vec());

    // Appends in the later session leave the earlier bytes untouched.
    second.append(b"gamma");
    assert_eq!(second.initial, b"alphabeta".to_vec());
    assert_eq!(second.appended, b"gamma".to_vec());
}

#[test]
fn backup_appends_never_overwrite() {
    let mut store = BackupStore::open(Some(b"seed".to_vec()));
    let _ = store.replay();
    store.append(b"one");
    store.append(b"two");
    assert_eq!(store.initial, b"seed".to_vec());
    assert_eq!(store.appended, b"onetwo".to_vec());
}
