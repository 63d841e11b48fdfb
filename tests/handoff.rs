use rive_viewer::handoff::{launch_paths, PendingOpenQueue};

#[test]
fn take_next_on_empty_queue_returns_nothing() {
    let mut q = PendingOpenQueue::new();
    assert_eq!(q.take_next(), None);
    assert!(q.is_empty());
}

#[test]
fn same_path_enqueued_twice_is_held_once() {
    let mut q = PendingOpenQueue::new();
    assert!(q.enqueue("a.riv".to_string()));
    assert!(!q.enqueue("a.riv".to_string()));
    assert_eq!(q.len(), 1);
    assert_eq!(q.take_next(), Some("a.riv".to_string()));
    assert!(q.is_empty());
    assert_eq!(q.take_next(), None);
}

#[test]
fn launch_argument_is_handed_out_once() {
    let args = vec!["/Users/x/cat.riv".to_string()];
    let mut q = PendingOpenQueue::seed(&launch_paths(&args));
    assert_eq!(q.take_next(), Some("/Users/x/cat.riv".to_string()));
    assert_eq!(q.take_next(), None);
}

#[test]
fn paths_come_out_oldest_first() {
    let mut q = PendingOpenQueue::seed(&vec!["a.riv".to_string(), "b.riv".to_string(), "a.riv".to_string()]);
    assert_eq!(q.len(), 2);
    assert!(q.enqueue("c.riv".to_string()));
    assert!(q.contains(&"b.riv".to_string()));
    assert_eq!(q.take_next(), Some("a.riv".to_string()));
    assert_eq!(q.take_next(), Some("b.riv".to_string()));
    assert_eq!(q.take_next(), Some("c.riv".to_string()));
    assert_eq!(q.take_next(), None);
}

#[test]
fn launch_paths_skip_flags_and_other_files() {
    let args = vec![
        "--debug".to_string(),
        " \"/tmp/one.riv\" ".to_string(),
        "notes.txt".to_string(),
        "file:///tmp/two.RIV".to_string(),
    ];
    assert_eq!(
        launch_paths(&args),
        vec!["/tmp/one.riv".to_string(), "file:///tmp/two.RIV".to_string()]
    );
}
