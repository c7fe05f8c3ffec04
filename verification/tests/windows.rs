use apexshell::window::{WindowAction, WindowRegistry, WINDOW_HEIGHT, WINDOW_WIDTH};

#[test]
fn first_open_creates() {
    let mut reg = WindowRegistry::new();
    assert_eq!(reg.open(b"docs".to_vec()), WindowAction::CreateNew);
}

#[test]
fn second_open_focuses_and_creates_no_second_window() {
    let mut reg = WindowRegistry::new();
    assert_eq!(reg.open(b"docs".to_vec()), WindowAction::CreateNew);
    assert_eq!(reg.open(b"docs".to_vec()), WindowAction::FocusExisting);
    // the registry stub still holds exactly one window for the label
    assert_eq!(reg.labels, vec![b"docs".to_vec()]);
}

#[test]
fn distinct_labels_each_create() {
    let mut reg = WindowRegistry::new();
    assert_eq!(reg.open(b"a".to_vec()), WindowAction::CreateNew);
    assert_eq!(reg.open(b"b".to_vec()), WindowAction::CreateNew);
    assert_eq!(reg.open(b"a".to_vec()), WindowAction::FocusExisting);
    assert_eq!(reg.open(b"b".to_vec()), WindowAction::FocusExisting);
    assert_eq!(reg.labels.len(), 2);
}

#[test]
fn default_window_size() {
    assert_eq!(WINDOW_WIDTH, 1200);
    assert_eq!(WINDOW_HEIGHT, 800);
}
