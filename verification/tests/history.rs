use remoterm::history::OutputEvent;
use remoterm::history::OutputHistory;
use remoterm::record::PersistedOutputEvent;

fn event(seq: u64, data: &[u8]) -> OutputEvent {
    OutputEvent { seq, data: data.to_vec() }
}

fn held(history: &OutputHistory) -> Vec<(u64, Vec<u8>)> {
    history.snapshot_since(None).1.into_iter().map(|e| (e.seq, e.data)).collect()
}

#[test]
fn history_retains_what_fits() {
    let mut history = OutputHistory::new(10);
    assert_eq!(history.max_bytes(), 10);
    history.push(event(1, b"abc"));
    history.push(event(2, b"defg"));
    history.push(event(3, b"hij"));
    assert_eq!(
        held(&history),
        vec![(1, b"abc".to_vec()), (2, b"defg".to_vec()), (3, b"hij".to_vec())]
    );
}

#[test]
fn history_drops_whole_events_from_the_front() {
    let mut history = OutputHistory::new(10);
    history.push(event(1, b"abc"));
    history.push(event(2, b"defg"));
    history.push(event(3, b"hij"));
    history.push(event(4, b"k"));
    assert_eq!(
        held(&history),
        vec![(2, b"defg".to_vec()), (3, b"hij".to_vec()), (4, b"k".to_vec())]
    );
    history.push(event(5, b"123456789"));
    assert_eq!(held(&history), vec![(4, b"k".to_vec()), (5, b"123456789".to_vec())]);
}

#[test]
fn history_keeps_the_end_of_a_large_event() {
    let mut history = OutputHistory::new(4);
    history.push(event(1, b"ab"));
    history.push(event(2, b"0123456789"));
    assert_eq!(held(&history), vec![(2, b"6789".to_vec())]);
}

#[test]
fn history_without_room_retains_nothing() {
    let mut history = OutputHistory::new(0);
    history.push(event(1, b"a"));
    history.push(event(2, b""));
    assert!(held(&history).is_empty());
}

#[test]
fn history_is_cleared() {
    let mut history = OutputHistory::new(8);
    history.push(event(1, b"abcd"));
    history.clear();
    assert!(held(&history).is_empty());
    history.push(event(2, b"12345678"));
    assert_eq!(held(&history), vec![(2, b"12345678".to_vec())]);
}

#[test]
fn snapshot_starts_after_what_was_seen() {
    let mut history = OutputHistory::new(100);
    for seq in 1..=5 {
        history.push(event(seq, b"x"));
    }
    let (from, chunks) = history.snapshot_since(Some(3));
    assert_eq!(from, 4);
    assert_eq!(chunks.iter().map(|c| c.seq).collect::<Vec<_>>(), vec![4, 5]);
    let (from, chunks) = history.snapshot_since(None);
    assert_eq!(from, 1);
    assert_eq!(chunks.len(), 5);
}

#[test]
fn snapshot_of_nothing_starts_after_the_request() {
    let mut history = OutputHistory::new(100);
    let (from, chunks) = history.snapshot_since(None);
    assert_eq!((from, chunks.len()), (1, 0));
    history.push(event(1, b"x"));
    let (from, chunks) = history.snapshot_since(Some(7));
    assert_eq!((from, chunks.len()), (8, 0));
    let (from, chunks) = history.snapshot_since(Some(u64::MAX));
    assert_eq!((from, chunks.len()), (u64::MAX, 0));
}

#[test]
fn snapshot_starts_where_the_history_does() {
    let mut history = OutputHistory::new(3);
    for seq in 1..=9 {
        history.push(event(seq, b"x"));
    }
    let (from, chunks) = history.snapshot_since(Some(2));
    assert_eq!(from, 7);
    assert_eq!(chunks.iter().map(|c| c.seq).collect::<Vec<_>>(), vec![7, 8, 9]);
}

#[test]
fn history_is_reloaded_from_stored_events() {
    let stored = vec![
        PersistedOutputEvent { seq: 4, data: b"abcd".to_vec() },
        PersistedOutputEvent { seq: 5, data: b"ef".to_vec() },
        PersistedOutputEvent { seq: 6, data: b"ghi".to_vec() },
    ];
    let history = OutputHistory::from_persisted(6, stored);
    assert_eq!(held(&history), vec![(5, b"ef".to_vec()), (6, b"ghi".to_vec())]);
}

#[test]
fn reloading_what_is_retained_changes_nothing() {
    let mut history = OutputHistory::new(5);
    for seq in 1..=7 {
        history.push(event(seq, &[seq as u8, 0]));
    }
    let stored = history
        .snapshot_since(None)
        .1
        .into_iter()
        .map(|e| PersistedOutputEvent { seq: e.seq, data: e.data })
        .collect();
    assert_eq!(held(&OutputHistory::from_persisted(5, stored)), held(&history));
}
